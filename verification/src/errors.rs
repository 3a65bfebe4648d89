//! The single error a failed deserialization reports: there is no partial
//! result and no local recovery anywhere in the pipeline.

use vstd::prelude::*;

verus! {

/// Why a deserialization attempt was rejected.
#[derive(Clone, Copy, Debug, PartialEq, Eq, Structural)]
pub enum ReadError {
    /// The stream ended before all the bytes that a length prefix announced.
    Truncated,
    /// The delegated verifying-key parser rejected its prefix of the stream
    /// (malformed key material, or the stream ended inside the key block).
    VerifyingKey,
    /// A fixed-size block was not an acceptable point encoding.
    InvalidEncoding,
    /// A block encoded the group identity element (the point at infinity),
    /// which is never a valid parameter.
    PointAtInfinity,
}

} // verus!
