//! Verified deserializer for Groth16-style proving parameters: a verifying-key
//! block followed by five length-prefixed arrays of fixed-size elliptic-curve
//! point encodings. Each point is decoded and validated (and the identity
//! element rejected) before it is accepted; the output arrays keep the exact
//! stream order of the input encodings.

pub mod errors;
pub mod layout;
pub mod params;
pub mod points;

pub use errors::ReadError;
pub use params::read;
pub use params::ProvingParameters;
pub use points::G1Element;
pub use points::G2Element;
