//! The curve-point layer: decoding fixed-size uncompressed encodings into
//! elements of the two pairing groups, validating them, and re-serializing
//! them. The decoding itself is delegated to `bls12_381`; everything this
//! module states about it is phrased over the raw encoding bytes, so a
//! validated element's mathematical view is the encoding it came from.

use vstd::prelude::*;

use crate::errors::ReadError;
use crate::layout::{G1_ENCODED_LEN, G2_ENCODED_LEN};
use rayon::iter::IntoParallelRefIterator;
use rayon::iter::ParallelIterator;

verus! {

#[verifier::external_type_specification]
#[verifier::external_body]
pub struct ExG1Affine(bls12_381::G1Affine);

#[verifier::external_type_specification]
#[verifier::external_body]
pub struct ExG2Affine(bls12_381::G2Affine);

/// Whether `bls12_381::G1Affine::from_uncompressed` accepts these 96 bytes:
/// canonical field encodings with correct flag bits, on the curve and in the
/// prime-order subgroup.
pub uninterp spec fn g1_strictly_valid(b: Seq<u8>) -> bool;

/// Whether `bls12_381::G1Affine::from_uncompressed_unchecked` accepts these
/// 96 bytes: canonical field encodings with correct flag bits, with no curve
/// or subgroup check.
pub uninterp spec fn g1_well_formed(b: Seq<u8>) -> bool;

/// Whether these 96 bytes, once accepted by either decoder, decode to the
/// group identity (the point at infinity).
pub uninterp spec fn g1_encodes_identity(b: Seq<u8>) -> bool;

/// Whether `bls12_381::G2Affine::from_uncompressed` accepts these 192 bytes.
pub uninterp spec fn g2_strictly_valid(b: Seq<u8>) -> bool;

/// Whether `bls12_381::G2Affine::from_uncompressed_unchecked` accepts these
/// 192 bytes.
pub uninterp spec fn g2_well_formed(b: Seq<u8>) -> bool;

/// Whether these 192 bytes, once accepted by either decoder, decode to the
/// group identity (the point at infinity).
pub uninterp spec fn g2_encodes_identity(b: Seq<u8>) -> bool;

/// A validated first-group element; its view is the uncompressed encoding it
/// was decoded from.
pub struct G1Element {
    point: bls12_381::G1Affine,
    enc: Ghost<Seq<u8>>,
}

impl View for G1Element {
    type V = Seq<u8>;

    closed spec fn view(&self) -> Seq<u8> {
        self.enc@
    }
}

/// A validated second-group element; its view is the uncompressed encoding it
/// was decoded from.
pub struct G2Element {
    point: bls12_381::G2Affine,
    enc: Ghost<Seq<u8>>,
}

impl View for G2Element {
    type V = Seq<u8>;

    closed spec fn view(&self) -> Seq<u8> {
        self.enc@
    }
}

/// Relies on `bls12_381::G1Affine::from_uncompressed`: deterministic over the
/// bytes, accepting exactly the canonical encodings of subgroup points (named
/// `g1_strictly_valid` here), and accepting only bytes that
/// `from_uncompressed_unchecked` accepts as well, since it performs the same
/// decoding plus the curve and subgroup checks.
#[verifier::external_body]
fn g1_decode_strict(b: &Vec<u8>) -> (r: Option<bls12_381::G1Affine>)
    requires
        b@.len() == G1_ENCODED_LEN,
    ensures
        (r is Some) == g1_strictly_valid(b@),
        r is Some ==> g1_well_formed(b@),
{
    let bytes: [u8; 96] = b.as_slice().try_into().unwrap();
    Option::from(bls12_381::G1Affine::from_uncompressed(&bytes))
}

/// Relies on `bls12_381::G1Affine::from_uncompressed_unchecked`:
/// deterministic over the bytes, accepting exactly the well-formed encodings
/// (named `g1_well_formed` here), with no curve or subgroup check.
#[verifier::external_body]
fn g1_decode_lenient(b: &Vec<u8>) -> (r: Option<bls12_381::G1Affine>)
    requires
        b@.len() == G1_ENCODED_LEN,
    ensures
        (r is Some) == g1_well_formed(b@),
{
    let bytes: [u8; 96] = b.as_slice().try_into().unwrap();
    Option::from(bls12_381::G1Affine::from_uncompressed_unchecked(&bytes))
}

/// Relies on `bls12_381::G1Affine::is_identity`, and on every `G1Element`
/// holding the point decoded from the encoding recorded as its view (the
/// constructor in this module establishes that): the answer is then a
/// function of that encoding, named `g1_encodes_identity`.
#[verifier::external_body]
fn g1_element_is_identity(e: &G1Element) -> (r: bool)
    ensures
        r == g1_encodes_identity(e@),
{
    bool::from(e.point.is_identity())
}

/// Relies on `bls12_381::G1Affine::to_uncompressed`, which inverts both
/// decoders exactly (accepted encodings are canonical), and on every
/// `G1Element` holding the point decoded from the encoding recorded as its
/// view: the bytes returned are that encoding.
#[verifier::external_body]
fn g1_element_bytes(e: &G1Element) -> (r: Vec<u8>)
    ensures
        r@ == e@,
{
    e.point.to_uncompressed().to_vec()
}

/// Relies on `bls12_381::G2Affine::from_uncompressed`, exactly as the
/// first-group counterpart relies on `G1Affine::from_uncompressed`.
#[verifier::external_body]
fn g2_decode_strict(b: &Vec<u8>) -> (r: Option<bls12_381::G2Affine>)
    requires
        b@.len() == G2_ENCODED_LEN,
    ensures
        (r is Some) == g2_strictly_valid(b@),
        r is Some ==> g2_well_formed(b@),
{
    let bytes: [u8; 192] = b.as_slice().try_into().unwrap();
    Option::from(bls12_381::G2Affine::from_uncompressed(&bytes))
}

/// Relies on `bls12_381::G2Affine::from_uncompressed_unchecked`, exactly as
/// the first-group counterpart relies on its unchecked decoder.
#[verifier::external_body]
fn g2_decode_lenient(b: &Vec<u8>) -> (r: Option<bls12_381::G2Affine>)
    requires
        b@.len() == G2_ENCODED_LEN,
    ensures
        (r is Some) == g2_well_formed(b@),
{
    let bytes: [u8; 192] = b.as_slice().try_into().unwrap();
    Option::from(bls12_381::G2Affine::from_uncompressed_unchecked(&bytes))
}

/// Relies on `bls12_381::G2Affine::is_identity`, and on every `G2Element`
/// holding the point decoded from the encoding recorded as its view.
#[verifier::external_body]
fn g2_element_is_identity(e: &G2Element) -> (r: bool)
    ensures
        r == g2_encodes_identity(e@),
{
    bool::from(e.point.is_identity())
}

/// Relies on `bls12_381::G2Affine::to_uncompressed`, which inverts both
/// decoders exactly, and on every `G2Element` holding the point decoded from
/// the encoding recorded as its view.
#[verifier::external_body]
fn g2_element_bytes(e: &G2Element) -> (r: Vec<u8>)
    ensures
        r@ == e@,
{
    e.point.to_uncompressed().to_vec()
}

/// Whether one raw block is acceptable in the given validation mode: it must
/// decode under that mode's decoder and must not encode the identity element.
pub open spec fn g1_block_ok(b: Seq<u8>, checked: bool) -> bool {
    &&& if checked {
        g1_strictly_valid(b)
    } else {
        g1_well_formed(b)
    }
    &&& !g1_encodes_identity(b)
}

/// The error an unacceptable first-group block is rejected with: a decode
/// failure takes precedence over identity rejection.
pub open spec fn g1_block_err(b: Seq<u8>, checked: bool) -> ReadError {
    if (if checked {
        g1_strictly_valid(b)
    } else {
        g1_well_formed(b)
    }) {
        ReadError::PointAtInfinity
    } else {
        ReadError::InvalidEncoding
    }
}

/// Whether one raw second-group block is acceptable in the given mode.
pub open spec fn g2_block_ok(b: Seq<u8>, checked: bool) -> bool {
    &&& if checked {
        g2_strictly_valid(b)
    } else {
        g2_well_formed(b)
    }
    &&& !g2_encodes_identity(b)
}

/// The error an unacceptable second-group block is rejected with: a decode
/// failure takes precedence over identity rejection.
pub open spec fn g2_block_err(b: Seq<u8>, checked: bool) -> ReadError {
    if (if checked {
        g2_strictly_valid(b)
    } else {
        g2_well_formed(b)
    }) {
        ReadError::PointAtInfinity
    } else {
        ReadError::InvalidEncoding
    }
}

/// Every raw block of the batch is acceptable in the given mode.
pub open spec fn g1_blocks_ok(bs: Seq<Seq<u8>>, checked: bool) -> bool {
    forall|i: int| 0 <= i < bs.len() ==> g1_block_ok(#[trigger] bs[i], checked)
}

/// `e` is the rejection of some unacceptable block of the batch; which block
/// is not determined, only that there is one.
pub open spec fn g1_batch_err(bs: Seq<Seq<u8>>, checked: bool, e: ReadError) -> bool {
    exists|i: int|
        0 <= i < bs.len() && !g1_block_ok(#[trigger] bs[i], checked) && e == g1_block_err(
            bs[i],
            checked,
        )
}

/// Every raw second-group block of the batch is acceptable in the given mode.
pub open spec fn g2_blocks_ok(bs: Seq<Seq<u8>>, checked: bool) -> bool {
    forall|i: int| 0 <= i < bs.len() ==> g2_block_ok(#[trigger] bs[i], checked)
}

/// `e` is the rejection of some unacceptable second-group block of the batch.
pub open spec fn g2_batch_err(bs: Seq<Seq<u8>>, checked: bool, e: ReadError) -> bool {
    exists|i: int|
        0 <= i < bs.len() && !g2_block_ok(#[trigger] bs[i], checked) && e == g2_block_err(
            bs[i],
            checked,
        )
}

/// The raw encodings (views) of a batch of validated first-group elements.
pub open spec fn g1_encodings(elems: Seq<G1Element>) -> Seq<Seq<u8>> {
    elems.map_values(|e: G1Element| e@)
}

/// The raw encodings (views) of a batch of validated second-group elements.
pub open spec fn g2_encodings(elems: Seq<G2Element>) -> Seq<Seq<u8>> {
    elems.map_values(|e: G2Element| e@)
}

impl G1Element {
    /// Decodes and validates one raw first-group block: in `checked` mode the
    /// strict decoder runs (curve and subgroup membership), in unchecked mode
    /// only the lenient one; an encoding of the identity element is rejected
    /// in both modes. On success the element's view is the input encoding.
    pub fn validate(block: &Vec<u8>, checked: bool) -> (r: Result<G1Element, ReadError>)
        requires
            block@.len() == G1_ENCODED_LEN,
        ensures
            (r is Ok) == g1_block_ok(block@, checked),
            r is Ok ==> r->Ok_0@ == block@,
            r is Err ==> r->Err_0 == g1_block_err(block@, checked),
    {
        let decoded = if checked {
            g1_decode_strict(block)
        } else {
            g1_decode_lenient(block)
        };
        match decoded {
            None => Err(ReadError::InvalidEncoding),
            Some(point) => {
                let element = G1Element { point, enc: Ghost(block@) };
                if g1_element_is_identity(&element) {
                    Err(ReadError::PointAtInfinity)
                } else {
                    Ok(element)
                }
            },
        }
    }

    /// The uncompressed encoding this element was decoded from.
    pub fn encoding(&self) -> (r: Vec<u8>)
        ensures
            r@ == self@,
    {
        g1_element_bytes(self)
    }

    /// Hands the underlying curve point to the caller.
    pub fn into_point(self) -> bls12_381::G1Affine {
        self.point
    }
}

impl G2Element {
    /// Decodes and validates one raw second-group block, exactly as the
    /// first-group validation does for its group.
    pub fn validate(block: &Vec<u8>, checked: bool) -> (r: Result<G2Element, ReadError>)
        requires
            block@.len() == G2_ENCODED_LEN,
        ensures
            (r is Ok) == g2_block_ok(block@, checked),
            r is Ok ==> r->Ok_0@ == block@,
            r is Err ==> r->Err_0 == g2_block_err(block@, checked),
    {
        let decoded = if checked {
            g2_decode_strict(block)
        } else {
            g2_decode_lenient(block)
        };
        match decoded {
            None => Err(ReadError::InvalidEncoding),
            Some(point) => {
                let element = G2Element { point, enc: Ghost(block@) };
                if g2_element_is_identity(&element) {
                    Err(ReadError::PointAtInfinity)
                } else {
                    Ok(element)
                }
            },
        }
    }

    /// The uncompressed encoding this element was decoded from.
    pub fn encoding(&self) -> (r: Vec<u8>)
        ensures
            r@ == self@,
    {
        g2_element_bytes(self)
    }

    /// Hands the underlying curve point to the caller.
    pub fn into_point(self) -> bls12_381::G2Affine {
        self.point
    }
}

/// Validates a whole array of raw first-group blocks across the worker pool.
/// Relies on rayon's `par_iter().map(..).collect::<Result<Vec<_>, _>>()`: the
/// closure only calls the verified `G1Element::validate`; when every block is
/// accepted the collected vector keeps the input index order (rayon collects
/// indexed parallel iterators in order), and on failure the error returned is
/// one produced by the closure on some block of this batch — which block is
/// not deterministic across runs.
#[verifier::external_body]
pub(crate) fn g1_validate_batch(blocks: &Vec<Vec<u8>>, checked: bool) -> (r: Result<
    Vec<G1Element>,
    ReadError,
>)
    requires
        forall|i: int| 0 <= i < blocks@.len() ==> (#[trigger] blocks@[i])@.len() == G1_ENCODED_LEN,
    ensures
        (r is Ok) == g1_blocks_ok(crate::layout::byte_views(blocks@), checked),
        r is Ok ==> g1_encodings(r->Ok_0@) == crate::layout::byte_views(blocks@),
        r is Err ==> g1_batch_err(crate::layout::byte_views(blocks@), checked, r->Err_0),
{
    blocks.par_iter().map(|b| G1Element::validate(b, checked)).collect()
}

/// Validates a whole array of raw second-group blocks across the worker
/// pool. Relies on rayon exactly as the first-group batch validation does;
/// the closure only calls the verified `G2Element::validate`.
#[verifier::external_body]
pub(crate) fn g2_validate_batch(blocks: &Vec<Vec<u8>>, checked: bool) -> (r: Result<
    Vec<G2Element>,
    ReadError,
>)
    requires
        forall|i: int| 0 <= i < blocks@.len() ==> (#[trigger] blocks@[i])@.len() == G2_ENCODED_LEN,
    ensures
        (r is Ok) == g2_blocks_ok(crate::layout::byte_views(blocks@), checked),
        r is Ok ==> g2_encodings(r->Ok_0@) == crate::layout::byte_views(blocks@),
        r is Err ==> g2_batch_err(crate::layout::byte_views(blocks@), checked, r->Err_0),
{
    blocks.par_iter().map(|b| G2Element::validate(b, checked)).collect()
}

/// Law: a block that encodes the identity element is rejected whatever the
/// validation mode; the two modes differ only in decoding strictness, never
/// in identity rejection.
pub proof fn lemma_identity_always_rejected(b: Seq<u8>, checked: bool)
    ensures
        g1_encodes_identity(b) ==> !g1_block_ok(b, checked),
        g2_encodes_identity(b) ==> !g2_block_ok(b, checked),
{
}

/// Law: for a block that does not encode the identity, the two validation
/// modes disagree exactly when the block decodes under the lenient decoder
/// but not under the strict one — an on-curve but off-subgroup encoding is
/// accepted unchecked and rejected checked, and nothing else separates the
/// modes.
pub proof fn lemma_modes_differ_only_in_strictness(b: Seq<u8>)
    ensures
        (g1_block_ok(b, false) && !g1_block_ok(b, true)) <==> (g1_well_formed(b)
            && !g1_strictly_valid(b) && !g1_encodes_identity(b)),
        (g2_block_ok(b, false) && !g2_block_ok(b, true)) <==> (g2_well_formed(b)
            && !g2_strictly_valid(b) && !g2_encodes_identity(b)),
{
}

} // verus!
