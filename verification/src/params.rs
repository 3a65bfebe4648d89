//! The stream reader: a verifying-key block, parsed by the delegated
//! `bellman` parser, followed by five length-prefixed arrays of fixed-size
//! point encodings — `h`, `l`, `a`, `b_g1` in the first group and `b_g2` in
//! the second. Each array is read serially off the byte stream and then
//! validated as a batch before the next array is touched; any failure aborts
//! the whole call with a single error and no partial result.

use vstd::prelude::*;

use crate::errors::ReadError;
use crate::layout::{
    array_blocks, array_end, array_fits, be_u32_bytes, byte_views, concat_bytes, copy_bytes,
    count_at, lemma_array_round_trip, push_be_u32, read_be_u32, G1_ENCODED_LEN, G2_ENCODED_LEN,
};
use crate::points::{
    g1_batch_err, g1_block_ok, g1_blocks_ok, g1_encodings, g1_validate_batch, g2_batch_err,
    g2_block_ok, g2_blocks_ok, g2_encodings, g2_validate_batch, G1Element, G2Element,
};

verus! {

/// The verifying key exactly as the delegated `bellman` parser returned it.
/// The key is opaque to this library — nothing here reads it — and its type
/// cannot be declared to the verifier (its generic parameter is bound by an
/// outside trait), so it is carried behind this opaque struct. The `key`
/// field is ordinary Rust, there for callers outside the library.
#[verifier::external_body]
pub struct VerifyingKeyHandle {
    pub key: bellman::groth16::VerifyingKey<bls12_381::Bls12>,
}

/// How many leading bytes of `b` the delegated verifying-key parser
/// consumes, or `None` when it rejects `b`.
pub uninterp spec fn vk_prefix_len(b: Seq<u8>) -> Option<int>;

/// Relies on `bellman::groth16::VerifyingKey::<Bls12>::read`: over an
/// in-memory byte slice it is deterministic, succeeding and consuming a
/// prefix whose length is a function of the bytes alone (named
/// `vk_prefix_len` here) exactly when it does not reject them; a rejection
/// — malformed key material or too few bytes — is reported as the
/// verifying-key error. On success the slice it was handed is left holding
/// exactly the unconsumed bytes, whose count is returned beside the key.
#[verifier::external_body]
fn parse_verifying_key(tail: &[u8]) -> (r: Result<(VerifyingKeyHandle, usize), ReadError>)
    ensures
        (r is Ok) == (vk_prefix_len(tail@) is Some),
        r is Ok ==> 0 <= vk_prefix_len(tail@)->Some_0 <= tail@.len() && r->Ok_0.1 == tail@.len()
            - vk_prefix_len(tail@)->Some_0,
        r is Err ==> r->Err_0 == ReadError::VerifyingKey,
{
    let mut rest: &[u8] = tail;
    match bellman::groth16::VerifyingKey::<bls12_381::Bls12>::read(&mut rest) {
        Ok(key) => Ok((VerifyingKeyHandle { key }, rest.len())),
        Err(_) => Err(ReadError::VerifyingKey),
    }
}

/// The deserialized bundle: the verifying key and the five validated point
/// arrays, in stream order. Every element is a valid, non-identity member of
/// its group, and each array's order is exactly the order of the encodings
/// in the input stream.
pub struct ProvingParameters {
    pub verifying_key: VerifyingKeyHandle,
    pub h: Vec<G1Element>,
    pub l: Vec<G1Element>,
    pub a: Vec<G1Element>,
    pub b_g1: Vec<G1Element>,
    pub b_g2: Vec<G2Element>,
}

/// Where the first array starts: right after the verifying-key block.
pub open spec fn h_pos(d: Seq<u8>) -> int {
    vk_prefix_len(d)->Some_0
}

/// Where the `l` array starts: right past the `h` array.
pub open spec fn l_pos(d: Seq<u8>) -> int {
    array_end(d, h_pos(d), G1_ENCODED_LEN as int)
}

/// Where the `a` array starts: right past the `l` array.
pub open spec fn a_pos(d: Seq<u8>) -> int {
    array_end(d, l_pos(d), G1_ENCODED_LEN as int)
}

/// Where the `b_g1` array starts: right past the `a` array.
pub open spec fn b_g1_pos(d: Seq<u8>) -> int {
    array_end(d, a_pos(d), G1_ENCODED_LEN as int)
}

/// Where the `b_g2` array starts: right past the `b_g1` array.
pub open spec fn b_g2_pos(d: Seq<u8>) -> int {
    array_end(d, b_g1_pos(d), G1_ENCODED_LEN as int)
}

/// The raw encodings of the `h` array as they stand in the stream.
pub open spec fn h_blocks(d: Seq<u8>) -> Seq<Seq<u8>> {
    array_blocks(d, h_pos(d), G1_ENCODED_LEN as int)
}

/// The raw encodings of the `l` array as they stand in the stream.
pub open spec fn l_blocks(d: Seq<u8>) -> Seq<Seq<u8>> {
    array_blocks(d, l_pos(d), G1_ENCODED_LEN as int)
}

/// The raw encodings of the `a` array as they stand in the stream.
pub open spec fn a_blocks(d: Seq<u8>) -> Seq<Seq<u8>> {
    array_blocks(d, a_pos(d), G1_ENCODED_LEN as int)
}

/// The raw encodings of the `b_g1` array as they stand in the stream.
pub open spec fn b_g1_blocks(d: Seq<u8>) -> Seq<Seq<u8>> {
    array_blocks(d, b_g1_pos(d), G1_ENCODED_LEN as int)
}

/// The raw encodings of the `b_g2` array as they stand in the stream.
pub open spec fn b_g2_blocks(d: Seq<u8>) -> Seq<Seq<u8>> {
    array_blocks(d, b_g2_pos(d), G2_ENCODED_LEN as int)
}

/// The whole stream parses: the verifying key is accepted, every length
/// prefix is covered by the remaining bytes, and every raw block of every
/// array is acceptable in the given validation mode.
pub open spec fn read_ok(d: Seq<u8>, checked: bool) -> bool {
    &&& vk_prefix_len(d) is Some
    &&& array_fits(d, h_pos(d), G1_ENCODED_LEN as int)
    &&& g1_blocks_ok(h_blocks(d), checked)
    &&& array_fits(d, l_pos(d), G1_ENCODED_LEN as int)
    &&& g1_blocks_ok(l_blocks(d), checked)
    &&& array_fits(d, a_pos(d), G1_ENCODED_LEN as int)
    &&& g1_blocks_ok(a_blocks(d), checked)
    &&& array_fits(d, b_g1_pos(d), G1_ENCODED_LEN as int)
    &&& g1_blocks_ok(b_g1_blocks(d), checked)
    &&& array_fits(d, b_g2_pos(d), G2_ENCODED_LEN as int)
    &&& g2_blocks_ok(b_g2_blocks(d), checked)
}

/// The returned bundle carries exactly the stream's raw encodings, array by
/// array and index by index.
pub open spec fn params_match(p: ProvingParameters, d: Seq<u8>) -> bool {
    &&& g1_encodings(p.h@) == h_blocks(d)
    &&& g1_encodings(p.l@) == l_blocks(d)
    &&& g1_encodings(p.a@) == a_blocks(d)
    &&& g1_encodings(p.b_g1@) == b_g1_blocks(d)
    &&& g2_encodings(p.b_g2@) == b_g2_blocks(d)
}

/// The exact error of a failed read. The stages run in stream order — the
/// verifying key, then each array read and validated in full before the next
/// one is touched — and the first failing stage decides the error. Within a
/// failing batch, which unacceptable block is reported is the only
/// nondeterminism the worker pool introduces.
pub open spec fn read_err(d: Seq<u8>, checked: bool, e: ReadError) -> bool {
    if vk_prefix_len(d) is None {
        e == ReadError::VerifyingKey
    } else if !array_fits(d, h_pos(d), G1_ENCODED_LEN as int) {
        e == ReadError::Truncated
    } else if !g1_blocks_ok(h_blocks(d), checked) {
        g1_batch_err(h_blocks(d), checked, e)
    } else if !array_fits(d, l_pos(d), G1_ENCODED_LEN as int) {
        e == ReadError::Truncated
    } else if !g1_blocks_ok(l_blocks(d), checked) {
        g1_batch_err(l_blocks(d), checked, e)
    } else if !array_fits(d, a_pos(d), G1_ENCODED_LEN as int) {
        e == ReadError::Truncated
    } else if !g1_blocks_ok(a_blocks(d), checked) {
        g1_batch_err(a_blocks(d), checked, e)
    } else if !array_fits(d, b_g1_pos(d), G1_ENCODED_LEN as int) {
        e == ReadError::Truncated
    } else if !g1_blocks_ok(b_g1_blocks(d), checked) {
        g1_batch_err(b_g1_blocks(d), checked, e)
    } else if !array_fits(d, b_g2_pos(d), G2_ENCODED_LEN as int) {
        e == ReadError::Truncated
    } else if !g2_blocks_ok(b_g2_blocks(d), checked) {
        g2_batch_err(b_g2_blocks(d), checked, e)
    } else {
        false
    }
}

/// Reads one length-prefixed first-group array at `pos` and validates it as
/// a batch. On success it returns the validated elements, in stream order,
/// and the position right past the array.
fn read_g1_array(d: &Vec<u8>, pos: usize, checked: bool) -> (r: Result<
    (Vec<G1Element>, usize),
    ReadError,
>)
    requires
        pos <= d@.len(),
    ensures
        (r is Ok) == (array_fits(d@, pos as int, G1_ENCODED_LEN as int) && g1_blocks_ok(
            array_blocks(d@, pos as int, G1_ENCODED_LEN as int),
            checked,
        )),
        r is Ok ==> g1_encodings(r->Ok_0.0@) == array_blocks(
            d@,
            pos as int,
            G1_ENCODED_LEN as int,
        ) && r->Ok_0.1 == array_end(d@, pos as int, G1_ENCODED_LEN as int) && pos <= r->Ok_0.1
            <= d@.len(),
        r is Err ==> if !array_fits(d@, pos as int, G1_ENCODED_LEN as int) {
            r->Err_0 == ReadError::Truncated
        } else {
            g1_batch_err(array_blocks(d@, pos as int, G1_ENCODED_LEN as int), checked, r->Err_0)
        },
{
    let dlen: usize = d.len();
    if dlen - pos < 4 {
        return Err(ReadError::Truncated);
    }
    let count = read_be_u32(d, pos);
    let count_n: usize = count as usize;
    let ghost bs = array_blocks(d@, pos as int, G1_ENCODED_LEN as int);
    let mut blocks: Vec<Vec<u8>> = Vec::new();
    let mut cur: usize = pos + 4;
    let mut i: usize = 0;
    while i < count_n
        invariant
            pos + 4 <= d@.len(),
            d@.len() == dlen,
            i <= count_n,
            count_n == count_at(d@, pos as int),
            cur == pos + 4 + i * (G1_ENCODED_LEN as int),
            cur <= dlen,
            bs == array_blocks(d@, pos as int, G1_ENCODED_LEN as int),
            blocks@.len() == i,
            forall|j: int| 0 <= j < i ==> (#[trigger] blocks@[j])@ == bs[j],
        decreases count_n - i,
    {
        if dlen - cur < G1_ENCODED_LEN {
            proof {
                assert(array_end(d@, pos as int, G1_ENCODED_LEN as int) == cur + (count_n - i) * (
                G1_ENCODED_LEN as int));
                assert((count_n - i) * (G1_ENCODED_LEN as int) >= 1 * (G1_ENCODED_LEN as int));
            }
            return Err(ReadError::Truncated);
        }
        let b = copy_bytes(d, cur, G1_ENCODED_LEN);
        proof {
            assert(bs[i as int] == d@.subrange(
                pos + 4 + (i as int) * (G1_ENCODED_LEN as int),
                pos + 4 + (i as int + 1) * (G1_ENCODED_LEN as int),
            ));
            assert(pos + 4 + (i as int + 1) * (G1_ENCODED_LEN as int) == cur + G1_ENCODED_LEN);
        }
        blocks.push(b);
        cur = cur + G1_ENCODED_LEN;
        i = i + 1;
    }
    proof {
        assert(array_fits(d@, pos as int, G1_ENCODED_LEN as int));
        assert(byte_views(blocks@) =~~= bs);
    }
    match g1_validate_batch(&blocks, checked) {
        Ok(v) => Ok((v, cur)),
        Err(e) => Err(e),
    }
}

/// Reads one length-prefixed second-group array at `pos` and validates it as
/// a batch, exactly as the first-group reader does for its group.
fn read_g2_array(d: &Vec<u8>, pos: usize, checked: bool) -> (r: Result<
    (Vec<G2Element>, usize),
    ReadError,
>)
    requires
        pos <= d@.len(),
    ensures
        (r is Ok) == (array_fits(d@, pos as int, G2_ENCODED_LEN as int) && g2_blocks_ok(
            array_blocks(d@, pos as int, G2_ENCODED_LEN as int),
            checked,
        )),
        r is Ok ==> g2_encodings(r->Ok_0.0@) == array_blocks(
            d@,
            pos as int,
            G2_ENCODED_LEN as int,
        ) && r->Ok_0.1 == array_end(d@, pos as int, G2_ENCODED_LEN as int) && pos <= r->Ok_0.1
            <= d@.len(),
        r is Err ==> if !array_fits(d@, pos as int, G2_ENCODED_LEN as int) {
            r->Err_0 == ReadError::Truncated
        } else {
            g2_batch_err(array_blocks(d@, pos as int, G2_ENCODED_LEN as int), checked, r->Err_0)
        },
{
    let dlen: usize = d.len();
    if dlen - pos < 4 {
        return Err(ReadError::Truncated);
    }
    let count = read_be_u32(d, pos);
    let count_n: usize = count as usize;
    let ghost bs = array_blocks(d@, pos as int, G2_ENCODED_LEN as int);
    let mut blocks: Vec<Vec<u8>> = Vec::new();
    let mut cur: usize = pos + 4;
    let mut i: usize = 0;
    while i < count_n
        invariant
            pos + 4 <= d@.len(),
            d@.len() == dlen,
            i <= count_n,
            count_n == count_at(d@, pos as int),
            cur == pos + 4 + i * (G2_ENCODED_LEN as int),
            cur <= dlen,
            bs == array_blocks(d@, pos as int, G2_ENCODED_LEN as int),
            blocks@.len() == i,
            forall|j: int| 0 <= j < i ==> (#[trigger] blocks@[j])@ == bs[j],
        decreases count_n - i,
    {
        if dlen - cur < G2_ENCODED_LEN {
            proof {
                assert(array_end(d@, pos as int, G2_ENCODED_LEN as int) == cur + (count_n - i) * (
                G2_ENCODED_LEN as int));
                assert((count_n - i) * (G2_ENCODED_LEN as int) >= 1 * (G2_ENCODED_LEN as int));
            }
            return Err(ReadError::Truncated);
        }
        let b = copy_bytes(d, cur, G2_ENCODED_LEN);
        proof {
            assert(bs[i as int] == d@.subrange(
                pos + 4 + (i as int) * (G2_ENCODED_LEN as int),
                pos + 4 + (i as int + 1) * (G2_ENCODED_LEN as int),
            ));
            assert(pos + 4 + (i as int + 1) * (G2_ENCODED_LEN as int) == cur + G2_ENCODED_LEN);
        }
        blocks.push(b);
        cur = cur + G2_ENCODED_LEN;
        i = i + 1;
    }
    proof {
        assert(array_fits(d@, pos as int, G2_ENCODED_LEN as int));
        assert(byte_views(blocks@) =~~= bs);
    }
    match g2_validate_batch(&blocks, checked) {
        Ok(v) => Ok((v, cur)),
        Err(e) => Err(e),
    }
}

/// Deserializes the whole artifact out of `data`: the verifying-key block,
/// then the five point arrays, each read serially and validated as a batch
/// before the next one is read. In `checked` mode every point must pass the
/// full curve and subgroup verification; in unchecked mode only the cheaper
/// well-formedness decoding runs. An encoding of the identity element is
/// rejected in both modes. The caller gets either a fully validated bundle,
/// with every array in exact stream order, or the single error of the first
/// failing stage; bytes past the last array are ignored.
pub fn read(data: &Vec<u8>, checked: bool) -> (r: Result<ProvingParameters, ReadError>)
    ensures
        (r is Ok) == read_ok(data@, checked),
        r is Ok ==> params_match(r->Ok_0, data@),
        r is Err ==> read_err(data@, checked, r->Err_0),
{
    let dlen: usize = data.len();
    let (verifying_key, rest) = match parse_verifying_key(data.as_slice()) {
        Ok(p) => p,
        Err(e) => {
            return Err(e);
        },
    };
    let pos0: usize = dlen - rest;
    let (h, pos1) = match read_g1_array(data, pos0, checked) {
        Ok(p) => p,
        Err(e) => {
            return Err(e);
        },
    };
    let (l, pos2) = match read_g1_array(data, pos1, checked) {
        Ok(p) => p,
        Err(e) => {
            return Err(e);
        },
    };
    let (a, pos3) = match read_g1_array(data, pos2, checked) {
        Ok(p) => p,
        Err(e) => {
            return Err(e);
        },
    };
    let (b_g1, pos4) = match read_g1_array(data, pos3, checked) {
        Ok(p) => p,
        Err(e) => {
            return Err(e);
        },
    };
    let (b_g2, _pos5) = match read_g2_array(data, pos4, checked) {
        Ok(p) => p,
        Err(e) => {
            return Err(e);
        },
    };
    Ok(ProvingParameters { verifying_key, h, l, a, b_g1, b_g2 })
}

/// Serializes a validated first-group array back to its wire form: the
/// 4-byte big-endian element count, then each element's fixed-size encoding
/// in sequence order.
pub fn write_g1_array(elems: &Vec<G1Element>) -> (r: Vec<u8>)
    requires
        elems@.len() <= u32::MAX,
    ensures
        r@ == be_u32_bytes(elems@.len() as u32) + concat_bytes(g1_encodings(elems@)),
{
    let mut out: Vec<u8> = Vec::new();
    let n: usize = elems.len();
    push_be_u32(&mut out, n as u32);
    let mut i: usize = 0;
    while i < n
        invariant
            n == elems@.len(),
            i <= n,
            out@ == be_u32_bytes(n as u32) + concat_bytes(g1_encodings(elems@.take(i as int))),
        decreases n - i,
    {
        let mut b = elems[i].encoding();
        proof {
            let pre = g1_encodings(elems@.take(i as int));
            let post = g1_encodings(elems@.take(i as int + 1));
            assert(post.drop_last() =~= pre);
            assert(post.last() == elems@[i as int]@);
        }
        out.append(&mut b);
        i = i + 1;
    }
    proof {
        assert(elems@.take(n as int) =~= elems@);
    }
    out
}

/// Serializes a validated second-group array back to its wire form, exactly
/// as the first-group serializer does for its group.
pub fn write_g2_array(elems: &Vec<G2Element>) -> (r: Vec<u8>)
    requires
        elems@.len() <= u32::MAX,
    ensures
        r@ == be_u32_bytes(elems@.len() as u32) + concat_bytes(g2_encodings(elems@)),
{
    let mut out: Vec<u8> = Vec::new();
    let n: usize = elems.len();
    push_be_u32(&mut out, n as u32);
    let mut i: usize = 0;
    while i < n
        invariant
            n == elems@.len(),
            i <= n,
            out@ == be_u32_bytes(n as u32) + concat_bytes(g2_encodings(elems@.take(i as int))),
        decreases n - i,
    {
        let mut b = elems[i].encoding();
        proof {
            let pre = g2_encodings(elems@.take(i as int));
            let post = g2_encodings(elems@.take(i as int + 1));
            assert(post.drop_last() =~= pre);
            assert(post.last() == elems@[i as int]@);
        }
        out.append(&mut b);
        i = i + 1;
    }
    proof {
        assert(elems@.take(n as int) =~= elems@);
    }
    out
}

/// Law: any single unacceptable block, anywhere in any of the five arrays,
/// makes the whole read fail — however many acceptable blocks surround it,
/// no partially valid result is ever returned.
pub proof fn lemma_corrupt_block_fails_read(d: Seq<u8>, checked: bool, i: int)
    ensures
        0 <= i < h_blocks(d).len() && !g1_block_ok(h_blocks(d)[i], checked) ==> !read_ok(
            d,
            checked,
        ),
        0 <= i < l_blocks(d).len() && !g1_block_ok(l_blocks(d)[i], checked) ==> !read_ok(
            d,
            checked,
        ),
        0 <= i < a_blocks(d).len() && !g1_block_ok(a_blocks(d)[i], checked) ==> !read_ok(
            d,
            checked,
        ),
        0 <= i < b_g1_blocks(d).len() && !g1_block_ok(b_g1_blocks(d)[i], checked) ==> !read_ok(
            d,
            checked,
        ),
        0 <= i < b_g2_blocks(d).len() && !g2_block_ok(b_g2_blocks(d)[i], checked) ==> !read_ok(
            d,
            checked,
        ),
{
}

/// Law: round trip on the wire format. The five arrays of a successfully
/// read bundle re-serialize, with the same field order and the same
/// fixed-size encodings, to streams that parse back to exactly the raw
/// encodings found at their positions in the original stream.
pub proof fn lemma_params_round_trip(d: Seq<u8>, checked: bool, p: ProvingParameters)
    requires
        read_ok(d, checked),
        params_match(p, d),
    ensures
        array_blocks(
            be_u32_bytes(p.h@.len() as u32) + concat_bytes(g1_encodings(p.h@)),
            0,
            G1_ENCODED_LEN as int,
        ) == h_blocks(d),
        array_blocks(
            be_u32_bytes(p.l@.len() as u32) + concat_bytes(g1_encodings(p.l@)),
            0,
            G1_ENCODED_LEN as int,
        ) == l_blocks(d),
        array_blocks(
            be_u32_bytes(p.a@.len() as u32) + concat_bytes(g1_encodings(p.a@)),
            0,
            G1_ENCODED_LEN as int,
        ) == a_blocks(d),
        array_blocks(
            be_u32_bytes(p.b_g1@.len() as u32) + concat_bytes(g1_encodings(p.b_g1@)),
            0,
            G1_ENCODED_LEN as int,
        ) == b_g1_blocks(d),
        array_blocks(
            be_u32_bytes(p.b_g2@.len() as u32) + concat_bytes(g2_encodings(p.b_g2@)),
            0,
            G2_ENCODED_LEN as int,
        ) == b_g2_blocks(d),
{
    lemma_array_round_trip(g1_encodings(p.h@), G1_ENCODED_LEN as int, be_u32_bytes(
        p.h@.len() as u32,
    ) + concat_bytes(g1_encodings(p.h@)));
    lemma_array_round_trip(g1_encodings(p.l@), G1_ENCODED_LEN as int, be_u32_bytes(
        p.l@.len() as u32,
    ) + concat_bytes(g1_encodings(p.l@)));
    lemma_array_round_trip(g1_encodings(p.a@), G1_ENCODED_LEN as int, be_u32_bytes(
        p.a@.len() as u32,
    ) + concat_bytes(g1_encodings(p.a@)));
    lemma_array_round_trip(g1_encodings(p.b_g1@), G1_ENCODED_LEN as int, be_u32_bytes(
        p.b_g1@.len() as u32,
    ) + concat_bytes(g1_encodings(p.b_g1@)));
    lemma_array_round_trip(g2_encodings(p.b_g2@), G2_ENCODED_LEN as int, be_u32_bytes(
        p.b_g2@.len() as u32,
    ) + concat_bytes(g2_encodings(p.b_g2@)));
}

} // verus!
