//! The wire layout of the artifact's point arrays: each array is a 4-byte
//! big-endian element count followed by that many fixed-size point encodings.

use vstd::prelude::*;

verus! {

/// Number of bytes in the uncompressed encoding of a first-group point.
pub const G1_ENCODED_LEN: usize = 96;

/// Number of bytes in the uncompressed encoding of a second-group point.
pub const G2_ENCODED_LEN: usize = 192;

/// Value of four bytes interpreted as a big-endian unsigned 32-bit integer.
pub open spec fn be_u32(s: Seq<u8>) -> u32
    recommends
        s.len() == 4,
{
    ((s[0] as u32) << 24) | ((s[1] as u32) << 16) | ((s[2] as u32) << 8) | (s[3] as u32)
}

/// The four bytes of `x` in big-endian order.
pub open spec fn be_u32_bytes(x: u32) -> Seq<u8> {
    seq![
        ((x >> 24) & 0xff) as u8,
        ((x >> 16) & 0xff) as u8,
        ((x >> 8) & 0xff) as u8,
        (x & 0xff) as u8,
    ]
}

pub proof fn lemma_be_u32_round_trip(x: u32)
    ensures
        be_u32_bytes(x).len() == 4,
        be_u32(be_u32_bytes(x)) == x,
{
    assert({
        &&& (x >> 24) & 0xff < 256
        &&& (x >> 16) & 0xff < 256
        &&& (x >> 8) & 0xff < 256
        &&& x & 0xff < 256
    }) by (bit_vector);
    assert(x == ((((x >> 24) & 0xff) << 24) | (((x >> 16) & 0xff) << 16) | (((x >> 8) & 0xff)
        << 8) | (x & 0xff))) by (bit_vector);
}

/// The element count announced by the length prefix at `pos`.
pub open spec fn count_at(d: Seq<u8>, pos: int) -> int {
    be_u32(d.subrange(pos, pos + 4)) as int
}

/// First position past the length-prefixed array at `pos` whose elements are
/// `size` bytes each.
pub open spec fn array_end(d: Seq<u8>, pos: int, size: int) -> int {
    pos + 4 + count_at(d, pos) * size
}

/// Whether `d` holds, at `pos`, a full 4-byte length prefix and all the
/// fixed-size blocks that prefix announces.
pub open spec fn array_fits(d: Seq<u8>, pos: int, size: int) -> bool {
    &&& 0 <= pos
    &&& pos + 4 <= d.len()
    &&& array_end(d, pos, size) <= d.len()
}

/// The raw fixed-size blocks of the length-prefixed array at `pos`, in stream
/// order.
pub open spec fn array_blocks(d: Seq<u8>, pos: int, size: int) -> Seq<Seq<u8>> {
    Seq::new(
        count_at(d, pos) as nat,
        |i: int| d.subrange(pos + 4 + i * size, pos + 4 + (i + 1) * size),
    )
}

/// The byte sequences held by a vector of byte vectors.
pub open spec fn byte_views(bs: Seq<Vec<u8>>) -> Seq<Seq<u8>> {
    bs.map_values(|b: Vec<u8>| b@)
}

/// All sequences of the batch laid end to end.
pub open spec fn concat_bytes(bs: Seq<Seq<u8>>) -> Seq<u8>
    decreases bs.len(),
{
    if bs.len() == 0 {
        Seq::empty()
    } else {
        concat_bytes(bs.drop_last()) + bs.last()
    }
}

proof fn lemma_concat_uniform_len(bs: Seq<Seq<u8>>, size: int)
    requires
        forall|i: int| 0 <= i < bs.len() ==> (#[trigger] bs[i]).len() == size,
    ensures
        concat_bytes(bs).len() == size * bs.len(),
    decreases bs.len(),
{
    if bs.len() == 0 {
    } else {
        lemma_concat_uniform_len(bs.drop_last(), size);
        assert(size * (bs.len() - 1) + size == size * bs.len()) by (nonlinear_arith);
    }
}

proof fn lemma_concat_uniform_block(bs: Seq<Seq<u8>>, size: int, j: int)
    requires
        0 < size,
        forall|i: int| 0 <= i < bs.len() ==> (#[trigger] bs[i]).len() == size,
        0 <= j < bs.len(),
    ensures
        concat_bytes(bs).subrange(j * size, j * size + size) == bs[j],
    decreases bs.len(),
{
    lemma_concat_uniform_len(bs.drop_last(), size);
    if j == bs.len() - 1 {
        assert(concat_bytes(bs).subrange(j * size, j * size + size) =~= bs[j]);
    } else {
        lemma_concat_uniform_block(bs.drop_last(), size, j);
        assert(j * size + size <= size * (bs.len() - 1)) by (nonlinear_arith)
            requires
                0 < size,
                0 <= j,
                j < bs.len() - 1,
        ;
        assert(concat_bytes(bs).subrange(j * size, j * size + size) =~= concat_bytes(
            bs.drop_last(),
        ).subrange(j * size, j * size + size));
    }
}

/// Law: round trip on the wire format. Serializing any batch of fixed-size
/// raw encodings — a 4-byte big-endian count followed by the encodings laid
/// end to end — and reading the result back as a length-prefixed array
/// yields exactly the encodings that were serialized, in the same order.
pub proof fn lemma_array_round_trip(encs: Seq<Seq<u8>>, size: int, w: Seq<u8>)
    requires
        0 < size,
        encs.len() <= u32::MAX,
        forall|i: int| 0 <= i < encs.len() ==> (#[trigger] encs[i]).len() == size,
        w == be_u32_bytes(encs.len() as u32) + concat_bytes(encs),
    ensures
        array_fits(w, 0, size),
        count_at(w, 0) == encs.len(),
        array_end(w, 0, size) == w.len(),
        array_blocks(w, 0, size) == encs,
{
    lemma_be_u32_round_trip(encs.len() as u32);
    assert(w.subrange(0, 4) =~= be_u32_bytes(encs.len() as u32));
    lemma_concat_uniform_len(encs, size);
    assert(count_at(w, 0) == encs.len());
    assert(encs.len() * size == size * encs.len()) by (nonlinear_arith);
    assert forall|j: int| 0 <= j < encs.len() implies array_blocks(w, 0, size)[j] == encs[j] by {
        lemma_concat_uniform_block(encs, size, j);
        assert(0 <= j * size) by (nonlinear_arith)
            requires
                0 <= j,
                0 < size,
        ;
        assert(4 + (j + 1) * size == 4 + j * size + size) by (nonlinear_arith);
        assert(j * size + size <= size * encs.len()) by (nonlinear_arith)
            requires
                0 < size,
                0 <= j,
                j < encs.len(),
        ;
        assert(w.subrange(4 + j * size, 4 + j * size + size) =~= concat_bytes(encs).subrange(
            j * size,
            j * size + size,
        ));
    };
    assert(array_blocks(w, 0, size) =~= encs);
}

/// Law: an array whose length prefix announces zero elements holds no
/// blocks, ends right after its prefix, and always fits.
pub proof fn lemma_empty_array(d: Seq<u8>, pos: int, size: int)
    requires
        0 <= pos,
        pos + 4 <= d.len(),
        count_at(d, pos) == 0,
    ensures
        array_fits(d, pos, size),
        array_blocks(d, pos, size) == Seq::<Seq<u8>>::empty(),
        array_end(d, pos, size) == pos + 4,
{
    assert(0 * size == 0) by (nonlinear_arith);
    assert(array_blocks(d, pos, size) =~= Seq::<Seq<u8>>::empty());
}

/// Reads the big-endian length prefix at `pos`.
pub fn read_be_u32(d: &Vec<u8>, pos: usize) -> (n: u32)
    requires
        pos + 4 <= d@.len(),
    ensures
        n as int == count_at(d@, pos as int),
{
    let dlen: usize = d.len();
    let n: u32 = ((d[pos] as u32) << 24) | ((d[pos + 1] as u32) << 16) | ((d[pos + 2] as u32) << 8)
        | (d[pos + 3] as u32);
    proof {
        let s = d@.subrange(pos as int, pos as int + 4);
        assert(s[0] == d@[pos as int]);
        assert(s[1] == d@[pos as int + 1]);
        assert(s[2] == d@[pos as int + 2]);
        assert(s[3] == d@[pos as int + 3]);
    }
    n
}

/// Appends the four big-endian bytes of `x`.
pub fn push_be_u32(out: &mut Vec<u8>, x: u32)
    ensures
        final(out)@ == old(out)@ + be_u32_bytes(x),
{
    out.push(((x >> 24) & 0xff) as u8);
    out.push(((x >> 16) & 0xff) as u8);
    out.push(((x >> 8) & 0xff) as u8);
    out.push((x & 0xff) as u8);
    assert(out@ =~= old(out)@ + be_u32_bytes(x));
}

/// Copies `len` bytes of `d` starting at `start` into a fresh vector.
pub fn copy_bytes(d: &Vec<u8>, start: usize, len: usize) -> (r: Vec<u8>)
    requires
        start + len <= d@.len(),
    ensures
        r@ == d@.subrange(start as int, start as int + len as int),
{
    let dlen: usize = d.len();
    let mut r: Vec<u8> = Vec::new();
    let mut j: usize = 0;
    while j < len
        invariant
            j <= len,
            start + len <= dlen == d@.len(),
            r@ == d@.subrange(start as int, start as int + j as int),
        decreases len - j,
    {
        r.push(d[start + j]);
        proof {
            assert(r@ =~= d@.subrange(start as int, start as int + j as int + 1));
        }
        j = j + 1;
    }
    r
}

} // verus!
