//! Byte-level helpers shared by the wire formats: fixed-width integers in
//! big- and little-endian order, ranged copies and zero padding.
use vstd::prelude::*;

verus! {

/// A run of `n` zero bytes.
pub open spec fn zeros(n: nat) -> Seq<u8> {
    Seq::new(n, |i: int| 0u8)
}

/// The four bytes of `x`, most significant first.
pub open spec fn be32(x: u32) -> Seq<u8> {
    seq![(x >> 24u32) as u8, (x >> 16u32) as u8, (x >> 8u32) as u8, x as u8]
}

/// The four bytes of `x`, least significant first.
pub open spec fn le32(x: u32) -> Seq<u8> {
    seq![x as u8, (x >> 8u32) as u8, (x >> 16u32) as u8, (x >> 24u32) as u8]
}

/// The big-endian value of four bytes.
pub open spec fn be32_value(b: Seq<u8>) -> int
    recommends
        b.len() == 4,
{
    b[0] * 0x100_0000 + b[1] * 0x1_0000 + b[2] * 0x100 + b[3]
}

/// The little-endian value of four bytes.
pub open spec fn le32_value(b: Seq<u8>) -> int
    recommends
        b.len() == 4,
{
    b[0] + b[1] * 0x100 + b[2] * 0x1_0000 + b[3] * 0x100_0000
}

/// `le32_value` reads back what `le32` writes.
pub proof fn lemma_le32_bytes(x: u32)
    ensures
        le32_value(le32(x)) == x,
{
    let b0 = x as u8;
    let b1 = (x >> 8u32) as u8;
    let b2 = (x >> 16u32) as u8;
    let b3 = (x >> 24u32) as u8;
    assert(b0 + b1 * 0x100u64 + b2 * 0x1_0000u64 + b3 * 0x100_0000u64 == x) by (bit_vector)
        requires
            b0 == x as u8,
            b1 == (x >> 8u32) as u8,
            b2 == (x >> 16u32) as u8,
            b3 == (x >> 24u32) as u8,
    ;
}

/// The big-endian value of two bytes.
pub open spec fn be16_value(b0: u8, b1: u8) -> int {
    b0 * 0x100 + b1
}

/// `be32_value` reads back what `be32` writes.
pub proof fn lemma_be32_bytes(x: u32)
    ensures
        be32_value(be32(x)) == x,
{
    let b0 = (x >> 24u32) as u8;
    let b1 = (x >> 16u32) as u8;
    let b2 = (x >> 8u32) as u8;
    let b3 = x as u8;
    assert(b0 * 0x100_0000u64 + b1 * 0x1_0000u64 + b2 * 0x100u64 + b3 == x) by (bit_vector)
        requires
            b0 == (x >> 24u32) as u8,
            b1 == (x >> 16u32) as u8,
            b2 == (x >> 8u32) as u8,
            b3 == x as u8,
    ;
}

/// Appends the big-endian bytes of `x`.
pub fn push_be32(v: &mut Vec<u8>, x: u32)
    ensures
        final(v)@ == old(v)@ + be32(x),
{
    v.push((x >> 24u32) as u8);
    v.push((x >> 16u32) as u8);
    v.push((x >> 8u32) as u8);
    v.push(x as u8);
    assert(final(v)@ =~= old(v)@ + be32(x));
}

/// Appends the little-endian bytes of `x`.
pub fn push_le32(v: &mut Vec<u8>, x: u32)
    ensures
        final(v)@ == old(v)@ + le32(x),
{
    v.push(x as u8);
    v.push((x >> 8u32) as u8);
    v.push((x >> 16u32) as u8);
    v.push((x >> 24u32) as u8);
    assert(final(v)@ =~= old(v)@ + le32(x));
}

/// The `u32` whose big-endian bytes are `b0 b1 b2 b3`.
pub fn read_be32(b0: u8, b1: u8, b2: u8, b3: u8) -> (r: u32)
    ensures
        be32(r) == seq![b0, b1, b2, b3],
        r == be32_value(seq![b0, b1, b2, b3]),
{
    let r: u32 = ((b0 as u32) << 24u32) | ((b1 as u32) << 16u32) | ((b2 as u32) << 8u32) | (b3
        as u32);
    assert((r >> 24u32) as u8 == b0 && (r >> 16u32) as u8 == b1 && (r >> 8u32) as u8 == b2 && r
        as u8 == b3) by (bit_vector)
        requires
            r == ((b0 as u32) << 24u32) | ((b1 as u32) << 16u32) | ((b2 as u32) << 8u32) | (
            b3 as u32),
    ;
    proof {
        lemma_be32_bytes(r);
    }
    assert(be32(r) =~= seq![b0, b1, b2, b3]);
    r
}

/// The `u32` whose little-endian bytes are `b0 b1 b2 b3`.
pub fn read_le32(b0: u8, b1: u8, b2: u8, b3: u8) -> (r: u32)
    ensures
        le32(r) == seq![b0, b1, b2, b3],
        r == le32_value(seq![b0, b1, b2, b3]),
{
    let r: u32 = ((b3 as u32) << 24u32) | ((b2 as u32) << 16u32) | ((b1 as u32) << 8u32) | (b0
        as u32);
    assert((r >> 24u32) as u8 == b3 && (r >> 16u32) as u8 == b2 && (r >> 8u32) as u8 == b1 && r
        as u8 == b0) by (bit_vector)
        requires
            r == ((b3 as u32) << 24u32) | ((b2 as u32) << 16u32) | ((b1 as u32) << 8u32) | (
            b0 as u32),
    ;
    proof {
        lemma_le32_bytes(r);
    }
    assert(le32(r) =~= seq![b0, b1, b2, b3]);
    r
}

/// Appends `data[start..end]`.
pub fn push_range(v: &mut Vec<u8>, data: &[u8], start: usize, end: usize)
    requires
        start <= end <= data@.len(),
    ensures
        final(v)@ == old(v)@ + data@.subrange(start as int, end as int),
{
    let mut i = start;
    while i < end
        invariant
            start <= i <= end <= data@.len(),
            v@ == old(v)@ + data@.subrange(start as int, i as int),
        decreases end - i,
    {
        v.push(data[i]);
        i = i + 1;
        assert(v@ =~= old(v)@ + data@.subrange(start as int, i as int));
    }
}

/// Appends `n` zero bytes.
pub fn push_zeros(v: &mut Vec<u8>, n: usize)
    ensures
        final(v)@ == old(v)@ + zeros(n as nat),
{
    let mut i: usize = 0;
    while i < n
        invariant
            i <= n,
            v@ == old(v)@ + zeros(i as nat),
        decreases n - i,
    {
        v.push(0u8);
        i = i + 1;
        assert(v@ =~= old(v)@ + zeros(i as nat));
    }
    assert(v@ =~= old(v)@ + zeros(n as nat));
}

/// A copy of `data[start..end]` as a new vector.
pub fn copy_range(data: &[u8], start: usize, end: usize) -> (r: Vec<u8>)
    requires
        start <= end <= data@.len(),
    ensures
        r@ == data@.subrange(start as int, end as int),
{
    let mut r: Vec<u8> = Vec::new();
    push_range(&mut r, data, start, end);
    assert(r@ =~= data@.subrange(start as int, end as int));
    r
}

} // verus!
