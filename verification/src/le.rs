use vstd::prelude::*;

verus! {

/// The two bytes of `x`, least significant first.
pub open spec fn u16_le_bytes(x: u16) -> Seq<u8> {
    seq![x as u8, (x >> 8u16) as u8]
}

/// The eight bytes of `x`, least significant first.
pub open spec fn u64_le_bytes(x: u64) -> Seq<u8> {
    seq![
        x as u8,
        (x >> 8u64) as u8,
        (x >> 16u64) as u8,
        (x >> 24u64) as u8,
        (x >> 32u64) as u8,
        (x >> 40u64) as u8,
        (x >> 48u64) as u8,
        (x >> 56u64) as u8,
    ]
}

/// The `u16` whose little-endian bytes are `b0, b1`.
pub open spec fn u16_of_bytes(b0: u8, b1: u8) -> u16 {
    (b0 as u16) | ((b1 as u16) << 8u16)
}

/// The `u64` whose little-endian bytes are `b0, ..., b7`.
pub open spec fn u64_of_bytes(b0: u8, b1: u8, b2: u8, b3: u8, b4: u8, b5: u8, b6: u8, b7: u8) -> u64 {
    (b0 as u64) | ((b1 as u64) << 8u64) | ((b2 as u64) << 16u64) | ((b3 as u64) << 24u64) | ((
    b4 as u64) << 32u64) | ((b5 as u64) << 40u64) | ((b6 as u64) << 48u64) | ((b7 as u64)
        << 56u64)
}

proof fn lemma_u16_bytes_of_value(b0: u8, b1: u8)
    by (bit_vector)
    ensures
        u16_of_bytes(b0, b1) as u8 == b0,
        (u16_of_bytes(b0, b1) >> 8u16) as u8 == b1,
{
}

proof fn lemma_u64_bytes_of_value(b0: u8, b1: u8, b2: u8, b3: u8, b4: u8, b5: u8, b6: u8, b7: u8)
    by (bit_vector)
    ensures
        u64_of_bytes(b0, b1, b2, b3, b4, b5, b6, b7) as u8 == b0,
        (u64_of_bytes(b0, b1, b2, b3, b4, b5, b6, b7) >> 8u64) as u8 == b1,
        (u64_of_bytes(b0, b1, b2, b3, b4, b5, b6, b7) >> 16u64) as u8 == b2,
        (u64_of_bytes(b0, b1, b2, b3, b4, b5, b6, b7) >> 24u64) as u8 == b3,
        (u64_of_bytes(b0, b1, b2, b3, b4, b5, b6, b7) >> 32u64) as u8 == b4,
        (u64_of_bytes(b0, b1, b2, b3, b4, b5, b6, b7) >> 40u64) as u8 == b5,
        (u64_of_bytes(b0, b1, b2, b3, b4, b5, b6, b7) >> 48u64) as u8 == b6,
        (u64_of_bytes(b0, b1, b2, b3, b4, b5, b6, b7) >> 56u64) as u8 == b7,
{
}

/// A `u16` is determined by its two little-endian bytes.
pub proof fn lemma_u16_le_bytes_injective(x: u16, y: u16)
    requires
        u16_le_bytes(x) == u16_le_bytes(y),
    ensures
        x == y,
{
    assert(u16_le_bytes(x)[0] == u16_le_bytes(y)[0]);
    assert(u16_le_bytes(x)[1] == u16_le_bytes(y)[1]);
    lemma_u16_value_of_bytes(x);
    lemma_u16_value_of_bytes(y);
}

/// A `u64` is determined by its eight little-endian bytes.
pub proof fn lemma_u64_le_bytes_injective(x: u64, y: u64)
    requires
        u64_le_bytes(x) == u64_le_bytes(y),
    ensures
        x == y,
{
    let bx = u64_le_bytes(x);
    let by_ = u64_le_bytes(y);
    assert(bx[0] == by_[0] && bx[1] == by_[1] && bx[2] == by_[2] && bx[3] == by_[3]);
    assert(bx[4] == by_[4] && bx[5] == by_[5] && bx[6] == by_[6] && bx[7] == by_[7]);
    lemma_u64_value_of_bytes(x);
    lemma_u64_value_of_bytes(y);
}

proof fn lemma_u16_value_of_bytes(x: u16)
    by (bit_vector)
    ensures
        u16_of_bytes(x as u8, (x >> 8u16) as u8) == x,
{
}

proof fn lemma_u64_value_of_bytes(x: u64)
    by (bit_vector)
    ensures
        u64_of_bytes(
            x as u8,
            (x >> 8u64) as u8,
            (x >> 16u64) as u8,
            (x >> 24u64) as u8,
            (x >> 32u64) as u8,
            (x >> 40u64) as u8,
            (x >> 48u64) as u8,
            (x >> 56u64) as u8,
        ) == x,
{
}

/// Appends the little-endian bytes of `x` to `v`.
pub fn push_u16_le(v: &mut Vec<u8>, x: u16)
    ensures
        final(v)@ == old(v)@ + u16_le_bytes(x),
{
    v.push(x as u8);
    v.push((x >> 8u16) as u8);
    assert(v@ =~= old(v)@ + u16_le_bytes(x));
}

/// Appends the little-endian bytes of `x` to `v`.
pub fn push_u64_le(v: &mut Vec<u8>, x: u64)
    ensures
        final(v)@ == old(v)@ + u64_le_bytes(x),
{
    v.push(x as u8);
    v.push((x >> 8u64) as u8);
    v.push((x >> 16u64) as u8);
    v.push((x >> 24u64) as u8);
    v.push((x >> 32u64) as u8);
    v.push((x >> 40u64) as u8);
    v.push((x >> 48u64) as u8);
    v.push((x >> 56u64) as u8);
    assert(v@ =~= old(v)@ + u64_le_bytes(x));
}

/// The `u16` stored little-endian in `b[at..at + 2]`.
pub fn read_u16_le(b: &[u8], at: usize) -> (x: u16)
    requires
        at + 2 <= b@.len(),
    ensures
        u16_le_bytes(x) == b@.subrange(at as int, at + 2),
{
    let b0 = b[at];
    let b1 = b[at + 1];
    let x = (b0 as u16) | ((b1 as u16) << 8u16);
    proof {
        lemma_u16_bytes_of_value(b0, b1);
        assert(u16_le_bytes(x) =~= b@.subrange(at as int, at + 2));
    }
    x
}

/// The `u64` stored little-endian in `b[at..at + 8]`.
pub fn read_u64_le(b: &[u8], at: usize) -> (x: u64)
    requires
        at + 8 <= b@.len(),
    ensures
        u64_le_bytes(x) == b@.subrange(at as int, at + 8),
{
    let b0 = b[at];
    let b1 = b[at + 1];
    let b2 = b[at + 2];
    let b3 = b[at + 3];
    let b4 = b[at + 4];
    let b5 = b[at + 5];
    let b6 = b[at + 6];
    let b7 = b[at + 7];
    let x = (b0 as u64) | ((b1 as u64) << 8u64) | ((b2 as u64) << 16u64) | ((b3 as u64) << 24u64)
        | ((b4 as u64) << 32u64) | ((b5 as u64) << 40u64) | ((b6 as u64) << 48u64) | ((
    b7 as u64) << 56u64);
    proof {
        lemma_u64_bytes_of_value(b0, b1, b2, b3, b4, b5, b6, b7);
        assert(u64_le_bytes(x) =~= b@.subrange(at as int, at + 8));
    }
    x
}

} // verus!
