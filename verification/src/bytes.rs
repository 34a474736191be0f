//! Little-endian integer fields inside account and instruction byte buffers.
use vstd::prelude::*;

verus! {

/// The value of the eight bytes of `s` starting at `off`, read little-endian.
pub open spec fn le_u64(s: Seq<u8>, off: int) -> int {
    s[off] + 0x100 * s[off + 1] + 0x1_0000 * s[off + 2] + 0x100_0000 * s[off + 3]
        + 0x1_0000_0000 * s[off + 4] + 0x100_0000_0000 * s[off + 5]
        + 0x1_0000_0000_0000 * s[off + 6] + 0x100_0000_0000_0000 * s[off + 7]
}

/// The value of the four bytes of `s` starting at `off`, read little-endian.
pub open spec fn le_u32(s: Seq<u8>, off: int) -> int {
    s[off] + 0x100 * s[off + 1] + 0x1_0000 * s[off + 2] + 0x100_0000 * s[off + 3]
}

/// The value of the two bytes of `s` starting at `off`, read little-endian.
pub open spec fn le_u16(s: Seq<u8>, off: int) -> int {
    s[off] + 0x100 * s[off + 1]
}

/// Reads the `u64` stored little-endian at `data[off..off + 8]`.
pub fn read_u64_le(data: &[u8], off: usize) -> (r: u64)
    requires
        off + 8 <= data@.len(),
    ensures
        r as int == le_u64(data@, off as int),
{
    let b0 = data[off] as u64;
    let b1 = data[off + 1] as u64;
    let b2 = data[off + 2] as u64;
    let b3 = data[off + 3] as u64;
    let b4 = data[off + 4] as u64;
    let b5 = data[off + 5] as u64;
    let b6 = data[off + 6] as u64;
    let b7 = data[off + 7] as u64;
    b0 + 0x100 * b1 + 0x1_0000 * b2 + 0x100_0000 * b3 + 0x1_0000_0000 * b4 + 0x100_0000_0000 * b5
        + 0x1_0000_0000_0000 * b6 + 0x100_0000_0000_0000 * b7
}

/// Reads the `u16` stored little-endian at `data[off..off + 2]`.
pub fn read_u16_le(data: &[u8], off: usize) -> (r: u16)
    requires
        off + 2 <= data@.len(),
    ensures
        r as int == le_u16(data@, off as int),
{
    let b0 = data[off] as u16;
    let b1 = data[off + 1] as u16;
    b0 + 0x100 * b1
}

/// The eight little-endian bytes of `x`.
#[verifier::opaque]
pub open spec fn u64_le_bytes(x: u64) -> Seq<u8> {
    seq![
        (x % 0x100) as u8,
        (x / 0x100 % 0x100) as u8,
        (x / 0x1_0000 % 0x100) as u8,
        (x / 0x100_0000 % 0x100) as u8,
        (x / 0x1_0000_0000 % 0x100) as u8,
        (x / 0x100_0000_0000 % 0x100) as u8,
        (x / 0x1_0000_0000_0000 % 0x100) as u8,
        (x / 0x100_0000_0000_0000 % 0x100) as u8,
    ]
}

/// The four little-endian bytes of `x`.
#[verifier::opaque]
pub open spec fn u32_le_bytes(x: u32) -> Seq<u8> {
    seq![
        (x % 0x100) as u8,
        (x / 0x100 % 0x100) as u8,
        (x / 0x1_0000 % 0x100) as u8,
        (x / 0x100_0000 % 0x100) as u8,
    ]
}

/// Reading back the little-endian bytes of a `u64` gives the `u64`.
pub proof fn lemma_u64_le_roundtrip(x: u64)
    ensures
        le_u64(u64_le_bytes(x), 0) == x,
        u64_le_bytes(x).len() == 8,
{
    reveal(u64_le_bytes);
    let s = u64_le_bytes(x);
    assert(x == x % 0x100 + 0x100 * (x / 0x100 % 0x100) + 0x1_0000 * (x / 0x1_0000 % 0x100)
        + 0x100_0000 * (x / 0x100_0000 % 0x100) + 0x1_0000_0000 * (x / 0x1_0000_0000 % 0x100)
        + 0x100_0000_0000 * (x / 0x100_0000_0000 % 0x100) + 0x1_0000_0000_0000 * (x
        / 0x1_0000_0000_0000 % 0x100) + 0x100_0000_0000_0000 * (x / 0x100_0000_0000_0000 % 0x100))
        by (bit_vector);
}

/// Reading back the little-endian bytes of a `u32` gives the `u32`.
pub proof fn lemma_u32_le_roundtrip(x: u32)
    ensures
        le_u32(u32_le_bytes(x), 0) == x,
        u32_le_bytes(x).len() == 4,
{
    reveal(u32_le_bytes);
    assert(x == x % 0x100 + 0x100 * (x / 0x100 % 0x100) + 0x1_0000 * (x / 0x1_0000 % 0x100)
        + 0x100_0000 * (x / 0x100_0000 % 0x100)) by (bit_vector);
}

/// The little-endian bytes of `x`, as an array.
pub fn u64_to_le_bytes(x: u64) -> (r: [u8; 8])
    ensures
        r@ == u64_le_bytes(x),
{
    reveal(u64_le_bytes);
    let r = [
        (x % 0x100) as u8,
        (x / 0x100 % 0x100) as u8,
        (x / 0x1_0000 % 0x100) as u8,
        (x / 0x100_0000 % 0x100) as u8,
        (x / 0x1_0000_0000 % 0x100) as u8,
        (x / 0x100_0000_0000 % 0x100) as u8,
        (x / 0x1_0000_0000_0000 % 0x100) as u8,
        (x / 0x100_0000_0000_0000 % 0x100) as u8,
    ];
    assert(r@ =~= u64_le_bytes(x));
    r
}

/// The little-endian bytes of `x`, as an array.
pub fn u32_to_le_bytes(x: u32) -> (r: [u8; 4])
    ensures
        r@ == u32_le_bytes(x),
{
    reveal(u32_le_bytes);
    let r = [(x % 0x100) as u8, (x / 0x100 % 0x100) as u8, (x / 0x1_0000 % 0x100) as u8, (x
        / 0x100_0000 % 0x100) as u8];
    assert(r@ =~= u32_le_bytes(x));
    r
}

/// Eight bytes that agree position by position hold the same little-endian value.
pub proof fn lemma_le_u64_window(s: Seq<u8>, off: int, t: Seq<u8>, toff: int)
    requires
        0 <= off,
        off + 8 <= s.len(),
        0 <= toff,
        toff + 8 <= t.len(),
        s.subrange(off, off + 8) == t.subrange(toff, toff + 8),
    ensures
        le_u64(s, off) == le_u64(t, toff),
{
    let a = s.subrange(off, off + 8);
    let b = t.subrange(toff, toff + 8);
    assert(a[0] == b[0] && a[1] == b[1] && a[2] == b[2] && a[3] == b[3]);
    assert(a[4] == b[4] && a[5] == b[5] && a[6] == b[6] && a[7] == b[7]);
}

/// The words of three concatenated eight-byte groups are the words of the groups.
pub proof fn lemma_le_u64_concat3(a: Seq<u8>, b: Seq<u8>, c: Seq<u8>)
    requires
        a.len() == 8,
        b.len() == 8,
        c.len() == 8,
    ensures
        le_u64(a + b + c, 0) == le_u64(a, 0),
        le_u64(a + b + c, 8) == le_u64(b, 0),
        le_u64(a + b + c, 16) == le_u64(c, 0),
{
    let s = a + b + c;
    assert(s.subrange(0, 8) =~= a.subrange(0, 8));
    assert(s.subrange(8, 16) =~= b.subrange(0, 8));
    assert(s.subrange(16, 24) =~= c.subrange(0, 8));
    lemma_le_u64_window(s, 0, a, 0);
    lemma_le_u64_window(s, 8, b, 0);
    lemma_le_u64_window(s, 16, c, 0);
}

} // verus!
