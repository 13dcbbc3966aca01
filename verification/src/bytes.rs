//! Integers laid out in bytes, most significant byte first or last.
use vstd::prelude::*;
use vstd::slice::spec_slice_len;

verus! {

/// The 16-bit integer whose most significant byte is `b0`.
pub open spec fn be16(b0: u8, b1: u8) -> u16 {
    (b0 as int * 0x100 + b1 as int) as u16
}

/// The 32-bit integer whose bytes are `b0` to `b3`, most significant first.
pub open spec fn be32(b0: u8, b1: u8, b2: u8, b3: u8) -> u32 {
    (b0 as int * 0x100_0000 + b1 as int * 0x1_0000 + b2 as int * 0x100 + b3 as int) as u32
}

/// The 64-bit integer whose two halves are `hi` and `lo`.
pub open spec fn join64(hi: u32, lo: u32) -> u64 {
    (hi as int * 0x1_0000_0000 + lo as int) as u64
}

/// The 32-bit integer whose bytes are `b0` to `b3`, least significant first.
pub open spec fn le32(b0: u8, b1: u8, b2: u8, b3: u8) -> u32 {
    be32(b3, b2, b1, b0)
}

/// Byte `i` of `x`, counted from the least significant one.
pub open spec fn byte_of(x: u32, i: int) -> u8 {
    if i == 0 {
        (x as int % 0x100) as u8
    } else if i == 1 {
        (x as int / 0x100 % 0x100) as u8
    } else if i == 2 {
        (x as int / 0x1_0000 % 0x100) as u8
    } else {
        (x as int / 0x100_0000 % 0x100) as u8
    }
}

/// The four bytes of `x`, least significant first.
pub open spec fn le32_bytes(x: u32) -> Seq<u8> {
    seq![byte_of(x, 0), byte_of(x, 1), byte_of(x, 2), byte_of(x, 3)]
}

/// The `le32` of the four bytes of `s` from index `at` on.
pub open spec fn le32_at(s: Seq<u8>, at: int) -> u32 {
    le32(s[at], s[at + 1], s[at + 2], s[at + 3])
}

/// The `be16` of the two bytes of `s` from index `at` on.
pub open spec fn be16_at(s: Seq<u8>, at: int) -> u16 {
    be16(s[at], s[at + 1])
}

/// The `be32` of the four bytes of `s` from index `at` on.
pub open spec fn be32_at(s: Seq<u8>, at: int) -> u32 {
    be32(s[at], s[at + 1], s[at + 2], s[at + 3])
}

/// The 64-bit integer of the eight bytes of `s` from index `at` on, most significant first.
pub open spec fn be64_at(s: Seq<u8>, at: int) -> u64 {
    join64(be32_at(s, at), be32_at(s, at + 4))
}

/// Splitting a 32-bit integer into bytes and joining them again gives the integer.
pub proof fn lemma_le32_of_bytes(x: u32)
    ensures
        le32_at(le32_bytes(x), 0) == x,
{
}

/// Reads the two bytes of `s` from index `at` on as an integer, most significant byte first.
pub fn read_be16(s: &[u8], at: usize) -> (x: u16)
    requires
        at + 2 <= s@.len(),
    ensures
        x == be16_at(s@, at as int),
{
    (s[at] as u16) * 0x100 + (s[at + 1] as u16)
}

/// Reads the four bytes of `s` from index `at` on as an integer, most significant byte first.
pub fn read_be32(s: &[u8], at: usize) -> (x: u32)
    requires
        at + 4 <= s@.len(),
    ensures
        x == be32_at(s@, at as int),
{
    (s[at] as u32) * 0x100_0000 + (s[at + 1] as u32) * 0x1_0000 + (s[at + 2] as u32) * 0x100 + (s[at
        + 3] as u32)
}

/// Reads the eight bytes of `s` from index `at` on as an integer, most significant byte first.
pub fn read_be64(s: &[u8], at: usize) -> (x: u64)
    requires
        at + 8 <= s@.len(),
    ensures
        x == be64_at(s@, at as int),
{
    assert(s@.len() == spec_slice_len(s));
    (read_be32(s, at) as u64) * 0x1_0000_0000 + (read_be32(s, at + 4) as u64)
}

/// Reads the four bytes of `s` from index `at` on as an integer, least significant byte first.
pub fn read_le32(s: &[u8], at: usize) -> (x: u32)
    requires
        at + 4 <= s@.len(),
    ensures
        x == le32_at(s@, at as int),
{
    assert(s@.len() == spec_slice_len(s));
    (s[at + 3] as u32) * 0x100_0000 + (s[at + 2] as u32) * 0x1_0000 + (s[at + 1] as u32) * 0x100 + (
    s[at] as u32)
}

/// Stores the four bytes of `x` in `dst` from index `at` on, least significant first.
pub fn write_le32(dst: &mut [u8], at: usize, x: u32)
    requires
        at + 4 <= old(dst)@.len(),
    ensures
        final(dst)@ == old(dst)@.subrange(0, at as int) + le32_bytes(x) + old(dst)@.subrange(
            at + 4,
            old(dst)@.len() as int,
        ),
{
    dst[at] = (x % 0x100) as u8;
    dst[at + 1] = (x / 0x100 % 0x100) as u8;
    dst[at + 2] = (x / 0x1_0000 % 0x100) as u8;
    dst[at + 3] = (x / 0x100_0000 % 0x100) as u8;
    assert(dst@ =~= old(dst)@.subrange(0, at as int) + le32_bytes(x) + old(dst)@.subrange(
        at + 4,
        old(dst)@.len() as int,
    ));
}

} // verus!
