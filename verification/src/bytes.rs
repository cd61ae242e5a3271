//! Little-endian fields in byte strings.

use vstd::prelude::*;

verus! {

/// The 16-bit number whose little-endian form stands at `at` in `s`.
pub open spec fn le16(s: Seq<u8>, at: int) -> int {
    s[at] + s[at + 1] * 0x100
}

/// The 32-bit number whose little-endian form stands at `at` in `s`.
pub open spec fn le32(s: Seq<u8>, at: int) -> int {
    s[at] + s[at + 1] * 0x100 + s[at + 2] * 0x1_0000 + s[at + 3] * 0x100_0000
}

/// The 64-bit number whose little-endian form stands at `at` in `s`.
pub open spec fn le64(s: Seq<u8>, at: int) -> int {
    le32(s, at) + le32(s, at + 4) * 0x1_0000_0000
}

/// The four bytes of the little-endian form of `value`.
pub open spec fn le32_bytes(value: u32) -> Seq<u8> {
    seq![
        (value % 0x100) as u8,
        (value / 0x100 % 0x100) as u8,
        (value / 0x1_0000 % 0x100) as u8,
        (value / 0x100_0000) as u8,
    ]
}

/// `s` with the four bytes from `at` on replaced by the little-endian form of `value`.
pub open spec fn patched(s: Seq<u8>, at: int, value: u32) -> Seq<u8> {
    s.subrange(0, at) + le32_bytes(value) + s.subrange(at + 4, s.len() as int)
}

/// Reading back what `le32_bytes` wrote gives the number that was written.
pub proof fn lemma_le32_round_trip(value: u32)
    ensures
        le32(le32_bytes(value), 0) == value,
{
}

/// Reads the 16-bit little-endian field at `at`.
pub fn read_le16(s: &[u8], at: usize) -> (value: u16)
    requires
        at + 2 <= s@.len(),
    ensures
        value == le16(s@, at as int),
{
    s[at] as u16 + s[at + 1] as u16 * 0x100
}

/// Reads the 32-bit little-endian field at `at`.
pub fn read_le32(s: &[u8], at: usize) -> (value: u32)
    requires
        at + 4 <= s@.len(),
    ensures
        value == le32(s@, at as int),
{
    s[at] as u32 + s[at + 1] as u32 * 0x100 + s[at + 2] as u32 * 0x1_0000 + s[at + 3] as u32
        * 0x100_0000
}

/// Reads the 64-bit little-endian field at `at`.
pub fn read_le64(s: &[u8], at: usize) -> (value: u64)
    requires
        at + 8 <= s@.len(),
    ensures
        value == le64(s@, at as int),
{
    let n: usize = s.len();
    read_le32(s, at) as u64 + read_le32(s, at + 4) as u64 * 0x1_0000_0000
}

/// Appends the little-endian form of `value` to `out`.
pub fn push_le32(out: &mut Vec<u8>, value: u32)
    ensures
        final(out)@ == old(out)@ + le32_bytes(value),
{
    out.push((value % 0x100) as u8);
    out.push((value / 0x100 % 0x100) as u8);
    out.push((value / 0x1_0000 % 0x100) as u8);
    out.push((value / 0x100_0000) as u8);
}

/// Replaces the four bytes from `at` on by the little-endian form of `value`.
pub fn patch_le32(buffer: &mut Vec<u8>, at: usize, value: u32)
    requires
        at + 4 <= old(buffer)@.len(),
    ensures
        final(buffer)@ == patched(old(buffer)@, at as int, value),
{
    let n: usize = buffer.len();
    buffer.set(at, (value % 0x100) as u8);
    buffer.set(at + 1, (value / 0x100 % 0x100) as u8);
    buffer.set(at + 2, (value / 0x1_0000 % 0x100) as u8);
    buffer.set(at + 3, (value / 0x100_0000) as u8);
}

} // verus!
