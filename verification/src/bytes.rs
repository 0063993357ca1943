//! Little-endian field access over raw byte images.
use vstd::prelude::*;

verus! {

/// The unsigned 16-bit value stored little-endian at `off`.
pub open spec fn le16(s: Seq<u8>, off: int) -> int {
    s[off] + s[off + 1] * 256
}

/// The unsigned 32-bit value stored little-endian at `off`.
pub open spec fn le32(s: Seq<u8>, off: int) -> int {
    le16(s, off) + le16(s, off + 2) * 0x10000
}

/// The unsigned 64-bit value stored little-endian at `off`.
pub open spec fn le64(s: Seq<u8>, off: int) -> int {
    le32(s, off) + le32(s, off + 4) * 0x1_0000_0000
}

/// Whether `s` holds `pattern` starting at `off`.
pub open spec fn holds_at(s: Seq<u8>, off: int, pattern: Seq<u8>) -> bool {
    &&& 0 <= off
    &&& off + pattern.len() <= s.len()
    &&& s.subrange(off, off + pattern.len()) == pattern
}

pub fn read_u16_le(b: &[u8], off: usize) -> (r: u16)
    requires
        off + 2 <= b.len(),
    ensures
        r == le16(b@, off as int),
{
    b[off] as u16 + (b[off + 1] as u16) * 256
}

pub fn read_u32_le(b: &[u8], off: usize) -> (r: u32)
    requires
        off + 4 <= b.len(),
    ensures
        r == le32(b@, off as int),
{
    let lo = read_u16_le(b, off) as u32;
    let hi = read_u16_le(b, off + 2) as u32;
    lo + hi * 0x10000
}

pub fn read_u64_le(b: &[u8], off: usize) -> (r: u64)
    requires
        off + 8 <= b.len(),
    ensures
        r == le64(b@, off as int),
{
    let lo = read_u32_le(b, off) as u64;
    let hi = read_u32_le(b, off + 4) as u64;
    lo + hi * 0x1_0000_0000
}

/// Compares `b[off..off + pattern.len()]` with `pattern`.
pub fn matches_at(b: &[u8], off: usize, pattern: &[u8]) -> (r: bool)
    requires
        off + pattern@.len() <= b.len(),
    ensures
        r == holds_at(b@, off as int, pattern@),
{
    let mut i: usize = 0;
    while i < pattern.len()
        invariant
            i <= pattern@.len(),
            off + pattern@.len() <= b.len(),
            forall|j: int| 0 <= j < i ==> b@[off + j] == pattern@[j],
        decreases pattern@.len() - i,
    {
        if b[off + i] != pattern[i] {
            proof {
                assert(b@.subrange(off as int, off + pattern@.len())[i as int] != pattern@[i as int]);
            }
            return false;
        }
        i = i + 1;
    }
    assert(b@.subrange(off as int, off + pattern@.len()) =~= pattern@);
    true
}

/// Whether `b[off..off + len]` is all zero.
pub fn all_zero(b: &[u8], off: usize, len: usize) -> (r: bool)
    requires
        off + len <= b.len(),
    ensures
        r == (forall|i: int| off <= i < off + len ==> b@[i] == 0),
{
    let mut i: usize = 0;
    while i < len
        invariant
            i <= len,
            off + len <= b.len(),
            forall|j: int| off <= j < off + i ==> b@[j] == 0,
        decreases len - i,
    {
        if b[off + i] != 0 {
            return false;
        }
        i = i + 1;
    }
    true
}

/// Copies `b[off..off + N]` into a fixed-size array.
pub fn sub_array<const N: usize>(b: &[u8], off: usize) -> (r: [u8; N])
    requires
        off + N <= b.len(),
    ensures
        r@ == b@.subrange(off as int, off + N),
{
    let mut a = [0u8; N];
    let mut i: usize = 0;
    while i < N
        invariant
            i <= N,
            off + N <= b.len(),
            a@.len() == N,
            forall|j: int| 0 <= j < i ==> a@[j] == b@[off + j],
        decreases N - i,
    {
        a[i] = b[off + i];
        i = i + 1;
    }
    assert(a@ =~= b@.subrange(off as int, off + N));
    a
}

} // verus!
