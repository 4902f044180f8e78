//! Little-endian word reads over byte slices.
//!
//! Multi-byte words are always read in little-endian order, so digests are
//! bit-identical across platforms.  The forward readers take an offset from
//! the front of the slice, the `_r` readers an offset from the back.  The
//! short-input extractor packs the extreme ends of an input of at most 16
//! bytes into two 64-bit words.

use vstd::prelude::*;

verus! {

/// The 32-bit little-endian word of `s` at byte offset `off`, widened to 64 bits.
pub open spec fn le32(s: Seq<u8>, off: int) -> u64
    recommends
        0 <= off,
        off + 4 <= s.len(),
{
    (s[off] as u64) | ((s[off + 1] as u64) << 8) | ((s[off + 2] as u64) << 16) | ((s[off
        + 3] as u64) << 24)
}

/// The 64-bit little-endian word of `s` at byte offset `off`.
pub open spec fn le64(s: Seq<u8>, off: int) -> u64
    recommends
        0 <= off,
        off + 8 <= s.len(),
{
    le32(s, off) | (le32(s, off + 4) << 32)
}

/// The two words the short-size class packs from an input of at most 16
/// bytes: 4-byte reads from both ends for length at least 4, single bytes at
/// the front, middle and back for lengths 1 to 3, zero for the empty input.
pub open spec fn short_pair(s: Seq<u8>) -> (u64, u64)
    recommends
        s.len() <= 16,
{
    let n: int = s.len() as int;
    if n >= 4 {
        let off: int = if n >= 8 {
            4
        } else {
            0
        };
        (
            (le32(s, 0) << 32) | le32(s, n - 4),
            (le32(s, off) << 32) | le32(s, n - off - 4),
        )
    } else if n > 0 {
        (((s[0] as u64) << 48) | ((s[n / 2] as u64) << 24) | (s[n - 1] as u64), 0)
    } else {
        (0u64, 0u64)
    }
}

/// Reads the 32-bit little-endian word at `offset`, widened to 64 bits.
pub fn read_u32(bytes: &[u8], offset: usize) -> (r: u64)
    requires
        offset + 4 <= bytes@.len(),
    ensures
        r == le32(bytes@, offset as int),
{
    (bytes[offset] as u64) | ((bytes[offset + 1] as u64) << 8) | ((bytes[offset
        + 2] as u64) << 16) | ((bytes[offset + 3] as u64) << 24)
}

/// Reads the 32-bit little-endian word `offset_r` bytes before the end.
pub fn read_u32_r(bytes: &[u8], offset_r: usize) -> (r: u64)
    requires
        offset_r + 4 <= bytes@.len(),
    ensures
        r == le32(bytes@, bytes@.len() - offset_r - 4),
{
    let n: usize = bytes.len();
    read_u32(bytes, n - offset_r - 4)
}

/// Reads the 64-bit little-endian word at `offset`.
pub fn read_u64(bytes: &[u8], offset: usize) -> (r: u64)
    requires
        offset + 8 <= bytes@.len(),
    ensures
        r == le64(bytes@, offset as int),
{
    let n: usize = bytes.len();
    proof {
        assert(offset + 8 <= n);
    }
    read_u32(bytes, offset) | (read_u32(bytes, offset + 4) << 32)
}

/// Reads the 64-bit little-endian word `offset_r` bytes before the end.
pub fn read_u64_r(bytes: &[u8], offset_r: usize) -> (r: u64)
    requires
        offset_r + 8 <= bytes@.len(),
    ensures
        r == le64(bytes@, bytes@.len() - offset_r - 8),
{
    let n: usize = bytes.len();
    read_u64(bytes, n - offset_r - 8)
}

/// Packs the two short-size-class words from an input of at most 16 bytes.
pub fn read_short(bytes: &[u8]) -> (r: (u64, u64))
    requires
        bytes@.len() <= 16,
    ensures
        r == short_pair(bytes@),
{
    let n: usize = bytes.len();
    if n >= 4 {
        let off: usize = if n >= 8 {
            4
        } else {
            0
        };
        let head: u64 = read_u32(bytes, 0);
        let head_off: u64 = read_u32(bytes, off);
        let tail: u64 = read_u32_r(bytes, 0);
        let tail_off: u64 = read_u32_r(bytes, off);
        ((head << 32) | tail, (head_off << 32) | tail_off)
    } else if n > 0 {
        let fst: u64 = bytes[0] as u64;
        let snd: u64 = bytes[n / 2] as u64;
        let thd: u64 = bytes[n - 1] as u64;
        ((fst << 48) | (snd << 24) | thd, 0)
    } else {
        (0, 0)
    }
}

} // verus!
