//! Primitive little-endian reads over an in-memory byte buffer.
//!
//! Every reader takes the buffer and a position and returns the decoded value
//! together with the position just past it, or `Truncated` when the buffer
//! ends first. The spec functions state the little-endian value of the bytes.
use vstd::prelude::*;

use crate::EventPipeError;

verus! {

/// Little-endian value of the `n` bytes of `s` starting at `i`.
pub open spec fn le_bytes(s: Seq<u8>, i: int, n: nat) -> int
    decreases n,
{
    if n == 0 {
        0
    } else {
        s[i] + 256 * le_bytes(s, i + 1, (n - 1) as nat)
    }
}


/// The little-endian value of any byte run is non-negative.
pub broadcast proof fn lemma_le_bytes_nonneg(s: Seq<u8>, i: int, n: nat)
    ensures
        0 <= #[trigger] le_bytes(s, i, n),
    decreases n,
{
    if n > 0 {
        lemma_le_bytes_nonneg(s, i + 1, (n - 1) as nat);
    }
}


/// The 16-bit little-endian word at `i`: value and end position.
pub open spec fn u16_at(s: Seq<u8>, i: int) -> Option<(int, int)> {
    if i >= 0 && i + 2 <= s.len() {
        Some((le_bytes(s, i, 2), i + 2))
    } else {
        None
    }
}

/// The 32-bit little-endian word at `i`.
pub open spec fn u32_at(s: Seq<u8>, i: int) -> Option<(int, int)> {
    if i >= 0 && i + 4 <= s.len() {
        Some((le_bytes(s, i, 4), i + 4))
    } else {
        None
    }
}

/// The 64-bit little-endian word at `i`.
pub open spec fn u64_at(s: Seq<u8>, i: int) -> Option<(int, int)> {
    if i >= 0 && i + 8 <= s.len() {
        Some((le_bytes(s, i, 8), i + 8))
    } else {
        None
    }
}

/// The `n` raw bytes at `i`.
pub open spec fn bytes_at(s: Seq<u8>, i: int, n: nat) -> Option<(Seq<u8>, int)> {
    if i >= 0 && i + n <= s.len() {
        Some((s.subrange(i, i + n), i + n))
    } else {
        None
    }
}


/// A four-byte little-endian value fits thirty-two bits.
pub proof fn lemma_le_bytes4_bound(s: Seq<u8>, i: int)
    ensures
        0 <= le_bytes(s, i, 4) < 0x1_0000_0000,
{
    reveal_with_fuel(le_bytes, 5);
    lemma_le_bytes_nonneg(s, i + 1, 3);
    lemma_le_bytes_nonneg(s, i + 2, 2);
    lemma_le_bytes_nonneg(s, i + 3, 1);
}

pub fn read_u8(d: &Vec<u8>, pos: usize) -> (r: Result<(u8, usize), EventPipeError>)
    ensures
        pos < d@.len() ==> (r matches Ok((v, end)) && v == d@[pos as int] && end == pos + 1),
        pos >= d@.len() ==> (r matches Err(e) && e is Truncated),
{
    if pos < d.len() {
        Ok((d[pos], pos + 1))
    } else {
        Err(EventPipeError::Truncated)
    }
}

pub fn read_u16(d: &Vec<u8>, pos: usize) -> (r: Result<(u16, usize), EventPipeError>)
    ensures
        pos + 2 <= d@.len() ==> (r matches Ok((v, end)) && v == le_bytes(d@, pos as int, 2)
            && end == pos + 2),
        pos + 2 > d@.len() ==> (r matches Err(e) && e is Truncated),
{
    proof {
        reveal_with_fuel(le_bytes, 3);
    }
    if pos < d.len() && 2 <= d.len() - pos {
        let b0 = d[pos];
        let b1 = d[pos + 1];
        let v: u16 = (b0 as u16) + 256 * (b1 as u16);
        Ok((v, pos + 2))
    } else {
        Err(EventPipeError::Truncated)
    }
}

pub fn read_u32(d: &Vec<u8>, pos: usize) -> (r: Result<(u32, usize), EventPipeError>)
    ensures
        pos + 4 <= d@.len() ==> (r matches Ok((v, end)) && v == le_bytes(d@, pos as int, 4)
            && end == pos + 4),
        pos + 4 > d@.len() ==> (r matches Err(e) && e is Truncated),
{
    proof {
        reveal_with_fuel(le_bytes, 5);
    }
    if pos < d.len() && 4 <= d.len() - pos {
        let b0 = d[pos] as u32;
        let b1 = d[pos + 1] as u32;
        let b2 = d[pos + 2] as u32;
        let b3 = d[pos + 3] as u32;
        let v: u32 = b0 + 256 * (b1 + 256 * (b2 + 256 * b3));
        Ok((v, pos + 4))
    } else {
        Err(EventPipeError::Truncated)
    }
}

pub fn read_u64(d: &Vec<u8>, pos: usize) -> (r: Result<(u64, usize), EventPipeError>)
    ensures
        pos + 8 <= d@.len() ==> (r matches Ok((v, end)) && v == le_bytes(d@, pos as int, 8)
            && end == pos + 8),
        pos + 8 > d@.len() ==> (r matches Err(e) && e is Truncated),
{
    if pos < d.len() && 8 <= d.len() - pos {
        let lo = match read_u32(d, pos) {
            Ok((v, _)) => v,
            Err(e) => { return Err(e) },
        };
        let hi = match read_u32(d, pos + 4) {
            Ok((v, _)) => v,
            Err(e) => { return Err(e) },
        };
        let v: u64 = (lo as u64) + 0x1_0000_0000 * (hi as u64);
        assert(v == le_bytes(d@, pos as int, 8)) by {
            reveal_with_fuel(le_bytes, 9);
        }
        Ok((v, pos + 8))
    } else {
        Err(EventPipeError::Truncated)
    }
}

/// Copies the `n` bytes at `pos` into an owned vector.
pub fn read_bytes(d: &Vec<u8>, pos: usize, n: usize) -> (r: Result<
    (Vec<u8>, usize),
    EventPipeError,
>)
    ensures
        pos + n <= d@.len() ==> (r matches Ok((v, end)) && v@ == d@.subrange(pos as int, pos + n)
            && end == pos + n),
        pos + n > d@.len() ==> (r matches Err(e) && e is Truncated),
{
    if pos <= d.len() && n <= d.len() - pos {
        let mut out: Vec<u8> = Vec::new();
        let mut i: usize = 0;
        while i < n
            invariant
                pos + n <= d@.len(),
                pos + n <= usize::MAX,
                i <= n,
                out@ == d@.subrange(pos as int, pos + i),
            decreases n - i,
        {
            out.push(d[pos + i]);
            i = i + 1;
            assert(out@ == d@.subrange(pos as int, pos + i));
        }
        Ok((out, pos + n))
    } else {
        Err(EventPipeError::Truncated)
    }
}

} // verus!
