//! The LEB128-style varint codec used by compressed event headers.
//!
//! Unsigned varints are read little-endian, seven value bits per byte, the
//! high bit of each byte marking continuation; at most ten bytes make a
//! 64-bit value, and the value bits beyond bit 63 are discarded. The signed
//! variants reinterpret the unsigned bit pattern as two's complement (not
//! zig-zag), exactly as the wire format requires.
use vstd::prelude::*;

use crate::EventPipeError;
use crate::bytes::read_u8;

verus! {

/// `128^k`.
pub open spec fn pow128(k: nat) -> int
    decreases k,
{
    if k == 0 {
        1
    } else {
        128 * pow128((k - 1) as nat)
    }
}

/// The untruncated value and end position of the varint at `i`, reading at
/// most `max` bytes; `None` when the buffer ends first or no terminating byte
/// appears within `max` bytes.
pub open spec fn varint_at(s: Seq<u8>, i: int, max: nat) -> Option<(int, int)>
    decreases max,
{
    if max == 0 || i < 0 || i >= s.len() {
        None
    } else if s[i] < 128 {
        Some((s[i] as int, i + 1))
    } else {
        match varint_at(s, i + 1, (max - 1) as nat) {
            None => None,
            Some(ve) => Some(((s[i] - 128) + 128 * ve.0, ve.1)),
        }
    }
}

/// The canonical varint encoding of `x`.
pub open spec fn varint_encode(x: nat) -> Seq<u8>
    decreases x,
{
    if x < 128 {
        seq![x as u8]
    } else {
        seq![(x % 128 + 128) as u8] + varint_encode(x / 128)
    }
}

pub proof fn lemma_varint_encode_len(x: nat)
    ensures
        1 <= varint_encode(x).len(),
        x < pow128(varint_encode(x).len()),
    decreases x,
{
    reveal_with_fuel(pow128, 2);
    if x >= 128 {
        lemma_varint_encode_len(x / 128);
        let l = varint_encode(x / 128).len();
        assert(pow128(l + 1) == 128 * pow128(l));
        assert(x < 128 * pow128(l)) by (nonlinear_arith)
            requires
                x / 128 < pow128(l),
                x >= 128,
        ;
    }
}

/// The value a varint denotes is never negative.
pub proof fn lemma_varint_at_nonneg(s: Seq<u8>, i: int, max: nat)
    ensures
        varint_at(s, i, max) matches Some(ve) ==> ve.0 >= 0,
    decreases max,
{
    if max > 0 && 0 <= i < s.len() && s[i] >= 128 {
        lemma_varint_at_nonneg(s, i + 1, (max - 1) as nat);
    }
}

/// A value below `128^k` takes at most `k` bytes.
pub proof fn lemma_varint_encode_len_bound(x: nat, k: nat)
    requires
        k >= 1,
        x < pow128(k),
    ensures
        varint_encode(x).len() <= k,
    decreases x,
{
    if x >= 128 {
        assert(pow128(k) == 128 * pow128((k - 1) as nat));
        assert(x / 128 < pow128((k - 1) as nat)) by (nonlinear_arith)
            requires
                x < 128 * pow128((k - 1) as nat),
                x >= 128,
        ;
        lemma_varint_encode_len_bound(x / 128, (k - 1) as nat);
    }
}

/// Ten bytes encode any 64-bit value.
pub proof fn lemma_varint_encode_len_u64(x: nat)
    ensures
        x < 0x1_0000_0000_0000_0000 ==> varint_encode(x).len() <= 10,
{
    if x < 0x1_0000_0000_0000_0000 {
        assert(pow128(10) == 0x40_0000_0000_0000_0000) by {
            reveal_with_fuel(pow128, 11);
        }
        lemma_varint_encode_len_bound(x, 10);
    }
}

proof fn lemma_pow128_mono(a: nat, b: nat)
    requires
        a <= b,
    ensures
        pow128(a) <= pow128(b),
    decreases b,
{
    if a < b {
        lemma_pow128_mono(a, (b - 1) as nat);
        assert(pow128(b) == 128 * pow128((b - 1) as nat));
        assert(pow128((b - 1) as nat) > 0) by {
            lemma_pow128_pos((b - 1) as nat);
        }
    }
}

proof fn lemma_pow128_pos(k: nat)
    ensures
        pow128(k) >= 1,
    decreases k,
{
    if k > 0 {
        lemma_pow128_pos((k - 1) as nat);
    }
}

/// A canonical encoding embedded in a larger buffer decodes to the value it
/// encodes. Together with `parse_varint_u64`'s contract this is the varint
/// round trip: decoding an encoding of `x` yields `x` again.
pub proof fn lemma_varint_encode_decodes(s: Seq<u8>, i: int, max: nat, x: nat)
    requires
        0 <= i,
        i + varint_encode(x).len() <= s.len(),
        s.subrange(i, i + varint_encode(x).len()) == varint_encode(x),
        varint_encode(x).len() <= max,
    ensures
        varint_at(s, i, max) == Some((x as int, i + varint_encode(x).len())),
    decreases x,
{
    let e = varint_encode(x);
    assert(s[i] == e[0]);
    if x < 128 {
        assert(varint_at(s, i, max) == Some((x as int, i + 1)));
    } else {
        let rest = varint_encode(x / 128);
        assert(e == seq![(x % 128 + 128) as u8] + rest);
        assert(s.subrange(i + 1, i + 1 + rest.len()) == rest) by {
            assert forall|j: int| 0 <= j < rest.len() implies s.subrange(
                i + 1,
                i + 1 + rest.len(),
            )[j] == rest[j] by {
                assert(s[i + 1 + j] == e[1 + j]);
            }
        }
        lemma_varint_encode_decodes(s, i + 1, (max - 1) as nat, x / 128);
        assert(s[i] == x % 128 + 128);
        assert((s[i] - 128) + 128 * ((x / 128) as int) == x);
    }
}

/// The varint round trip: decoding the canonical encoding of any 64-bit
/// value yields the value again, consuming exactly the encoding.
pub proof fn lemma_varint_round_trip(x: u64)
    ensures
        varint_at(varint_encode(x as nat), 0, 10) matches Some(ve) && ve.0 == x && ve.1
            == varint_encode(x as nat).len(),
{
    let e = varint_encode(x as nat);
    lemma_varint_encode_len_u64(x as nat);
    assert(e.subrange(0, e.len() as int) =~= e);
    lemma_varint_encode_decodes(e, 0, 10, x as nat);
}

/// Reads an unsigned varint, keeping the low 64 bits of its value.
pub fn parse_varint_u64(d: &Vec<u8>, pos: usize) -> (r: Result<(u64, usize), EventPipeError>)
    ensures
        varint_at(d@, pos as int, 10) matches Some(ve) ==> (r matches Ok((v, end)) && v == ve.0
            % 0x1_0000_0000_0000_0000 && end == ve.1),
        varint_at(d@, pos as int, 10) is None ==> (r matches Err(e) && e is Truncated),
{
    let ghost s = d@;
    let mut result: u64 = 0;
    let mut pow: u64 = 1;
    let mut k: usize = 0;
    let mut p = pos;
    let ghost mut acc: int = 0;
    loop
        invariant
            s == d@,
            p == pos + k,
            k <= 10,
            pos <= p <= usize::MAX,
            k <= 9 ==> pow == pow128(k as nat),
            0 <= acc < pow128(k as nat),
            k <= 9 ==> acc < 0x8000_0000_0000_0000,
            k <= 9 ==> result == acc,
            result == acc % 0x1_0000_0000_0000_0000,
            varint_at(s, p as int, (10 - k) as nat) matches Some(ve) ==> varint_at(
                s,
                pos as int,
                10,
            ) == Some((acc + pow128(k as nat) * ve.0, ve.1)),
            varint_at(s, p as int, (10 - k) as nat) is None ==> varint_at(s, pos as int, 10)
                is None,
        decreases 10 - k,
    {
        proof {
            lemma_pow128_pos(k as nat);
        }
        if k == 10 {
            return Err(EventPipeError::Truncated);
        }
        let b = match read_u8(d, p) {
            Ok((b, _)) => b,
            Err(_) => {
                return Err(EventPipeError::Truncated);
            },
        };
        let low = b % 128;
        if k == 9 {
            assert(pow == pow128(9) && pow128(9) == 0x8000_0000_0000_0000) by { reveal_with_fuel(pow128, 11); }
            result = result + ((low % 2) as u64) * pow;
            proof {
                acc = acc + (low as int) * pow128(9);
            }
            assert(result == acc % 0x1_0000_0000_0000_0000) by (nonlinear_arith)
                requires
                    result == (acc - low * pow128(9)) + (low % 2) * pow128(9),
                    pow128(9) == 0x8000_0000_0000_0000,
                    0 <= acc - low * pow128(9) < 0x8000_0000_0000_0000,
                    0 <= low < 128,
            ;
            assert(pow128(10) == 128 * pow128(9)) by {
                reveal_with_fuel(pow128, 2);
            }
            assert(0 <= acc < pow128(10)) by (nonlinear_arith)
                requires
                    pow128(10) == 128 * pow128(9),
                    pow128(9) == 0x8000_0000_0000_0000,
                    0 <= acc - low * pow128(9) < pow128(9),
                    0 <= low < 128,
            ;
        } else {
            assert(acc + low * pow128(k as nat) < pow128((k + 1) as nat)) by (nonlinear_arith)
                requires
                    0 <= acc < pow128(k as nat),
                    0 <= low < 128,
                    pow128((k + 1) as nat) == 128 * pow128(k as nat),
                    pow128(k as nat) >= 1,
            ;
            proof {
                lemma_pow128_mono((k + 1) as nat, 9);
                assert(pow128(9) == 0x8000_0000_0000_0000) by { reveal_with_fuel(pow128, 11); }
            }
            result = result + (low as u64) * pow;
            proof {
                acc = acc + (low as int) * pow128(k as nat);
            }
        }
        if b < 128 {
            proof {
                if k < 9 {
                    assert(result == acc % 0x1_0000_0000_0000_0000);
                }
                assert(varint_at(s, p as int, (10 - k) as nat) == Some((b as int, p + 1)));
                assert(pow128(k as nat) * (b as int) == (low as int) * pow128(k as nat))
                    by (nonlinear_arith)
                    requires
                        b == low,
                ;
                assert(varint_at(s, pos as int, 10) matches Some(ve) && ve.0 == acc && ve.1 == p
                    + 1);
            }
            return Ok((result, p + 1));
        }
        proof {
            let inner = varint_at(s, p + 1, (10 - (k + 1)) as nat);
            assert(varint_at(s, p as int, (10 - k) as nat) == (match inner {
                None => None::<(int, int)>,
                Some(ve) => Some(((s[p as int] - 128) + 128 * ve.0, ve.1)),
            }));
            if let Some(ve) = inner {
                assert(acc + pow128((k + 1) as nat) * ve.0 == (acc - low * pow128(k as nat))
                    + pow128(k as nat) * ((b - 128) + 128 * ve.0)) by (nonlinear_arith)
                    requires
                        pow128((k + 1) as nat) == 128 * pow128(k as nat),
                        low == b % 128,
                        b >= 128,
                        b < 256,
                ;
            }
        }
        if k < 9 {
            assert(pow128((k + 1) as nat) == 128 * pow128(k as nat));
            assert(128 * pow128(k as nat) <= pow128(9)) by {
                lemma_pow128_mono((k + 1) as nat, 9);
            }
            assert(pow128(9) == 0x8000_0000_0000_0000) by { reveal_with_fuel(pow128, 11); }
            pow = pow * 128;
        }
        k = k + 1;
        p = p + 1;
    }
}

/// The low 32 bits of the unsigned varint at `pos`.
pub fn parse_varint_u32(d: &Vec<u8>, pos: usize) -> (r: Result<(u32, usize), EventPipeError>)
    ensures
        varint_at(d@, pos as int, 10) matches Some(ve) ==> (r matches Ok((v, end)) && v == ve.0
            % 0x1_0000_0000 && end == ve.1),
        varint_at(d@, pos as int, 10) is None ==> (r matches Err(e) && e is Truncated),
{
    match parse_varint_u64(d, pos) {
        Ok((v, end)) => {
            let t = (v % 0x1_0000_0000) as u32;
            proof {
                lemma_varint_at_nonneg(d@, pos as int, 10);
                if let Some(ve) = varint_at(d@, pos as int, 10) {
                    vstd::arithmetic::div_mod::lemma_mod_mod(ve.0, 0x1_0000_0000, 0x1_0000_0000);
                    assert(0x1_0000_0000 * 0x1_0000_0000 == 0x1_0000_0000_0000_0000int);
                    assert((ve.0 % 0x1_0000_0000_0000_0000) % 0x1_0000_0000 == ve.0
                        % 0x1_0000_0000);
                }
            }
            Ok((t, end))
        },
        Err(e) => Err(e),
    }
}

/// The signed reading of a 64-bit pattern: two's complement, not zig-zag.
pub open spec fn i64_from_bits(v: u64) -> int {
    if v < 0x8000_0000_0000_0000 {
        v as int
    } else {
        v - 0x1_0000_0000_0000_0000
    }
}

/// The signed reading of a 32-bit pattern.
pub open spec fn i32_from_bits(v: u32) -> int {
    if v < 0x8000_0000 {
        v as int
    } else {
        v - 0x1_0000_0000
    }
}

/// Unsigned varint whose 64-bit pattern is reinterpreted as two's complement.
pub fn parse_varint_i64(d: &Vec<u8>, pos: usize) -> (r: Result<(i64, usize), EventPipeError>)
    ensures
        varint_at(d@, pos as int, 10) matches Some(ve) ==> (r matches Ok((v, end)) && v
            == i64_from_bits((ve.0 % 0x1_0000_0000_0000_0000) as u64) && end == ve.1),
        varint_at(d@, pos as int, 10) is None ==> (r matches Err(e) && e is Truncated),
{
    match parse_varint_u64(d, pos) {
        Ok((v, end)) => {
            let r: i64 = if v < 0x8000_0000_0000_0000 {
                v as i64
            } else {
                -((0xFFFF_FFFF_FFFF_FFFFu64 - v) as i64) - 1
            };
            Ok((r, end))
        },
        Err(e) => Err(e),
    }
}

/// Unsigned varint truncated to 32 bits, reinterpreted as two's complement.
pub fn parse_varint_i32(d: &Vec<u8>, pos: usize) -> (r: Result<(i32, usize), EventPipeError>)
    ensures
        varint_at(d@, pos as int, 10) matches Some(ve) ==> (r matches Ok((v, end)) && v
            == i32_from_bits((ve.0 % 0x1_0000_0000) as u32) && end == ve.1),
        varint_at(d@, pos as int, 10) is None ==> (r matches Err(e) && e is Truncated),
{
    match parse_varint_u32(d, pos) {
        Ok((v, end)) => {
            let r: i32 = if v < 0x8000_0000 {
                v as i32
            } else {
                -((0xFFFF_FFFFu32 - v) as i32) - 1
            };
            Ok((r, end))
        },
        Err(e) => Err(e),
    }
}

/// Writes the canonical varint encoding of `x` onto the end of `out`.
pub fn encode_varint_u64(x: u64, out: &mut Vec<u8>)
    ensures
        final(out)@ == old(out)@ + varint_encode(x as nat),
{
    let mut v = x;
    loop
        invariant
            varint_encode(x as nat) == out@.subrange(old(out)@.len() as int, out@.len() as int)
                + varint_encode(v as nat),
            out@.subrange(0, old(out)@.len() as int) == old(out)@,
            old(out)@.len() <= out@.len(),
        decreases v,
    {
        if v < 128 {
            out.push(v as u8);
            assert(final(out)@ == old(out)@ + varint_encode(x as nat));
            return ;
        } else {
            out.push((v % 128 + 128) as u8);
            v = v / 128;
        }
    }
}

} // verus!
