//! Text decoding for the wire format: NUL-terminated little-endian UTF-16
//! strings (metadata and payload strings) and the short ASCII names of the
//! object stream, plus the hexadecimal and decimal digit printers the
//! normalizer uses for placeholder names.
use vstd::prelude::*;

use crate::EventPipeError;
use crate::bytes::{le_bytes, read_u16};

verus! {

/// Relies on char::from_u32: `Some` exactly for Unicode scalar values, and
/// the returned character has the given code point.
#[verifier::external_body]
pub fn char_from_u32(v: u32) -> (r: Option<char>)
    ensures
        r matches Some(c) ==> c as u32 == v,
        (r is Some) <==> (v < 0xD800 || (0xE000 <= v && v <= 0x10FFFF)),
{
    char::from_u32(v)
}

/// Relies on String::push: appends exactly one character.
#[verifier::external_body]
pub fn push_char(s: &mut String, c: char)
    ensures
        final(s)@ == old(s)@.push(c),
{
    s.push(c);
}

/// The UTF-16 code units read little-endian from `i` up to and excluding the
/// first NUL unit, together with the position just past the NUL; `None` when
/// the buffer ends before a NUL unit.
pub open spec fn utf16z_units_at(s: Seq<u8>, i: int) -> Option<(Seq<u16>, int)>
    decreases s.len() - i,
{
    if i < 0 || i + 2 > s.len() {
        None
    } else {
        let u = le_bytes(s, i, 2) as u16;
        if u == 0 {
            Some((Seq::empty(), i + 2))
        } else {
            match utf16z_units_at(s, i + 2) {
                None => None,
                Some(rest) => Some((seq![u] + rest.0, rest.1)),
            }
        }
    }
}

/// The Unicode scalar values that a UTF-16 unit sequence denotes: surrogate
/// pairs combine, lone surrogates become the replacement character U+FFFD.
pub open spec fn utf16_scalars(u: Seq<u16>) -> Seq<u32>
    decreases u.len(),
{
    if u.len() == 0 {
        Seq::empty()
    } else if 0xD800 <= u[0] < 0xDC00 && u.len() >= 2 && 0xDC00 <= u[1] < 0xE000 {
        seq![(0x10000 + (u[0] - 0xD800) * 0x400 + (u[1] - 0xDC00)) as u32] + utf16_scalars(
            u.skip(2),
        )
    } else if 0xD800 <= u[0] < 0xE000 {
        seq![0xFFFDu32] + utf16_scalars(u.skip(1))
    } else {
        seq![u[0] as u32] + utf16_scalars(u.skip(1))
    }
}

/// The code points of a character sequence.
pub open spec fn scalars_of(cs: Seq<char>) -> Seq<u32> {
    cs.map_values(|c: char| c as u32)
}


/// The NUL-terminated UTF-16 string at `i`, as Unicode scalar values, with
/// the position just past the NUL.
pub open spec fn wstring_at(s: Seq<u8>, i: int) -> Option<(Seq<u32>, int)> {
    match utf16z_units_at(s, i) {
        None => None,
        Some(ue) => Some((utf16_scalars(ue.0), ue.1)),
    }
}

/// Reads little-endian UTF-16 code units up to and excluding the first NUL.
fn read_utf16z_units(d: &Vec<u8>, pos: usize) -> (r: Result<(Vec<u16>, usize), EventPipeError>)
    ensures
        utf16z_units_at(d@, pos as int) matches Some(ue) ==> (r matches Ok((units, end))
            && units@ == ue.0 && end == ue.1),
        utf16z_units_at(d@, pos as int) is None ==> (r matches Err(e) && e is Truncated),
{
    let ghost dv = d@;
    let mut units: Vec<u16> = Vec::new();
    let mut p = pos;
    loop
        invariant
            dv == d@,
            pos <= p,
            utf16z_units_at(dv, p as int) matches Some(rest) ==> (utf16z_units_at(dv, pos as int)
                matches Some(whole) && whole.0 == units@ + rest.0 && whole.1 == rest.1),
            utf16z_units_at(dv, p as int) is None ==> utf16z_units_at(dv, pos as int) is None,
        decreases dv.len() + 2 - p,
    {
        let u = match read_u16(d, p) {
            Ok((u, _)) => u,
            Err(_) => {
                return Err(EventPipeError::Truncated);
            },
        };
        if u == 0 {
            assert(utf16z_units_at(dv, p as int) == Some((Seq::<u16>::empty(), p + 2)));
            assert(units@ + Seq::<u16>::empty() == units@);
            return Ok((units, p + 2));
        }
        proof {
            if let Some(rest) = utf16z_units_at(dv, p + 2) {
                assert(utf16z_units_at(dv, p as int) == Some((seq![u] + rest.0, rest.1)));
                assert(units@.push(u) + rest.0 == units@ + (seq![u] + rest.0));
            }
        }
        units.push(u);
        p = p + 2;
    }
}

/// Reads a NUL-terminated UTF-16 string and decodes it, lone surrogates
/// becoming U+FFFD. A buffer whose first unit is NUL decodes to the empty
/// string.
pub fn parse_null_wide_string_to_string(d: &Vec<u8>, pos: usize) -> (r: Result<
    (String, usize),
    EventPipeError,
>)
    ensures
        utf16z_units_at(d@, pos as int) matches Some(ue) ==> (r matches Ok((s, end)) && scalars_of(
            s@,
        ) == utf16_scalars(ue.0) && end == ue.1),
        utf16z_units_at(d@, pos as int) is None ==> (r matches Err(e) && e is Truncated),
{
    let (units, end) = match read_utf16z_units(d, pos) {
        Ok(ue) => ue,
        Err(e) => {
            return Err(e);
        },
    };
    let ghost full = units@;
    let mut out = String::new();
    proof {
        assert(full.skip(0) == full);
        assert(scalars_of(out@) + utf16_scalars(full) == utf16_scalars(full));
    }
    let mut i: usize = 0;
    while i < units.len()
        invariant
            units@ == full,
            i <= full.len(),
            utf16_scalars(full) == scalars_of(out@) + utf16_scalars(full.skip(i as int)),
        decreases units@.len() - i,
    {
        let u0 = units[i];
        let ghost tail = full.skip(i as int);
        assert(tail[0] == full[i as int]);
        if 0xD800 <= u0 && u0 < 0xDC00 && i + 1 < units.len() && 0xDC00 <= units[i + 1]
            && units[i + 1] < 0xE000 {
            let u1 = units[i + 1];
            assert(tail[1] == full[i + 1]);
            let v: u32 = 0x10000 + (u0 as u32 - 0xD800) * 0x400 + (u1 as u32 - 0xDC00);
            let c = match char_from_u32(v) {
                Some(c) => c,
                None => vstd::pervasive::unreached(),
            };
            proof {
                assert(tail.skip(2) == full.skip(i + 2));
                assert(scalars_of(out@.push(c)) == scalars_of(out@) + seq![c as u32]);
            }
            push_char(&mut out, c);
            i = i + 2;
        } else if 0xD800 <= u0 && u0 < 0xE000 {
            let c = '\u{FFFD}';
            proof {
                assert(c as u32 == 0xFFFD);
                assert(tail.skip(1) == full.skip(i + 1));
                assert(scalars_of(out@.push(c)) == scalars_of(out@) + seq![c as u32]);
            }
            push_char(&mut out, c);
            i = i + 1;
        } else {
            let c = match char_from_u32(u0 as u32) {
                Some(c) => c,
                None => vstd::pervasive::unreached(),
            };
            proof {
                assert(tail.skip(1) == full.skip(i + 1));
                assert(scalars_of(out@.push(c)) == scalars_of(out@) + seq![c as u32]);
            }
            push_char(&mut out, c);
            i = i + 1;
        }
    }
    proof {
        assert(full.skip(full.len() as int) == Seq::<u16>::empty());
        assert(scalars_of(out@) + Seq::<u32>::empty() == scalars_of(out@));
    }
    Ok((out, end))
}

/// A UTF-16 buffer whose first code unit is NUL decodes to the empty
/// string: no characters, no replacement characters.
pub proof fn lemma_empty_wstring(s: Seq<u8>, i: int)
    requires
        0 <= i,
        i + 2 <= s.len(),
        le_bytes(s, i, 2) == 0,
    ensures
        wstring_at(s, i) == Some((Seq::<u32>::empty(), i + 2)),
{
    assert(utf16z_units_at(s, i) == Some((Seq::<u16>::empty(), i + 2)));
    assert(utf16_scalars(Seq::<u16>::empty()) =~= Seq::<u32>::empty());
}

/// String equality by view; `b` is usually a literal.
pub fn str_eq(a: &String, b: &str) -> (r: bool)
    ensures
        r == (a@ == b@),
{
    let bs = b.to_owned();
    a.eq(&bs)
}

/// Equality of two owned strings by view.
pub fn string_eq(a: &String, b: &String) -> (r: bool)
    ensures
        r == (a@ == b@),
{
    a.eq(b)
}

/// The character for one hexadecimal digit.
pub open spec fn hex_digit(n: int) -> char {
    if n == 0 {
        '0'
    } else if n == 1 {
        '1'
    } else if n == 2 {
        '2'
    } else if n == 3 {
        '3'
    } else if n == 4 {
        '4'
    } else if n == 5 {
        '5'
    } else if n == 6 {
        '6'
    } else if n == 7 {
        '7'
    } else if n == 8 {
        '8'
    } else if n == 9 {
        '9'
    } else if n == 10 {
        'a'
    } else if n == 11 {
        'b'
    } else if n == 12 {
        'c'
    } else if n == 13 {
        'd'
    } else if n == 14 {
        'e'
    } else {
        'f'
    }
}

/// Lowercase hexadecimal digits of `n`, most significant first, no leading
/// zeroes, a single `0` for zero.
pub open spec fn hex_str(n: int) -> Seq<char>
    decreases n,
{
    if n < 16 {
        seq![hex_digit(if n < 0 { 0 } else { n })]
    } else {
        hex_str(n / 16) + seq![hex_digit(n % 16)]
    }
}

/// Decimal digits of `n`, most significant first.
pub open spec fn dec_str(n: int) -> Seq<char>
    decreases n,
{
    if n < 10 {
        seq![hex_digit(if n < 0 { 0 } else { n })]
    } else {
        dec_str(n / 10) + seq![hex_digit(n % 10)]
    }
}

fn hex_digit_char(n: u64) -> (c: char)
    requires
        n < 16,
    ensures
        c == hex_digit(n as int),
{
    if n == 0 {
        '0'
    } else if n == 1 {
        '1'
    } else if n == 2 {
        '2'
    } else if n == 3 {
        '3'
    } else if n == 4 {
        '4'
    } else if n == 5 {
        '5'
    } else if n == 6 {
        '6'
    } else if n == 7 {
        '7'
    } else if n == 8 {
        '8'
    } else if n == 9 {
        '9'
    } else if n == 10 {
        'a'
    } else if n == 11 {
        'b'
    } else if n == 12 {
        'c'
    } else if n == 13 {
        'd'
    } else if n == 14 {
        'e'
    } else {
        'f'
    }
}

/// Appends the lowercase hexadecimal digits of `n`.
pub fn push_hex(n: u64, out: &mut String)
    ensures
        final(out)@ == old(out)@ + hex_str(n as int),
    decreases n,
{
    if n >= 16 {
        push_hex(n / 16, out);
    }
    let c = hex_digit_char(n % 16);
    proof {
        if n < 16 {
            assert(old(out)@ + hex_str(n as int) == old(out)@.push(hex_digit(n as int)));
        } else {
            assert(old(out)@ + hex_str(n as int) == (old(out)@ + hex_str(n as int / 16)).push(
                hex_digit(n as int % 16),
            ));
        }
    }
    push_char(out, c);
}

/// Appends the decimal digits of `n`.
pub fn push_dec(n: u64, out: &mut String)
    ensures
        final(out)@ == old(out)@ + dec_str(n as int),
    decreases n,
{
    if n >= 10 {
        push_dec(n / 10, out);
    }
    let c = hex_digit_char(n % 10);
    proof {
        if n < 10 {
            assert(old(out)@ + dec_str(n as int) == old(out)@.push(hex_digit(n as int)));
        } else {
            assert(old(out)@ + dec_str(n as int) == (old(out)@ + dec_str(n as int / 10)).push(
                hex_digit(n as int % 10),
            ));
        }
    }
    push_char(out, c);
}

} // verus!
