//! Numeric literals, read by nom's scanners.
//!
//! What text each scanner accepts and how far it reads is stated here;
//! the value of a floating-point literal is named, not stated.

use crate::parser::{ErrorKind, Outcome};
use vstd::prelude::*;

verus! {

/// An ASCII decimal digit.
pub open spec fn is_digit(c: u8) -> bool {
    '0' as u8 <= c <= '9' as u8
}

/// The end of the run of digits that starts at `i`.
pub open spec fn digits_end(b: Seq<u8>, i: int) -> int
    decreases b.len() - i,
{
    if 0 <= i < b.len() && is_digit(b[i]) {
        digits_end(b, i + 1)
    } else {
        i
    }
}

/// The run of digits ends where a non-digit or the end stands.
pub proof fn lemma_digits_end(b: Seq<u8>, i: int)
    requires
        0 <= i <= b.len(),
    ensures
        i <= digits_end(b, i) <= b.len(),
        forall|k: int| i <= k < digits_end(b, i) ==> is_digit(#[trigger] b[k]),
    decreases b.len() - i,
{
    if i < b.len() && is_digit(b[i]) {
        lemma_digits_end(b, i + 1);
    }
}

/// A decimal integer ends on a digit.
pub proof fn lemma_decimal_ends_on_digit(t: Seq<u8>)
    ensures
        match decimal(t) {
            Some((e, _)) => 0 < e <= t.len() && t[e - 1] < 128,
            None => true,
        },
{
    let s = sign_len(t, 0);
    if decimal(t) is Some {
        lemma_digits_end(t, s);
    }
}

/// The value of the digits in `b[i..j]`.
pub open spec fn digits_value(b: Seq<u8>, i: int, j: int) -> nat
    decreases j - i,
{
    if j <= i {
        0
    } else {
        digits_value(b, i, j - 1) * 10 + (b[j - 1] - '0' as u8) as nat
    }
}

/// 1 where a sign stands at `i`, else 0.
pub open spec fn sign_len(b: Seq<u8>, i: int) -> int {
    if 0 <= i < b.len() && (b[i] == '+' as u8 || b[i] == '-' as u8) {
        1
    } else {
        0
    }
}

/// A decimal integer at the start of `t`: an optional sign and the longest
/// run of digits after it, which must not be empty. Gives the end of the
/// digits and the value.
pub open spec fn decimal(t: Seq<u8>) -> Option<(int, int)> {
    let s = sign_len(t, 0);
    let e = digits_end(t, s);
    let magnitude = digits_value(t, s, e) as int;
    if e > s {
        Some((e, if s == 1 && t[0] == '-' as u8 { -magnitude } else { magnitude }))
    } else {
        None
    }
}

/// A decimal integer at the start of `t` whose value lies in `lo..=hi`.
pub open spec fn decimal_in(t: Seq<u8>, lo: int, hi: int) -> Option<(int, int)> {
    match decimal(t) {
        Some((e, v)) => if lo <= v <= hi {
            Some((e, v))
        } else {
            None
        },
        None => None,
    }
}

/// `c` with an ASCII upper-case letter made lower-case.
pub open spec fn ascii_lower(c: u8) -> u8 {
    if 'A' as u8 <= c <= 'Z' as u8 {
        (c + 32) as u8
    } else {
        c
    }
}

/// `t` starts with the lower-case word `w`, letters in any case.
pub open spec fn starts_with_no_case(t: Seq<u8>, w: Seq<u8>) -> bool {
    w.len() <= t.len() && forall|k: int| 0 <= k < w.len() ==> ascii_lower(#[trigger] t[k]) == w[k]
}

/// The word `nan`.
pub const NAN_WORD: [u8; 3] = ['n' as u8, 'a' as u8, 'n' as u8];

/// The word `inf`.
pub const INF_WORD: [u8; 3] = ['i' as u8, 'n' as u8, 'f' as u8];

/// The end of the mantissa of a floating-point literal that starts at the
/// beginning of `t`: digits with an optional fraction, or a fraction alone;
/// `-1` where there is none.
pub open spec fn mantissa_end(t: Seq<u8>) -> int {
    let s = sign_len(t, 0);
    let d = digits_end(t, s);
    if d > s {
        if d < t.len() && t[d] == '.' as u8 {
            digits_end(t, d + 1)
        } else {
            d
        }
    } else if s < t.len() && t[s] == '.' as u8 && digits_end(t, s + 1) > s + 1 {
        digits_end(t, s + 1)
    } else {
        -1
    }
}

/// How far a floating-point literal at the start of `t` reaches: a
/// mantissa with an optional exponent, whose digits are required once its
/// `e` is seen, else the words `nan` or `inf` in any case.
pub open spec fn float_literal(t: Seq<u8>) -> Outcome<()> {
    let m = mantissa_end(t);
    if m < 0 {
        if starts_with_no_case(t, NAN_WORD@) || starts_with_no_case(t, INF_WORD@) {
            Outcome::Parsed(3, ())
        } else {
            Outcome::Rejected
        }
    } else if m < t.len() && (t[m] == 'e' as u8 || t[m] == 'E' as u8) {
        let s = m + 1 + sign_len(t, m + 1);
        let e = digits_end(t, s);
        if e > s {
            Outcome::Parsed(e, ())
        } else {
            Outcome::Failed
        }
    } else {
        Outcome::Parsed(m, ())
    }
}

/// A floating-point literal ends on an ASCII byte.
pub proof fn lemma_float_literal_ends_ascii(t: Seq<u8>)
    ensures
        match float_literal(t) {
            Outcome::Parsed(e, _) => 0 < e <= t.len() && t[e - 1] < 128,
            _ => true,
        },
{
    let s = sign_len(t, 0);
    lemma_digits_end(t, s);
    let d = digits_end(t, s);
    if d > s && d < t.len() && t[d] == '.' as u8 {
        lemma_digits_end(t, d + 1);
    }
    if d <= s && s < t.len() && t[s] == '.' as u8 {
        lemma_digits_end(t, s + 1);
    }
    let m = mantissa_end(t);
    if m < 0 {
        if starts_with_no_case(t, NAN_WORD@) {
            assert(ascii_lower(t[2]) == NAN_WORD@[2]);
        } else if starts_with_no_case(t, INF_WORD@) {
            assert(ascii_lower(t[2]) == INF_WORD@[2]);
        }
    } else if m < t.len() && (t[m] == 'e' as u8 || t[m] == 'E' as u8) {
        lemma_digits_end(t, m + 1 + sign_len(t, m + 1));
    }
}

/// The bit pattern of the 64-bit floating-point number that Rust's parser
/// reads from the literal `text`.
pub uninterp spec fn f64_bits_of(text: Seq<u8>) -> u64;

/// The bit pattern of the 32-bit floating-point number that Rust's parser
/// reads from the literal `text`.
pub uninterp spec fn f32_bits_of(text: Seq<u8>) -> u32;

/// Relies on nom::character::complete::i32: an optional sign and the
/// longest run of digits, rejected when empty or out of range. Returns the
/// length of what is left.
#[verifier::external_body]
pub(crate) fn scan_i32(t: &[u8]) -> (r: Option<(usize, i32)>)
    ensures
        match decimal_in(t@, i32::MIN as int, i32::MAX as int) {
            Some((e, v)) => r == Some(((t@.len() - e) as usize, v as i32)),
            None => r is None,
        },
{
    nom::character::complete::i32::<&[u8], nom::error::Error<&[u8]>>(t).ok().map(
        |(rest, v)| (rest.len(), v),
    )
}

/// Relies on nom::character::complete::i64: an optional sign and the
/// longest run of digits, rejected when empty or out of range. Returns the
/// length of what is left.
#[verifier::external_body]
pub(crate) fn scan_i64(t: &[u8]) -> (r: Option<(usize, i64)>)
    ensures
        match decimal_in(t@, i64::MIN as int, i64::MAX as int) {
            Some((e, v)) => r == Some(((t@.len() - e) as usize, v as i64)),
            None => r is None,
        },
{
    nom::character::complete::i64::<&[u8], nom::error::Error<&[u8]>>(t).ok().map(
        |(rest, v)| (rest.len(), v),
    )
}

/// Relies on nom::number::complete::double: it recognises the literal as
/// `float_literal` says and parses it with Rust's parser for 64-bit floats, which
/// accepts every text so recognised. Returns the length of what is left
/// and the bit pattern of the number.
#[verifier::external_body]
pub(crate) fn scan_f64(t: &[u8]) -> (r: Result<(usize, u64), ErrorKind>)
    ensures
        match float_literal(t@) {
            Outcome::Parsed(e, _) => r == Ok::<(usize, u64), ErrorKind>(
                ((t@.len() - e) as usize, f64_bits_of(t@.subrange(0, e))),
            ),
            Outcome::Rejected => r == Err::<(usize, u64), ErrorKind>(ErrorKind::Error),
            Outcome::Failed => r == Err::<(usize, u64), ErrorKind>(ErrorKind::Failure),
        },
{
    match nom::number::complete::double::<&[u8], nom::error::Error<&[u8]>>(t) {
        Ok((rest, v)) => Ok((rest.len(), v.to_bits())),
        Err(nom::Err::Failure(_)) => Err(ErrorKind::Failure),
        Err(_) => Err(ErrorKind::Error),
    }
}

/// Relies on nom::number::complete::float: it recognises the literal as
/// `float_literal` says and parses it with Rust's parser for 32-bit floats, which
/// accepts every text so recognised. Returns the length of what is left
/// and the bit pattern of the number.
#[verifier::external_body]
pub(crate) fn scan_f32(t: &[u8]) -> (r: Result<(usize, u32), ErrorKind>)
    ensures
        match float_literal(t@) {
            Outcome::Parsed(e, _) => r == Ok::<(usize, u32), ErrorKind>(
                ((t@.len() - e) as usize, f32_bits_of(t@.subrange(0, e))),
            ),
            Outcome::Rejected => r == Err::<(usize, u32), ErrorKind>(ErrorKind::Error),
            Outcome::Failed => r == Err::<(usize, u32), ErrorKind>(ErrorKind::Failure),
        },
{
    match nom::number::complete::float::<&[u8], nom::error::Error<&[u8]>>(t) {
        Ok((rest, v)) => Ok((rest.len(), v.to_bits())),
        Err(nom::Err::Failure(_)) => Err(ErrorKind::Failure),
        Err(_) => Err(ErrorKind::Error),
    }
}

} // verus!
