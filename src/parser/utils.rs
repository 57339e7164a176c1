//! Rules shared by the rest of the grammar: whitespace, keywords,
//! identifiers, quoted strings, types and indices.

use crate::ast::{Index, IndexModel, NumericalType, Type};
use crate::parser::literal::{decimal_in, scan_i64};
use crate::parser::{agrees, bytes_of, finish, str_agrees, Context, ErrorKind, IResult, Outcome, ParseError};
use vstd::prelude::*;
use vstd::string::StringSliceAdditionalSpecFns;
use vstd::utf8::*;

verus! {

/// Space, tab, carriage return or line feed.
pub open spec fn is_ws(c: u8) -> bool {
    c == ' ' as u8 || c == '\t' as u8 || c == '\r' as u8 || c == '\n' as u8
}

/// The end of the whitespace that starts at `i`.
pub open spec fn ws_end(b: Seq<u8>, i: int) -> int
    decreases b.len() - i,
{
    if 0 <= i < b.len() && is_ws(b[i]) {
        ws_end(b, i + 1)
    } else {
        i
    }
}

/// `b` holds the bytes of `t` at `i`.
pub open spec fn has_tag(b: Seq<u8>, i: int, t: Seq<u8>) -> bool {
    0 <= i && i + t.len() <= b.len() && b.subrange(i, i + t.len()) == t
}

/// A byte that may stand in an identifier: an ASCII letter or digit, or
/// one of ``! # $ % & * + - . / : < = > ? @ \ ^ _ ` | ~``.
pub open spec fn is_identifier_char(c: u8) -> bool {
    ||| '0' as u8 <= c <= '9' as u8
    ||| 'a' as u8 <= c <= 'z' as u8
    ||| 'A' as u8 <= c <= 'Z' as u8
    ||| c == '!' as u8 || c == '#' as u8 || c == '$' as u8 || c == '%' as u8
    ||| c == '&' as u8 || c == '*' as u8 || c == '+' as u8 || c == '-' as u8
    ||| c == '.' as u8 || c == '/' as u8 || c == ':' as u8 || c == '<' as u8
    ||| c == '=' as u8 || c == '>' as u8 || c == '?' as u8 || c == '@' as u8
    ||| c == '\\' as u8 || c == '^' as u8 || c == '_' as u8 || c == '`' as u8
    ||| c == '|' as u8 || c == '~' as u8
}

/// The end of the run of identifier bytes that starts at `i`.
pub open spec fn identifier_end(b: Seq<u8>, i: int) -> int
    decreases b.len() - i,
{
    if 0 <= i < b.len() && is_identifier_char(b[i]) {
        identifier_end(b, i + 1)
    } else {
        i
    }
}

/// The text that the bytes `b[i..j]` encode.
pub open spec fn text(b: Seq<u8>, i: int, j: int) -> Seq<char> {
    decode_utf8(b.subrange(i, j))
}

/// An identifier: `$` and at least one identifier byte. Its value is the
/// text after the `$`.
pub open spec fn identifier_rule(b: Seq<u8>, i: int) -> Outcome<Seq<char>> {
    let e = identifier_end(b, i + 1);
    if 0 <= i < b.len() && b[i] == '$' as u8 && e > i + 1 {
        Outcome::Parsed(e, text(b, i + 1, e))
    } else {
        Outcome::Rejected
    }
}

/// The end of the body of a quoted string that starts at `i`: bytes other
/// than `\` and `"`, and `\"` pairs.
pub open spec fn string_body_end(b: Seq<u8>, i: int) -> int
    decreases b.len() - i,
{
    if 0 <= i < b.len() && b[i] != '\\' as u8 && b[i] != '"' as u8 {
        string_body_end(b, i + 1)
    } else if 0 <= i && i + 1 < b.len() && b[i] == '\\' as u8 && b[i + 1] == '"' as u8 {
        string_body_end(b, i + 2)
    } else {
        i
    }
}

/// A quoted string: `"`, its body and `"`. Its value is the text of the
/// body as written, escapes included.
pub open spec fn string_rule(b: Seq<u8>, i: int) -> Outcome<Seq<char>> {
    let e = string_body_end(b, i + 1);
    if 0 <= i < b.len() && b[i] == '"' as u8 && e < b.len() && b[e] == '"' as u8 && valid_utf8(
        b.subrange(i + 1, e),
    ) {
        Outcome::Parsed(e + 1, text(b, i + 1, e))
    } else {
        Outcome::Rejected
    }
}

/// A quoted string whose body runs to the end of the input, or stops at a
/// `\` that does not escape a `"`, is rejected.
pub proof fn lemma_unterminated_string(b: Seq<u8>, i: int)
    requires
        0 <= i < b.len(),
        b[i] == '"' as u8,
        string_body_end(b, i + 1) == b.len() || b[string_body_end(b, i + 1)] == '\\' as u8,
    ensures
        string_rule(b, i) == Outcome::<Seq<char>>::Rejected,
{
}

pub const I32_TAG: [u8; 3] = ['i' as u8, '3' as u8, '2' as u8];

pub const I64_TAG: [u8; 3] = ['i' as u8, '6' as u8, '4' as u8];

pub const F32_TAG: [u8; 3] = ['f' as u8, '3' as u8, '2' as u8];

pub const F64_TAG: [u8; 3] = ['f' as u8, '6' as u8, '4' as u8];

/// One of `i32`, `i64`, `f32`, `f64`.
pub open spec fn numerical_type_rule(b: Seq<u8>, i: int) -> Outcome<NumericalType> {
    if has_tag(b, i, I32_TAG@) {
        Outcome::Parsed(i + 3, NumericalType::Int32)
    } else if has_tag(b, i, I64_TAG@) {
        Outcome::Parsed(i + 3, NumericalType::Int64)
    } else if has_tag(b, i, F32_TAG@) {
        Outcome::Parsed(i + 3, NumericalType::Float32)
    } else if has_tag(b, i, F64_TAG@) {
        Outcome::Parsed(i + 3, NumericalType::Float64)
    } else {
        Outcome::Rejected
    }
}

/// A value type.
pub open spec fn type_rule(b: Seq<u8>, i: int) -> Outcome<Type> {
    numerical_type_rule(b, i).map(|t: NumericalType| Type::Numerical(t))
}

/// An index: an identifier, else a decimal integer in the range of `i64`.
pub open spec fn index_rule(b: Seq<u8>, i: int) -> Outcome<IndexModel> {
    match identifier_rule(b, i) {
        Outcome::Parsed(e, s) => Outcome::Parsed(e, IndexModel::Identifier(s)),
        _ => match decimal_in(b.subrange(i, b.len() as int), i64::MIN as int, i64::MAX as int) {
            Some((e, v)) => Outcome::Parsed(i + e, IndexModel::Numerical(v as i64)),
            None => Outcome::Rejected,
        },
    }
}

/// `inner` between parentheses: `(`, whitespace, `inner`, whitespace and
/// `)`. Once `inner` has matched, a missing `)` is a failure.
pub open spec fn enclosed<V>(b: Seq<u8>, i: int, inner: spec_fn(int) -> Outcome<V>) -> Outcome<V> {
    if 0 <= i < b.len() && b[i] == '(' as u8 {
        match inner(ws_end(b, i + 1)) {
            Outcome::Parsed(k, v) => {
                let m = ws_end(b, k);
                if 0 <= m < b.len() && b[m] == ')' as u8 {
                    Outcome::Parsed(m + 1, v)
                } else {
                    Outcome::Failed
                }
            },
            Outcome::Rejected => Outcome::Rejected,
            Outcome::Failed => Outcome::Failed,
        }
    } else {
        Outcome::Rejected
    }
}

/// `item` repeated as often as it matches and consumes something; a
/// failure of `item` is passed on.
pub open spec fn many<V>(b: Seq<u8>, i: int, item: spec_fn(int) -> Outcome<V>) -> Outcome<Seq<V>>
    decreases b.len() - i,
{
    match item(i) {
        Outcome::Parsed(k, v) => if i < k <= b.len() {
            many(b, k, item).map(|vs: Seq<V>| seq![v] + vs)
        } else {
            Outcome::Rejected
        },
        Outcome::Rejected => Outcome::Parsed(i, seq![]),
        Outcome::Failed => Outcome::Failed,
    }
}

/// `o` with `acc` put before the values it built.
pub open spec fn prepend<V>(acc: Seq<V>, o: Outcome<Seq<V>>) -> Outcome<Seq<V>> {
    o.map(|vs: Seq<V>| acc + vs)
}

/// One more item moves from what is left to what was built.
pub proof fn lemma_prepend_step<V>(acc: Seq<V>, v: V, rest: Outcome<Seq<V>>)
    ensures
        prepend(acc, rest.map(|vs: Seq<V>| seq![v] + vs)) == prepend(acc.push(v), rest),
{
    match rest {
        Outcome::Parsed(k, vs) => {
            assert(acc + (seq![v] + vs) =~= acc.push(v) + vs);
        },
        _ => {},
    }
}

/// An optional identifier at `i`: where there is none, the position stays.
pub open spec fn optional_identifier(b: Seq<u8>, i: int) -> (int, Option<Seq<char>>) {
    match identifier_rule(b, i) {
        Outcome::Parsed(e, s) => (e, Some(s)),
        _ => (i, None),
    }
}

/// An error of the given kind at `pos`, in no rule yet.
pub(crate) fn error_at(kind: ErrorKind, pos: usize) -> (e: ParseError)
    ensures
        e.kind == kind,
{
    ParseError { kind, position: pos, context: Vec::new() }
}

/// Records that `e` happened inside the rule `c`.
pub(crate) fn within(e: ParseError, c: Context) -> (r: ParseError)
    ensures
        r.kind == e.kind,
{
    let mut e = e;
    e.context.push(c);
    e
}

/// Skips whitespace.
pub(crate) fn skip_ws(b: &[u8], pos: usize) -> (r: usize)
    requires
        pos <= b@.len() <= usize::MAX,
    ensures
        r == ws_end(b@, pos as int),
        pos <= r <= b@.len(),
        r == pos || b@[r - 1] < 128,
{
    let mut i = pos;
    while i < b.len() && (b[i] == ' ' as u8 || b[i] == '\t' as u8 || b[i] == '\r' as u8 || b[i]
        == '\n' as u8)
        invariant
            pos <= i <= b@.len(),
            ws_end(b@, i as int) == ws_end(b@, pos as int),
            i == pos || b@[i - 1] < 128,
        decreases b@.len() - i,
    {
        i = i + 1;
    }
    i
}

/// Whether the bytes of `t` stand at `pos`.
pub(crate) fn tag_at(b: &[u8], pos: usize, t: &[u8]) -> (r: bool)
    requires
        pos <= b@.len() <= usize::MAX,
    ensures
        r == has_tag(b@, pos as int, t@),
{
    if t.len() > b.len() - pos {
        return false;
    }
    let mut k: usize = 0;
    while k < t.len()
        invariant
            k <= t@.len(),
            pos + t@.len() <= b@.len() <= usize::MAX,
            forall|m: int| 0 <= m < k ==> b@[pos + m] == t@[m],
        decreases t@.len() - k,
    {
        if b[pos + k] != t[k] {
            assert(b@.subrange(pos as int, pos + t@.len())[k as int] != t@[k as int]);
            return false;
        }
        k = k + 1;
    }
    assert(b@.subrange(pos as int, pos + t@.len()) =~= t@);
    true
}

/// The position after `(` and whitespace, where `(` stands at `pos`.
pub(crate) fn open_paren(b: &[u8], pos: usize) -> (r: Option<usize>)
    requires
        pos <= b@.len() <= usize::MAX,
    ensures
        r is Some <==> pos < b@.len() && b@[pos as int] == '(' as u8,
        r is Some ==> r->0 == ws_end(b@, pos + 1) && pos < r->0 <= b@.len() && b@[r->0 - 1] < 128,
{
    if pos < b.len() && b[pos] == '(' as u8 {
        Some(skip_ws(b, pos + 1))
    } else {
        None
    }
}

/// The position after whitespace and `)`; a failure where `)` is missing.
pub(crate) fn close_paren(b: &[u8], pos: usize) -> (r: Result<usize, ParseError>)
    requires
        pos <= b@.len() <= usize::MAX,
    ensures
        ({
            let m = ws_end(b@, pos as int);
            if 0 <= m < b@.len() && b@[m] == ')' as u8 {
                r == Ok::<usize, ParseError>((m + 1) as usize)
            } else {
                r is Err && r->Err_0.kind == ErrorKind::Failure
            }
        }),
        r is Ok ==> pos < r->Ok_0 <= b@.len(),
{
    let m = skip_ws(b, pos);
    if m < b.len() && b[m] == ')' as u8 {
        Ok(m + 1)
    } else {
        Err(within(error_at(ErrorKind::Failure, m), Context::ClosingParenthesis))
    }
}

/// The optional identifier at `pos`.
pub(crate) fn optional_identifier_at(b: &[u8], pos: usize) -> (r: (usize, Option<String>))
    requires
        pos <= b@.len() <= usize::MAX,
    ensures
        r.0 == optional_identifier(b@, pos as int).0,
        crate::ast::text_of(r.1) == optional_identifier(b@, pos as int).1,
        pos <= r.0 <= b@.len(),
        r.0 == pos || b@[r.0 - 1] < 128,
{
    match identifier_at(b, pos) {
        Ok((e, s)) => (e, Some(s)),
        Err(_) => (pos, None),
    }
}

/// Whether `ch` may stand in an identifier.
pub fn is_acceptable_identifier_character(ch: u8) -> (r: bool)
    ensures
        r == is_identifier_char(ch),
{
    ('0' as u8 <= ch && ch <= '9' as u8) || ('a' as u8 <= ch && ch <= 'z' as u8) || ('A' as u8
        <= ch && ch <= 'Z' as u8) || ch == '!' as u8 || ch == '#' as u8 || ch == '$' as u8 || ch
        == '%' as u8 || ch == '&' as u8 || ch == '*' as u8 || ch == '+' as u8 || ch == '-' as u8
        || ch == '.' as u8 || ch == '/' as u8 || ch == ':' as u8 || ch == '<' as u8 || ch
        == '=' as u8 || ch == '>' as u8 || ch == '?' as u8 || ch == '@' as u8 || ch == '\\' as u8
        || ch == '^' as u8 || ch == '_' as u8 || ch == '`' as u8 || ch == '|' as u8 || ch
        == '~' as u8
}

/// Relies on String::from_utf8: it succeeds exactly on valid UTF-8, and the
/// string holds the characters that the bytes encode.
#[verifier::external_body]
fn string_from_utf8(bytes: Vec<u8>) -> (r: Option<String>)
    ensures
        r is Some <==> valid_utf8(bytes@),
        r is Some ==> r->0@ == decode_utf8(bytes@),
{
    String::from_utf8(bytes).ok()
}

/// The text of `b[from..to]`, where it is valid UTF-8.
pub(crate) fn text_between(b: &[u8], from: usize, to: usize) -> (r: Option<String>)
    requires
        from <= to <= b@.len() <= usize::MAX,
    ensures
        r is Some <==> valid_utf8(b@.subrange(from as int, to as int)),
        r is Some ==> r->0@ == text(b@, from as int, to as int),
{
    let mut bytes: Vec<u8> = Vec::new();
    let mut k = from;
    while k < to
        invariant
            from <= k <= to,
            to <= b@.len(),
            bytes@ == b@.subrange(from as int, k as int),
        decreases to - k,
    {
        bytes.push(b[k]);
        k = k + 1;
        assert(bytes@ =~= b@.subrange(from as int, k as int));
    }
    string_from_utf8(bytes)
}

/// Bytes below 128 are valid UTF-8.
proof fn lemma_ascii_valid(s: Seq<u8>)
    requires
        forall|k: int| 0 <= k < s.len() ==> s[k] < 128,
    ensures
        valid_utf8(s),
{
    assert(partial_valid_utf8(s, 0)) by {
        assert(s.subrange(0, 0) =~= Seq::<u8>::empty());
    }
    assert forall|k: int| 0 <= k < s.len() implies is_leading_byte_width_1(#[trigger] s[k]) by {}
    partial_valid_utf8_extend_ascii_block(s, 0, s.len() as int);
    assert(s.subrange(0, s.len() as int) =~= s);
}

/// The identifier at `pos`.
pub(crate) fn identifier_at(b: &[u8], pos: usize) -> (r: Result<(usize, String), ParseError>)
    requires
        pos <= b@.len() <= usize::MAX,
    ensures
        agrees(b@, pos as int, r, identifier_rule(b@, pos as int), |s: String| s@),
{
    if pos >= b.len() || b[pos] != '$' as u8 {
        return Err(within(error_at(ErrorKind::Error, pos), Context::Identifier));
    }
    let mut e = pos + 1;
    while e < b.len() && is_acceptable_identifier_character(b[e])
        invariant
            pos < e <= b@.len(),
            identifier_end(b@, e as int) == identifier_end(b@, pos + 1),
            forall|k: int| pos < k < e ==> #[trigger] b@[k] < 128,
        decreases b@.len() - e,
    {
        e = e + 1;
    }
    if e == pos + 1 {
        return Err(within(error_at(ErrorKind::Error, pos), Context::Identifier));
    }
    proof {
        let s = b@.subrange(pos + 1, e as int);
        assert forall|k: int| 0 <= k < s.len() implies s[k] < 128 by {
            assert(s[k] == b@[pos + 1 + k]);
        }
        lemma_ascii_valid(s);
    }
    match text_between(b, pos + 1, e) {
        Some(s) => Ok((e, s)),
        None => Err(within(error_at(ErrorKind::Error, pos), Context::Identifier)),
    }
}

/// The quoted string at `pos`.
pub(crate) fn string_at(b: &[u8], pos: usize) -> (r: Result<(usize, String), ParseError>)
    requires
        pos <= b@.len() <= usize::MAX,
    ensures
        agrees(b@, pos as int, r, string_rule(b@, pos as int), |s: String| s@),
{
    if pos >= b.len() || b[pos] != '"' as u8 {
        return Err(error_at(ErrorKind::Error, pos));
    }
    let mut e = pos + 1;
    loop
        invariant
            pos < e <= b@.len() <= usize::MAX,
            string_body_end(b@, e as int) == string_body_end(b@, pos + 1),
        ensures
            pos < e <= b@.len(),
            string_body_end(b@, pos + 1) == e,
        decreases b@.len() - e,
    {
        if e < b.len() && b[e] != '\\' as u8 && b[e] != '"' as u8 {
            e = e + 1;
        } else if b.len() - e > 1 && b[e] == '\\' as u8 && b[e + 1] == '"' as u8 {
            e = e + 2;
        } else {
            assert(string_body_end(b@, e as int) == e);
            break;
        }
    }
    if e >= b.len() || b[e] != '"' as u8 {
        return Err(error_at(ErrorKind::Error, pos));
    }
    match text_between(b, pos + 1, e) {
        Some(s) => Ok((e + 1, s)),
        None => Err(error_at(ErrorKind::Error, pos)),
    }
}

/// The numerical type at `pos`.
pub(crate) fn numerical_type_at(b: &[u8], pos: usize) -> (r: Result<
    (usize, NumericalType),
    ParseError,
>)
    requires
        pos <= b@.len() <= usize::MAX,
    ensures
        agrees(b@, pos as int, r, numerical_type_rule(b@, pos as int), |t: NumericalType| t),
{
    let t = if tag_at(b, pos, I32_TAG.as_slice()) {
        NumericalType::Int32
    } else if tag_at(b, pos, I64_TAG.as_slice()) {
        NumericalType::Int64
    } else if tag_at(b, pos, F32_TAG.as_slice()) {
        NumericalType::Float32
    } else if tag_at(b, pos, F64_TAG.as_slice()) {
        NumericalType::Float64
    } else {
        return Err(error_at(ErrorKind::Error, pos));
    };
    assert(b@[pos + 2] == b@.subrange(pos as int, pos + 3)[2]);
    Ok((pos + 3, t))
}

/// The value type at `pos`.
pub(crate) fn type_at(b: &[u8], pos: usize) -> (r: Result<(usize, Type), ParseError>)
    requires
        pos <= b@.len() <= usize::MAX,
    ensures
        agrees(b@, pos as int, r, type_rule(b@, pos as int), |t: Type| t),
{
    match numerical_type_at(b, pos) {
        Ok((e, t)) => Ok((e, Type::Numerical(t))),
        Err(e) => Err(within(e, Context::Type)),
    }
}

/// The decimal integer at `pos`, in the range of `i64`.
pub(crate) fn i64_at(b: &[u8], pos: usize) -> (r: Option<(usize, i64)>)
    requires
        pos <= b@.len() <= usize::MAX,
    ensures
        match decimal_in(b@.subrange(pos as int, b@.len() as int), i64::MIN as int, i64::MAX as int) {
            Some((e, v)) => r == Some(((pos + e) as usize, v as i64)) && 0 < e <= b@.len() - pos
                && b@[pos + e - 1] < 128,
            None => r is None,
        },
{
    let tail = &b[pos..b.len()];
    match scan_i64(tail) {
        Some((left, v)) => {
            proof {
                crate::parser::literal::lemma_decimal_ends_on_digit(tail@);
                let e = b@.len() - left - pos;
                assert(tail@[e - 1] == b@[pos + e - 1]);
            }
            Some((b.len() - left, v))
        },
        None => None,
    }
}

/// The index at `pos`.
pub(crate) fn index_at(b: &[u8], pos: usize) -> (r: Result<(usize, Index), ParseError>)
    requires
        pos <= b@.len() <= usize::MAX,
    ensures
        agrees(b@, pos as int, r, index_rule(b@, pos as int), |i: Index| i@),
{
    match identifier_at(b, pos) {
        Ok((e, s)) => Ok((e, Index::Identifier(s))),
        Err(_) => match i64_at(b, pos) {
            Some((e, v)) => Ok((e, Index::Numerical(v))),
            None => Err(within(error_at(ErrorKind::Error, pos), Context::IndexOrIdentifier)),
        },
    }
}

/// Parses a quoted string; its value is the body as written. Does not skip
/// leading whitespace.
pub fn parse_string(input: &str) -> (r: IResult<'_, String>)
    ensures
        str_agrees(input, r, string_rule(input.spec_bytes(), 0), |s: String| s@),
{
    let b = bytes_of(input);
    finish(input, b, string_at(b, 0))
}

/// Parses an identifier, `$` and then identifier bytes; its value leaves
/// out the `$`. Does not skip leading whitespace.
pub fn parse_identifier(input: &str) -> (r: IResult<'_, String>)
    ensures
        str_agrees(input, r, identifier_rule(input.spec_bytes(), 0), |s: String| s@),
{
    let b = bytes_of(input);
    finish(input, b, identifier_at(b, 0))
}

/// Parses a value type. Does not skip leading whitespace.
pub fn parse_type(input: &str) -> (r: IResult<'_, Type>)
    ensures
        str_agrees(input, r, type_rule(input.spec_bytes(), 0), |t: Type| t),
{
    let b = bytes_of(input);
    finish(input, b, type_at(b, 0))
}

/// Parses one of the four numerical types. Does not skip leading
/// whitespace.
pub fn parse_numerical_type(input: &str) -> (r: IResult<'_, NumericalType>)
    ensures
        str_agrees(input, r, numerical_type_rule(input.spec_bytes(), 0), |t: NumericalType| t),
{
    let b = bytes_of(input);
    finish(input, b, numerical_type_at(b, 0))
}

/// Parses an index, an identifier or a decimal integer. Does not skip
/// leading whitespace.
pub fn parse_index(input: &str) -> (r: IResult<'_, Index>)
    ensures
        str_agrees(input, r, index_rule(input.spec_bytes(), 0), |i: Index| i@),
{
    let b = bytes_of(input);
    finish(input, b, index_at(b, 0))
}

} // verus!
