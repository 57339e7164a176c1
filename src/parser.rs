//! A parser for the WebAssembly text format.
//!
//! Each grammar rule is stated as a spec function over the input's bytes
//! and a position in them, whose [`Outcome`] is the end of what the rule
//! consumed and the model of what it built, or a failure of one of two
//! kinds: [`ErrorKind::Error`], after which an enclosing alternative may
//! try its next branch, and [`ErrorKind::Failure`], which ends the parse
//! (a structural marker was matched and what must follow it was not).
//!
//! The public functions take the text and return the rest of it with the
//! value built, as `(rest, value)`.

pub mod function;
pub mod import;
pub mod instruction;
pub mod literal;
pub mod module;
pub mod utils;

pub use function::{parse_export, parse_function, parse_local, parse_parameter};
pub use import::parse_function_import;
pub use instruction::{
    parse_call, parse_const, parse_instruction, parse_opcode, parse_unreachable,
    parse_variable_instruction,
};
pub use module::parse_module;
pub use utils::{parse_identifier, parse_index, parse_numerical_type, parse_string, parse_type};

use vstd::prelude::*;
use vstd::string::StringSliceAdditionalSpecFns;
use vstd::utf8::*;

verus! {

/// How a rule failed.
#[derive(Clone, Copy, Debug, PartialEq, Eq, Structural)]
pub enum ErrorKind {
    /// The rule does not match here; an alternative may be tried.
    Error,
    /// The rule matched a structural marker and then failed; no
    /// alternative is tried.
    Failure,
}

/// The rule in which a failure happened, as recorded on the way out.
#[derive(Clone, Copy, Debug, PartialEq, Eq, Structural)]
pub enum Context {
    Module,
    Function,
    Export,
    Parameter,
    Local,
    FunctionImport,
    ClosingParenthesis,
    Identifier,
    Type,
    Call,
    IndexOrIdentifier,
    ImportWithBody,
}

/// A parse failure: its kind, the byte offset at which it was found, and
/// the rules it happened in, innermost first.
#[derive(Clone, Debug, PartialEq, Eq)]
pub struct ParseError {
    pub kind: ErrorKind,
    pub position: usize,
    pub context: Vec<Context>,
}

/// The result of a public parsing function: the rest of the input and the
/// value built.
pub type IResult<'a, T> = Result<(&'a str, T), ParseError>;

/// What a grammar rule does at a position: consume up to an end position
/// and build a value, or fail in one of the two ways.
pub enum Outcome<V> {
    Parsed(int, V),
    Rejected,
    Failed,
}

impl<V> Outcome<V> {
    /// Passes a failure on unchanged, else applies `f` to the end and value.
    pub open spec fn and_then<W>(self, f: spec_fn(int, V) -> Outcome<W>) -> Outcome<W> {
        match self {
            Outcome::Parsed(k, v) => f(k, v),
            Outcome::Rejected => Outcome::Rejected,
            Outcome::Failed => Outcome::Failed,
        }
    }

    /// The same outcome with its value mapped.
    pub open spec fn map<W>(self, f: spec_fn(V) -> W) -> Outcome<W> {
        match self {
            Outcome::Parsed(k, v) => Outcome::Parsed(k, f(v)),
            Outcome::Rejected => Outcome::Rejected,
            Outcome::Failed => Outcome::Failed,
        }
    }
}

/// `r` is what the rule's outcome `o` says, with values compared through
/// `model`, and a result ends after an ASCII byte of `b` or where it began.
pub open spec fn agrees<T, V>(
    b: Seq<u8>,
    pos: int,
    r: Result<(usize, T), ParseError>,
    o: Outcome<V>,
    model: spec_fn(T) -> V,
) -> bool {
    &&& match o {
        Outcome::Parsed(n, v) => r is Ok && r->Ok_0.0 == n && model(r->Ok_0.1) == v,
        Outcome::Rejected => r is Err && r->Err_0.kind == ErrorKind::Error,
        Outcome::Failed => r is Err && r->Err_0.kind == ErrorKind::Failure,
    }
    &&& r is Ok ==> pos <= r->Ok_0.0 <= b.len() && (r->Ok_0.0 == pos || b[r->Ok_0.0 - 1] < 128)
}

/// The public form of [`agrees`]: `r` holds the rest of `input` after what
/// the rule consumed from its start, or an error of the outcome's kind.
pub open spec fn str_agrees<T, V>(
    input: &str,
    r: IResult<'_, T>,
    o: Outcome<V>,
    model: spec_fn(T) -> V,
) -> bool {
    match o {
        Outcome::Parsed(n, v) => r is Ok && r->Ok_0.0.spec_bytes() == input.spec_bytes().subrange(
            n,
            input.spec_bytes().len() as int,
        ) && model(r->Ok_0.1) == v,
        Outcome::Rejected => r is Err && r->Err_0.kind == ErrorKind::Error,
        Outcome::Failed => r is Err && r->Err_0.kind == ErrorKind::Failure,
    }
}

/// In valid UTF-8, the position after an ASCII byte starts a character.
proof fn lemma_boundary_after_ascii(b: Seq<u8>, n: int)
    requires
        valid_utf8(b),
        0 < n <= b.len(),
        b[n - 1] < 128,
    ensures
        is_char_boundary(b, n),
    decreases b.len(),
{
    let k = length_of_first_scalar(b);
    let rest = pop_first_scalar(b);
    assert(valid_first_scalar(b) && valid_utf8(rest));
    assert(1 <= k <= 4 && k <= b.len());
    if n > k {
        assert(rest[n - k - 1] == b[n - 1]);
        lemma_boundary_after_ascii(rest, n - k);
    } else {
        assert(k == 1);
        assert(n == 1);
        assert(is_char_boundary(rest, 0));
    }
    assert(is_char_boundary(b, n) == is_char_boundary(rest, n - k));
}

/// The bytes of `input`, whose number fits in `usize`.
pub(crate) fn bytes_of(input: &str) -> (b: &[u8])
    ensures
        b@ == input.spec_bytes(),
        b@.len() <= usize::MAX,
{
    let b = input.as_bytes();
    let n = b.len();
    assert(n == b@.len());
    b
}

/// Turns the result of a rule run on the bytes of `input` from its start
/// into the public form, splitting the text where the rule stopped.
pub(crate) fn finish<'a, T>(input: &'a str, b: &[u8], r: Result<(usize, T), ParseError>) -> (out:
    IResult<'a, T>)
    requires
        b@ == input.spec_bytes(),
        r is Ok ==> r->Ok_0.0 <= b@.len() && (r->Ok_0.0 == 0 || b@[r->Ok_0.0 - 1] < 128),
    ensures
        r is Ok <==> out is Ok,
        r is Ok ==> out->Ok_0.0.spec_bytes() == b@.subrange(r->Ok_0.0 as int, b@.len() as int)
            && out->Ok_0.1 == r->Ok_0.1,
        r is Err ==> out->Err_0 == r->Err_0,
{
    match r {
        Ok((n, v)) => {
            proof {
                encode_utf8_valid_utf8(input@);
                is_char_boundary_start_end_of_seq(b@);
                if n > 0 {
                    lemma_boundary_after_ascii(b@, n as int);
                }
            }
            let (_, rest) = input.split_at(n);
            Ok((rest, v))
        },
        Err(e) => Err(e),
    }
}

} // verus!
