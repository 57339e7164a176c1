//! Function imports.

use crate::ast::{FunctionModel, ImportFunction, ImportModel};
use crate::parser::function::{function_at, function_rule};
use crate::parser::utils::{
    close_paren, enclosed, error_at, has_tag, open_paren, skip_ws, string_at, string_rule, tag_at,
    within, ws_end,
};
use crate::parser::{agrees, bytes_of, finish, str_agrees, Context, ErrorKind, IResult, Outcome, ParseError};
use vstd::prelude::*;
use vstd::string::StringSliceAdditionalSpecFns;

verus! {

pub const IMPORT_TAG: [u8; 6] = ['i' as u8, 'm' as u8, 'p' as u8, 'o' as u8, 'r' as u8, 't' as u8];

/// The import of a function whose signature is `f`; a signature with
/// exports or locals is a failure.
pub open spec fn signature_only(
    e: int,
    namespace: Seq<char>,
    name: Seq<char>,
    f: FunctionModel,
) -> Outcome<ImportModel> {
    if f.exports.len() == 0 && f.local_variables.len() == 0 {
        Outcome::Parsed(e, ImportModel { namespace: namespace, fn_name: name, signature: f })
    } else {
        Outcome::Failed
    }
}

/// `(import "namespace" "name" function)`. Whitespace is allowed inside
/// it, not before it.
pub open spec fn import_rule(b: Seq<u8>, i: int) -> Outcome<ImportModel> {
    enclosed(
        b,
        i,
        |j: int|
            {
                let k = ws_end(b, j);
                if has_tag(b, k, IMPORT_TAG@) {
                    string_rule(b, ws_end(b, k + 6)).and_then(
                        |e1: int, namespace: Seq<char>|
                            string_rule(b, ws_end(b, e1)).and_then(
                                |e2: int, name: Seq<char>|
                                    function_rule(b, ws_end(b, e2)).and_then(
                                        |e3: int, f: FunctionModel|
                                            signature_only(e3, namespace, name, f),
                                    ),
                            ),
                    )
                } else {
                    Outcome::Rejected
                }
            },
    )
}

pub(crate) fn import_at(b: &[u8], pos: usize) -> (r: Result<(usize, ImportFunction), ParseError>)
    requires
        pos <= b@.len() <= usize::MAX,
    ensures
        agrees(b@, pos as int, r, import_rule(b@, pos as int), |f: ImportFunction| f@),
        r is Ok ==> r->Ok_0.1.wf(),
{
    let j = match open_paren(b, pos) {
        Some(j) => j,
        None => return Err(error_at(ErrorKind::Error, pos)),
    };
    let k = skip_ws(b, j);
    if !tag_at(b, k, IMPORT_TAG.as_slice()) {
        return Err(within(error_at(ErrorKind::Error, k), Context::FunctionImport));
    }
    assert(b@[k + 5] == b@.subrange(k as int, k + 6)[5]);
    let (e1, namespace) = match string_at(b, skip_ws(b, k + 6)) {
        Ok(x) => x,
        Err(e) => return Err(within(e, Context::FunctionImport)),
    };
    let (e2, fn_name) = match string_at(b, skip_ws(b, e1)) {
        Ok(x) => x,
        Err(e) => return Err(within(e, Context::FunctionImport)),
    };
    let (e3, signature) = match function_at(b, skip_ws(b, e2)) {
        Ok(x) => x,
        Err(e) => return Err(within(e, Context::FunctionImport)),
    };
    if signature.exports.len() != 0 || signature.local_variables.len() != 0 {
        return Err(within(error_at(ErrorKind::Failure, e2), Context::ImportWithBody));
    }
    let end = close_paren(b, e3)?;
    Ok((end, ImportFunction::new(namespace, fn_name, signature)))
}

/// Parses a function import. The signature may have neither exports nor
/// locals: one that has them is a failure. Does not skip leading
/// whitespace.
pub fn parse_function_import(input: &str) -> (r: IResult<'_, ImportFunction>)
    ensures
        str_agrees(input, r, import_rule(input.spec_bytes(), 0), |f: ImportFunction| f@),
        r is Ok ==> r->Ok_0.1.wf(),
{
    let b = bytes_of(input);
    finish(input, b, import_at(b, 0))
}

} // verus!
