//! The `module` form.

use crate::ast::Module;
use crate::parser::utils::{
    close_paren, enclosed, error_at, has_tag, open_paren, skip_ws, tag_at, within, ws_end,
};
use crate::parser::{agrees, bytes_of, finish, str_agrees, Context, ErrorKind, IResult, Outcome, ParseError};
use vstd::prelude::*;
use vstd::string::StringSliceAdditionalSpecFns;

verus! {

pub const MODULE_TAG: [u8; 6] = ['m' as u8, 'o' as u8, 'd' as u8, 'u' as u8, 'l' as u8, 'e' as u8];

/// `(module)`, with whitespace allowed before and inside it.
pub open spec fn module_rule(b: Seq<u8>, i: int) -> Outcome<Module> {
    enclosed(
        b,
        ws_end(b, i),
        |j: int|
            {
                let k = ws_end(b, j);
                if has_tag(b, k, MODULE_TAG@) {
                    Outcome::Parsed(k + 6, Module {  })
                } else {
                    Outcome::Rejected
                }
            },
    )
}

pub(crate) fn module_at(b: &[u8], pos: usize) -> (r: Result<(usize, Module), ParseError>)
    requires
        pos <= b@.len() <= usize::MAX,
    ensures
        agrees(b@, pos as int, r, module_rule(b@, pos as int), |m: Module| m),
{
    let start = skip_ws(b, pos);
    let j = match open_paren(b, start) {
        Some(j) => j,
        None => return Err(error_at(ErrorKind::Error, start)),
    };
    let k = skip_ws(b, j);
    if !tag_at(b, k, MODULE_TAG.as_slice()) {
        return Err(within(error_at(ErrorKind::Error, k), Context::Module));
    }
    assert(b@[k + 5] == b@.subrange(k as int, k + 6)[5]);
    let end = close_paren(b, k + 6)?;
    Ok((end, Module {  }))
}

/// Parses a module, `(module)`. Skips whitespace before it and inside it.
pub fn parse_module(input: &str) -> (r: IResult<'_, Module>)
    ensures
        str_agrees(input, r, module_rule(input.spec_bytes(), 0), |m: Module| m),
{
    let b = bytes_of(input);
    finish(input, b, module_at(b, 0))
}

} // verus!
