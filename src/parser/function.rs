//! Function definitions and their parts: exports, parameters and locals.

use crate::ast::{text_of, DeclModel, Function, FunctionModel, Local, Parameter, Type};
use crate::parser::utils::{
    close_paren, enclosed, error_at, has_tag, lemma_prepend_step, many, open_paren,
    optional_identifier, optional_identifier_at, prepend, skip_ws, string_at, string_rule, tag_at,
    type_at, type_rule, within, ws_end,
};
use crate::parser::{agrees, bytes_of, finish, str_agrees, Context, ErrorKind, IResult, Outcome, ParseError};
use vstd::prelude::*;
use vstd::string::StringSliceAdditionalSpecFns;

verus! {

pub const FUNC_TAG: [u8; 4] = ['f' as u8, 'u' as u8, 'n' as u8, 'c' as u8];

pub const EXPORT_TAG: [u8; 6] = ['e' as u8, 'x' as u8, 'p' as u8, 'o' as u8, 'r' as u8, 't' as u8];

pub const PARAM_TAG: [u8; 5] = ['p' as u8, 'a' as u8, 'r' as u8, 'a' as u8, 'm' as u8];

pub const LOCAL_TAG: [u8; 5] = ['l' as u8, 'o' as u8, 'c' as u8, 'a' as u8, 'l' as u8];

/// `(export "name")`, with whitespace allowed before and inside it. Its
/// value is the name.
pub open spec fn export_rule(b: Seq<u8>, i: int) -> Outcome<Seq<char>> {
    enclosed(
        b,
        ws_end(b, i),
        |j: int|
            {
                let k = ws_end(b, j);
                if has_tag(b, k, EXPORT_TAG@) {
                    string_rule(b, ws_end(b, k + 6))
                } else {
                    Outcome::Rejected
                }
            },
    )
}

/// The empty name is an export name: `(export "")` parses wherever it
/// stands, to the empty text.
pub proof fn lemma_empty_export_name(b: Seq<u8>, i: int)
    requires
        0 <= i,
        i + 11 <= b.len(),
        b[i] == '(' as u8,
        b.subrange(i + 1, i + 7) == EXPORT_TAG@,
        b[i + 7] == ' ' as u8,
        b[i + 8] == '"' as u8,
        b[i + 9] == '"' as u8,
        b[i + 10] == ')' as u8,
    ensures
        export_rule(b, i) == Outcome::Parsed(i + 11, Seq::<char>::empty()),
{
    assert(ws_end(b, i) == i);
    assert(ws_end(b, i + 1) == i + 1);
    assert(has_tag(b, i + 1, EXPORT_TAG@));
    assert(ws_end(b, i + 8) == i + 8);
    assert(ws_end(b, i + 7) == i + 8);
    assert(crate::parser::utils::string_body_end(b, i + 9) == i + 9);
    assert(b.subrange(i + 9, i + 9) =~= Seq::<u8>::empty());
    assert(vstd::utf8::valid_utf8(b.subrange(i + 9, i + 9)));
    assert(vstd::utf8::decode_utf8(Seq::<u8>::empty()) =~= Seq::<char>::empty());
    assert(ws_end(b, i + 10) == i + 10);
}

/// `(keyword $id? type)`, with whitespace allowed before and inside it;
/// the form of parameters and of locals.
pub open spec fn declaration_rule(b: Seq<u8>, i: int, keyword: Seq<u8>) -> Outcome<DeclModel> {
    enclosed(
        b,
        ws_end(b, i),
        |j: int|
            {
                let k = ws_end(b, j);
                if has_tag(b, k, keyword) {
                    let after = k + keyword.len();
                    let (m, id) = match crate::parser::utils::identifier_rule(b, ws_end(b, after)) {
                        Outcome::Parsed(e, s) => (e, Some(s)),
                        _ => (after, None),
                    };
                    type_rule(b, ws_end(b, m)).map(|t: Type| DeclModel { identifier: id, type_: t })
                } else {
                    Outcome::Rejected
                }
            },
    )
}

/// `(param $id? type)`.
pub open spec fn parameter_rule(b: Seq<u8>, i: int) -> Outcome<DeclModel> {
    declaration_rule(b, i, PARAM_TAG@)
}

/// `(local $id? type)`.
pub open spec fn local_rule(b: Seq<u8>, i: int) -> Outcome<DeclModel> {
    declaration_rule(b, i, LOCAL_TAG@)
}

pub open spec fn export_item(b: Seq<u8>) -> spec_fn(int) -> Outcome<Seq<char>> {
    |p: int| export_rule(b, p)
}

pub open spec fn parameter_item(b: Seq<u8>) -> spec_fn(int) -> Outcome<DeclModel> {
    |p: int| parameter_rule(b, p)
}

pub open spec fn local_item(b: Seq<u8>) -> spec_fn(int) -> Outcome<DeclModel> {
    |p: int| local_rule(b, p)
}

/// `(func $id? export* param* local*)`. Whitespace is allowed inside it,
/// not before it.
pub open spec fn function_rule(b: Seq<u8>, i: int) -> Outcome<FunctionModel> {
    enclosed(
        b,
        i,
        |j: int|
            {
                let k = ws_end(b, j);
                if has_tag(b, k, FUNC_TAG@) {
                    let (m, id) = optional_identifier(b, ws_end(b, k + 4));
                    many(b, m, export_item(b)).and_then(
                        |e1: int, exports: Seq<Seq<char>>|
                            many(b, e1, parameter_item(b)).and_then(
                                |e2: int, parameters: Seq<DeclModel>|
                                    many(b, e2, local_item(b)).map(
                                        |locals: Seq<DeclModel>|
                                            FunctionModel {
                                                identifier: id,
                                                exports: exports,
                                                parameters: parameters,
                                                local_variables: locals,
                                            },
                                    ),
                            ),
                    )
                } else {
                    Outcome::Rejected
                }
            },
    )
}

pub(crate) fn export_at(b: &[u8], pos: usize) -> (r: Result<(usize, String), ParseError>)
    requires
        pos <= b@.len() <= usize::MAX,
    ensures
        agrees(b@, pos as int, r, export_rule(b@, pos as int), |s: String| s@),
{
    let start = skip_ws(b, pos);
    let j = match open_paren(b, start) {
        Some(j) => j,
        None => return Err(error_at(ErrorKind::Error, start)),
    };
    let k = skip_ws(b, j);
    if !tag_at(b, k, EXPORT_TAG.as_slice()) {
        return Err(within(error_at(ErrorKind::Error, k), Context::Export));
    }
    let (m, name) = match string_at(b, skip_ws(b, k + 6)) {
        Ok(x) => x,
        Err(e) => return Err(within(e, Context::Export)),
    };
    let end = close_paren(b, m)?;
    Ok((end, name))
}

pub(crate) fn declaration_at(b: &[u8], pos: usize, keyword: &[u8]) -> (r: Result<
    (usize, (Option<String>, Type)),
    ParseError,
>)
    requires
        pos <= b@.len() <= usize::MAX,
        keyword@.len() == 5,
    ensures
        agrees(
            b@,
            pos as int,
            r,
            declaration_rule(b@, pos as int, keyword@),
            |d: (Option<String>, Type)| DeclModel { identifier: text_of(d.0), type_: d.1 },
        ),
{
    let start = skip_ws(b, pos);
    let j = match open_paren(b, start) {
        Some(j) => j,
        None => return Err(error_at(ErrorKind::Error, start)),
    };
    let k = skip_ws(b, j);
    if !tag_at(b, k, keyword) {
        return Err(error_at(ErrorKind::Error, k));
    }
    assert(b@[k + 4] == b@.subrange(k as int, k + 5)[4]);
    let after = k + 5;
    let (m, identifier) = match crate::parser::utils::identifier_at(b, skip_ws(b, after)) {
        Ok((e, s)) => (e, Some(s)),
        Err(_) => (after, None),
    };
    let (t_end, type_) = type_at(b, skip_ws(b, m))?;
    let end = close_paren(b, t_end)?;
    Ok((end, (identifier, type_)))
}

pub(crate) fn parameter_at(b: &[u8], pos: usize) -> (r: Result<(usize, Parameter), ParseError>)
    requires
        pos <= b@.len() <= usize::MAX,
    ensures
        agrees(b@, pos as int, r, parameter_rule(b@, pos as int), |p: Parameter| p@),
{
    let tag = PARAM_TAG;
    match declaration_at(b, pos, tag.as_slice()) {
        Ok((end, (identifier, type_))) => Ok((end, Parameter { identifier, type_ })),
        Err(e) => Err(within(e, Context::Parameter)),
    }
}

pub(crate) fn local_at(b: &[u8], pos: usize) -> (r: Result<(usize, Local), ParseError>)
    requires
        pos <= b@.len() <= usize::MAX,
    ensures
        agrees(b@, pos as int, r, local_rule(b@, pos as int), |l: Local| l@),
{
    let tag = LOCAL_TAG;
    match declaration_at(b, pos, tag.as_slice()) {
        Ok((end, (identifier, type_))) => Ok((end, Local { identifier, type_ })),
        Err(e) => Err(within(e, Context::Local)),
    }
}

pub(crate) fn exports_at(b: &[u8], pos: usize) -> (r: Result<(usize, Vec<String>), ParseError>)
    requires
        pos <= b@.len() <= usize::MAX,
    ensures
        agrees(
            b@,
            pos as int,
            r,
            many(b@, pos as int, export_item(b@)),
            |v: Vec<String>| v@.map_values(|s: String| s@),
        ),
{
    let mut acc: Vec<String> = Vec::new();
    let mut cur = pos;
    loop
        invariant
            pos <= cur <= b@.len() <= usize::MAX,
            cur == pos || b@[cur - 1] < 128,
            many(b@, pos as int, export_item(b@)) == prepend(
                acc@.map_values(|s: String| s@),
                many(b@, cur as int, export_item(b@)),
            ),
        decreases b@.len() - cur,
    {
        match export_at(b, cur) {
            Ok((k, s)) => {
                if k <= cur {
                    return Err(error_at(ErrorKind::Error, cur));
                }
                proof {
                    lemma_prepend_step(
                        acc@.map_values(|s: String| s@),
                        s@,
                        many(b@, k as int, export_item(b@)),
                    );
                }
                let ghost before = acc@;
                acc.push(s);
                assert(acc@.map_values(|s: String| s@) =~= before.map_values(|s: String| s@).push(
                    s@,
                ));
                cur = k;
            },
            Err(e) => {
                if e.kind == ErrorKind::Failure {
                    return Err(e);
                }
                assert(acc@.map_values(|s: String| s@) + seq![] =~= acc@.map_values(
                    |s: String| s@,
                ));
                return Ok((cur, acc));
            },
        }
    }
}

pub(crate) fn parameters_at(b: &[u8], pos: usize) -> (r: Result<
    (usize, Vec<Parameter>),
    ParseError,
>)
    requires
        pos <= b@.len() <= usize::MAX,
    ensures
        agrees(
            b@,
            pos as int,
            r,
            many(b@, pos as int, parameter_item(b@)),
            |v: Vec<Parameter>| v@.map_values(|p: Parameter| p@),
        ),
{
    let mut acc: Vec<Parameter> = Vec::new();
    let mut cur = pos;
    loop
        invariant
            pos <= cur <= b@.len() <= usize::MAX,
            cur == pos || b@[cur - 1] < 128,
            many(b@, pos as int, parameter_item(b@)) == prepend(
                acc@.map_values(|p: Parameter| p@),
                many(b@, cur as int, parameter_item(b@)),
            ),
        decreases b@.len() - cur,
    {
        match parameter_at(b, cur) {
            Ok((k, p)) => {
                if k <= cur {
                    return Err(error_at(ErrorKind::Error, cur));
                }
                proof {
                    lemma_prepend_step(
                        acc@.map_values(|p: Parameter| p@),
                        p@,
                        many(b@, k as int, parameter_item(b@)),
                    );
                }
                let ghost before = acc@;
                let ghost model = p@;
                acc.push(p);
                assert(acc@.map_values(|p: Parameter| p@) =~= before.map_values(
                    |p: Parameter| p@,
                ).push(model));
                cur = k;
            },
            Err(e) => {
                if e.kind == ErrorKind::Failure {
                    return Err(e);
                }
                assert(acc@.map_values(|p: Parameter| p@) + seq![] =~= acc@.map_values(
                    |p: Parameter| p@,
                ));
                return Ok((cur, acc));
            },
        }
    }
}

pub(crate) fn locals_at(b: &[u8], pos: usize) -> (r: Result<(usize, Vec<Local>), ParseError>)
    requires
        pos <= b@.len() <= usize::MAX,
    ensures
        agrees(
            b@,
            pos as int,
            r,
            many(b@, pos as int, local_item(b@)),
            |v: Vec<Local>| v@.map_values(|l: Local| l@),
        ),
{
    let mut acc: Vec<Local> = Vec::new();
    let mut cur = pos;
    loop
        invariant
            pos <= cur <= b@.len() <= usize::MAX,
            cur == pos || b@[cur - 1] < 128,
            many(b@, pos as int, local_item(b@)) == prepend(
                acc@.map_values(|l: Local| l@),
                many(b@, cur as int, local_item(b@)),
            ),
        decreases b@.len() - cur,
    {
        match local_at(b, cur) {
            Ok((k, l)) => {
                if k <= cur {
                    return Err(error_at(ErrorKind::Error, cur));
                }
                proof {
                    lemma_prepend_step(
                        acc@.map_values(|l: Local| l@),
                        l@,
                        many(b@, k as int, local_item(b@)),
                    );
                }
                let ghost before = acc@;
                let ghost model = l@;
                acc.push(l);
                assert(acc@.map_values(|l: Local| l@) =~= before.map_values(|l: Local| l@).push(
                    model,
                ));
                cur = k;
            },
            Err(e) => {
                if e.kind == ErrorKind::Failure {
                    return Err(e);
                }
                assert(acc@.map_values(|l: Local| l@) + seq![] =~= acc@.map_values(
                    |l: Local| l@,
                ));
                return Ok((cur, acc));
            },
        }
    }
}

pub(crate) fn function_at(b: &[u8], pos: usize) -> (r: Result<(usize, Function), ParseError>)
    requires
        pos <= b@.len() <= usize::MAX,
    ensures
        agrees(b@, pos as int, r, function_rule(b@, pos as int), |f: Function| f@),
{
    let j = match open_paren(b, pos) {
        Some(j) => j,
        None => return Err(error_at(ErrorKind::Error, pos)),
    };
    let k = skip_ws(b, j);
    if !tag_at(b, k, FUNC_TAG.as_slice()) {
        return Err(within(error_at(ErrorKind::Error, k), Context::Function));
    }
    assert(b@[k + 3] == b@.subrange(k as int, k + 4)[3]);
    let (m, identifier) = optional_identifier_at(b, skip_ws(b, k + 4));
    let (e1, exports) = match exports_at(b, m) {
        Ok(x) => x,
        Err(e) => return Err(within(e, Context::Function)),
    };
    let (e2, parameters) = match parameters_at(b, e1) {
        Ok(x) => x,
        Err(e) => return Err(within(e, Context::Function)),
    };
    let (e3, local_variables) = match locals_at(b, e2) {
        Ok(x) => x,
        Err(e) => return Err(within(e, Context::Function)),
    };
    let end = close_paren(b, e3)?;
    Ok((end, Function { identifier, exports, parameters, local_variables }))
}

/// Parses a function definition. Does not skip leading whitespace.
pub fn parse_function(input: &str) -> (r: IResult<'_, Function>)
    ensures
        str_agrees(input, r, function_rule(input.spec_bytes(), 0), |f: Function| f@),
{
    let b = bytes_of(input);
    finish(input, b, function_at(b, 0))
}

/// Parses an export, `(export "name")`; its value is the name. Skips
/// whitespace before it and inside it.
pub fn parse_export(input: &str) -> (r: IResult<'_, String>)
    ensures
        str_agrees(input, r, export_rule(input.spec_bytes(), 0), |s: String| s@),
{
    let b = bytes_of(input);
    finish(input, b, export_at(b, 0))
}

/// Parses a parameter, `(param $id? type)`. Skips whitespace before it and
/// inside it.
pub fn parse_parameter(input: &str) -> (r: IResult<'_, Parameter>)
    ensures
        str_agrees(input, r, parameter_rule(input.spec_bytes(), 0), |p: Parameter| p@),
{
    let b = bytes_of(input);
    finish(input, b, parameter_at(b, 0))
}

/// Parses a local, `(local $id? type)`. Skips whitespace before it and
/// inside it.
pub fn parse_local(input: &str) -> (r: IResult<'_, Local>)
    ensures
        str_agrees(input, r, local_rule(input.spec_bytes(), 0), |l: Local| l@),
{
    let b = bytes_of(input);
    finish(input, b, local_at(b, 0))
}

} // verus!
