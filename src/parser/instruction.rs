//! Instructions: plain, or folded with their operands in parentheses.

use crate::ast::{
    Constant, Index, IndexModel, Instruction, InstructionModel, NumericalType, NumericalValue,
    Opcode, OpcodeModel, ScopeKind, Unreachable, VariableInstruction, VariableOperation,
};
use crate::parser::literal::{
    decimal_in, f32_bits_of, f64_bits_of, float_literal, lemma_decimal_ends_on_digit, scan_f32,
    scan_f64, scan_i32, scan_i64,
};
use crate::parser::utils::{
    error_at, has_tag, index_at, index_rule, numerical_type_at, numerical_type_rule, skip_ws,
    tag_at, within, ws_end,
};
use crate::parser::{agrees, bytes_of, finish, str_agrees, Context, ErrorKind, IResult, Outcome, ParseError};
use vstd::prelude::*;
use vstd::string::StringSliceAdditionalSpecFns;

verus! {

pub const GLOBAL_TAG: [u8; 6] = ['g' as u8, 'l' as u8, 'o' as u8, 'b' as u8, 'a' as u8, 'l' as u8];

pub const LOCAL_SCOPE_TAG: [u8; 5] = ['l' as u8, 'o' as u8, 'c' as u8, 'a' as u8, 'l' as u8];

pub const GET_TAG: [u8; 4] = ['.' as u8, 'g' as u8, 'e' as u8, 't' as u8];

pub const SET_TAG: [u8; 4] = ['.' as u8, 's' as u8, 'e' as u8, 't' as u8];

pub const TEE_TAG: [u8; 4] = ['.' as u8, 't' as u8, 'e' as u8, 'e' as u8];

pub const CONST_TAG: [u8; 6] = ['.' as u8, 'c' as u8, 'o' as u8, 'n' as u8, 's' as u8, 't' as u8];

pub const CALL_TAG: [u8; 4] = ['c' as u8, 'a' as u8, 'l' as u8, 'l' as u8];

pub const UNREACHABLE_TAG: [u8; 11] = [
    'u' as u8,
    'n' as u8,
    'r' as u8,
    'e' as u8,
    'a' as u8,
    'c' as u8,
    'h' as u8,
    'a' as u8,
    'b' as u8,
    'l' as u8,
    'e' as u8,
];

/// `first`, or `second` where `first` does not match.
pub open spec fn or_else<V>(first: Outcome<V>, second: Outcome<V>) -> Outcome<V> {
    match first {
        Outcome::Rejected => second,
        _ => first,
    }
}

/// The kind of a variable access at `k`; `.tee` only for locals.
pub open spec fn access_kind(b: Seq<u8>, k: int, scope: ScopeKind) -> Option<VariableInstruction> {
    if has_tag(b, k, SET_TAG@) {
        Some(VariableInstruction::Assign)
    } else if has_tag(b, k, GET_TAG@) {
        Some(VariableInstruction::Get)
    } else if scope == ScopeKind::Local && has_tag(b, k, TEE_TAG@) {
        Some(VariableInstruction::Tee)
    } else {
        None
    }
}

/// `local.get`, `local.set`, `local.tee`, `global.get` or `global.set`,
/// then whitespace and an index.
pub open spec fn variable_rule(b: Seq<u8>, i: int) -> Outcome<OpcodeModel> {
    let scope = if has_tag(b, i, GLOBAL_TAG@) {
        Some((ScopeKind::Global, i + 6))
    } else if has_tag(b, i, LOCAL_SCOPE_TAG@) {
        Some((ScopeKind::Local, i + 5))
    } else {
        None
    };
    match scope {
        Some((s, k)) => match access_kind(b, k, s) {
            Some(kind) => index_rule(b, ws_end(b, k + 4)).map(
                |ix: IndexModel| OpcodeModel::Variable(s, kind, ix),
            ),
            None => Outcome::Rejected,
        },
        None => Outcome::Rejected,
    }
}

/// The literal of a constant of type `t` at `s`: a decimal integer in the
/// type's range, or a floating-point literal.
pub open spec fn literal_rule(b: Seq<u8>, s: int, t: NumericalType) -> Outcome<NumericalValue> {
    let tail = b.subrange(s, b.len() as int);
    match t {
        NumericalType::Int32 => match decimal_in(tail, i32::MIN as int, i32::MAX as int) {
            Some((e, v)) => Outcome::Parsed(s + e, NumericalValue::Int32(v as i32)),
            None => Outcome::Rejected,
        },
        NumericalType::Int64 => match decimal_in(tail, i64::MIN as int, i64::MAX as int) {
            Some((e, v)) => Outcome::Parsed(s + e, NumericalValue::Int64(v as i64)),
            None => Outcome::Rejected,
        },
        NumericalType::Float32 => float_literal(tail).and_then(
            |e: int, u: ()|
                Outcome::Parsed(s + e, NumericalValue::Float32(f32_bits_of(tail.subrange(0, e)))),
        ),
        NumericalType::Float64 => float_literal(tail).and_then(
            |e: int, u: ()|
                Outcome::Parsed(s + e, NumericalValue::Float64(f64_bits_of(tail.subrange(0, e)))),
        ),
    }
}

/// A constant: a numerical type, `.const`, whitespace and a literal of
/// that type.
pub open spec fn const_rule(b: Seq<u8>, i: int) -> Outcome<NumericalValue> {
    numerical_type_rule(b, i).and_then(
        |k: int, t: NumericalType|
            if has_tag(b, k, CONST_TAG@) {
                literal_rule(b, ws_end(b, k + 6), t)
            } else {
                Outcome::Rejected
            },
    )
}

/// `unreachable`.
pub open spec fn unreachable_rule(b: Seq<u8>, i: int) -> Outcome<Unreachable> {
    if has_tag(b, i, UNREACHABLE_TAG@) {
        Outcome::Parsed(i + 11, Unreachable)
    } else {
        Outcome::Rejected
    }
}

/// `call`, whitespace and an index.
pub open spec fn call_rule(b: Seq<u8>, i: int) -> Outcome<IndexModel> {
    if has_tag(b, i, CALL_TAG@) {
        index_rule(b, ws_end(b, i + 4))
    } else {
        Outcome::Rejected
    }
}

/// The operation of an instruction: the first of a variable access, a
/// constant, `unreachable` and a call that matches.
pub open spec fn opcode_rule(b: Seq<u8>, i: int) -> Outcome<OpcodeModel> {
    or_else(
        variable_rule(b, i),
        or_else(
            const_rule(b, i).map(|v: NumericalValue| OpcodeModel::Constant(v)),
            or_else(
                unreachable_rule(b, i).map(|u: Unreachable| OpcodeModel::Unreachable),
                call_rule(b, i).map(|ix: IndexModel| OpcodeModel::Call(ix)),
            ),
        ),
    )
}

/// No text parses as the variable access `global.tee`.
pub proof fn lemma_no_global_tee(b: Seq<u8>, i: int)
    ensures
        match variable_rule(b, i) {
            Outcome::Parsed(_, OpcodeModel::Variable(s, k, _)) => !(s == ScopeKind::Global && k
                == VariableInstruction::Tee),
            _ => true,
        },
        match opcode_rule(b, i) {
            Outcome::Parsed(_, OpcodeModel::Variable(s, k, _)) => !(s == ScopeKind::Global && k
                == VariableInstruction::Tee),
            _ => true,
        },
{
}

/// The whitespace that starts at `i` ends within `b`, not before `i`.
pub proof fn lemma_ws_end(b: Seq<u8>, i: int)
    requires
        0 <= i <= b.len(),
    ensures
        i <= ws_end(b, i) <= b.len(),
    decreases b.len() - i,
{
    if i < b.len() && crate::parser::utils::is_ws(b[i]) {
        lemma_ws_end(b, i + 1);
    }
}

/// A folded instruction: `(`, whitespace, an operation, its operands and
/// `)`, where a missing `)` is a failure.
pub open spec fn folded_rule(b: Seq<u8>, i: int) -> Outcome<InstructionModel>
    decreases b.len() - i, 0int,
{
    if 0 <= i < b.len() && b[i] == '(' as u8 {
        match opcode_rule(b, ws_end(b, i + 1)) {
            Outcome::Parsed(k, op) => if i < k <= b.len() {
                match operands_rule(b, k) {
                    Outcome::Parsed(m, args) => {
                        let c = ws_end(b, m);
                        if 0 <= c < b.len() && b[c] == ')' as u8 {
                            Outcome::Parsed(c + 1, InstructionModel { opcode: op, arguments: args })
                        } else {
                            Outcome::Failed
                        }
                    },
                    Outcome::Rejected => Outcome::Rejected,
                    Outcome::Failed => Outcome::Failed,
                }
            } else {
                Outcome::Rejected
            },
            Outcome::Rejected => Outcome::Rejected,
            Outcome::Failed => Outcome::Failed,
        }
    } else {
        Outcome::Rejected
    }
}

/// The operands of a folded instruction: folded instructions, each after
/// whitespace, as many as match.
pub open spec fn operands_rule(b: Seq<u8>, i: int) -> Outcome<Seq<InstructionModel>>
    decreases b.len() - i, 1int,
{
    if 0 <= i <= b.len() {
        let p = ws_end(b, i);
        proof {
            lemma_ws_end(b, i);
        }
        match folded_rule(b, p) {
            Outcome::Parsed(k, v) => if i < k <= b.len() {
                match operands_rule(b, k) {
                    Outcome::Parsed(e, vs) => Outcome::Parsed(e, seq![v] + vs),
                    Outcome::Rejected => Outcome::Rejected,
                    Outcome::Failed => Outcome::Failed,
                }
            } else {
                Outcome::Rejected
            },
            Outcome::Rejected => Outcome::Parsed(i, seq![]),
            Outcome::Failed => Outcome::Failed,
        }
    } else {
        Outcome::Rejected
    }
}

/// An instruction: an operation alone, else a folded instruction.
pub open spec fn instruction_rule(b: Seq<u8>, i: int) -> Outcome<InstructionModel> {
    or_else(
        opcode_rule(b, i).map(|op: OpcodeModel| InstructionModel { opcode: op, arguments: seq![] }),
        folded_rule(b, i),
    )
}

pub(crate) fn variable_at(b: &[u8], pos: usize) -> (r: Result<
    (usize, VariableOperation),
    ParseError,
>)
    requires
        pos <= b@.len() <= usize::MAX,
    ensures
        agrees(
            b@,
            pos as int,
            r,
            variable_rule(b@, pos as int),
            |v: VariableOperation| OpcodeModel::Variable(v.scope, v.instruction, v.index@),
        ),
{
    let (scope, k) = if tag_at(b, pos, GLOBAL_TAG.as_slice()) {
        (ScopeKind::Global, pos + 6)
    } else if tag_at(b, pos, LOCAL_SCOPE_TAG.as_slice()) {
        (ScopeKind::Local, pos + 5)
    } else {
        return Err(error_at(ErrorKind::Error, pos));
    };
    let instruction = if tag_at(b, k, SET_TAG.as_slice()) {
        VariableInstruction::Assign
    } else if tag_at(b, k, GET_TAG.as_slice()) {
        VariableInstruction::Get
    } else if matches!(scope, ScopeKind::Local) && tag_at(b, k, TEE_TAG.as_slice()) {
        VariableInstruction::Tee
    } else {
        return Err(error_at(ErrorKind::Error, k));
    };
    let (end, index) = index_at(b, skip_ws(b, k + 4))?;
    Ok((end, VariableOperation { scope, instruction, index }))
}

/// The literal of a constant of type `t` at `s`.
pub(crate) fn literal_at(b: &[u8], s: usize, t: NumericalType) -> (r: Result<
    (usize, NumericalValue),
    ParseError,
>)
    requires
        0 < s <= b@.len() <= usize::MAX,
        b@[s - 1] < 128,
    ensures
        agrees(b@, s as int, r, literal_rule(b@, s as int, t), |v: NumericalValue| v),
{
    let tail = &b[s..b.len()];
    proof {
        lemma_decimal_ends_on_digit(tail@);
        crate::parser::literal::lemma_float_literal_ends_ascii(tail@);
    }
    match t {
        NumericalType::Int32 => match scan_i32(tail) {
            Some((left, v)) => {
                assert(tail@[b@.len() - left - s - 1] == b@[b@.len() - left - 1]);
                Ok((b.len() - left, NumericalValue::Int32(v)))
            },
            None => Err(error_at(ErrorKind::Error, s)),
        },
        NumericalType::Int64 => match scan_i64(tail) {
            Some((left, v)) => {
                assert(tail@[b@.len() - left - s - 1] == b@[b@.len() - left - 1]);
                Ok((b.len() - left, NumericalValue::Int64(v)))
            },
            None => Err(error_at(ErrorKind::Error, s)),
        },
        NumericalType::Float32 => match scan_f32(tail) {
            Ok((left, bits)) => {
                assert(tail@[b@.len() - left - s - 1] == b@[b@.len() - left - 1]);
                Ok((b.len() - left, NumericalValue::Float32(bits)))
            },
            Err(kind) => Err(error_at(kind, s)),
        },
        NumericalType::Float64 => match scan_f64(tail) {
            Ok((left, bits)) => {
                assert(tail@[b@.len() - left - s - 1] == b@[b@.len() - left - 1]);
                Ok((b.len() - left, NumericalValue::Float64(bits)))
            },
            Err(kind) => Err(error_at(kind, s)),
        },
    }
}

pub(crate) fn const_at(b: &[u8], pos: usize) -> (r: Result<(usize, NumericalValue), ParseError>)
    requires
        pos <= b@.len() <= usize::MAX,
    ensures
        agrees(b@, pos as int, r, const_rule(b@, pos as int), |v: NumericalValue| v),
{
    let (k, t) = numerical_type_at(b, pos)?;
    if !tag_at(b, k, CONST_TAG.as_slice()) {
        return Err(error_at(ErrorKind::Error, k));
    }
    assert(b@[k + 5] == b@.subrange(k as int, k + 6)[5]);
    let s = skip_ws(b, k + 6);
    literal_at(b, s, t)
}

pub(crate) fn unreachable_at(b: &[u8], pos: usize) -> (r: Result<(usize, Unreachable), ParseError>)
    requires
        pos <= b@.len() <= usize::MAX,
    ensures
        agrees(b@, pos as int, r, unreachable_rule(b@, pos as int), |u: Unreachable| u),
{
    if tag_at(b, pos, UNREACHABLE_TAG.as_slice()) {
        assert(b@[pos + 10] == b@.subrange(pos as int, pos + 11)[10]);
        Ok((pos + 11, Unreachable))
    } else {
        Err(error_at(ErrorKind::Error, pos))
    }
}

pub(crate) fn call_at(b: &[u8], pos: usize) -> (r: Result<(usize, Index), ParseError>)
    requires
        pos <= b@.len() <= usize::MAX,
    ensures
        agrees(b@, pos as int, r, call_rule(b@, pos as int), |i: Index| i@),
{
    if !tag_at(b, pos, CALL_TAG.as_slice()) {
        return Err(within(error_at(ErrorKind::Error, pos), Context::Call));
    }
    match index_at(b, skip_ws(b, pos + 4)) {
        Ok(x) => Ok(x),
        Err(e) => Err(within(e, Context::Call)),
    }
}

pub(crate) fn opcode_at(b: &[u8], pos: usize) -> (r: Result<(usize, Opcode), ParseError>)
    requires
        pos <= b@.len() <= usize::MAX,
    ensures
        agrees(b@, pos as int, r, opcode_rule(b@, pos as int), |o: Opcode| o@),
{
    match variable_at(b, pos) {
        Ok((e, v)) => return Ok((e, Opcode::VariableInstruction(v))),
        Err(e) => if e.kind == ErrorKind::Failure {
            return Err(e);
        },
    }
    match const_at(b, pos) {
        Ok((e, value)) => return Ok((e, Opcode::Constant(Constant { value }))),
        Err(e) => if e.kind == ErrorKind::Failure {
            return Err(e);
        },
    }
    match unreachable_at(b, pos) {
        Ok((e, u)) => return Ok((e, Opcode::Unreachable(u))),
        Err(_) => {},
    }
    match call_at(b, pos) {
        Ok((e, index)) => Ok((e, Opcode::Call(index))),
        Err(e) => Err(e),
    }
}

pub(crate) fn folded_at(b: &[u8], pos: usize) -> (r: Result<(usize, Instruction), ParseError>)
    requires
        pos <= b@.len() <= usize::MAX,
    ensures
        agrees(b@, pos as int, r, folded_rule(b@, pos as int), |i: Instruction| i@),
    decreases b@.len() - pos, 0int,
{
    if pos >= b.len() || b[pos] != '(' as u8 {
        return Err(error_at(ErrorKind::Error, pos));
    }
    let j = skip_ws(b, pos + 1);
    let (k, opcode) = opcode_at(b, j)?;
    if k <= pos {
        return Err(error_at(ErrorKind::Error, pos));
    }
    let (m, arguments) = operands_at(b, k)?;
    let c = skip_ws(b, m);
    if c < b.len() && b[c] == ')' as u8 {
        let instr = Instruction { opcode, arguments };
        assert(instr@.arguments =~= instr.arguments@.map_values(|x: Instruction| x@));
        Ok((c + 1, instr))
    } else {
        Err(within(error_at(ErrorKind::Failure, c), Context::ClosingParenthesis))
    }
}

pub(crate) fn operands_at(b: &[u8], pos: usize) -> (r: Result<
    (usize, Vec<Instruction>),
    ParseError,
>)
    requires
        pos <= b@.len() <= usize::MAX,
    ensures
        agrees(
            b@,
            pos as int,
            r,
            operands_rule(b@, pos as int),
            |v: Vec<Instruction>| v@.map_values(|x: Instruction| x@),
        ),
    decreases b@.len() - pos, 1int,
{
    let mut acc: Vec<Instruction> = Vec::new();
    let mut cur = pos;
    loop
        invariant
            pos <= cur <= b@.len() <= usize::MAX,
            cur == pos || b@[cur - 1] < 128,
            operands_rule(b@, pos as int) == crate::parser::utils::prepend(
                acc@.map_values(|x: Instruction| x@),
                operands_rule(b@, cur as int),
            ),
        decreases b@.len() - cur,
    {
        let p = skip_ws(b, cur);
        match folded_at(b, p) {
            Ok((k, instr)) => {
                if k <= cur {
                    return Err(error_at(ErrorKind::Error, cur));
                }
                proof {
                    crate::parser::utils::lemma_prepend_step(
                        acc@.map_values(|x: Instruction| x@),
                        instr@,
                        operands_rule(b@, k as int),
                    );
                }
                let ghost before = acc@;
                let ghost model = instr@;
                acc.push(instr);
                assert(acc@.map_values(|x: Instruction| x@) =~= before.map_values(
                    |x: Instruction| x@,
                ).push(model));
                cur = k;
            },
            Err(e) => {
                if e.kind == ErrorKind::Failure {
                    return Err(e);
                }
                assert(acc@.map_values(|x: Instruction| x@) + seq![] =~= acc@.map_values(
                    |x: Instruction| x@,
                ));
                return Ok((cur, acc));
            },
        }
    }
}

pub(crate) fn instruction_at(b: &[u8], pos: usize) -> (r: Result<(usize, Instruction), ParseError>)
    requires
        pos <= b@.len() <= usize::MAX,
    ensures
        agrees(b@, pos as int, r, instruction_rule(b@, pos as int), |i: Instruction| i@),
{
    match opcode_at(b, pos) {
        Ok((e, opcode)) => {
            let instr = Instruction { opcode, arguments: Vec::new() };
            assert(instr@.arguments =~= seq![]);
            Ok((e, instr))
        },
        Err(e) => if e.kind == ErrorKind::Failure {
            Err(e)
        } else {
            folded_at(b, pos)
        },
    }
}

/// Parses an instruction: an operation alone, such as `i32.const 5`, or a
/// folded one with its operands, such as `(local.set $x (i32.const 5))`.
/// Does not skip leading whitespace.
pub fn parse_instruction(input: &str) -> (r: IResult<'_, Instruction>)
    ensures
        str_agrees(input, r, instruction_rule(input.spec_bytes(), 0), |i: Instruction| i@),
{
    let b = bytes_of(input);
    finish(input, b, instruction_at(b, 0))
}

/// Parses the operation of an instruction. Does not skip leading
/// whitespace.
pub fn parse_opcode(input: &str) -> (r: IResult<'_, Opcode>)
    ensures
        str_agrees(input, r, opcode_rule(input.spec_bytes(), 0), |o: Opcode| o@),
{
    let b = bytes_of(input);
    finish(input, b, opcode_at(b, 0))
}

/// Parses a constant such as `i32.const 20` or `f32.const 2.2`. Does not
/// skip leading whitespace.
pub fn parse_const(input: &str) -> (r: IResult<'_, NumericalValue>)
    ensures
        str_agrees(input, r, const_rule(input.spec_bytes(), 0), |v: NumericalValue| v),
{
    let b = bytes_of(input);
    finish(input, b, const_at(b, 0))
}

/// Parses a `call` and its index. Does not skip leading whitespace.
pub fn parse_call(input: &str) -> (r: IResult<'_, Index>)
    ensures
        str_agrees(input, r, call_rule(input.spec_bytes(), 0), |i: Index| i@),
{
    let b = bytes_of(input);
    finish(input, b, call_at(b, 0))
}

/// Parses a variable access and its index. `global.tee` is not one. Does
/// not skip leading whitespace.
pub fn parse_variable_instruction(input: &str) -> (r: IResult<'_, Opcode>)
    ensures
        str_agrees(input, r, variable_rule(input.spec_bytes(), 0), |o: Opcode| o@),
{
    let b = bytes_of(input);
    let r = match variable_at(b, 0) {
        Ok((e, v)) => Ok((e, Opcode::VariableInstruction(v))),
        Err(e) => Err(e),
    };
    finish(input, b, r)
}

/// Parses `unreachable`. Does not skip leading whitespace.
pub fn parse_unreachable(input: &str) -> (r: IResult<'_, Unreachable>)
    ensures
        str_agrees(input, r, unreachable_rule(input.spec_bytes(), 0), |u: Unreachable| u),
{
    let b = bytes_of(input);
    finish(input, b, unreachable_at(b, 0))
}

} // verus!
