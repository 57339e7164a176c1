//! The binary opcode of each operation.
//!
//! An operation whose combination of type and kind has no instruction in
//! the binary format has no opcode: resolving it is ruled out by the
//! `requires` of [`ToOpcode::to_opcode`].

use crate::ast::{
    ArithmeticInstruction, ArithmeticOperation, ComparisonInstruction, ComparisonOperation,
    Constant, NumericalType, NumericalValue, Opcode, ScopeKind, Unreachable, VariableInstruction,
    VariableOperation,
};
use vstd::prelude::*;

verus! {

/// The opcode of an arithmetic operation, where the binary format has one.
pub open spec fn arithmetic_opcode(t: NumericalType, i: ArithmeticInstruction) -> Option<u8> {
    match (t, i) {
        (NumericalType::Int32, ArithmeticInstruction::Addition) => Some(0x6a),
        (NumericalType::Int32, ArithmeticInstruction::Subtraction) => Some(0x6b),
        (NumericalType::Int32, ArithmeticInstruction::Multiplication) => Some(0x6c),
        (NumericalType::Int32, ArithmeticInstruction::SignedDivision) => Some(0x6d),
        (NumericalType::Int32, ArithmeticInstruction::UnsignedDivision) => Some(0x6e),
        (NumericalType::Int32, ArithmeticInstruction::SignedRemainder) => Some(0x6f),
        (NumericalType::Int32, ArithmeticInstruction::UnsignedRemainder) => Some(0x70),
        (NumericalType::Int64, ArithmeticInstruction::Addition) => Some(0x7c),
        (NumericalType::Int64, ArithmeticInstruction::Subtraction) => Some(0x7d),
        (NumericalType::Int64, ArithmeticInstruction::Multiplication) => Some(0x7e),
        (NumericalType::Int64, ArithmeticInstruction::SignedDivision) => Some(0x7f),
        (NumericalType::Int64, ArithmeticInstruction::UnsignedDivision) => Some(0x80),
        (NumericalType::Int64, ArithmeticInstruction::SignedRemainder) => Some(0x81),
        (NumericalType::Int64, ArithmeticInstruction::UnsignedRemainder) => Some(0x82),
        (NumericalType::Float32, ArithmeticInstruction::Addition) => Some(0x92),
        (NumericalType::Float32, ArithmeticInstruction::Subtraction) => Some(0x93),
        (NumericalType::Float32, ArithmeticInstruction::Multiplication) => Some(0x94),
        (NumericalType::Float32, ArithmeticInstruction::FloatDivision) => Some(0x95),
        (NumericalType::Float64, ArithmeticInstruction::Addition) => Some(0xa0),
        (NumericalType::Float64, ArithmeticInstruction::Subtraction) => Some(0xa1),
        (NumericalType::Float64, ArithmeticInstruction::Multiplication) => Some(0xa2),
        (NumericalType::Float64, ArithmeticInstruction::FloatDivision) => Some(0xa3),
        _ => None,
    }
}

/// The opcode of a comparison, where the binary format has one. The
/// ordered comparisons on integers exist only as a signed and an unsigned
/// instruction, and a comparison does not say which, so they have none.
pub open spec fn comparison_opcode(t: NumericalType, i: ComparisonInstruction) -> Option<u8> {
    match (t, i) {
        (NumericalType::Int32, ComparisonInstruction::Equal) => Some(0x46),
        (NumericalType::Int32, ComparisonInstruction::NotEqual) => Some(0x47),
        (NumericalType::Int64, ComparisonInstruction::Equal) => Some(0x51),
        (NumericalType::Int64, ComparisonInstruction::NotEqual) => Some(0x52),
        (NumericalType::Float32, ComparisonInstruction::Equal) => Some(0x5b),
        (NumericalType::Float32, ComparisonInstruction::NotEqual) => Some(0x5c),
        (NumericalType::Float32, ComparisonInstruction::LessThan) => Some(0x5d),
        (NumericalType::Float32, ComparisonInstruction::GreaterThan) => Some(0x5e),
        (NumericalType::Float32, ComparisonInstruction::LessOrEqual) => Some(0x5f),
        (NumericalType::Float32, ComparisonInstruction::GreaterOrEqual) => Some(0x60),
        (NumericalType::Float64, ComparisonInstruction::Equal) => Some(0x61),
        (NumericalType::Float64, ComparisonInstruction::NotEqual) => Some(0x62),
        (NumericalType::Float64, ComparisonInstruction::LessThan) => Some(0x63),
        (NumericalType::Float64, ComparisonInstruction::GreaterThan) => Some(0x64),
        (NumericalType::Float64, ComparisonInstruction::LessOrEqual) => Some(0x65),
        (NumericalType::Float64, ComparisonInstruction::GreaterOrEqual) => Some(0x66),
        _ => None,
    }
}

/// The opcode of a variable access; `global.tee` does not exist.
pub open spec fn variable_opcode(s: ScopeKind, i: VariableInstruction) -> Option<u8> {
    match (s, i) {
        (ScopeKind::Local, VariableInstruction::Get) => Some(0x20),
        (ScopeKind::Local, VariableInstruction::Assign) => Some(0x21),
        (ScopeKind::Local, VariableInstruction::Tee) => Some(0x22),
        (ScopeKind::Global, VariableInstruction::Get) => Some(0x23),
        (ScopeKind::Global, VariableInstruction::Assign) => Some(0x24),
        (ScopeKind::Global, VariableInstruction::Tee) => None,
    }
}

/// The `const` opcode of a value's type.
pub open spec fn const_opcode(v: NumericalValue) -> u8 {
    match v {
        NumericalValue::Int32(_) => 0x41,
        NumericalValue::Int64(_) => 0x42,
        NumericalValue::Float32(_) => 0x43,
        NumericalValue::Float64(_) => 0x44,
    }
}

/// Something with a single-byte opcode.
pub trait ToOpcode {
    /// The opcode, or `None` where the binary format has no such
    /// instruction.
    spec fn opcode_of(&self) -> Option<u8>;

    /// The opcode of `self`.
    fn to_opcode(&self) -> (r: u8)
        requires
            self.opcode_of() is Some,
        ensures
            self.opcode_of() == Some(r),
    ;
}

impl ToOpcode for Unreachable {
    open spec fn opcode_of(&self) -> Option<u8> {
        Some(0x00)
    }

    fn to_opcode(&self) -> (r: u8) {
        0x00
    }
}

impl ToOpcode for NumericalValue {
    open spec fn opcode_of(&self) -> Option<u8> {
        Some(const_opcode(*self))
    }

    fn to_opcode(&self) -> (r: u8) {
        match self {
            NumericalValue::Int32(_) => 0x41,
            NumericalValue::Int64(_) => 0x42,
            NumericalValue::Float32(_) => 0x43,
            NumericalValue::Float64(_) => 0x44,
        }
    }
}

impl ToOpcode for ArithmeticOperation {
    open spec fn opcode_of(&self) -> Option<u8> {
        arithmetic_opcode(self.type_, self.instr)
    }

    fn to_opcode(&self) -> (r: u8) {
        match (self.type_, self.instr) {
            (NumericalType::Int32, ArithmeticInstruction::Addition) => 0x6a,
            (NumericalType::Int32, ArithmeticInstruction::Subtraction) => 0x6b,
            (NumericalType::Int32, ArithmeticInstruction::Multiplication) => 0x6c,
            (NumericalType::Int32, ArithmeticInstruction::SignedDivision) => 0x6d,
            (NumericalType::Int32, ArithmeticInstruction::UnsignedDivision) => 0x6e,
            (NumericalType::Int32, ArithmeticInstruction::SignedRemainder) => 0x6f,
            (NumericalType::Int32, ArithmeticInstruction::UnsignedRemainder) => 0x70,
            (NumericalType::Int64, ArithmeticInstruction::Addition) => 0x7c,
            (NumericalType::Int64, ArithmeticInstruction::Subtraction) => 0x7d,
            (NumericalType::Int64, ArithmeticInstruction::Multiplication) => 0x7e,
            (NumericalType::Int64, ArithmeticInstruction::SignedDivision) => 0x7f,
            (NumericalType::Int64, ArithmeticInstruction::UnsignedDivision) => 0x80,
            (NumericalType::Int64, ArithmeticInstruction::SignedRemainder) => 0x81,
            (NumericalType::Int64, ArithmeticInstruction::UnsignedRemainder) => 0x82,
            (NumericalType::Float32, ArithmeticInstruction::Addition) => 0x92,
            (NumericalType::Float32, ArithmeticInstruction::Subtraction) => 0x93,
            (NumericalType::Float32, ArithmeticInstruction::Multiplication) => 0x94,
            (NumericalType::Float32, ArithmeticInstruction::FloatDivision) => 0x95,
            (NumericalType::Float64, ArithmeticInstruction::Addition) => 0xa0,
            (NumericalType::Float64, ArithmeticInstruction::Subtraction) => 0xa1,
            (NumericalType::Float64, ArithmeticInstruction::Multiplication) => 0xa2,
            (NumericalType::Float64, ArithmeticInstruction::FloatDivision) => 0xa3,
            _ => unreached(),
        }
    }
}

impl ToOpcode for ComparisonOperation {
    open spec fn opcode_of(&self) -> Option<u8> {
        comparison_opcode(self.type_, self.instr)
    }

    fn to_opcode(&self) -> (r: u8) {
        match (self.type_, self.instr) {
            (NumericalType::Int32, ComparisonInstruction::Equal) => 0x46,
            (NumericalType::Int32, ComparisonInstruction::NotEqual) => 0x47,
            (NumericalType::Int64, ComparisonInstruction::Equal) => 0x51,
            (NumericalType::Int64, ComparisonInstruction::NotEqual) => 0x52,
            (NumericalType::Float32, ComparisonInstruction::Equal) => 0x5b,
            (NumericalType::Float32, ComparisonInstruction::NotEqual) => 0x5c,
            (NumericalType::Float32, ComparisonInstruction::LessThan) => 0x5d,
            (NumericalType::Float32, ComparisonInstruction::GreaterThan) => 0x5e,
            (NumericalType::Float32, ComparisonInstruction::LessOrEqual) => 0x5f,
            (NumericalType::Float32, ComparisonInstruction::GreaterOrEqual) => 0x60,
            (NumericalType::Float64, ComparisonInstruction::Equal) => 0x61,
            (NumericalType::Float64, ComparisonInstruction::NotEqual) => 0x62,
            (NumericalType::Float64, ComparisonInstruction::LessThan) => 0x63,
            (NumericalType::Float64, ComparisonInstruction::GreaterThan) => 0x64,
            (NumericalType::Float64, ComparisonInstruction::LessOrEqual) => 0x65,
            (NumericalType::Float64, ComparisonInstruction::GreaterOrEqual) => 0x66,
            _ => unreached(),
        }
    }
}

impl ToOpcode for VariableOperation {
    open spec fn opcode_of(&self) -> Option<u8> {
        variable_opcode(self.scope, self.instruction)
    }

    fn to_opcode(&self) -> (r: u8) {
        match (self.scope, self.instruction) {
            (ScopeKind::Local, VariableInstruction::Get) => 0x20,
            (ScopeKind::Local, VariableInstruction::Assign) => 0x21,
            (ScopeKind::Local, VariableInstruction::Tee) => 0x22,
            (ScopeKind::Global, VariableInstruction::Get) => 0x23,
            (ScopeKind::Global, VariableInstruction::Assign) => 0x24,
            (ScopeKind::Global, VariableInstruction::Tee) => unreached(),
        }
    }
}

impl ToOpcode for Opcode {
    open spec fn opcode_of(&self) -> Option<u8> {
        match self {
            Opcode::Unreachable(u) => u.opcode_of(),
            Opcode::Call(_) => Some(0x10),
            Opcode::VariableInstruction(v) => v.opcode_of(),
            Opcode::Constant(c) => c.value.opcode_of(),
            Opcode::Arithmetic(a) => a.opcode_of(),
            Opcode::Comparison(c) => c.opcode_of(),
        }
    }

    fn to_opcode(&self) -> (r: u8) {
        match self {
            Opcode::Unreachable(u) => u.to_opcode(),
            Opcode::Call(_) => 0x10,
            Opcode::VariableInstruction(v) => v.to_opcode(),
            Opcode::Constant(Constant { value }) => value.to_opcode(),
            Opcode::Arithmetic(a) => a.to_opcode(),
            Opcode::Comparison(c) => c.to_opcode(),
        }
    }
}

/// An arithmetic operation has an opcode exactly when its kind fits its
/// type: the signed and unsigned divisions and remainders are for integers,
/// the float division for floating-point numbers, and the rest for all.
/// Distinct operations that have one have distinct ones.
pub proof fn lemma_arithmetic_opcodes(a: ArithmeticOperation, b: ArithmeticOperation)
    ensures
        a.opcode_of() is Some <==> match a.instr {
            ArithmeticInstruction::FloatDivision => a.type_ == NumericalType::Float32
                || a.type_ == NumericalType::Float64,
            ArithmeticInstruction::SignedDivision | ArithmeticInstruction::UnsignedDivision
            | ArithmeticInstruction::SignedRemainder
            | ArithmeticInstruction::UnsignedRemainder => a.type_ == NumericalType::Int32
                || a.type_ == NumericalType::Int64,
            _ => true,
        },
        a.opcode_of() is Some && a.opcode_of() == b.opcode_of() ==> a == b,
{
}

/// A comparison has an opcode exactly when it is an equality test or its
/// type is a floating-point type. Distinct comparisons that have one have
/// distinct ones.
pub proof fn lemma_comparison_opcodes(a: ComparisonOperation, b: ComparisonOperation)
    ensures
        a.opcode_of() is Some <==> (a.instr == ComparisonInstruction::Equal || a.instr
            == ComparisonInstruction::NotEqual || a.type_ == NumericalType::Float32 || a.type_
            == NumericalType::Float64),
        a.opcode_of() is Some && a.opcode_of() == b.opcode_of() ==> a == b,
{
}

/// `global.tee` has no opcode; every other variable access has its own.
pub proof fn lemma_global_tee_has_no_opcode(v: VariableOperation, w: VariableOperation)
    ensures
        v.opcode_of() is None <==> (v.scope == ScopeKind::Global && v.instruction
            == VariableInstruction::Tee),
        v.opcode_of() is Some && v.opcode_of() == w.opcode_of() ==> v.scope == w.scope
            && v.instruction == w.instruction,
{
}

} // verus!
