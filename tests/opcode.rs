use water::ast::{
    ArithmeticInstruction, ArithmeticOperation, ComparisonInstruction, ComparisonOperation,
    Index, NumericalType, NumericalValue, Opcode, ScopeKind, Unreachable, VariableInstruction,
    VariableOperation,
};
use water::opcode::ToOpcode;

fn arith(type_: NumericalType, instr: ArithmeticInstruction) -> u8 {
    ArithmeticOperation { type_, instr }.to_opcode()
}

#[test]
fn arithmetic_opcodes_are_stable() {
    assert_eq!(arith(NumericalType::Int32, ArithmeticInstruction::Addition), 0x6a);
    assert_eq!(arith(NumericalType::Int32, ArithmeticInstruction::UnsignedRemainder), 0x70);
    assert_eq!(arith(NumericalType::Int64, ArithmeticInstruction::SignedDivision), 0x7f);
    assert_eq!(arith(NumericalType::Float32, ArithmeticInstruction::FloatDivision), 0x95);
    assert_eq!(arith(NumericalType::Float64, ArithmeticInstruction::Multiplication), 0xa2);
    for _ in 0..3 {
        assert_eq!(arith(NumericalType::Int64, ArithmeticInstruction::UnsignedDivision), 0x80);
    }
}

#[test]
fn comparison_opcodes() {
    let eq = ComparisonOperation { type_: NumericalType::Int32, instr: ComparisonInstruction::Equal };
    assert_eq!(eq.to_opcode(), 0x46);
    let lt = ComparisonOperation {
        type_: NumericalType::Float64,
        instr: ComparisonInstruction::LessThan,
    };
    assert_eq!(lt.to_opcode(), 0x63);
}

#[test]
fn variable_opcodes() {
    let op = |scope, instruction| VariableOperation { scope, instruction, index: Index::Numerical(0) };
    assert_eq!(op(ScopeKind::Local, VariableInstruction::Get).to_opcode(), 0x20);
    assert_eq!(op(ScopeKind::Local, VariableInstruction::Assign).to_opcode(), 0x21);
    assert_eq!(op(ScopeKind::Local, VariableInstruction::Tee).to_opcode(), 0x22);
    assert_eq!(op(ScopeKind::Global, VariableInstruction::Get).to_opcode(), 0x23);
    assert_eq!(op(ScopeKind::Global, VariableInstruction::Assign).to_opcode(), 0x24);
}

#[test]
fn opcode_dispatch() {
    assert_eq!(Opcode::Call(Index::Numerical(3)).to_opcode(), 0x10);
    assert_eq!(Opcode::Unreachable(Unreachable).to_opcode(), 0x00);
    assert_eq!(NumericalValue::Float64(0).to_opcode(), 0x44);
}
