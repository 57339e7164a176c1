use water::ast::{
    ArithmeticInstruction, ArithmeticOperation, Constant, NumericalType, NumericalValue, Program,
    Unreachable,
};
use water::emitter::{f32_to_bytes, f64_to_bytes, Emittable, Emittable2, Emitter, MAGIC, VERSION};

#[test]
fn assert_correct_magic() {
    assert_eq!(MAGIC, [0x00, 0x61, 0x73, 0x6d])
}

#[test]
fn emits_i32_const_correctly() {
    let mut emitter = Emitter::new(Vec::new());

    let constant = Constant { value: NumericalValue::Int32(128) };

    emitter.emit_element(constant);

    assert_eq!(
        &emitter.into_inner(),
        &[
            // `i32.const`'s opcode
            0x41, // and the LEB128 for 128
            128, 1
        ]
    );
}

#[test]
fn emits_i64_const_correctly() {
    let mut emitter = Emitter::new(Vec::new());

    let constant = Constant { value: NumericalValue::Int64(505) };

    emitter.emit_element(constant);
    assert_eq!(
        &emitter.into_inner(),
        &[
            // `i64.const`'s opcode
            0x42, // and the LEB128 for 505
            249, 3
        ]
    );
}

#[test]
fn emits_f32_const_correctly() {
    let mut emitter = Emitter::new(Vec::new());

    let constant = Constant { value: NumericalValue::Float32(5.0f32.to_bits()) };

    emitter.emit_element(constant);
    assert_eq!(
        &emitter.into_inner(),
        &[
            // `f32.const`'s opcode
            0x43, // and then the LE bit pattern for 5.0
            0x00, 0x00, 0xa0, 0x40,
        ]
    );
}

#[test]
fn emits_f64_const_correctly() {
    let mut emitter = Emitter::new(Vec::new());

    let constant = Constant { value: NumericalValue::Float64(25.50f64.to_bits()) };

    emitter.emit_element(constant);

    assert_eq!(
        &emitter.into_inner(),
        &[
            // `f64.const`'s opcode
            0x44, // and then the LE bit pattern for 25.50
            0x00, 0x00, 0x00, 0x00, 0x00, 0x80, 0x39, 0x40,
        ]
    );
}

#[test]
fn emits_unreachable_opcode() {
    let mut emitter = Emitter::new(Vec::new());

    emitter.emit_element(Unreachable);

    assert_eq!(&emitter.into_inner(), &[0x00])
}

#[test]
fn emits_i32_const_five() {
    let mut emitter = Emitter::new(Vec::new());
    let n = emitter.emit_element(Constant { value: NumericalValue::Int32(5) });
    assert_eq!(n, 2);
    assert_eq!(emitter.into_inner(), vec![0x41, 0x05]);
}

#[test]
fn emits_negative_i32_const() {
    let mut emitter = Emitter::new(Vec::new());
    emitter.emit_element(Constant { value: NumericalValue::Int32(-1) });
    assert_eq!(emitter.into_inner(), vec![0x41, 0x7f]);
}

#[test]
fn emits_arithmetic_opcode() {
    let mut emitter = Emitter::new(Vec::new());
    let add = ArithmeticOperation {
        type_: NumericalType::Int64,
        instr: ArithmeticInstruction::Addition,
    };
    assert_eq!(emitter.emit_element(add), 1);
    assert_eq!(emitter.into_inner(), vec![0x7c]);
}

#[test]
fn emits_program_preamble() {
    let mut emitter = Emitter::new(Vec::new());
    emitter.emit_program(Program { modules: Vec::new() });
    assert_eq!(emitter.into_inner(), vec![0x00, 0x61, 0x73, 0x6d, 0x31, 0x30, 0x30, 0x30]);
    assert_eq!(VERSION, *b"1000");
}

#[test]
fn emitter_appends_to_existing_bytes() {
    let mut emitter = Emitter::new(vec![0xaa]);
    assert_eq!(emitter.emit_byte(0x01), 1);
    emitter.emit_bytes(&[0x02, 0x03]);
    assert_eq!(emitter.into_inner(), vec![0xaa, 0x01, 0x02, 0x03]);
}

#[test]
fn float_bit_patterns_are_little_endian() {
    assert_eq!(f32_to_bytes(5.0f32.to_bits()), vec![0x00, 0x00, 0xa0, 0x40]);
    assert_eq!(
        f64_to_bytes(25.5f64.to_bits()),
        vec![0x00, 0x00, 0x00, 0x00, 0x00, 0x80, 0x39, 0x40]
    );
}

#[test]
fn numerical_value_emits_without_opcode() {
    let mut out = Vec::new();
    assert_eq!(NumericalValue::Int64(-85092).emit_to(&mut out), 3);
    assert_eq!(out, vec![0x9C, 0xE7, 0x7A]);
}
