use water::ast::{
    Function, ImportFunction, Index, Instruction, Local, NumericalType, NumericalValue, Opcode,
    Parameter, ScopeKind, Type, VariableInstruction, VariableOperation,
};
use water::parser::{
    parse_call, parse_const, parse_export, parse_function, parse_function_import,
    parse_identifier, parse_index, parse_instruction, parse_local, parse_module, parse_parameter,
    parse_string, parse_variable_instruction, ErrorKind,
};

#[test]
fn parses_modules() {
    assert_eq!(parse_module("(module)").unwrap().0, "");
    assert_eq!(parse_module("\n  (module)").unwrap().0, "");
    assert!(parse_module(" (   module").is_err());
    assert!(parse_module("module)").is_err());
    assert!(parse_module("(mod)").is_err());
}

#[test]
fn missing_closing_parenthesis_is_a_failure() {
    assert_eq!(parse_module(" (   module").unwrap_err().kind, ErrorKind::Failure);
    assert_eq!(parse_module("(mod)").unwrap_err().kind, ErrorKind::Error);
}

#[test]
fn parses_function() {
    let parameters = vec![
        Parameter {
            identifier: Some("number".to_string()),
            type_: Type::Numerical(NumericalType::Float64),
        },
        Parameter { identifier: None, type_: Type::Numerical(NumericalType::Int64) },
    ];
    let local_variables = vec![
        Local { identifier: Some("l1".to_string()), type_: Type::Numerical(NumericalType::Int32) },
        Local { identifier: None, type_: Type::Numerical(NumericalType::Float32) },
    ];
    let function = Function {
        identifier: Some("add".to_string()),
        parameters,
        local_variables,
        exports: vec![],
    };
    assert_eq!(
        parse_function("(func $add (param $number f64) (param i64) (local $l1 i32) (local f32))"),
        Ok(("", function))
    );
}

#[test]
fn parses_function_with_exports() {
    let (rest, f) = parse_function(r#"(func $f (export "a") (export "") (param i32))"#).unwrap();
    assert_eq!(rest, "");
    assert_eq!(f.exports, vec!["a".to_string(), String::new()]);
    assert_eq!(f.parameters.len(), 1);
}

#[test]
fn parses_exports() {
    assert_eq!(parse_export(r#"(export "add")"#), Ok(("", "add".to_string())));
    assert_eq!(
        parse_export(r#"(  export  "doSomethingUseful")"#),
        Ok(("", "doSomethingUseful".to_string()))
    );
    assert_eq!(parse_export(r#"(export"")"#), Ok(("", String::new())));
    assert!(parse_export(r#"(export)"#).is_err());
    assert!(parse_export(r#"(export ")"#).is_err());
    assert!(parse_export(r#"(export "valid""#).is_err());
    assert!(parse_export(r#"export "valid")"#).is_err());
    assert!(parse_export(r#"export "valid""#).is_err());
    assert!(parse_export(r#"(expor "valid""))"#).is_err());
    assert!(parse_export(r#"(exporT "valid""))"#).is_err());
    assert!(parse_export(r#"(export "valid"")"#).is_err());
}

#[test]
fn parses_strings_with_escaped_quotes() {
    assert_eq!(parse_string(r#""a\"b" rest"#), Ok((" rest", r#"a\"b"#.to_string())));
    assert_eq!(parse_string("\"héllo\""), Ok(("", "héllo".to_string())));
    assert!(parse_string(r#""a\nb""#).is_err());
}

#[test]
fn parses_parameters_and_locals() {
    let anonymous_i32 = Parameter { identifier: None, type_: Type::Numerical(NumericalType::Int32) };
    let named_f64 = Parameter {
        identifier: Some("number".to_string()),
        type_: Type::Numerical(NumericalType::Float64),
    };
    assert_eq!(parse_parameter("(param i32)"), Ok(("", anonymous_i32)));
    assert_eq!(parse_parameter("( param $number f64)"), Ok(("", named_f64)));

    let anonymous_f32 = Local { identifier: None, type_: Type::Numerical(NumericalType::Float32) };
    let named_i64 = Local {
        identifier: Some("number".to_string()),
        type_: Type::Numerical(NumericalType::Int64),
    };
    assert_eq!(parse_local("(local f32)"), Ok(("", anonymous_f32)));
    assert_eq!(parse_local("( local $number i64)"), Ok(("", named_i64)));
}

#[test]
fn parses_identifiers_and_indices() {
    assert_eq!(parse_identifier("$idx"), Ok(("", "idx".to_string())));
    assert_eq!(parse_identifier("$asd_aa? a"), Ok((" a", "asd_aa?".to_string())));
    assert!(parse_identifier("$").is_err());
    assert_eq!(parse_index("$var"), Ok(("", Index::Identifier("var".to_string()))));
    assert_eq!(parse_index("5"), Ok(("", Index::Numerical(5))));
    assert_eq!(parse_index("-9223372036854775808"), Ok(("", Index::Numerical(i64::MIN))));
    assert!(parse_index("9223372036854775808").is_err());
}

#[test]
fn parses_constants() {
    assert_eq!(parse_const("i64.const -5"), Ok(("", NumericalValue::Int64(-5))));
    assert_eq!(parse_const("f64.const 5.5"), Ok(("", NumericalValue::Float64(5.5f64.to_bits()))));
    assert_eq!(parse_const("f32.const 2E-3"), Ok(("", NumericalValue::Float32(0.002f32.to_bits()))));
    assert_eq!(
        parse_instruction("i32.const 5"),
        Ok((
            "",
            Instruction {
                opcode: Opcode::Constant(water::ast::Constant { value: NumericalValue::Int32(5) }),
                arguments: vec![],
            }
        ))
    );
    let (_, i) = parse_instruction("f64.const 2e+5").unwrap();
    assert_eq!(
        i.opcode,
        Opcode::Constant(water::ast::Constant { value: NumericalValue::Float64(200000.0f64.to_bits()) })
    );
    assert!(parse_const("i32.const 2147483648").is_err());
    assert_eq!(parse_const("f64.const 1e").unwrap_err().kind, ErrorKind::Failure);
}

#[test]
fn parses_calls() {
    assert_eq!(parse_call("call 5"), Ok(("", Index::Numerical(5))));
    assert!(parse_instruction("call 5").is_ok());
    assert!(parse_instruction("(call 5 (i32.const 5))").is_ok());
    assert!(parse_instruction("(call 5").is_err());
    assert_eq!(parse_call("call $func"), Ok(("", Index::Identifier("func".to_string()))));
}

#[test]
fn parses_folded_instructions() {
    let (rest, instr) = parse_instruction("(local.set $idx (i32.const 5))").unwrap();
    assert_eq!(rest, "");
    assert_eq!(
        instr.opcode,
        Opcode::VariableInstruction(VariableOperation {
            scope: ScopeKind::Local,
            instruction: VariableInstruction::Assign,
            index: Index::Identifier("idx".to_string()),
        })
    );
    assert_eq!(instr.arguments.len(), 1);
    let (_, nested) = parse_instruction("(call $f (local.get 0) (call $g (i64.const 1)))").unwrap();
    assert_eq!(nested.arguments.len(), 2);
    assert_eq!(nested.arguments[1].arguments.len(), 1);
}

#[test]
fn never_parses_global_tee() {
    assert!(parse_variable_instruction("global.tee 0").is_err());
    assert!(parse_instruction("global.tee 0").is_err());
    assert!(parse_variable_instruction("local.tee 0").is_ok());
    assert_eq!(
        parse_variable_instruction("global.get $g"),
        Ok((
            "",
            Opcode::VariableInstruction(VariableOperation {
                scope: ScopeKind::Global,
                instruction: VariableInstruction::Get,
                index: Index::Identifier("g".to_string()),
            })
        ))
    );
}

#[test]
fn parses_function_import() {
    let import_wat = r#"(import "console" "log" (func $log (param f32) (param f32)))"#;
    let parsed_import = ImportFunction {
        namespace: "console".to_string(),
        fn_name: "log".to_string(),
        signature: Function {
            identifier: Some("log".to_string()),
            parameters: vec![
                Parameter { identifier: None, type_: Type::Numerical(NumericalType::Float32) };
                2
            ],
            exports: vec![],
            local_variables: vec![],
        },
    };
    assert_eq!(parse_function_import(import_wat), Ok(("", parsed_import)));
}

#[test]
fn import_with_locals_is_a_failure() {
    let r = parse_function_import(r#"(import "a" "b" (func (local i32)))"#);
    assert_eq!(r.unwrap_err().kind, ErrorKind::Failure);
}

#[test]
fn empty_input_is_rejected() {
    assert_eq!(parse_module("").unwrap_err().kind, ErrorKind::Error);
    assert!(parse_instruction("").is_err());
    assert!(parse_index("").is_err());
}

#[test]
fn errors_carry_position_and_rules() {
    let err = parse_function("(func $f (param i32)").unwrap_err();
    assert_eq!(err.kind, ErrorKind::Failure);
    assert_eq!(err.position, 20);
    assert_eq!(err.context, vec![water::parser::Context::ClosingParenthesis]);
    let err = parse_export("(export x)").unwrap_err();
    assert_eq!(err.kind, ErrorKind::Error);
    assert_eq!(err.context, vec![water::parser::Context::Export]);
}

#[test]
fn identifiers_take_every_allowed_character() {
    let id = "a0Z!#$%&*+-./:<=>?@\\^_`|~";
    let text = format!("${id})");
    assert_eq!(parse_identifier(&text), Ok((")", id.to_string())));
    assert_eq!(parse_identifier("$a,b"), Ok((",b", "a".to_string())));
}

#[test]
fn float_literal_forms() {
    assert_eq!(parse_const("f64.const .5"), Ok(("", NumericalValue::Float64(0.5f64.to_bits()))));
    assert_eq!(parse_const("f64.const 1."), Ok(("", NumericalValue::Float64(1.0f64.to_bits()))));
    assert_eq!(parse_const("f32.const -2.5e1 x"), Ok((" x", NumericalValue::Float32((-25.0f32).to_bits()))));
    let (rest, v) = parse_const("f64.const NaN").unwrap();
    assert_eq!(rest, "");
    match v {
        NumericalValue::Float64(bits) => assert!(f64::from_bits(bits).is_nan()),
        _ => panic!("expected a 64-bit float"),
    }
    assert_eq!(parse_const("f64.const inf"), Ok(("", NumericalValue::Float64(f64::INFINITY.to_bits()))));
    assert_eq!(parse_const("f32.const x").unwrap_err().kind, ErrorKind::Error);
}

#[test]
fn integer_literal_bounds() {
    assert_eq!(parse_const("i32.const -2147483648"), Ok(("", NumericalValue::Int32(i32::MIN))));
    assert_eq!(parse_const("i32.const +7"), Ok(("", NumericalValue::Int32(7))));
    assert!(parse_const("i32.const -").is_err());
    assert_eq!(
        parse_const("i64.const 9223372036854775807"),
        Ok(("", NumericalValue::Int64(i64::MAX)))
    );
}
