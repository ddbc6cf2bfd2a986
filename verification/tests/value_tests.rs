use c_builder::non_empty_vec;
use c_builder::ConcreteType;
use c_builder::Expression;
use c_builder::Identifier;
use c_builder::IntegerKind;
use c_builder::NonEmptyVec;
use c_builder::Real;
use c_builder::Statement;
use c_builder::Value;

fn stmt(v: Value) -> String {
    Statement::Expression(Expression::Value(v)).to_string()
}

#[test]
fn signed_integer_values_render_in_decimal() {
    assert_eq!(stmt(Value::signed_integer(0)), "0;");
    assert_eq!(stmt(Value::signed_integer(1234567890)), "1234567890;");
    assert_eq!(stmt(Value::signed_integer(-17)), "-17;");
    assert_eq!(stmt(Value::signed_integer(i64::MIN)), "-9223372036854775808;");
    assert_eq!(stmt(Value::signed_integer(i64::MAX)), "9223372036854775807;");
}

#[test]
fn unsigned_integer_values_carry_their_suffix() {
    assert_eq!(stmt(Value::unsigned_integer(42)), "42u;");
    assert_eq!(
        stmt(Value::UnsignedInteger { value: 7, kind: Some(IntegerKind::Long) }),
        "7ul;"
    );
    assert_eq!(stmt(Value::unsigned_integer(u64::MAX)), "18446744073709551615u;");
}

#[test]
fn long_literals_carry_their_suffix() {
    assert_eq!(
        stmt(Value::SignedInteger { value: 5, kind: Some(IntegerKind::Long) }),
        "5l;"
    );
    assert_eq!(
        stmt(Value::SignedInteger { value: 5, kind: Some(IntegerKind::LongLong) }),
        "5ll;"
    );
}

#[test]
fn char_values_are_single_quoted() {
    assert_eq!(stmt(Value::Char { value: 'q' }), "'q';");
}

#[test]
fn string_values_are_double_quoted() {
    assert_eq!(stmt(Value::String("hello".to_string())), "\"hello\";");
}

#[test]
fn pointer_values_render_in_hexadecimal() {
    assert_eq!(stmt(Value::Pointer { address: 0 }), "0x0;");
    assert_eq!(stmt(Value::Pointer { address: 0xdeadbeef }), "0xdeadbeef;");
}

#[test]
fn size_values_render_in_decimal() {
    assert_eq!(stmt(Value::Size { value: 4096 }), "4096;");
}

#[test]
fn real_values_carry_their_suffix() {
    assert_eq!(
        stmt(Value::Real { value: "2.5".to_string(), kind: Some(Real::Float) }),
        "2.5f;"
    );
    assert_eq!(
        stmt(Value::Real { value: "2.5".to_string(), kind: Some(Real::LongDouble) }),
        "2.5l;"
    );
    assert_eq!(stmt(Value::real_value("2.5".to_string())), "2.5;");
}

#[test]
fn real_suffixes_match_their_kinds() {
    assert_eq!(Real::Float.suffix(), "f");
    assert_eq!(Real::Double.suffix(), "");
    assert_eq!(Real::LongDouble.suffix(), "l");
}

#[test]
fn enum_values_name_their_enumeration() {
    assert_eq!(
        stmt(Value::Enum { value: 3, name: "color".to_string() }),
        "enum color = 3;"
    );
}

#[test]
fn struct_values_list_their_fields() {
    assert_eq!(
        stmt(Value::Struct {
            fields: vec![
                ("x".to_string(), Value::signed_integer(1)),
                ("y".to_string(), Value::signed_integer(2)),
            ],
        }),
        "{ x: 1, y: 2 };"
    );
}

#[test]
fn array_values_name_their_base_type() {
    assert_eq!(
        stmt(Value::Array {
            values: vec![Value::signed_integer(1), Value::signed_integer(2)],
            base_type: ConcreteType::int_type(),
        }),
        "int[] { 1, 2 };"
    );
}

#[test]
fn null_break_continue_render_as_bare_statements() {
    assert_eq!(Statement::Null.to_string(), ";");
    assert_eq!(Statement::Break.to_string(), "break;");
    assert_eq!(Statement::Continue.to_string(), "continue;");
}

#[test]
fn macro_definition_statement() {
    let generated = Statement::MacroDefinition {
        name: Identifier::new("LIMIT").unwrap(),
        body: "128".to_string(),
    }
    .to_string();
    assert_eq!(generated, "#define LIMIT 128");
}

#[test]
fn include_statement_uses_angle_brackets() {
    let generated = Statement::Include("stdlib.h".to_string()).to_string();
    assert_eq!(generated, "#include <stdlib.h>");
}

#[test]
fn non_empty_vec_rejects_empty_input() {
    let empty: Vec<u32> = Vec::new();
    let result = NonEmptyVec::new(empty);
    assert!(matches!(result, Err(non_empty_vec::Error::Empty)));
}

#[test]
fn non_empty_vec_keeps_its_elements() {
    let v = NonEmptyVec::new(vec![10u32, 20, 30]).unwrap();
    assert_eq!(v.len(), 3);
    assert_eq!(*v.get(0), 10);
    assert_eq!(*v.get(2), 30);
}

#[test]
fn function_declaration_statement_on_one_line() {
    let generated = Statement::FunctionDeclaration {
        return_type: ConcreteType::int_type(),
        name: Identifier::new("foo").unwrap(),
        parameters: vec![
            (ConcreteType::int_type(), Some(Identifier::new("x").unwrap())),
            (ConcreteType::double(), None),
        ],
    }
    .to_string();
    assert_eq!(generated, "int foo(int x, double);");
}

#[test]
fn function_definition_statement_nests_its_body() {
    let generated = Statement::FunctionDefinition {
        return_type: ConcreteType::Void,
        name: Identifier::new("noop").unwrap(),
        parameters: vec![],
        body: vec![Statement::Return(c_builder::Return { expression: None })],
    }
    .to_string();
    assert_eq!(generated, "void noop() {\n  return;\n  }");
}

#[test]
fn struct_declaration_statement_lists_fields() {
    let generated = Statement::StructDeclaration {
        name: Identifier::new("point").unwrap(),
        fields: vec![
            (ConcreteType::int_type(), Identifier::new("x").unwrap()),
            (ConcreteType::int_type(), Identifier::new("y").unwrap()),
        ],
    }
    .to_string();
    assert_eq!(generated, "struct point {\n  int x;\n  int y;\n  };");
}

#[test]
fn enum_declaration_statement_prefixes_variants() {
    let generated = Statement::EnumDeclaration {
        name: Identifier::new("color").unwrap(),
        variants: vec![
            (Identifier::new("red").unwrap(), None),
            (Identifier::new("green").unwrap(), Some(Value::signed_integer(4))),
        ],
    }
    .to_string();
    assert_eq!(generated, "enum color {\n  color__red,\n  color__green = 4,\n  };");
}
