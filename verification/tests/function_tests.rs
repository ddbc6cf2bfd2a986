use c_builder::Block;
use c_builder::BinaryOperator;
use c_builder::BinaryOperatorKind;
use c_builder::ConcreteType;
use c_builder::Expression;
use c_builder::Function;
use c_builder::FunctionDeclaration;
use c_builder::FunctionDefinition;
use c_builder::FunctionParameter;
use c_builder::Identifier;
use c_builder::Return;
use c_builder::Statement;
use c_builder::Value;

fn id(name: &str) -> Identifier {
    Identifier::new(name).unwrap()
}

fn var(name: &str) -> Expression {
    Expression::Variable(id(name))
}

fn binary(left: Expression, operator: BinaryOperatorKind, right: Expression) -> Expression {
    Expression::BinaryOperator(Box::new(BinaryOperator { left, operator, right }))
}

#[test]
fn declaration_with_two_parameters() {
    let generated = FunctionDeclaration {
        is_static: false,
        name: id("foo"),
        ty: Function {
            return_ty: ConcreteType::int_type(),
            parameters: vec![
                FunctionParameter { ty: ConcreteType::int_type(), name: None },
                FunctionParameter { ty: ConcreteType::double(), name: None },
            ],
        },
    }
    .to_string();

    assert_eq!(generated, "int foo (int, double);");
}

#[test]
fn declaration_with_parameter_name() {
    let generated = FunctionDeclaration {
        is_static: false,
        name: id("foo"),
        ty: Function {
            return_ty: ConcreteType::int_type(),
            parameters: vec![
                FunctionParameter { ty: ConcreteType::int_type(), name: Some(id("x")) },
                FunctionParameter { ty: ConcreteType::double(), name: Some(id("y")) },
            ],
        },
    }
    .to_string();

    assert_eq!(generated, "int foo (int x, double y);");
}

#[test]
fn definition_with_integer_sum() {
    let generated = FunctionDefinition {
        is_static: false,
        name: id("add_values"),
        return_ty: ConcreteType::int_type(),
        parameters: vec![
            (ConcreteType::int_type(), id("x")),
            (ConcreteType::int_type(), id("y")),
        ],
        body: Block {
            statements: vec![Statement::Return(Return {
                expression: Some(binary(var("x"), BinaryOperatorKind::Add, var("y"))),
            })],
        },
    }
    .to_string();

    assert_eq!(
        generated,
        r#"int
add_values (int x, int y) {
  return x + y;
}"#
    );
}

#[test]
fn static_function() {
    let generated = FunctionDefinition {
        is_static: true,
        name: id("foo"),
        return_ty: ConcreteType::int_type(),
        parameters: vec![(ConcreteType::int_type(), id("x"))],
        body: Block {
            statements: vec![Statement::Return(Return {
                expression: Some(binary(
                    var("x"),
                    BinaryOperatorKind::Add,
                    Expression::Value(Value::signed_integer(42)),
                )),
            })],
        },
    }
    .to_string();

    assert_eq!(
        generated,
        r#"static int
foo (int x) {
  return x + 42;
}"#
    );
}
