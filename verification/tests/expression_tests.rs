use c_builder::ArraySubscript;
use c_builder::BinaryOperator;
use c_builder::BinaryOperatorKind;
use c_builder::ConcreteType;
use c_builder::Expression;
use c_builder::FunctionCall;
use c_builder::Identifier;
use c_builder::Statement;
use c_builder::Value;

fn var(name: &str) -> Expression {
    Expression::Variable(Identifier::new(name).unwrap())
}

fn signed(v: i64) -> Expression {
    Expression::Value(Value::signed_integer(v))
}

fn binary(left: Expression, operator: BinaryOperatorKind, right: Expression) -> Expression {
    Expression::BinaryOperator(Box::new(BinaryOperator { left, operator, right }))
}

#[test]
fn alignof() {
    let generated = Statement::Expression(Expression::AlignOf(ConcreteType::int_type()))
        .to_string();
    assert_eq!(generated, "_Alignof(int);");
}

#[test]
fn expression_function_call() {
    let generated = Statement::Expression(Expression::FunctionCall(Box::new(FunctionCall {
        callee: var("foo"),
        arguments: vec![signed(5)],
    })))
    .to_string();

    assert_eq!(generated, "foo(5);");
}

#[test]
fn parentheses_groups() {
    let inner_sum = Expression::Parentheses(Box::new(binary(
        signed(3),
        BinaryOperatorKind::Add,
        signed(10),
    )));

    let inner_product = Expression::Parentheses(Box::new(binary(
        signed(2),
        BinaryOperatorKind::Mul,
        signed(6),
    )));

    let middle_diff = Expression::Parentheses(Box::new(binary(
        inner_sum,
        BinaryOperatorKind::Sub,
        inner_product,
    )));

    let expr = Expression::Parentheses(Box::new(binary(
        signed(2),
        BinaryOperatorKind::Mul,
        middle_diff,
    )));

    let generated = Statement::Expression(expr).to_string();
    assert_eq!(generated, "(2 * ((3 + 10) - (2 * 6)));");
}

#[test]
fn function_function_call() {
    let function_name = Expression::FunctionCall(Box::new(FunctionCall {
        callee: var("calculate_sum"),
        arguments: vec![signed(5), signed(10)],
    }))
    .to_string();

    assert_eq!(function_name, "calculate_sum(5, 10)");

    let expression = Expression::FunctionCall(Box::new(FunctionCall {
        callee: Expression::ArraySubscript(Box::new(ArraySubscript {
            array: var("my_array"),
            index: signed(0),
        })),
        arguments: vec![signed(5), signed(10)],
    }))
    .to_string();

    assert_eq!(expression, "my_array[0](5, 10)");
}
