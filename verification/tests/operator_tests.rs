use c_builder::ArraySubscript;
use c_builder::Assignment;
use c_builder::BinaryOperator;
use c_builder::BinaryOperatorKind;
use c_builder::Cast;
use c_builder::CommaOperator;
use c_builder::CompoundAssignment;
use c_builder::CompoundAssignmentOperator;
use c_builder::Conditional;
use c_builder::ConcreteType;
use c_builder::Expression;
use c_builder::FunctionCall;
use c_builder::Identifier;
use c_builder::PostfixOperator;
use c_builder::PostfixOperatorKind;
use c_builder::PrefixOperator;
use c_builder::PrefixOperatorKind;
use c_builder::Scalar;
use c_builder::SizeOf;
use c_builder::Statement;
use c_builder::Value;

fn var(name: &str) -> Expression {
    Expression::Variable(Identifier::new(name).unwrap())
}

fn int_value(v: i64) -> Expression {
    Expression::Value(Value::int_value(v))
}

fn signed(v: i64) -> Expression {
    Expression::Value(Value::signed_integer(v))
}

fn stmt(e: Expression) -> Statement {
    Statement::Expression(e)
}

fn binary(left: Expression, operator: BinaryOperatorKind, right: Expression) -> Expression {
    Expression::BinaryOperator(Box::new(BinaryOperator { left, operator, right }))
}

fn binary_stmt(name: &str, operator: BinaryOperatorKind, other: &str) -> String {
    stmt(binary(var(name), operator, var(other))).to_string()
}

#[test]
fn assignment() {
    let assignment = stmt(Expression::Assignment(Box::new(Assignment {
        left: var("x"),
        right: signed(42),
    })));
    assert_eq!(assignment.to_string(), "x = 42;");

    let compound_assignment = stmt(Expression::CompoundAssignment(Box::new(CompoundAssignment {
        left: var("x"),
        operator: CompoundAssignmentOperator::Add,
        right: var("y"),
    })));
    assert_eq!(compound_assignment.to_string(), "x += y;");
}

#[test]
fn operator_increment_decrement() {
    let prefix_inc = stmt(Expression::PrefixOperator(Box::new(PrefixOperator {
        operand: var("x"),
        operator: PrefixOperatorKind::Increment,
    })));
    assert_eq!(prefix_inc.to_string(), "++x;");

    let postfix_dec = stmt(Expression::PostfixOperator(Box::new(PostfixOperator {
        operand: var("y"),
        operator: PostfixOperatorKind::Decrement,
    })));
    assert_eq!(postfix_dec.to_string(), "y--;");
}

#[test]
fn binary_operations() {
    assert_eq!(binary_stmt("x", BinaryOperatorKind::Add, "y"), "x + y;");
    assert_eq!(binary_stmt("a", BinaryOperatorKind::Mul, "b"), "a * b;");
}

#[test]
fn prefix_unary() {
    let pos = stmt(Expression::PrefixOperator(Box::new(PrefixOperator {
        operand: var("x"),
        operator: PrefixOperatorKind::Positive,
    })));
    assert_eq!(pos.to_string(), "+x;");

    let neg = stmt(Expression::PrefixOperator(Box::new(PrefixOperator {
        operand: var("y"),
        operator: PrefixOperatorKind::Negative,
    })));
    assert_eq!(neg.to_string(), "-y;");
}

#[test]
fn basic() {
    let array_access = stmt(Expression::ArraySubscript(Box::new(ArraySubscript {
        array: var("my_array"),
        index: signed(0),
    })));

    assert_eq!(array_access.to_string(), "my_array[0];");
}

#[test]
fn complex() {
    let function_array_access = stmt(Expression::ArraySubscript(Box::new(ArraySubscript {
        array: Expression::FunctionCall(Box::new(FunctionCall {
            callee: var("get_array"),
            arguments: vec![],
        })),
        index: signed(0),
    })));
    assert_eq!(function_array_access.to_string(), "get_array()[0];");

    let complex_index_access = stmt(Expression::ArraySubscript(Box::new(ArraySubscript {
        array: var("arr"),
        index: binary(
            var("i"),
            BinaryOperatorKind::Add,
            binary(var("j"), BinaryOperatorKind::Mul, signed(2)),
        ),
    })));
    assert_eq!(complex_index_access.to_string(), "arr[i + j * 2];");
}

#[test]
fn arithmetic() {
    assert_eq!(binary_stmt("x", BinaryOperatorKind::Add, "y"), "x + y;");
    assert_eq!(binary_stmt("x", BinaryOperatorKind::Sub, "y"), "x - y;");
    assert_eq!(binary_stmt("x", BinaryOperatorKind::Mul, "y"), "x * y;");
    assert_eq!(binary_stmt("x", BinaryOperatorKind::Div, "y"), "x / y;");
    assert_eq!(binary_stmt("x", BinaryOperatorKind::Mod, "y"), "x % y;");
}

#[test]
fn comparison() {
    assert_eq!(binary_stmt("x", BinaryOperatorKind::Eq, "y"), "x == y;");
    assert_eq!(binary_stmt("x", BinaryOperatorKind::Ne, "y"), "x != y;");
    assert_eq!(binary_stmt("x", BinaryOperatorKind::Lt, "y"), "x < y;");
    assert_eq!(binary_stmt("x", BinaryOperatorKind::Le, "y"), "x <= y;");
    assert_eq!(binary_stmt("x", BinaryOperatorKind::Gt, "y"), "x > y;");
    assert_eq!(binary_stmt("x", BinaryOperatorKind::Ge, "y"), "x >= y;");
}

#[test]
fn logical() {
    assert_eq!(binary_stmt("x", BinaryOperatorKind::And, "y"), "x && y;");
    assert_eq!(binary_stmt("x", BinaryOperatorKind::Or, "y"), "x || y;");
}

#[test]
fn bit_shifting() {
    assert_eq!(binary_stmt("x", BinaryOperatorKind::LShift, "y"), "x << y;");
    assert_eq!(binary_stmt("x", BinaryOperatorKind::RShift, "y"), "x >> y;");
}

#[test]
fn bitwise_logical() {
    assert_eq!(binary_stmt("x", BinaryOperatorKind::BitAnd, "y"), "x & y;");
    assert_eq!(binary_stmt("x", BinaryOperatorKind::BitOr, "y"), "x | y;");
    assert_eq!(binary_stmt("x", BinaryOperatorKind::BitXor, "y"), "x ^ y;");
}

#[test]
fn cast() {
    let cast = stmt(Expression::Cast(Box::new(Cast {
        new_ty: Scalar::int_type(),
        expression: var("x"),
    })))
    .to_string();

    assert_eq!(cast, "(int) x;");
}

#[test]
fn expression() {
    let generated = Expression::CommaOperator(Box::new(CommaOperator {
        left: Expression::PostfixOperator(Box::new(PostfixOperator {
            operand: var("x"),
            operator: PostfixOperatorKind::Increment,
        })),
        right: Expression::Assignment(Box::new(Assignment {
            left: var("y"),
            right: binary(var("x"), BinaryOperatorKind::Mul, var("x")),
        })),
    }))
    .to_string();

    assert_eq!(generated, "x++, y = x * x");
}

#[test]
fn single() {
    let conditional = Conditional {
        condition: Expression::Parentheses(Box::new(binary(
            var("x"),
            BinaryOperatorKind::Eq,
            int_value(5),
        ))),
        then_branch: var("y"),
        else_branch: var("z"),
    };

    assert_eq!(conditional.to_string(), "(x == 5) ? y : z");
}

#[test]
fn nested() {
    let conditional = Conditional {
        condition: Expression::Parentheses(Box::new(binary(
            var("x"),
            BinaryOperatorKind::Eq,
            int_value(5),
        ))),
        then_branch: Expression::Parentheses(Box::new(Expression::Conditional(Box::new(
            Conditional {
                condition: binary(var("y"), BinaryOperatorKind::Gt, int_value(10)),
                then_branch: int_value(1),
                else_branch: int_value(2),
            },
        )))),
        else_branch: int_value(3),
    };

    assert_eq!(conditional.to_string(), "(x == 5) ? (y > 10 ? 1 : 2) : 3");
}

#[test]
fn postfix_increment_decrement() {
    let increment = stmt(Expression::PostfixOperator(Box::new(PostfixOperator {
        operand: var("x"),
        operator: PostfixOperatorKind::Increment,
    })))
    .to_string();

    assert_eq!(increment, "x++;");

    let decrement = stmt(Expression::PostfixOperator(Box::new(PostfixOperator {
        operand: var("y"),
        operator: PostfixOperatorKind::Decrement,
    })))
    .to_string();

    assert_eq!(decrement, "y--;");
}

#[test]
fn prefix_increment_decrement() {
    let increment = stmt(Expression::PrefixOperator(Box::new(PrefixOperator {
        operand: var("x"),
        operator: PrefixOperatorKind::Increment,
    })))
    .to_string();

    assert_eq!(increment, "++x;");

    let decrement = stmt(Expression::PrefixOperator(Box::new(PrefixOperator {
        operand: var("y"),
        operator: PrefixOperatorKind::Decrement,
    })))
    .to_string();

    assert_eq!(decrement, "--y;");
}

#[test]
fn positive_negative() {
    let positive = stmt(Expression::PrefixOperator(Box::new(PrefixOperator {
        operand: var("x"),
        operator: PrefixOperatorKind::Positive,
    })))
    .to_string();

    assert_eq!(positive, "+x;");

    let negative = stmt(Expression::PrefixOperator(Box::new(PrefixOperator {
        operand: var("y"),
        operator: PrefixOperatorKind::Negative,
    })))
    .to_string();

    assert_eq!(negative, "-y;");
}

#[test]
fn prefix_pointer() {
    let address = stmt(Expression::PrefixOperator(Box::new(PrefixOperator {
        operand: var("x"),
        operator: PrefixOperatorKind::Address,
    })))
    .to_string();

    assert_eq!(address, "&x;");

    let indirection = stmt(Expression::PrefixOperator(Box::new(PrefixOperator {
        operand: var("ptr"),
        operator: PrefixOperatorKind::Indirection,
    })))
    .to_string();

    assert_eq!(indirection, "*ptr;");
}

#[test]
fn sizeof_operator() {
    let sizeof_type = stmt(Expression::SizeOf(Box::new(SizeOf::Type(ConcreteType::int_type()))))
        .to_string();

    assert_eq!(sizeof_type, "sizeof (int);");

    let sizeof_expr = stmt(Expression::SizeOf(Box::new(SizeOf::Expression(var("x")))))
        .to_string();

    assert_eq!(sizeof_expr, "sizeof x;");
}
