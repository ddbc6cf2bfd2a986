use c_builder::Array;
use c_builder::ArraySubscript;
use c_builder::Assignment;
use c_builder::BinaryOperator;
use c_builder::BinaryOperatorKind;
use c_builder::ConcreteType;
use c_builder::Declaration;
use c_builder::Definition;
use c_builder::Enum;
use c_builder::Expression;
use c_builder::Function;
use c_builder::FunctionParameter;
use c_builder::Identifier;
use c_builder::InitializerList;
use c_builder::Member;
use c_builder::MemberAccess;
use c_builder::MemberGroup;
use c_builder::NonEmptyVec;
use c_builder::OpaqueType;
use c_builder::Pointer;
use c_builder::Statement;
use c_builder::Struct;
use c_builder::Union;
use c_builder::Value;
use c_builder::VariableDeclaration;

fn id(name: &str) -> Identifier {
    Identifier::new(name).unwrap()
}

fn var(name: &str) -> Expression {
    Expression::Variable(id(name))
}

fn int_value(v: i64) -> Expression {
    Expression::Value(Value::int_value(v))
}

fn signed(v: i64) -> Expression {
    Expression::Value(Value::signed_integer(v))
}

fn declare(ty: ConcreteType, name: &str, initializer: Option<Expression>) -> Statement {
    Statement::VariableDeclaration(VariableDeclaration {
        storage_class: None,
        ty,
        identifier: id(name),
        initializer,
    })
}

fn ordered(items: Vec<Expression>) -> Expression {
    Expression::InitializerList(InitializerList::Ordered(items))
}

fn group(ty: ConcreteType, name: &str) -> MemberGroup {
    MemberGroup {
        ty,
        members: NonEmptyVec::new(vec![Member { name: id(name), bit_field_size: None }]).unwrap(),
    }
}

fn bit_group(ty: ConcreteType, name: &str, width: usize) -> MemberGroup {
    MemberGroup {
        ty,
        members: NonEmptyVec::new(vec![Member { name: id(name), bit_field_size: Some(width) }])
            .unwrap(),
    }
}

fn int_array(size: Option<usize>) -> ConcreteType {
    ConcreteType::Array(Array { element_type: Box::new(ConcreteType::int_type()), size })
}

#[test]
fn fixed_width() {
    let definition = declare(int_array(Some(10)), "my_array", None);
    assert_eq!(definition.to_string(), "int my_array[10];");

    let initialization = declare(
        int_array(Some(10)),
        "my_array",
        Some(ordered(vec![signed(0), signed(1), signed(2), signed(3), signed(4)])),
    );
    assert_eq!(initialization.to_string(), "int my_array[10] = { 0, 1, 2, 3, 4 };");
}

#[test]
fn flex_width() {
    let definition = declare(int_array(None), "flex", None);
    assert_eq!(definition.to_string(), "int flex[];");

    let initialization = declare(
        int_array(None),
        "flex",
        Some(ordered(vec![signed(0), signed(1), signed(2), signed(3), signed(4)])),
    );
    assert_eq!(initialization.to_string(), "int flex[] = { 0, 1, 2, 3, 4 };");
}

#[test]
fn two_dimensional() {
    let outer_array = || {
        ConcreteType::Array(Array {
            element_type: Box::new(int_array(Some(5))),
            size: Some(2),
        })
    };

    let definition = declare(outer_array(), "two_dimensions", None);
    assert_eq!(definition.to_string(), "int two_dimensions[2][5];");

    let declaration = declare(
        outer_array(),
        "two_dimensions",
        Some(ordered(vec![
            ordered(vec![signed(1), signed(2), signed(3), signed(4), signed(5)]),
            ordered(vec![signed(6), signed(7), signed(8), signed(9), signed(10)]),
        ])),
    );
    assert_eq!(
        declaration.to_string(),
        "int two_dimensions[2][5] = { { 1, 2, 3, 4, 5 }, { 6, 7, 8, 9, 10 } };"
    );
}

#[test]
fn three_dimensional() {
    let outer_array = || {
        ConcreteType::Array(Array {
            element_type: Box::new(ConcreteType::Array(Array {
                element_type: Box::new(int_array(Some(4))),
                size: Some(3),
            })),
            size: Some(2),
        })
    };

    let definition = declare(outer_array(), "three_dimensional", None);
    assert_eq!(definition.to_string(), "int three_dimensional[2][3][4];");

    let plane = |from: i64| {
        ordered(vec![
            ordered(vec![signed(from), signed(from + 1), signed(from + 2), signed(from + 3)]),
            ordered(vec![
                signed(from + 4),
                signed(from + 5),
                signed(from + 6),
                signed(from + 7),
            ]),
            ordered(vec![
                signed(from + 8),
                signed(from + 9),
                signed(from + 10),
                signed(from + 11),
            ]),
        ])
    };
    let declaration = declare(
        outer_array(),
        "three_dimensional",
        Some(ordered(vec![plane(1), plane(13)])),
    );
    assert_eq!(
        declaration.to_string(),
        "int three_dimensional[2][3][4] = { { { 1, 2, 3, 4 }, { 5, 6, 7, 8 }, { 9, 10, 11, 12 } }, { { 13, 14, 15, 16 }, { 17, 18, 19, 20 }, { 21, 22, 23, 24 } } };"
    );
}

#[test]
fn array_of_strings() {
    let char_array = |size: Option<usize>| {
        ConcreteType::Array(Array { element_type: Box::new(ConcreteType::Char), size })
    };
    let chars = |s: &str| {
        ordered(s.chars().map(|value| Expression::Value(Value::Char { value })).collect())
    };

    let definition = declare(char_array(Some(26)), "blue", None);
    assert_eq!(definition.to_string(), "char blue[26];");

    let fixed_char = declare(char_array(Some(26)), "yellow", Some(chars("yellow\0")));
    assert_eq!(
        fixed_char.to_string(),
        "char yellow[26] = { 'y', 'e', 'l', 'l', 'o', 'w', '\0' };"
    );

    let fixed_string = declare(
        char_array(Some(26)),
        "orange",
        Some(Expression::Value(Value::String("orange".to_string()))),
    );
    assert_eq!(fixed_string.to_string(), r#"char orange[26] = "orange";"#);

    let flexible_char = declare(char_array(None), "gray", Some(chars("gray\0")));
    assert_eq!(flexible_char.to_string(), "char gray[] = { 'g', 'r', 'a', 'y', '\0' };");

    let flexible_string = declare(
        char_array(None),
        "salmon",
        Some(Expression::Value(Value::String("salmon".to_string()))),
    );
    assert_eq!(flexible_string.to_string(), r#"char salmon[] = "salmon";"#);
}

#[test]
fn array_of_structures() {
    let point_array = || {
        ConcreteType::Array(Array {
            element_type: Box::new(ConcreteType::Struct(Struct::Tag { name: id("point") })),
            size: Some(3),
        })
    };

    let definition = declare(point_array(), "point_array", None);
    assert_eq!(definition.to_string(), "struct point point_array[3];");

    let declaration = declare(
        point_array(),
        "point_array",
        Some(ordered(vec![
            ordered(vec![signed(2), signed(3)]),
            ordered(vec![signed(4), signed(5)]),
            ordered(vec![signed(6), signed(7)]),
        ])),
    );
    assert_eq!(
        declaration.to_string(),
        "struct point point_array[3] = { { 2, 3 }, { 4, 5 }, { 6, 7 } };"
    );

    let member_access = Statement::Expression(Expression::Assignment(Box::new(Assignment {
        left: Expression::MemberAccess(Box::new(MemberAccess {
            left: Expression::ArraySubscript(Box::new(ArraySubscript {
                array: var("point_array"),
                index: signed(0),
            })),
            member: id("x"),
        })),
        right: signed(2),
    })));
    assert_eq!(member_access.to_string(), "point_array[0].x = 2;");
}

#[test]
fn array_of_unions() {
    let number_array = || {
        ConcreteType::Array(Array {
            element_type: Box::new(ConcreteType::Union(Union::Tag { name: id("numbers") })),
            size: Some(3),
        })
    };

    let definition = declare(number_array(), "number_array", None);
    assert_eq!(definition.to_string(), "union numbers number_array[3];");

    let declaration = declare(
        number_array(),
        "number_array",
        Some(ordered(vec![
            ordered(vec![signed(3)]),
            ordered(vec![signed(4)]),
            ordered(vec![signed(5)]),
        ])),
    );
    assert_eq!(
        declaration.to_string(),
        "union numbers number_array[3] = { { 3 }, { 4 }, { 5 } };"
    );

    let member_access = Statement::Expression(Expression::Assignment(Box::new(Assignment {
        left: Expression::MemberAccess(Box::new(MemberAccess {
            left: Expression::ArraySubscript(Box::new(ArraySubscript {
                array: var("number_array"),
                index: signed(0),
            })),
            member: id("i"),
        })),
        right: signed(2),
    })));
    assert_eq!(member_access.to_string(), "number_array[0].i = 2;");
}

#[test]
fn enumeration_complete_definitions() {
    let named = Definition::Enum(Enum::Definition {
        name: Some(id("fruit")),
        values: NonEmptyVec::new(vec![
            (id("grape"), None),
            (id("cherry"), None),
            (id("lemon"), None),
            (id("kiwi"), None),
        ])
        .unwrap(),
    })
    .to_string();
    assert_eq!(named, "enum fruit {grape, cherry, lemon, kiwi};");

    let specified_value = Definition::Enum(Enum::Definition {
        name: Some(id("more_fruit")),
        values: NonEmptyVec::new(vec![
            (id("banana"), Some(signed(-17))),
            (id("apple"), None),
            (id("blueberry"), None),
            (id("mango"), None),
        ])
        .unwrap(),
    })
    .to_string();
    assert_eq!(specified_value, "enum more_fruit {banana = -17, apple, blueberry, mango};");

    let specified_expression = Definition::Enum(Enum::Definition {
        name: Some(id("yet_more_fruit")),
        values: NonEmptyVec::new(vec![
            (id("kumquat"), None),
            (id("raspberry"), None),
            (id("peach"), None),
            (
                id("plum"),
                Some(Expression::BinaryOperator(Box::new(BinaryOperator {
                    left: var("peach"),
                    operator: BinaryOperatorKind::Add,
                    right: signed(2),
                }))),
            ),
        ])
        .unwrap(),
    })
    .to_string();
    assert_eq!(
        specified_expression,
        "enum yet_more_fruit {kumquat, raspberry, peach, plum = peach + 2};"
    );
}

#[test]
fn tag_definition() {
    let tag = Definition::Enum(Enum::Tag { name: id("fruit") }).to_string();
    assert_eq!(tag, "enum fruit;");
}

#[test]
fn enumeration_declarations() {
    let fruit_definition = || {
        ConcreteType::Enum(Enum::Definition {
            name: Some(id("fruit")),
            values: NonEmptyVec::new(vec![
                (id("banana"), None),
                (id("apple"), None),
                (id("blueberry"), None),
                (id("mango"), None),
            ])
            .unwrap(),
        })
    };

    let inline = declare(fruit_definition(), "my_fruit", None).to_string();
    assert_eq!(inline, "enum fruit {banana, apple, blueberry, mango} my_fruit;");

    let tag = declare(ConcreteType::Enum(Enum::Tag { name: id("fruit") }), "my_fruit", None)
        .to_string();
    assert_eq!(tag, "enum fruit my_fruit;");
}

#[test]
fn enumeration_initializers() {
    let generated = declare(
        ConcreteType::Enum(Enum::Definition {
            name: Some(id("fruit")),
            values: NonEmptyVec::new(vec![
                (id("banana"), None),
                (id("apple"), None),
                (id("blueberry"), None),
                (id("mango"), None),
            ])
            .unwrap(),
        }),
        "my_fruit",
        Some(var("apple")),
    )
    .to_string();
    assert_eq!(generated, "enum fruit {banana, apple, blueberry, mango} my_fruit = apple;");
}

#[test]
fn access() {
    let variable = Statement::Expression(Expression::Assignment(Box::new(Assignment {
        left: Expression::MemberAccess(Box::new(MemberAccess {
            left: var("first_number"),
            member: id("i"),
        })),
        right: int_value(5),
    })))
    .to_string();
    assert_eq!(variable, "first_number.i = 5;");
}

#[test]
fn indirect_access() {
    let variable = Statement::Expression(Expression::Assignment(Box::new(Assignment {
        left: Expression::IndirectMemberAccess(Box::new(c_builder::IndirectMemberAccess {
            left: var("first_number"),
            member: id("i"),
        })),
        right: int_value(5),
    })))
    .to_string();
    assert_eq!(variable, "first_number->i = 5;");

    let function = Statement::Expression(Expression::Assignment(Box::new(Assignment {
        left: Expression::IndirectMemberAccess(Box::new(c_builder::IndirectMemberAccess {
            left: Expression::FunctionCall(Box::new(c_builder::FunctionCall {
                callee: var("get_struct"),
                arguments: Vec::new(),
            })),
            member: id("i"),
        })),
        right: int_value(5),
    })))
    .to_string();
    assert_eq!(function, "get_struct()->i = 5;");
}

#[test]
fn pointer_const_pointer() {
    let pointer = Pointer {
        pointer_ty: OpaqueType::ConcreteType(ConcreteType::Void),
        is_const: true,
    }
    .to_string();
    assert_eq!(pointer, "void *const");
}

#[test]
fn const_pointer_to_pointer() {
    let pointer = Pointer {
        pointer_ty: OpaqueType::ConcreteType(ConcreteType::Pointer(Box::new(Pointer {
            pointer_ty: OpaqueType::ConcreteType(ConcreteType::Void),
            is_const: false,
        }))),
        is_const: true,
    }
    .to_string();
    assert_eq!(pointer, "void *const *");
}

#[test]
fn pointer_pointer() {
    let pointer = Pointer {
        pointer_ty: OpaqueType::ConcreteType(ConcreteType::Void),
        is_const: false,
    }
    .to_string();
    assert_eq!(pointer, "void *");
}

#[test]
fn structure_complete_definitions() {
    let multi_line = Definition::Struct(Struct::Definition {
        name: Some(id("point")),
        members: NonEmptyVec::new(vec![
            group(ConcreteType::int_type(), "x"),
            group(ConcreteType::int_type(), "y"),
        ])
        .unwrap(),
    })
    .to_string();
    assert_eq!(
        multi_line,
        r#"struct point {
  int x;
  int y;
};"#
    );
}

#[test]
fn structure_incomplete_definition() {
    let generated = Declaration::Struct(Struct::Tag { name: id("point") }).to_string();
    assert_eq!(generated, "struct point");
}

#[test]
fn structure_declarations() {
    let inline = declare(
        ConcreteType::Struct(Struct::Definition {
            name: Some(id("point")),
            members: NonEmptyVec::new(vec![
                group(ConcreteType::int_type(), "x"),
                group(ConcreteType::int_type(), "y"),
            ])
            .unwrap(),
        }),
        "first_point",
        None,
    )
    .to_string();
    assert_eq!(
        inline,
        r#"struct point {
  int x;
  int y;
} first_point;"#
    );

    let tag = declare(
        ConcreteType::Struct(Struct::Tag { name: id("point") }),
        "my_point",
        None,
    )
    .to_string();
    assert_eq!(tag, "struct point my_point;");
}

#[test]
fn structure_initializers() {
    let point_tag = || ConcreteType::Struct(Struct::Tag { name: id("point") });

    let ordered_init = declare(
        point_tag(),
        "first_point",
        Some(ordered(vec![int_value(5), int_value(10)])),
    )
    .to_string();
    assert_eq!(ordered_init, "struct point first_point = { 5, 10 };");

    let named = declare(
        point_tag(),
        "first_point",
        Some(Expression::InitializerList(InitializerList::Named(vec![
            (id("y"), int_value(10)),
            (id("x"), int_value(5)),
        ]))),
    )
    .to_string();
    assert_eq!(named, "struct point first_point = { .y = 10, .x = 5 };");

    let nested = declare(
        ConcreteType::Struct(Struct::Tag { name: id("rectangle") }),
        "my_rectangle",
        Some(ordered(vec![
            ordered(vec![int_value(0), int_value(5)]),
            ordered(vec![int_value(10), int_value(0)]),
        ])),
    )
    .to_string();
    assert_eq!(nested, "struct rectangle my_rectangle = { { 0, 5 }, { 10, 0 } };");
}

#[test]
fn structure_bit_fields() {
    let multi_line = Definition::Struct(Struct::Definition {
        name: Some(id("card")),
        members: NonEmptyVec::new(vec![
            bit_group(ConcreteType::unsigned_int(), "suit", 2),
            bit_group(ConcreteType::unsigned_int(), "face_value", 4),
        ])
        .unwrap(),
    })
    .to_string();
    assert_eq!(
        multi_line,
        r#"struct card {
  unsigned int suit : 2;
  unsigned int face_value : 4;
};"#
    );
}

#[test]
fn grouped_bit_fields_share_one_type() {
    let card = Definition::Struct(Struct::Definition {
        name: Some(id("card")),
        members: NonEmptyVec::new(vec![MemberGroup {
            ty: ConcreteType::unsigned_int(),
            members: NonEmptyVec::new(vec![
                Member { name: id("suit"), bit_field_size: Some(2) },
                Member { name: id("face_value"), bit_field_size: Some(4) },
            ])
            .unwrap(),
        }])
        .unwrap(),
    })
    .to_string();
    assert_eq!(
        card,
        "struct card {\n  unsigned int suit : 2, face_value : 4;\n};"
    );
}

#[test]
fn function_pointer_member() {
    let generated = Definition::Struct(Struct::Definition {
        name: Some(id("with_pointers")),
        members: NonEmptyVec::new(vec![
            group(
                ConcreteType::Pointer(Box::new(Pointer {
                    pointer_ty: OpaqueType::Function(Function {
                        parameters: vec![
                            FunctionParameter { ty: ConcreteType::int_type(), name: None },
                            FunctionParameter { ty: ConcreteType::int_type(), name: None },
                        ],
                        return_ty: ConcreteType::int_type(),
                    }),
                    is_const: false,
                })),
                "mutable",
            ),
            group(
                ConcreteType::Pointer(Box::new(Pointer {
                    pointer_ty: OpaqueType::Function(Function {
                        parameters: vec![],
                        return_ty: ConcreteType::Void,
                    }),
                    is_const: true,
                })),
                "immutable",
            ),
        ])
        .unwrap(),
    })
    .to_string();
    assert_eq!(
        generated,
        r#"struct with_pointers {
  int (*mutable)(int, int);
  void (*const immutable)();
};"#
    );
}

#[test]
fn pointer_member() {
    let generated = Definition::Struct(Struct::Definition {
        name: Some(id("with_pointers")),
        members: NonEmptyVec::new(vec![
            group(
                ConcreteType::Pointer(Box::new(Pointer {
                    pointer_ty: OpaqueType::ConcreteType(ConcreteType::int_type()),
                    is_const: false,
                })),
                "mutable",
            ),
            group(
                ConcreteType::Pointer(Box::new(Pointer {
                    pointer_ty: OpaqueType::ConcreteType(ConcreteType::Void),
                    is_const: true,
                })),
                "immutable",
            ),
        ])
        .unwrap(),
    })
    .to_string();
    assert_eq!(
        generated,
        r#"struct with_pointers {
  int *mutable;
  void *const immutable;
};"#
    );
}

#[test]
fn union_complete_definitions() {
    let multi_line = Definition::Union(Union::Definition {
        name: Some(id("numbers")),
        members: NonEmptyVec::new(vec![
            group(ConcreteType::int_type(), "i"),
            group(ConcreteType::float(), "f"),
        ])
        .unwrap(),
    })
    .to_string();
    assert_eq!(
        multi_line,
        r#"union numbers {
  int i;
  float f;
};"#
    );
}

#[test]
fn union_incomplete_definition() {
    let generated = Definition::Union(Union::Tag { name: id("numbers") }).to_string();
    assert_eq!(generated, "union numbers;");
}

#[test]
fn union_declarations() {
    let inline = declare(
        ConcreteType::Union(Union::Definition {
            name: Some(id("numbers")),
            members: NonEmptyVec::new(vec![
                group(ConcreteType::int_type(), "i"),
                group(ConcreteType::float(), "f"),
            ])
            .unwrap(),
        }),
        "first_number",
        None,
    )
    .to_string();
    assert_eq!(
        inline,
        r#"union numbers {
  int i;
  float f;
} first_number;"#
    );

    let tag = declare(
        ConcreteType::Union(Union::Tag { name: id("numbers") }),
        "first_number",
        None,
    )
    .to_string();
    assert_eq!(tag, "union numbers first_number;");
}

#[test]
fn union_initializers() {
    let ordered_init = declare(
        ConcreteType::Union(Union::Tag { name: id("numbers") }),
        "first_number",
        Some(ordered(vec![int_value(5)])),
    )
    .to_string();
    assert_eq!(ordered_init, "union numbers first_number = { 5 };");

    let named = declare(
        ConcreteType::Union(Union::Tag { name: id("numbers") }),
        "first_number",
        Some(Expression::InitializerList(InitializerList::Named(vec![(
            id("f"),
            Expression::Value(Value::real_value(format!("{}", std::f64::consts::PI))),
        )]))),
    )
    .to_string();
    assert_eq!(named, "union numbers first_number = { .f = 3.141592653589793 };");
}

#[test]
fn union_bit_fields() {
    let multi_line = Definition::Union(Union::Definition {
        name: Some(id("numbers")),
        members: NonEmptyVec::new(vec![
            bit_group(ConcreteType::unsigned_int(), "ui", 2),
            bit_group(ConcreteType::int_type(), "i", 4),
        ])
        .unwrap(),
    })
    .to_string();
    assert_eq!(
        multi_line,
        r#"union numbers {
  unsigned int ui : 2;
  int i : 4;
};"#
    );
}
