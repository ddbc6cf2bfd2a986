//! The closed sum types for C types, values and expressions.
//!
//! Every composite node owns its children by value; `Pointer` and `Array`
//! chains are acyclic by construction and always bottom out in a
//! non-recursive leaf.
use vstd::prelude::*;

use crate::identifier::Identifier;
use crate::non_empty_vec::NonEmptyVec;

verus! {

/// A variable reference is simply its identifier.
pub type Variable = Identifier;

/// C storage class specifiers.
pub enum StorageClass {
    Auto,
    Extern,
    Register,
    Static,
}

/// The primitive integer type kinds.
pub enum IntegerKind {
    Char,
    Short,
    Int,
    Long,
    LongLong,
}

/// A primitive integer type: a kind and a signedness.
pub struct Integer {
    pub kind: IntegerKind,
    pub is_signed: bool,
}

/// The fixed-width integer aliases of `stdint.h`.
pub enum StrongInt {
    Int16,
    Int32,
    Int64,
    Int8,
    IntFast16,
    IntFast32,
    IntFast64,
    IntFast8,
    IntLeast16,
    IntLeast32,
    IntLeast64,
    IntLeast8,
    IntMax,
    IntPtr,
    Uint16,
    Uint32,
    Uint64,
    Uint8,
    UintFast16,
    UintFast32,
    UintFast64,
    UintFast8,
    UintLeast16,
    UintLeast32,
    UintLeast64,
    UintLeast8,
    UintMax,
    UintPtr,
}

/// The real number types.
#[derive(Clone, Copy)]
pub enum Real {
    Float,
    Double,
    LongDouble,
}

/// The closed set of C type constructors.
pub enum ConcreteType {
    Array(Array),
    Char,
    Enum(Enum),
    Integer(Integer),
    Pointer(Box<Pointer>),
    Real(Real),
    Size,
    StrongInt(StrongInt),
    Struct(Struct),
    Typedef(Box<Typedef>),
    Union(Union),
    Void,
}

/// A C array type: its element type and an optional size (a flexible array
/// has none).
pub struct Array {
    pub element_type: Box<ConcreteType>,
    pub size: Option<usize>,
}

/// A C pointer type: what it points to and whether the pointer itself is
/// `const`.
pub struct Pointer {
    pub pointer_ty: OpaqueType,
    pub is_const: bool,
}

/// A type as seen after stripping pointer and array constructors: either an
/// ordinary type or a function type.
pub enum OpaqueType {
    ConcreteType(ConcreteType),
    Function(Function),
}

/// A C function type: its parameters and its return type.
pub struct Function {
    pub parameters: Vec<FunctionParameter>,
    pub return_ty: ConcreteType,
}

/// One parameter of a function type; the name is optional in declarations.
pub struct FunctionParameter {
    pub ty: ConcreteType,
    pub name: Option<Identifier>,
}

/// The scalar types that a cast may name.
pub enum Scalar {
    Char,
    Integer(Integer),
    Pointer(Pointer),
    StrongInt(StrongInt),
    Real(Real),
    Void,
}

/// One named field of a struct or union, with an optional bit-field width;
/// its type is carried by the enclosing [`MemberGroup`].
pub struct Member {
    pub name: Identifier,
    pub bit_field_size: Option<usize>,
}

/// A group of struct or union members that share one type, C's
/// `int a, b : 2;` form. The member list is non-empty by construction.
pub struct MemberGroup {
    pub ty: ConcreteType,
    pub members: NonEmptyVec<Member>,
}

/// A struct type: a complete definition, or a tag referencing a definition
/// given elsewhere.
pub enum Struct {
    Definition { name: Option<Identifier>, members: NonEmptyVec<MemberGroup> },
    Tag { name: Identifier },
}

/// A union type: a complete definition, or a tag referencing a definition
/// given elsewhere.
pub enum Union {
    Definition { name: Option<Identifier>, members: NonEmptyVec<MemberGroup> },
    Tag { name: Identifier },
}

/// An enumeration type: a complete definition with its enumerators (each an
/// identifier with an optional value expression), or a tag.
pub enum Enum {
    Definition {
        name: Option<Identifier>,
        values: NonEmptyVec<(Identifier, Option<Expression>)>,
    },
    Tag { name: Identifier },
}

/// A typedef: the aliased type and the alias.
pub struct Typedef {
    pub ty: OpaqueType,
    pub alias: Identifier,
}

/// A type definition at file level, rendered with a trailing semicolon.
pub enum Definition {
    Enum(Enum),
    Struct(Struct),
    Union(Union),
}

/// A type declaration at file level, rendered without a trailing semicolon.
pub enum Declaration {
    Enum(Enum),
    Struct(Struct),
    Union(Union),
}

/// A constant value.
pub enum Value {
    Array { values: Vec<Value>, base_type: ConcreteType },
    Char { value: char },
    Enum { value: i32, name: String },
    Pointer { address: usize },
    Real { value: String, kind: Option<Real> },
    SignedInteger { value: i64, kind: Option<IntegerKind> },
    Size { value: usize },
    String(String),
    Struct { fields: Vec<(String, Value)> },
    UnsignedInteger { value: u64, kind: Option<IntegerKind> },
}

/// A C expression.
pub enum Expression {
    AlignOf(ConcreteType),
    ArraySubscript(Box<ArraySubscript>),
    Assignment(Box<Assignment>),
    BinaryOperator(Box<BinaryOperator>),
    Cast(Box<Cast>),
    CommaOperator(Box<CommaOperator>),
    CompoundAssignment(Box<CompoundAssignment>),
    Conditional(Box<Conditional>),
    FunctionCall(Box<FunctionCall>),
    IndirectMemberAccess(Box<IndirectMemberAccess>),
    InitializerList(InitializerList),
    MemberAccess(Box<MemberAccess>),
    Parentheses(Box<Expression>),
    PostfixOperator(Box<PostfixOperator>),
    PrefixOperator(Box<PrefixOperator>),
    SizeOf(Box<SizeOf>),
    Value(Value),
    Variable(Variable),
}

/// An aggregate initializer: either positional or designated.
pub enum InitializerList {
    Named(Vec<(Identifier, Expression)>),
    Ordered(Vec<Expression>),
}

/// Array subscripting, `array[index]`.
pub struct ArraySubscript {
    pub array: Expression,
    pub index: Expression,
}

/// Simple assignment; the left side should be an l-value.
pub struct Assignment {
    pub left: Expression,
    pub right: Expression,
}

/// A binary operation.
pub struct BinaryOperator {
    pub left: Expression,
    pub operator: BinaryOperatorKind,
    pub right: Expression,
}

/// The binary operators.
#[derive(Clone, Copy)]
pub enum BinaryOperatorKind {
    Add,
    Sub,
    Mul,
    Div,
    Mod,
    Eq,
    Ne,
    Lt,
    Le,
    Gt,
    Ge,
    And,
    Or,
    LShift,
    RShift,
    BitAnd,
    BitOr,
    BitXor,
}

/// A cast to a scalar type, `(int) x`.
pub struct Cast {
    pub new_ty: Scalar,
    pub expression: Expression,
}

/// The comma operator, `left, right`.
pub struct CommaOperator {
    pub left: Expression,
    pub right: Expression,
}

/// A compound assignment such as `x += y`.
pub struct CompoundAssignment {
    pub left: Expression,
    pub operator: CompoundAssignmentOperator,
    pub right: Expression,
}

/// The compound assignment operators.
#[derive(Clone, Copy)]
pub enum CompoundAssignmentOperator {
    Add,
    Sub,
    Mul,
    Div,
    Mod,
    And,
    Or,
    Xor,
    Shl,
    Shr,
}

/// The conditional operator, `condition ? then : else`.
pub struct Conditional {
    pub condition: Expression,
    pub then_branch: Expression,
    pub else_branch: Expression,
}

/// A function call: the callee expression and the arguments.
pub struct FunctionCall {
    pub callee: Expression,
    pub arguments: Vec<Expression>,
}

/// Member access through a pointer, `left->member`.
pub struct IndirectMemberAccess {
    pub left: Expression,
    pub member: Identifier,
}

/// Direct member access, `left.member`.
pub struct MemberAccess {
    pub left: Expression,
    pub member: Identifier,
}

/// Postfix increment or decrement.
pub struct PostfixOperator {
    pub operand: Expression,
    pub operator: PostfixOperatorKind,
}

/// The postfix operators.
#[derive(Clone, Copy)]
pub enum PostfixOperatorKind {
    Increment,
    Decrement,
}

/// A prefix operation such as `++x`, `-x`, `&x` or `*x`.
pub struct PrefixOperator {
    pub operand: Expression,
    pub operator: PrefixOperatorKind,
}

/// The prefix operators.
#[derive(Clone, Copy)]
pub enum PrefixOperatorKind {
    Increment,
    Decrement,
    Positive,
    Negative,
    Address,
    Indirection,
}

/// The `sizeof` operator, over an expression or a parenthesized type.
pub enum SizeOf {
    Expression(Expression),
    Type(ConcreteType),
}

impl ConcreteType {
    /// The type `float`.
    pub fn float() -> (t: ConcreteType)
        ensures
            t == ConcreteType::Real(Real::Float),
    {
        ConcreteType::Real(Real::Float)
    }

    /// The type `double`.
    pub fn double() -> (t: ConcreteType)
        ensures
            t == ConcreteType::Real(Real::Double),
    {
        ConcreteType::Real(Real::Double)
    }

    /// The type `int`.
    pub fn int_type() -> (t: ConcreteType)
        ensures
            t == ConcreteType::Integer(Integer { kind: IntegerKind::Int, is_signed: true }),
    {
        ConcreteType::Integer(Integer { kind: IntegerKind::Int, is_signed: true })
    }

    /// The type `unsigned char`.
    pub fn unsigned_char() -> (t: ConcreteType)
        ensures
            t == ConcreteType::Integer(Integer { kind: IntegerKind::Char, is_signed: false }),
    {
        ConcreteType::Integer(Integer { kind: IntegerKind::Char, is_signed: false })
    }

    /// The type `unsigned int`.
    pub fn unsigned_int() -> (t: ConcreteType)
        ensures
            t == ConcreteType::Integer(Integer { kind: IntegerKind::Int, is_signed: false }),
    {
        ConcreteType::Integer(Integer { kind: IntegerKind::Int, is_signed: false })
    }
}

impl Scalar {
    /// The scalar type `int`.
    pub fn int_type() -> (t: Scalar)
        ensures
            t == Scalar::Integer(Integer { kind: IntegerKind::Int, is_signed: true }),
    {
        Scalar::Integer(Integer { kind: IntegerKind::Int, is_signed: true })
    }
}

impl Value {
    /// An `int` literal.
    pub fn int_value(value: i64) -> (v: Value)
        ensures
            v == (Value::SignedInteger { value, kind: Some(IntegerKind::Int) }),
    {
        Value::SignedInteger { value, kind: Some(IntegerKind::Int) }
    }

    /// A real literal of unstated kind; its text is the already formatted
    /// decimal spelling.
    pub fn real_value(value: String) -> (v: Value)
        ensures
            v == (Value::Real { value, kind: None }),
    {
        Value::Real { value, kind: None }
    }

    /// A signed integer literal of unstated kind.
    pub fn signed_integer(value: i64) -> (v: Value)
        ensures
            v == (Value::SignedInteger { value, kind: None }),
    {
        Value::SignedInteger { value, kind: None }
    }

    /// An unsigned integer literal of unstated kind.
    pub fn unsigned_integer(value: u64) -> (v: Value)
        ensures
            v == (Value::UnsignedInteger { value, kind: None }),
    {
        Value::UnsignedInteger { value, kind: None }
    }
}

} // verus!
