//! Rendering of types, values and expressions into layout documents,
//! including base-type resolution and the declarator composer: the recursive
//! procedure that, given a chain of type constructors and an identifier,
//! produces the one correct way to write that declaration in C syntax.
use vstd::prelude::*;

use crate::ast::{
    Array, BinaryOperatorKind, CompoundAssignmentOperator, ConcreteType, Conditional, Declaration,
    Definition, Enum, Expression, Function, FunctionParameter, InitializerList, Integer,
    IntegerKind, Member, MemberGroup, OpaqueType, Pointer, PostfixOperatorKind,
    PrefixOperatorKind, Real, Scalar, SizeOf, StorageClass, StrongInt, Struct, Typedef, Union,
    Value,
};
use crate::doc::{concatv, textv, DocV, Document};
use crate::identifier::Identifier;
use crate::non_empty_vec::NonEmptyVec;
use crate::text::{dec_str, hex_str, i64_dec, int_str, push_char, u64_dec, usize_dec, usize_hex};

verus! {

broadcast use crate::non_empty_vec::lemma_non_empty_vec_view_decreases;

// ---------------------------------------------------------------------------
// Keyword and operator texts
// ---------------------------------------------------------------------------
/// The C spelling of an integer kind.
pub open spec fn kind_text(k: IntegerKind) -> Seq<char> {
    match k {
        IntegerKind::Char => "char"@,
        IntegerKind::Short => "short"@,
        IntegerKind::Int => "int"@,
        IntegerKind::Long => "long"@,
        IntegerKind::LongLong => "long long"@,
    }
}

/// The literal suffix of an integer kind.
pub open spec fn kind_suffix(k: IntegerKind) -> Seq<char> {
    match k {
        IntegerKind::Char => ""@,
        IntegerKind::Short => ""@,
        IntegerKind::Int => ""@,
        IntegerKind::Long => "l"@,
        IntegerKind::LongLong => "ll"@,
    }
}

/// The literal suffix of an optional integer kind.
pub open spec fn kind_suffix_opt(k: Option<IntegerKind>) -> Seq<char> {
    match k {
        Option::None => ""@,
        Option::Some(k) => kind_suffix(k),
    }
}

/// The C spelling of a fixed-width integer alias.
pub open spec fn strong_int_text(s: StrongInt) -> Seq<char> {
    match s {
        StrongInt::Int16 => "int16_t"@,
        StrongInt::Int32 => "int32_t"@,
        StrongInt::Int64 => "int64_t"@,
        StrongInt::Int8 => "int8_t"@,
        StrongInt::IntFast16 => "int_fast16_t"@,
        StrongInt::IntFast32 => "int_fast32_t"@,
        StrongInt::IntFast64 => "int_fast64_t"@,
        StrongInt::IntFast8 => "int_fast8_t"@,
        StrongInt::IntLeast16 => "int_least16_t"@,
        StrongInt::IntLeast32 => "int_least32_t"@,
        StrongInt::IntLeast64 => "int_least64_t"@,
        StrongInt::IntLeast8 => "int_least8_t"@,
        StrongInt::IntMax => "intmax_t"@,
        StrongInt::IntPtr => "intptr_t"@,
        StrongInt::Uint16 => "uint16_t"@,
        StrongInt::Uint32 => "uint32_t"@,
        StrongInt::Uint64 => "uint64_t"@,
        StrongInt::Uint8 => "uint8_t"@,
        StrongInt::UintFast16 => "uint_fast16_t"@,
        StrongInt::UintFast32 => "uint_fast32_t"@,
        StrongInt::UintFast64 => "uint_fast64_t"@,
        StrongInt::UintFast8 => "uint_fast8_t"@,
        StrongInt::UintLeast16 => "uint_least16_t"@,
        StrongInt::UintLeast32 => "uint_least32_t"@,
        StrongInt::UintLeast64 => "uint_least64_t"@,
        StrongInt::UintLeast8 => "uint_least8_t"@,
        StrongInt::UintMax => "uintmax_t"@,
        StrongInt::UintPtr => "uintptr_t"@,
    }
}

/// The C spelling of a real type.
pub open spec fn real_text(r: Real) -> Seq<char> {
    match r {
        Real::Float => "float"@,
        Real::Double => "double"@,
        Real::LongDouble => "long double"@,
    }
}

/// The literal suffix of a real kind.
pub open spec fn real_suffix(r: Real) -> Seq<char> {
    match r {
        Real::Float => "f"@,
        Real::Double => ""@,
        Real::LongDouble => "l"@,
    }
}

/// The literal suffix of an optional real kind.
pub open spec fn real_suffix_opt(k: Option<Real>) -> Seq<char> {
    match k {
        Option::None => ""@,
        Option::Some(r) => real_suffix(r),
    }
}

/// The C spelling of a storage class.
pub open spec fn storage_class_text(s: StorageClass) -> Seq<char> {
    match s {
        StorageClass::Auto => "auto"@,
        StorageClass::Extern => "extern"@,
        StorageClass::Register => "register"@,
        StorageClass::Static => "static"@,
    }
}

/// The C spelling of a binary operator.
pub open spec fn binary_op_text(k: BinaryOperatorKind) -> Seq<char> {
    match k {
        BinaryOperatorKind::Add => "+"@,
        BinaryOperatorKind::Sub => "-"@,
        BinaryOperatorKind::Mul => "*"@,
        BinaryOperatorKind::Div => "/"@,
        BinaryOperatorKind::Mod => "%"@,
        BinaryOperatorKind::Eq => "=="@,
        BinaryOperatorKind::Ne => "!="@,
        BinaryOperatorKind::Lt => "<"@,
        BinaryOperatorKind::Le => "<="@,
        BinaryOperatorKind::Gt => ">"@,
        BinaryOperatorKind::Ge => ">="@,
        BinaryOperatorKind::And => "&&"@,
        BinaryOperatorKind::Or => "||"@,
        BinaryOperatorKind::LShift => "<<"@,
        BinaryOperatorKind::RShift => ">>"@,
        BinaryOperatorKind::BitAnd => "&"@,
        BinaryOperatorKind::BitOr => "|"@,
        BinaryOperatorKind::BitXor => "^"@,
    }
}

/// The C spelling of a compound assignment operator.
pub open spec fn compound_op_text(k: CompoundAssignmentOperator) -> Seq<char> {
    match k {
        CompoundAssignmentOperator::Add => "+="@,
        CompoundAssignmentOperator::Sub => "-="@,
        CompoundAssignmentOperator::Mul => "*="@,
        CompoundAssignmentOperator::Div => "/="@,
        CompoundAssignmentOperator::Mod => "%="@,
        CompoundAssignmentOperator::And => "&="@,
        CompoundAssignmentOperator::Or => "|="@,
        CompoundAssignmentOperator::Xor => "^="@,
        CompoundAssignmentOperator::Shl => "<<="@,
        CompoundAssignmentOperator::Shr => ">>="@,
    }
}

/// The C spelling of a postfix operator.
pub open spec fn postfix_op_text(k: PostfixOperatorKind) -> Seq<char> {
    match k {
        PostfixOperatorKind::Increment => "++"@,
        PostfixOperatorKind::Decrement => "--"@,
    }
}

/// The C spelling of a prefix operator.
pub open spec fn prefix_op_text(k: PrefixOperatorKind) -> Seq<char> {
    match k {
        PrefixOperatorKind::Increment => "++"@,
        PrefixOperatorKind::Decrement => "--"@,
        PrefixOperatorKind::Positive => "+"@,
        PrefixOperatorKind::Negative => "-"@,
        PrefixOperatorKind::Address => "&"@,
        PrefixOperatorKind::Indirection => "*"@,
    }
}

// ---------------------------------------------------------------------------
// Base-type resolution (specification level)
// ---------------------------------------------------------------------------
/// The fundamental type of `t` after stripping all pointer and array
/// constructors. For `int[3][4]` this is `int`; for `void (*)(int)` it is
/// the function type `void (int)`.
pub open spec fn base_type_of(t: ConcreteType) -> OpaqueType
    decreases t,
{
    match t {
        ConcreteType::Array(a) => base_type_of(*a.element_type),
        ConcreteType::Pointer(p) => base_type_of_pointer(*p),
        _ => OpaqueType::ConcreteType(t),
    }
}

/// The fundamental type of what a pointer points to: strips nested pointer
/// and array layers alike, so a pointer to an array of function pointers
/// still resolves to the function type.
pub open spec fn base_type_of_pointer(p: Pointer) -> OpaqueType
    decreases p,
{
    match p.pointer_ty {
        OpaqueType::ConcreteType(ConcreteType::Pointer(p2)) => base_type_of_pointer(*p2),
        OpaqueType::ConcreteType(ConcreteType::Array(a)) => base_type_of(*a.element_type),
        _ => p.pointer_ty,
    }
}

/// Whether the fundamental type of `t` is a function type.
pub open spec fn base_is_fn(t: ConcreteType) -> bool {
    base_type_of(t) is Function
}

/// Whether the fundamental type of the pointer chain is a function type.
pub open spec fn ptr_base_is_fn(p: Pointer) -> bool {
    base_type_of_pointer(p) is Function
}

/// The innermost element type of nested arrays: for `int[2][5]` this is
/// `int`; for a non-array it is the type itself.
pub open spec fn innermost_of(t: ConcreteType) -> ConcreteType
    decreases t,
{
    match t {
        ConcreteType::Array(a) => innermost_of(*a.element_type),
        _ => t,
    }
}

/// The dimensions of nested arrays, outermost first; `None` is a flexible
/// dimension.
pub open spec fn dims_of(a: Array) -> Seq<Option<usize>>
    decreases a,
{
    seq![a.size] + (match *a.element_type {
        ConcreteType::Array(a2) => dims_of(a2),
        _ => Seq::<Option<usize>>::empty(),
    })
}

/// The constness flags of a pointer chain, outermost pointer first.
pub open spec fn flags_of(p: Pointer) -> Seq<bool>
    decreases p,
{
    seq![p.is_const] + (match p.pointer_ty {
        OpaqueType::ConcreteType(ConcreteType::Pointer(p2)) => flags_of(*p2),
        _ => Seq::<bool>::empty(),
    })
}

/// Whether the innermost pointer of the chain is `const`; exactly then the
/// written declarator needs a space before the declared name.
pub open spec fn last_const(p: Pointer) -> bool
    decreases p,
{
    match p.pointer_ty {
        OpaqueType::ConcreteType(ConcreteType::Pointer(p2)) => last_const(*p2),
        _ => p.is_const,
    }
}

// ---------------------------------------------------------------------------
// Documents for types (specification level)
// ---------------------------------------------------------------------------
/// One array dimension: `[N]`, or `[]` for a flexible array.
pub open spec fn size_bracket_docv(s: Option<usize>) -> DocV {
    match s {
        Option::Some(n) => concatv(textv("["@), concatv(textv(dec_str(n as nat)), textv("]"@))),
        Option::None => concatv(textv("["@), concatv(DocV::Empty, textv("]"@))),
    }
}

/// The dimension brackets of the array layers of `t`, outermost first.
pub open spec fn arr_dims_docv(t: ConcreteType) -> DocV
    decreases t,
{
    match t {
        ConcreteType::Array(a) => concatv(
            size_bracket_docv(a.size),
            arr_dims_docv(*a.element_type),
        ),
        _ => DocV::Empty,
    }
}

/// The stars of a pointer chain, outermost first: `*` per layer, `const`
/// after a const layer, and a separating space between consecutive stars
/// where the preceding layer was const (`*const *`, never `*const*`).
pub open spec fn stars_docv(p: Pointer, prev_const: bool) -> DocV
    decreases p,
{
    let head = concatv(
        if prev_const {
            textv(" "@)
        } else {
            DocV::Empty
        },
        concatv(
            textv("*"@),
            if p.is_const {
                textv("const"@)
            } else {
                DocV::Empty
            },
        ),
    );
    match p.pointer_ty {
        OpaqueType::ConcreteType(ConcreteType::Pointer(p2)) => concatv(
            head,
            stars_docv(*p2, p.is_const),
        ),
        _ => head,
    }
}

/// The stars of the element of an array of function pointers: only an
/// immediate pointer element contributes its chain.
pub open spec fn elem_stars_docv(t: ConcreteType) -> DocV {
    match t {
        ConcreteType::Pointer(p) => stars_docv(*p, false),
        _ => DocV::Empty,
    }
}

/// The document for a type written in type position.
pub open spec fn type_docv(t: ConcreteType) -> DocV
    decreases t, 0nat,
{
    match t {
        ConcreteType::Array(a) => concatv(
            innermost_docv(*a.element_type),
            concatv(size_bracket_docv(a.size), arr_dims_docv(*a.element_type)),
        ),
        ConcreteType::Char => textv("char"@),
        ConcreteType::Enum(e) => enum_docv(e),
        ConcreteType::Integer(i) => integer_docv(i),
        ConcreteType::Pointer(p) => pointer_docv(*p),
        ConcreteType::Real(r) => textv(real_text(r)),
        ConcreteType::Size => textv("size_t"@),
        ConcreteType::StrongInt(s) => textv(strong_int_text(s)),
        ConcreteType::Struct(s) => struct_docv(s),
        ConcreteType::Typedef(td) => textv(td.alias@),
        ConcreteType::Union(u) => union_docv(u),
        ConcreteType::Void => textv("void"@),
    }
}

/// The document for an integer type.
pub open spec fn integer_docv(i: Integer) -> DocV {
    if i.is_signed {
        match i.kind {
            IntegerKind::Char => textv("signed char"@),
            _ => textv(kind_text(i.kind)),
        }
    } else {
        concatv(textv("unsigned "@), textv(kind_text(i.kind)))
    }
}

/// The document for the innermost element type of `t`.
pub open spec fn innermost_docv(t: ConcreteType) -> DocV
    decreases t, 1nat,
{
    match t {
        ConcreteType::Array(a) => innermost_docv(*a.element_type),
        _ => type_docv(t),
    }
}

/// The document for the type text the pointer chain bottoms out in (the
/// non-function case).
pub open spec fn ptr_base_docv(p: Pointer) -> DocV
    decreases p, 0nat,
{
    match p.pointer_ty {
        OpaqueType::ConcreteType(ConcreteType::Pointer(p2)) => ptr_base_docv(*p2),
        OpaqueType::ConcreteType(c) => type_docv(c),
        OpaqueType::Function(_) => DocV::Empty,
    }
}

/// The document for a pointer type written in type position: the pointee's
/// text, a space, then the stars; for a pointer to a function, the function
/// spelling with the stars in parentheses.
pub open spec fn pointer_docv(p: Pointer) -> DocV
    decreases p, 1nat,
{
    if ptr_base_is_fn(p) {
        concatv(
            ptr_sig_start_docv(p),
            concatv(stars_docv(p, false), concatv(textv(")"@), ptr_sig_end_params_docv(p))),
        )
    } else {
        concatv(ptr_base_docv(p), concatv(textv(" "@), stars_docv(p, false)))
    }
}

/// The start of the base function's spelling (return type, space, open
/// paren), reached through the pointer and array layers of the chain.
pub open spec fn ptr_sig_start_docv(p: Pointer) -> DocV
    decreases p, 0nat,
{
    match p.pointer_ty {
        OpaqueType::ConcreteType(ConcreteType::Pointer(p2)) => ptr_sig_start_docv(*p2),
        OpaqueType::ConcreteType(ConcreteType::Array(a)) => base_sig_start_docv(*a.element_type),
        OpaqueType::Function(f) => sig_start_docv(f),
        OpaqueType::ConcreteType(_) => DocV::Empty,
    }
}

/// The base function's parameter list, reached through the pointer and
/// array layers of the chain.
pub open spec fn ptr_sig_end_params_docv(p: Pointer) -> DocV
    decreases p, 0nat,
{
    match p.pointer_ty {
        OpaqueType::ConcreteType(ConcreteType::Pointer(p2)) => ptr_sig_end_params_docv(*p2),
        OpaqueType::ConcreteType(ConcreteType::Array(a)) => base_params_docv(*a.element_type),
        OpaqueType::Function(f) => params_docv(f.parameters@),
        OpaqueType::ConcreteType(_) => DocV::Empty,
    }
}

/// The start of the base function's spelling, reached through array and
/// pointer layers.
pub open spec fn base_sig_start_docv(t: ConcreteType) -> DocV
    decreases t, 0nat,
{
    match t {
        ConcreteType::Array(a) => base_sig_start_docv(*a.element_type),
        ConcreteType::Pointer(p) => ptr_sig_start_docv(*p),
        _ => DocV::Empty,
    }
}

/// The base function's parameter list, reached through array and pointer
/// layers.
pub open spec fn base_params_docv(t: ConcreteType) -> DocV
    decreases t, 0nat,
{
    match t {
        ConcreteType::Array(a) => base_params_docv(*a.element_type),
        ConcreteType::Pointer(p) => ptr_sig_end_params_docv(*p),
        _ => DocV::Empty,
    }
}

/// The return-type prefix of a function spelling: return type, then a space.
pub open spec fn ret_docv(f: Function) -> DocV
    decreases f, 0nat,
{
    concatv(type_docv(f.return_ty), textv(" "@))
}

/// The opening of a function spelling: return type, space, open paren.
pub open spec fn sig_start_docv(f: Function) -> DocV
    decreases f, 1nat,
{
    concatv(ret_docv(f), textv("("@))
}

/// The parenthesized, comma-separated parameter list of a function.
pub open spec fn params_docv(ps: Seq<FunctionParameter>) -> DocV
    decreases ps, 1nat,
{
    concatv(textv("("@), concatv(params_list_docv(ps), textv(")"@)))
}

/// The comma-separated parameters.
pub open spec fn params_list_docv(ps: Seq<FunctionParameter>) -> DocV
    decreases ps, 0nat,
{
    if ps.len() == 0 {
        DocV::Empty
    } else if ps.len() == 1 {
        param_docv(ps[0])
    } else {
        concatv(param_docv(ps[0]), concatv(textv(", "@), params_list_docv(ps.drop_first())))
    }
}

/// One parameter: its type, then the name if it has one.
pub open spec fn param_docv(p: FunctionParameter) -> DocV
    decreases p, 1nat,
{
    match p.name {
        Option::Some(n) => concatv(type_docv(p.ty), concatv(textv(" "@), textv(n@))),
        Option::None => type_docv(p.ty),
    }
}

// ---------------------------------------------------------------------------
// The declarator composer (specification level)
// ---------------------------------------------------------------------------
/// The document declaring `name` with type `t`: the unique idiomatic C
/// spelling of "a variable/field/parameter named `name` of type `t`".
///
/// - For an array whose base type is a function: the function's return-type
///   prefix, an open paren, the pointer stars of the element chain, the name,
///   the dimension brackets, a close paren, then the parameter list.
/// - For any other array: the innermost element type, a space, the name, then
///   each dimension in outer-to-inner order.
/// - For a pointer whose base type is a function: the return-type prefix, an
///   open paren, the stars, the name, a close paren, then the parameters.
/// - For any other pointer: the pointee's text, the stars, then the name,
///   with a separating space exactly when the innermost layer is `const`.
/// - Otherwise: the type's text, a space, then the name.
pub open spec fn decl_docv(t: ConcreteType, name: Seq<char>) -> DocV
    decreases t, 2nat,
{
    match t {
        ConcreteType::Array(a) => {
            let alias = concatv(
                textv(name),
                concatv(size_bracket_docv(a.size), arr_dims_docv(*a.element_type)),
            );
            if base_is_fn(*a.element_type) {
                concatv(
                    base_sig_start_docv(*a.element_type),
                    concatv(
                        elem_stars_docv(*a.element_type),
                        concatv(alias, concatv(textv(")"@), base_params_docv(*a.element_type))),
                    ),
                )
            } else {
                concatv(innermost_docv(*a.element_type), concatv(textv(" "@), alias))
            }
        },
        ConcreteType::Pointer(p) => {
            let trail = if last_const(*p) {
                textv(" "@)
            } else {
                DocV::Empty
            };
            if ptr_base_is_fn(*p) {
                concatv(
                    ptr_sig_start_docv(*p),
                    concatv(
                        stars_docv(*p, false),
                        concatv(
                            trail,
                            concatv(
                                textv(name),
                                concatv(textv(")"@), ptr_sig_end_params_docv(*p)),
                            ),
                        ),
                    ),
                )
            } else {
                concatv(pointer_docv(*p), concatv(trail, textv(name)))
            }
        },
        _ => concatv(type_docv(t), concatv(textv(" "@), textv(name))),
    }
}

// ---------------------------------------------------------------------------
// Structs, unions, enums, typedefs (specification level)
// ---------------------------------------------------------------------------
/// An optional bit-field width, ` : N`.
pub open spec fn bitfield_docv(b: Option<usize>) -> DocV {
    match b {
        Option::Some(n) => concatv(textv(" : "@), textv(dec_str(n as nat))),
        Option::None => DocV::Empty,
    }
}

/// The members of a group after the first: `, name` with an optional width.
pub open spec fn members_rest_docv(ms: Seq<Member>) -> DocV
    decreases ms.len(),
{
    if ms.len() == 0 {
        DocV::Empty
    } else {
        concatv(
            textv(", "@),
            concatv(
                textv(ms[0].name@),
                concatv(bitfield_docv(ms[0].bit_field_size), members_rest_docv(ms.drop_first())),
            ),
        )
    }
}

/// One member group: the shared type composed with the first member's name,
/// then the remaining members by name, then a semicolon.
pub open spec fn group_docv(g: MemberGroup) -> DocV
    decreases g, 0nat,
{
    if g.members@.len() == 0 {
        DocV::Empty
    } else {
        concatv(
            decl_docv(g.ty, g.members@[0].name@),
            concatv(
                bitfield_docv(g.members@[0].bit_field_size),
                concatv(members_rest_docv(g.members@.drop_first()), textv(";"@)),
            ),
        )
    }
}

/// Member groups on their own lines, each indented by two spaces.
pub open spec fn groups_docv(gs: Seq<MemberGroup>) -> DocV
    decreases gs, 0nat,
{
    if gs.len() == 0 {
        DocV::Empty
    } else if gs.len() == 1 {
        concatv(textv("  "@), group_docv(gs[0]))
    } else {
        concatv(
            textv("  "@),
            concatv(group_docv(gs[0]), concatv(DocV::HardLine, groups_docv(gs.drop_first()))),
        )
    }
}

/// The body of a struct or union definition after the keyword: the optional
/// tag, then the braced member groups.
pub open spec fn composite_body_docv(name: Option<Identifier>, members: NonEmptyVec<MemberGroup>) -> DocV
    decreases members, 0nat,
{
    let tag = match name {
        Option::Some(n) => concatv(textv(n@), textv(" "@)),
        Option::None => DocV::Empty,
    };
    concatv(
        tag,
        concatv(
            textv("{"@),
            concatv(
                DocV::HardLine,
                concatv(groups_docv(members@), concatv(DocV::HardLine, textv("}"@))),
            ),
        ),
    )
}

/// The document for a struct type.
pub open spec fn struct_docv(s: Struct) -> DocV
    decreases s, 1nat,
{
    match s {
        Struct::Definition { name, members } => concatv(
            textv("struct "@),
            composite_body_docv(name, members),
        ),
        Struct::Tag { name } => concatv(textv("struct "@), textv(name@)),
    }
}

/// The document for a union type.
pub open spec fn union_docv(u: Union) -> DocV
    decreases u, 1nat,
{
    match u {
        Union::Definition { name, members } => concatv(
            textv("union "@),
            composite_body_docv(name, members),
        ),
        Union::Tag { name } => concatv(textv("union "@), textv(name@)),
    }
}

/// The comma-separated enumerators of an enum definition.
pub open spec fn enumerators_docv(vs: Seq<(Identifier, Option<Expression>)>) -> DocV
    decreases vs, 1nat,
{
    if vs.len() == 0 {
        DocV::Empty
    } else if vs.len() == 1 {
        enumerator_docv(vs[0])
    } else {
        concatv(enumerator_docv(vs[0]), concatv(textv(", "@), enumerators_docv(vs.drop_first())))
    }
}

/// One enumerator: its name, and `= value` when a value is given.
pub open spec fn enumerator_docv(v: (Identifier, Option<Expression>)) -> DocV
    decreases v, 0nat,
{
    match v.1 {
        Option::Some(e) => concatv(textv(v.0@), concatv(textv(" = "@), expr_docv(e))),
        Option::None => textv(v.0@),
    }
}

/// The document for an enum type: `enum`, the optional tag, then the braced
/// single-line enumerator list; a tag alone for the incomplete form.
pub open spec fn enum_docv(e: Enum) -> DocV
    decreases e, 2nat,
{
    match e {
        Enum::Definition { name, values } => {
            let tag = match name {
                Option::Some(n) => concatv(textv(n@), textv(" "@)),
                Option::None => DocV::Empty,
            };
            concatv(
                textv("enum "@),
                concatv(
                    tag,
                    concatv(textv("{"@), concatv(enumerators_docv(values@), textv("}"@))),
                ),
            )
        },
        Enum::Tag { name } => concatv(textv("enum "@), textv(name@)),
    }
}

/// The document for a typedef: the aliased type composed with the alias as
/// the declared name; a bare function type puts the alias in parentheses.
pub open spec fn typedef_docv(td: Typedef) -> DocV {
    let inner = match td.ty {
        OpaqueType::ConcreteType(c) => decl_docv(c, td.alias@),
        OpaqueType::Function(f) => concatv(
            sig_start_docv(f),
            concatv(textv(td.alias@), concatv(textv(")"@), params_docv(f.parameters@))),
        ),
    };
    concatv(textv("typedef "@), concatv(inner, textv(";"@)))
}

/// The document for a scalar type named in a cast.
pub open spec fn scalar_docv(sc: Scalar) -> DocV
    decreases sc, 1nat,
{
    match sc {
        Scalar::Char => textv("char"@),
        Scalar::Integer(i) => integer_docv(i),
        Scalar::Pointer(p) => pointer_docv(p),
        Scalar::StrongInt(s) => textv(strong_int_text(s)),
        Scalar::Real(r) => textv(real_text(r)),
        Scalar::Void => textv("void"@),
    }
}

// ---------------------------------------------------------------------------
// Values (specification level)
// ---------------------------------------------------------------------------
/// The document for a constant value.
pub open spec fn value_docv(v: Value) -> DocV
    decreases v, 1nat,
{
    match v {
        Value::Array { values, base_type } => concatv(
            type_docv(base_type),
            concatv(
                textv("[] { "@),
                concatv(values_docv(values@), textv(" }"@)),
            ),
        ),
        Value::Char { value } => concatv(
            textv("'"@),
            concatv(textv(seq![value]), textv("'"@)),
        ),
        Value::Enum { value, name } => concatv(
            textv("enum "@),
            concatv(textv(name@), concatv(textv(" = "@), textv(int_str(value as int)))),
        ),
        Value::Pointer { address } => textv("0x"@ + hex_str(address as nat)),
        Value::Real { value, kind } => concatv(textv(value@), textv(real_suffix_opt(kind))),
        Value::SignedInteger { value, kind } => concatv(
            textv(int_str(value as int)),
            textv(kind_suffix_opt(kind)),
        ),
        Value::Size { value } => textv(dec_str(value as nat)),
        Value::String(s) => concatv(textv("\""@), concatv(textv(s@), textv("\""@))),
        Value::Struct { fields } => concatv(
            textv("{ "@),
            concatv(fields_docv(fields@), textv(" }"@)),
        ),
        Value::UnsignedInteger { value, kind } => concatv(
            textv(dec_str(value as nat)),
            concatv(textv("u"@), textv(kind_suffix_opt(kind))),
        ),
    }
}

/// Comma-separated values of an array constant.
pub open spec fn values_docv(vs: Seq<Value>) -> DocV
    decreases vs, 0nat,
{
    if vs.len() == 0 {
        DocV::Empty
    } else if vs.len() == 1 {
        value_docv(vs[0])
    } else {
        concatv(value_docv(vs[0]), concatv(textv(", "@), values_docv(vs.drop_first())))
    }
}

/// Comma-separated `name: value` pairs of a struct constant.
pub open spec fn fields_docv(fs: Seq<(String, Value)>) -> DocV
    decreases fs, 0nat,
{
    if fs.len() == 0 {
        DocV::Empty
    } else {
        let head = concatv(textv(fs[0].0@), concatv(textv(": "@), value_docv(fs[0].1)));
        if fs.len() == 1 {
            head
        } else {
            concatv(head, concatv(textv(", "@), fields_docv(fs.drop_first())))
        }
    }
}

// ---------------------------------------------------------------------------
// Expressions (specification level)
// ---------------------------------------------------------------------------
/// The document for an expression.
pub open spec fn expr_docv(e: Expression) -> DocV
    decreases e, 1nat,
{
    match e {
        Expression::AlignOf(t) => concatv(
            textv("_Alignof"@),
            concatv(textv("("@), concatv(type_docv(t), textv(")"@))),
        ),
        Expression::ArraySubscript(s) => concatv(
            expr_docv(s.array),
            concatv(textv("["@), concatv(expr_docv(s.index), textv("]"@))),
        ),
        Expression::Assignment(a) => concatv(
            expr_docv(a.left),
            concatv(textv(" = "@), expr_docv(a.right)),
        ),
        Expression::BinaryOperator(b) => concatv(
            expr_docv(b.left),
            concatv(
                textv(" "@),
                concatv(
                    textv(binary_op_text(b.operator)),
                    concatv(textv(" "@), expr_docv(b.right)),
                ),
            ),
        ),
        Expression::Cast(c) => concatv(
            textv("("@),
            concatv(
                scalar_docv(c.new_ty),
                concatv(textv(")"@), concatv(textv(" "@), expr_docv(c.expression))),
            ),
        ),
        Expression::CommaOperator(c) => concatv(
            expr_docv(c.left),
            concatv(textv(", "@), expr_docv(c.right)),
        ),
        Expression::CompoundAssignment(c) => concatv(
            expr_docv(c.left),
            concatv(
                textv(" "@),
                concatv(
                    textv(compound_op_text(c.operator)),
                    concatv(textv(" "@), expr_docv(c.right)),
                ),
            ),
        ),
        Expression::Conditional(c) => concatv(
            expr_docv(c.condition),
            concatv(
                textv(" ? "@),
                concatv(expr_docv(c.then_branch), concatv(textv(" : "@), expr_docv(c.else_branch))),
            ),
        ),
        Expression::FunctionCall(f) => concatv(
            expr_docv(f.callee),
            concatv(textv("("@), concatv(args_docv(f.arguments@), textv(")"@))),
        ),
        Expression::IndirectMemberAccess(m) => concatv(
            expr_docv(m.left),
            concatv(textv("->"@), textv(m.member@)),
        ),
        Expression::InitializerList(l) => initializer_docv(l),
        Expression::MemberAccess(m) => concatv(
            expr_docv(m.left),
            concatv(textv("."@), textv(m.member@)),
        ),
        Expression::Parentheses(inner) => concatv(
            textv("("@),
            concatv(expr_docv(*inner), textv(")"@)),
        ),
        Expression::PostfixOperator(p) => concatv(
            expr_docv(p.operand),
            textv(postfix_op_text(p.operator)),
        ),
        Expression::PrefixOperator(p) => concatv(
            textv(prefix_op_text(p.operator)),
            expr_docv(p.operand),
        ),
        Expression::SizeOf(s) => concatv(textv("sizeof "@), sizeof_arg_docv(*s)),
        Expression::Value(v) => value_docv(v),
        Expression::Variable(id) => textv(id@),
    }
}

/// What follows `sizeof`: a parenthesized type, or a bare expression.
pub open spec fn sizeof_arg_docv(s: SizeOf) -> DocV
    decreases s, 0nat,
{
    match s {
        SizeOf::Expression(e) => expr_docv(e),
        SizeOf::Type(t) => concatv(textv("("@), concatv(type_docv(t), textv(")"@))),
    }
}

/// Comma-separated argument expressions.
pub open spec fn args_docv(es: Seq<Expression>) -> DocV
    decreases es, 0nat,
{
    if es.len() == 0 {
        DocV::Empty
    } else if es.len() == 1 {
        expr_docv(es[0])
    } else {
        concatv(expr_docv(es[0]), concatv(textv(", "@), args_docv(es.drop_first())))
    }
}

/// The document for an aggregate initializer: braced, space-padded,
/// comma-separated items; designated items are written `.name = value`.
pub open spec fn initializer_docv(l: InitializerList) -> DocV
    decreases l, 1nat,
{
    match l {
        InitializerList::Ordered(es) => concatv(
            textv("{ "@),
            concatv(args_docv(es@), textv(" }"@)),
        ),
        InitializerList::Named(ns) => concatv(
            textv("{ "@),
            concatv(named_inits_docv(ns@), textv(" }"@)),
        ),
    }
}

/// Comma-separated designated initializers.
pub open spec fn named_inits_docv(ns: Seq<(Identifier, Expression)>) -> DocV
    decreases ns, 0nat,
{
    if ns.len() == 0 {
        DocV::Empty
    } else {
        let head = concatv(
            textv("."@),
            concatv(textv(ns[0].0@), concatv(textv(" = "@), expr_docv(ns[0].1))),
        );
        if ns.len() == 1 {
            head
        } else {
            concatv(head, concatv(textv(", "@), named_inits_docv(ns.drop_first())))
        }
    }
}

/// The document for a file-level type definition: the enum, struct or union,
/// closed by a semicolon.
pub open spec fn definition_docv(d: Definition) -> DocV {
    let inner = match d {
        Definition::Enum(e) => enum_docv(e),
        Definition::Struct(s) => struct_docv(s),
        Definition::Union(u) => union_docv(u),
    };
    concatv(inner, textv(";"@))
}

/// The document for a file-level type declaration, without a semicolon.
pub open spec fn declaration_docv(d: Declaration) -> DocV {
    match d {
        Declaration::Enum(e) => enum_docv(e),
        Declaration::Struct(s) => struct_docv(s),
        Declaration::Union(u) => union_docv(u),
    }
}

// ---------------------------------------------------------------------------
// Executable keyword and operator texts
// ---------------------------------------------------------------------------
impl Real {
    /// The literal suffix of this real kind.
    pub fn suffix(self) -> (r: &'static str)
        ensures
            r@ == real_suffix(self),
    {
        match self {
            Real::Float => "f",
            Real::Double => "",
            Real::LongDouble => "l",
        }
    }
}

fn kind_str(k: &IntegerKind) -> (r: &'static str)
    ensures
        r@ == kind_text(*k),
{
    match k {
        IntegerKind::Char => "char",
        IntegerKind::Short => "short",
        IntegerKind::Int => "int",
        IntegerKind::Long => "long",
        IntegerKind::LongLong => "long long",
    }
}

fn kind_suffix_str(k: &Option<IntegerKind>) -> (r: &'static str)
    ensures
        r@ == kind_suffix_opt(*k),
{
    match k {
        Option::None => "",
        Option::Some(IntegerKind::Char) => "",
        Option::Some(IntegerKind::Short) => "",
        Option::Some(IntegerKind::Int) => "",
        Option::Some(IntegerKind::Long) => "l",
        Option::Some(IntegerKind::LongLong) => "ll",
    }
}

fn strong_int_str(s: &StrongInt) -> (r: &'static str)
    ensures
        r@ == strong_int_text(*s),
{
    match s {
        StrongInt::Int16 => "int16_t",
        StrongInt::Int32 => "int32_t",
        StrongInt::Int64 => "int64_t",
        StrongInt::Int8 => "int8_t",
        StrongInt::IntFast16 => "int_fast16_t",
        StrongInt::IntFast32 => "int_fast32_t",
        StrongInt::IntFast64 => "int_fast64_t",
        StrongInt::IntFast8 => "int_fast8_t",
        StrongInt::IntLeast16 => "int_least16_t",
        StrongInt::IntLeast32 => "int_least32_t",
        StrongInt::IntLeast64 => "int_least64_t",
        StrongInt::IntLeast8 => "int_least8_t",
        StrongInt::IntMax => "intmax_t",
        StrongInt::IntPtr => "intptr_t",
        StrongInt::Uint16 => "uint16_t",
        StrongInt::Uint32 => "uint32_t",
        StrongInt::Uint64 => "uint64_t",
        StrongInt::Uint8 => "uint8_t",
        StrongInt::UintFast16 => "uint_fast16_t",
        StrongInt::UintFast32 => "uint_fast32_t",
        StrongInt::UintFast64 => "uint_fast64_t",
        StrongInt::UintFast8 => "uint_fast8_t",
        StrongInt::UintLeast16 => "uint_least16_t",
        StrongInt::UintLeast32 => "uint_least32_t",
        StrongInt::UintLeast64 => "uint_least64_t",
        StrongInt::UintLeast8 => "uint_least8_t",
        StrongInt::UintMax => "uintmax_t",
        StrongInt::UintPtr => "uintptr_t",
    }
}

fn real_str(r0: &Real) -> (r: &'static str)
    ensures
        r@ == real_text(*r0),
{
    match r0 {
        Real::Float => "float",
        Real::Double => "double",
        Real::LongDouble => "long double",
    }
}

fn real_suffix_str(k: &Option<Real>) -> (r: &'static str)
    ensures
        r@ == real_suffix_opt(*k),
{
    match k {
        Option::None => "",
        Option::Some(Real::Float) => "f",
        Option::Some(Real::Double) => "",
        Option::Some(Real::LongDouble) => "l",
    }
}

impl StorageClass {
    /// The C spelling of this storage class.
    pub fn as_str(&self) -> (r: &'static str)
        ensures
            r@ == storage_class_text(*self),
    {
        match self {
            StorageClass::Auto => "auto",
            StorageClass::Extern => "extern",
            StorageClass::Register => "register",
            StorageClass::Static => "static",
        }
    }
}

fn binary_op_str(k: &BinaryOperatorKind) -> (r: &'static str)
    ensures
        r@ == binary_op_text(*k),
{
    match k {
        BinaryOperatorKind::Add => "+",
        BinaryOperatorKind::Sub => "-",
        BinaryOperatorKind::Mul => "*",
        BinaryOperatorKind::Div => "/",
        BinaryOperatorKind::Mod => "%",
        BinaryOperatorKind::Eq => "==",
        BinaryOperatorKind::Ne => "!=",
        BinaryOperatorKind::Lt => "<",
        BinaryOperatorKind::Le => "<=",
        BinaryOperatorKind::Gt => ">",
        BinaryOperatorKind::Ge => ">=",
        BinaryOperatorKind::And => "&&",
        BinaryOperatorKind::Or => "||",
        BinaryOperatorKind::LShift => "<<",
        BinaryOperatorKind::RShift => ">>",
        BinaryOperatorKind::BitAnd => "&",
        BinaryOperatorKind::BitOr => "|",
        BinaryOperatorKind::BitXor => "^",
    }
}

fn compound_op_str(k: &CompoundAssignmentOperator) -> (r: &'static str)
    ensures
        r@ == compound_op_text(*k),
{
    match k {
        CompoundAssignmentOperator::Add => "+=",
        CompoundAssignmentOperator::Sub => "-=",
        CompoundAssignmentOperator::Mul => "*=",
        CompoundAssignmentOperator::Div => "/=",
        CompoundAssignmentOperator::Mod => "%=",
        CompoundAssignmentOperator::And => "&=",
        CompoundAssignmentOperator::Or => "|=",
        CompoundAssignmentOperator::Xor => "^=",
        CompoundAssignmentOperator::Shl => "<<=",
        CompoundAssignmentOperator::Shr => ">>=",
    }
}

fn postfix_op_str(k: &PostfixOperatorKind) -> (r: &'static str)
    ensures
        r@ == postfix_op_text(*k),
{
    match k {
        PostfixOperatorKind::Increment => "++",
        PostfixOperatorKind::Decrement => "--",
    }
}

fn prefix_op_str(k: &PrefixOperatorKind) -> (r: &'static str)
    ensures
        r@ == prefix_op_text(*k),
{
    match k {
        PrefixOperatorKind::Increment => "++",
        PrefixOperatorKind::Decrement => "--",
        PrefixOperatorKind::Positive => "+",
        PrefixOperatorKind::Negative => "-",
        PrefixOperatorKind::Address => "&",
        PrefixOperatorKind::Indirection => "*",
    }
}

// ---------------------------------------------------------------------------
// Executable base-type resolution
// ---------------------------------------------------------------------------
/// A base type by reference: an ordinary type, or a function type.
pub enum BaseTypeRef<'a> {
    Concrete(&'a ConcreteType),
    Function(&'a crate::ast::Function),
}

/// Whether `r` stands for the opaque type `o`.
pub open spec fn base_ref_is(r: BaseTypeRef, o: OpaqueType) -> bool {
    match r {
        BaseTypeRef::Concrete(c) => o == OpaqueType::ConcreteType(*c),
        BaseTypeRef::Function(f) => o == OpaqueType::Function(*f),
    }
}

impl ConcreteType {
    /// The fundamental type of this type, after stripping away all pointer
    /// and array constructors.
    pub fn base_type(&self) -> (r: BaseTypeRef)
        ensures
            base_ref_is(r, base_type_of(*self)),
        decreases self,
    {
        match self {
            ConcreteType::Array(a) => a.base_type(),
            ConcreteType::Pointer(p) => p.base_type(),
            _ => BaseTypeRef::Concrete(self),
        }
    }

    /// The innermost element type of nested arrays, or the type itself.
    pub fn innermost_element_type(&self) -> (r: &ConcreteType)
        ensures
            *r == innermost_of(*self),
        decreases self,
    {
        match self {
            ConcreteType::Array(a) => a.innermost_element_type(),
            _ => self,
        }
    }
}

impl Array {
    /// The fundamental type of the array, after stripping away all pointer
    /// and array constructors.
    pub fn base_type(&self) -> (r: BaseTypeRef)
        ensures
            base_ref_is(r, base_type_of(*self.element_type)),
        decreases self,
    {
        self.element_type.base_type()
    }

    /// The innermost element type of the array: for `int[3][4]`, `int`.
    pub fn innermost_element_type(&self) -> (r: &ConcreteType)
        ensures
            *r == innermost_of(*self.element_type),
        decreases self,
    {
        self.element_type.innermost_element_type()
    }

    /// The dimensions of the array, outermost first; `None` is a flexible
    /// dimension.
    pub fn dimensions(&self) -> (r: Vec<Option<usize>>)
        ensures
            r@ == dims_of(*self),
        decreases self,
    {
        let mut v: Vec<Option<usize>> = Vec::new();
        v.push(self.size);
        match &*self.element_type {
            ConcreteType::Array(a2) => {
                let mut rest = a2.dimensions();
                v.append(&mut rest);
            },
            _ => {},
        }
        proof {
            assert(v@ =~= dims_of(*self));
        }
        v
    }
}

impl Pointer {
    /// The fundamental type of what the pointer points to, after stripping
    /// nested pointer and array layers alike.
    pub fn base_type(&self) -> (r: BaseTypeRef)
        ensures
            base_ref_is(r, base_type_of_pointer(*self)),
        decreases self,
    {
        match &self.pointer_ty {
            OpaqueType::ConcreteType(ConcreteType::Pointer(p2)) => p2.base_type(),
            OpaqueType::ConcreteType(ConcreteType::Array(a)) => a.base_type(),
            OpaqueType::ConcreteType(c) => BaseTypeRef::Concrete(c),
            OpaqueType::Function(f) => BaseTypeRef::Function(f),
        }
    }

    /// The constness flags of the pointer chain, outermost pointer first.
    pub fn flatten_pointers(&self) -> (r: Vec<bool>)
        ensures
            r@ == flags_of(*self),
        decreases self,
    {
        let mut v: Vec<bool> = Vec::new();
        v.push(self.is_const);
        match &self.pointer_ty {
            OpaqueType::ConcreteType(ConcreteType::Pointer(p2)) => {
                let mut rest = p2.flatten_pointers();
                v.append(&mut rest);
            },
            _ => {},
        }
        proof {
            assert(v@ =~= flags_of(*self));
        }
        v
    }
}

impl OpaqueType {
    /// The fundamental type: strips pointer and array constructors of an
    /// ordinary type; a function type is its own base.
    pub fn base_type(&self) -> (r: BaseTypeRef)
        ensures
            match *self {
                OpaqueType::ConcreteType(c) => base_ref_is(r, base_type_of(c)),
                OpaqueType::Function(_) => base_ref_is(r, *self),
            },
        decreases self,
    {
        match self {
            OpaqueType::ConcreteType(c) => c.base_type(),
            OpaqueType::Function(f) => BaseTypeRef::Function(f),
        }
    }
}

fn last_const_exec(p: &Pointer) -> (r: bool)
    ensures
        r == last_const(*p),
    decreases p,
{
    match &p.pointer_ty {
        OpaqueType::ConcreteType(ConcreteType::Pointer(p2)) => last_const_exec(p2),
        _ => p.is_const,
    }
}

fn base_is_fn_exec(t: &ConcreteType) -> (r: bool)
    ensures
        r == base_is_fn(*t),
    decreases t,
{
    match t.base_type() {
        BaseTypeRef::Function(_) => true,
        BaseTypeRef::Concrete(_) => false,
    }
}

fn ptr_base_is_fn_exec(p: &Pointer) -> (r: bool)
    ensures
        r == ptr_base_is_fn(*p),
    decreases p,
{
    match p.base_type() {
        BaseTypeRef::Function(_) => true,
        BaseTypeRef::Concrete(_) => false,
    }
}

// ---------------------------------------------------------------------------
// Executable documents for types
// ---------------------------------------------------------------------------
fn size_bracket_doc(s: &Option<usize>) -> (d: Document)
    ensures
        d@ == size_bracket_docv(*s),
{
    match s {
        Option::Some(n) => Document::text_owned(usize_dec(*n)).brackets(),
        Option::None => Document::nil().brackets(),
    }
}

fn arr_dims_doc(t: &ConcreteType) -> (d: Document)
    ensures
        d@ == arr_dims_docv(*t),
    decreases t,
{
    match t {
        ConcreteType::Array(a) => size_bracket_doc(&a.size).append(arr_dims_doc(&a.element_type)),
        _ => Document::nil(),
    }
}

fn stars_doc(p: &Pointer, prev_const: bool) -> (d: Document)
    ensures
        d@ == stars_docv(*p, prev_const),
    decreases p,
{
    let sep = if prev_const {
        Document::space()
    } else {
        Document::nil()
    };
    let marker = if p.is_const {
        Document::text("const")
    } else {
        Document::nil()
    };
    let head = sep.append(Document::text("*").append(marker));
    match &p.pointer_ty {
        OpaqueType::ConcreteType(ConcreteType::Pointer(p2)) => head.append(
            stars_doc(p2, p.is_const),
        ),
        _ => head,
    }
}

fn elem_stars_doc(t: &ConcreteType) -> (d: Document)
    ensures
        d@ == elem_stars_docv(*t),
{
    match t {
        ConcreteType::Pointer(p) => stars_doc(p, false),
        _ => Document::nil(),
    }
}

fn integer_doc(i: &Integer) -> (d: Document)
    ensures
        d@ == integer_docv(*i),
{
    if i.is_signed {
        match i.kind {
            IntegerKind::Char => Document::text("signed char"),
            _ => Document::text(kind_str(&i.kind)),
        }
    } else {
        Document::text("unsigned ").append(Document::text(kind_str(&i.kind)))
    }
}

impl ConcreteType {
    /// The document for this type written in type position.
    pub fn pretty(&self) -> (d: Document)
        ensures
            d@ == type_docv(*self),
        decreases self, 0nat,
    {
        match self {
            ConcreteType::Array(a) => innermost_doc(&a.element_type).append(
                size_bracket_doc(&a.size).append(arr_dims_doc(&a.element_type)),
            ),
            ConcreteType::Char => Document::text("char"),
            ConcreteType::Enum(e) => e.pretty(),
            ConcreteType::Integer(i) => integer_doc(i),
            ConcreteType::Pointer(p) => p.pretty(),
            ConcreteType::Real(r) => Document::text(real_str(r)),
            ConcreteType::Size => Document::text("size_t"),
            ConcreteType::StrongInt(s) => Document::text(strong_int_str(s)),
            ConcreteType::Struct(s) => s.pretty(),
            ConcreteType::Typedef(td) => Document::text_owned(td.alias.to_string()),
            ConcreteType::Union(u) => u.pretty(),
            ConcreteType::Void => Document::text("void"),
        }
    }

    /// The dimension brackets when this type is an array; nothing otherwise.
    pub fn pretty_dimensions(&self) -> (d: Document)
        ensures
            d@ == (match *self {
                ConcreteType::Array(a) => concatv(
                    size_bracket_docv(a.size),
                    arr_dims_docv(*a.element_type),
                ),
                _ => DocV::Empty,
            }),
    {
        match self {
            ConcreteType::Array(a) => size_bracket_doc(&a.size).append(
                arr_dims_doc(&a.element_type),
            ),
            _ => Document::nil(),
        }
    }
}

fn innermost_doc(t: &ConcreteType) -> (d: Document)
    ensures
        d@ == innermost_docv(*t),
    decreases t, 1nat,
{
    match t {
        ConcreteType::Array(a) => innermost_doc(&a.element_type),
        _ => t.pretty(),
    }
}

fn ptr_base_doc(p: &Pointer) -> (d: Document)
    ensures
        d@ == ptr_base_docv(*p),
    decreases p, 0nat,
{
    match &p.pointer_ty {
        OpaqueType::ConcreteType(ConcreteType::Pointer(p2)) => ptr_base_doc(p2),
        OpaqueType::ConcreteType(c) => c.pretty(),
        OpaqueType::Function(_) => Document::nil(),
    }
}

fn ptr_sig_start_doc(p: &Pointer) -> (d: Document)
    ensures
        d@ == ptr_sig_start_docv(*p),
    decreases p, 0nat,
{
    match &p.pointer_ty {
        OpaqueType::ConcreteType(ConcreteType::Pointer(p2)) => ptr_sig_start_doc(p2),
        OpaqueType::ConcreteType(ConcreteType::Array(a)) => base_sig_start_doc(&a.element_type),
        OpaqueType::Function(f) => sig_start_doc(f),
        OpaqueType::ConcreteType(_) => Document::nil(),
    }
}

fn ptr_sig_end_params_doc(p: &Pointer) -> (d: Document)
    ensures
        d@ == ptr_sig_end_params_docv(*p),
    decreases p, 0nat,
{
    match &p.pointer_ty {
        OpaqueType::ConcreteType(ConcreteType::Pointer(p2)) => ptr_sig_end_params_doc(p2),
        OpaqueType::ConcreteType(ConcreteType::Array(a)) => base_params_doc(&a.element_type),
        OpaqueType::Function(f) => f.pretty_parameters(),
        OpaqueType::ConcreteType(_) => Document::nil(),
    }
}

fn base_sig_start_doc(t: &ConcreteType) -> (d: Document)
    ensures
        d@ == base_sig_start_docv(*t),
    decreases t, 0nat,
{
    match t {
        ConcreteType::Array(a) => base_sig_start_doc(&a.element_type),
        ConcreteType::Pointer(p) => ptr_sig_start_doc(p),
        _ => Document::nil(),
    }
}

fn base_params_doc(t: &ConcreteType) -> (d: Document)
    ensures
        d@ == base_params_docv(*t),
    decreases t, 0nat,
{
    match t {
        ConcreteType::Array(a) => base_params_doc(&a.element_type),
        ConcreteType::Pointer(p) => ptr_sig_end_params_doc(p),
        _ => Document::nil(),
    }
}

impl Pointer {
    /// The stars of this pointer chain, outermost first.
    pub fn pretty_pointers(&self) -> (d: Document)
        ensures
            d@ == stars_docv(*self, false),
    {
        stars_doc(self, false)
    }

    /// The document for this pointer written in type position.
    pub fn pretty(&self) -> (d: Document)
        ensures
            d@ == pointer_docv(*self),
        decreases self, 1nat,
    {
        if ptr_base_is_fn_exec(self) {
            ptr_sig_start_doc(self).append(
                stars_doc(self, false).append(
                    Document::text(")").append(ptr_sig_end_params_doc(self)),
                ),
            )
        } else {
            ptr_base_doc(self).append(Document::space().append(stars_doc(self, false)))
        }
    }
}

impl Array {
    /// The document for this array written in type position: the innermost
    /// element type, then the dimension brackets.
    pub fn pretty(&self) -> (d: Document)
        ensures
            d@ == type_docv(ConcreteType::Array(*self)),
        decreases self, 2nat,
    {
        innermost_doc(&self.element_type).append(
            size_bracket_doc(&self.size).append(arr_dims_doc(&self.element_type)),
        )
    }

    /// The dimension brackets of this array, outermost first.
    pub fn pretty_dimensions(&self) -> (d: Document)
        ensures
            d@ == concatv(size_bracket_docv(self.size), arr_dims_docv(*self.element_type)),
    {
        size_bracket_doc(&self.size).append(arr_dims_doc(&self.element_type))
    }
}

impl Function {
    /// The return-type prefix of the function's spelling: the return type,
    /// then a space.
    pub fn pretty_return_type(&self) -> (d: Document)
        ensures
            d@ == ret_docv(*self),
        decreases self, 0nat,
    {
        self.return_ty.pretty().append(Document::space())
    }

    /// The parenthesized, comma-separated parameter list.
    pub fn pretty_parameters(&self) -> (d: Document)
        ensures
            d@ == params_docv(self.parameters@),
        decreases self, 2nat,
    {
        proof {
            assert(self.parameters@.subrange(0, self.parameters@.len() as int)
                =~= self.parameters@);
        }
        Document::text("(").append(
            params_list_doc(&self.parameters, 0).append(Document::text(")")),
        )
    }
}

fn sig_start_doc(f: &Function) -> (d: Document)
    ensures
        d@ == sig_start_docv(*f),
    decreases f, 1nat,
{
    f.pretty_return_type().append(Document::text("("))
}

fn params_list_doc(ps: &Vec<FunctionParameter>, i: usize) -> (d: Document)
    requires
        i <= ps@.len(),
    ensures
        d@ == params_list_docv(ps@.subrange(i as int, ps@.len() as int)),
    decreases ps@, ps@.len() - i,
{
    let ghost s = ps@.subrange(i as int, ps@.len() as int);
    if i >= ps.len() {
        Document::nil()
    } else if i == ps.len() - 1 {
        proof {
            assert(s[0] == ps@[i as int]);
        }
        param_doc(&ps[i])
    } else {
        let head = param_doc(&ps[i]);
        let rest = params_list_doc(ps, i + 1);
        proof {
            assert(s[0] == ps@[i as int]);
            assert(s.drop_first() =~= ps@.subrange(i as int + 1, ps@.len() as int));
        }
        head.append(Document::text(", ").append(rest))
    }
}

fn param_doc(p: &FunctionParameter) -> (d: Document)
    ensures
        d@ == param_docv(*p),
    decreases p, 1nat,
{
    match &p.name {
        Option::Some(n) => p.ty.pretty().append(
            Document::space().append(Document::text_owned(n.to_string())),
        ),
        Option::None => p.ty.pretty(),
    }
}

impl ConcreteType {
    /// The declarator composer: the document declaring `alias` with this
    /// type, handling the precedence between pointer, array and function
    /// constructors.
    pub fn pretty_definition(&self, alias: &Identifier) -> (d: Document)
        ensures
            d@ == decl_docv(*self, alias@),
        decreases self, 3nat,
    {
        match self {
            ConcreteType::Array(a) => {
                let alias_doc = Document::text_owned(alias.to_string()).append(
                    size_bracket_doc(&a.size).append(arr_dims_doc(&a.element_type)),
                );
                if base_is_fn_exec(&a.element_type) {
                    base_sig_start_doc(&a.element_type).append(
                        elem_stars_doc(&a.element_type).append(
                            alias_doc.append(
                                Document::text(")").append(base_params_doc(&a.element_type)),
                            ),
                        ),
                    )
                } else {
                    innermost_doc(&a.element_type).append(Document::space().append(alias_doc))
                }
            },
            ConcreteType::Pointer(p) => {
                let trail = if last_const_exec(p) {
                    Document::space()
                } else {
                    Document::nil()
                };
                if ptr_base_is_fn_exec(p) {
                    ptr_sig_start_doc(p).append(
                        stars_doc(p, false).append(
                            trail.append(
                                Document::text_owned(alias.to_string()).append(
                                    Document::text(")").append(ptr_sig_end_params_doc(p)),
                                ),
                            ),
                        ),
                    )
                } else {
                    p.pretty().append(trail.append(Document::text_owned(alias.to_string())))
                }
            },
            _ => self.pretty().append(
                Document::space().append(Document::text_owned(alias.to_string())),
            ),
        }
    }
}

// ---------------------------------------------------------------------------
// Executable documents for structs, unions, enums, typedefs
// ---------------------------------------------------------------------------
fn bitfield_doc(b: &Option<usize>) -> (d: Document)
    ensures
        d@ == bitfield_docv(*b),
{
    match b {
        Option::Some(n) => Document::text(" : ").append(Document::text_owned(usize_dec(*n))),
        Option::None => Document::nil(),
    }
}

fn members_rest_doc(ms: &Vec<Member>, i: usize) -> (d: Document)
    requires
        i <= ms@.len(),
    ensures
        d@ == members_rest_docv(ms@.subrange(i as int, ms@.len() as int)),
    decreases ms@.len() - i,
{
    let ghost s = ms@.subrange(i as int, ms@.len() as int);
    if i >= ms.len() {
        Document::nil()
    } else {
        let rest = members_rest_doc(ms, i + 1);
        proof {
            assert(s[0] == ms@[i as int]);
            assert(s.drop_first() =~= ms@.subrange(i as int + 1, ms@.len() as int));
        }
        Document::text(", ").append(
            Document::text_owned(ms[i].name.to_string()).append(
                bitfield_doc(&ms[i].bit_field_size).append(rest),
            ),
        )
    }
}

fn group_doc(g: &MemberGroup) -> (d: Document)
    ensures
        d@ == group_docv(*g),
    decreases g, 4nat,
{
    if g.members.len() == 0 {
        Document::nil()
    } else {
        g.ty.pretty_definition(&g.members.get(0).name).append(
            bitfield_doc(&g.members.get(0).bit_field_size).append(
                members_rest_doc(g.members.as_vec(), 1).append(Document::text(";")),
            ),
        )
    }
}

fn groups_doc(gs: &Vec<MemberGroup>, i: usize) -> (d: Document)
    requires
        i <= gs@.len(),
    ensures
        d@ == groups_docv(gs@.subrange(i as int, gs@.len() as int)),
    decreases gs@, gs@.len() - i,
{
    let ghost s = gs@.subrange(i as int, gs@.len() as int);
    if i >= gs.len() {
        Document::nil()
    } else if i == gs.len() - 1 {
        proof {
            assert(s[0] == gs@[i as int]);
        }
        Document::text("  ").append(group_doc(&gs[i]))
    } else {
        let head = group_doc(&gs[i]);
        let rest = groups_doc(gs, i + 1);
        proof {
            assert(s[0] == gs@[i as int]);
            assert(s.drop_first() =~= gs@.subrange(i as int + 1, gs@.len() as int));
        }
        Document::text("  ").append(head.append(Document::hardline().append(rest)))
    }
}

fn composite_body_doc(name: &Option<Identifier>, members: &NonEmptyVec<MemberGroup>) -> (d:
    Document)
    ensures
        d@ == composite_body_docv(*name, *members),
    decreases members, 1nat,
{
    let tag = match name {
        Option::Some(n) => Document::text_owned(n.to_string()).append(Document::space()),
        Option::None => Document::nil(),
    };
    proof {
        assert(members@.subrange(0, members@.len() as int) =~= members@);
    }
    tag.append(
        Document::text("{").append(
            Document::hardline().append(
                groups_doc(members.as_vec(), 0).append(
                    Document::hardline().append(Document::text("}")),
                ),
            ),
        ),
    )
}

impl Struct {
    /// The document for this struct type.
    pub fn pretty(&self) -> (d: Document)
        ensures
            d@ == struct_docv(*self),
        decreases self, 2nat,
    {
        match self {
            Struct::Definition { name, members } => Document::text("struct ").append(
                composite_body_doc(name, members),
            ),
            Struct::Tag { name } => Document::text("struct ").append(
                Document::text_owned(name.to_string()),
            ),
        }
    }
}

impl Union {
    /// The document for this union type.
    pub fn pretty(&self) -> (d: Document)
        ensures
            d@ == union_docv(*self),
        decreases self, 2nat,
    {
        match self {
            Union::Definition { name, members } => Document::text("union ").append(
                composite_body_doc(name, members),
            ),
            Union::Tag { name } => Document::text("union ").append(
                Document::text_owned(name.to_string()),
            ),
        }
    }
}

#[verifier::rlimit(100)]
fn enumerators_doc(vs: &Vec<(Identifier, Option<Expression>)>, i: usize) -> (d: Document)
    requires
        i <= vs@.len(),
    ensures
        d@ == enumerators_docv(vs@.subrange(i as int, vs@.len() as int)),
    decreases vs@, vs@.len() - i,
{
    let ghost s = vs@.subrange(i as int, vs@.len() as int);
    if i >= vs.len() {
        Document::nil()
    } else if i == vs.len() - 1 {
        proof {
            assert(s[0] == vs@[i as int]);
        }
        enumerator_doc(&vs[i])
    } else {
        let head = enumerator_doc(&vs[i]);
        let rest = enumerators_doc(vs, i + 1);
        proof {
            assert(s[0] == vs@[i as int]);
            assert(s.drop_first() =~= vs@.subrange(i as int + 1, vs@.len() as int));
        }
        head.append(Document::text(", ").append(rest))
    }
}

fn enumerator_doc(v: &(Identifier, Option<Expression>)) -> (d: Document)
    ensures
        d@ == enumerator_docv(*v),
    decreases v, 1nat,
{
    match &v.1 {
        Option::Some(e) => Document::text_owned(v.0.to_string()).append(
            Document::text(" = ").append(e.pretty()),
        ),
        Option::None => Document::text_owned(v.0.to_string()),
    }
}

impl Enum {
    /// The document for this enum type.
    pub fn pretty(&self) -> (d: Document)
        ensures
            d@ == enum_docv(*self),
        decreases self, 3nat,
    {
        match self {
            Enum::Definition { name, values } => {
                let tag = match name {
                    Option::Some(n) => Document::text_owned(n.to_string()).append(
                        Document::space(),
                    ),
                    Option::None => Document::nil(),
                };
                proof {
                    assert(values@.subrange(0, values@.len() as int) =~= values@);
                }
                Document::text("enum ").append(
                    tag.append(
                        Document::text("{").append(
                            enumerators_doc(values.as_vec(), 0).append(Document::text("}")),
                        ),
                    ),
                )
            },
            Enum::Tag { name } => Document::text("enum ").append(
                Document::text_owned(name.to_string()),
            ),
        }
    }
}

impl Typedef {
    /// The document for this typedef statement.
    pub fn pretty(&self) -> (d: Document)
        ensures
            d@ == typedef_docv(*self),
    {
        let inner = match &self.ty {
            OpaqueType::ConcreteType(c) => c.pretty_definition(&self.alias),
            OpaqueType::Function(f) => sig_start_doc(f).append(
                Document::text_owned(self.alias.to_string()).append(
                    Document::text(")").append(f.pretty_parameters()),
                ),
            ),
        };
        Document::text("typedef ").append(inner.append(Document::text(";")))
    }
}

fn scalar_doc(sc: &Scalar) -> (d: Document)
    ensures
        d@ == scalar_docv(*sc),
    decreases sc, 2nat,
{
    match sc {
        Scalar::Char => Document::text("char"),
        Scalar::Integer(i) => integer_doc(i),
        Scalar::Pointer(p) => p.pretty(),
        Scalar::StrongInt(s) => Document::text(strong_int_str(s)),
        Scalar::Real(r) => Document::text(real_str(r)),
        Scalar::Void => Document::text("void"),
    }
}

// ---------------------------------------------------------------------------
// Executable documents for values and expressions
// ---------------------------------------------------------------------------
impl Value {
    /// The document for this constant value.
    #[verifier::rlimit(100)]
    pub fn pretty(&self) -> (d: Document)
        ensures
            d@ == value_docv(*self),
        decreases self, 1nat,
    {
        match self {
            Value::Array { values, base_type } => {
                proof {
                    assert(values@.subrange(0, values@.len() as int) =~= values@);
                }
                base_type.pretty().append(
                    Document::text("[] { ").append(
                        values_doc(values, 0).append(Document::text(" }")),
                    ),
                )
            },
            Value::Char { value } => {
                let mut mid = String::new();
                push_char(&mut mid, *value);
                proof {
                    assert(mid@ =~= seq![*value]);
                }
                Document::text("'").append(
                    Document::text_owned(mid).append(Document::text("'")),
                )
            },
            Value::Enum { value, name } => Document::text("enum ").append(
                Document::text_owned(name.clone()).append(
                    Document::text(" = ").append(Document::text_owned(i64_dec(*value as i64))),
                ),
            ),
            Value::Pointer { address } => {
                let hex = usize_hex(*address);
                Document::text_owned(hex)
            },
            Value::Real { value, kind } => Document::text_owned(value.clone()).append(
                Document::text(real_suffix_str(kind)),
            ),
            Value::SignedInteger { value, kind } => Document::text_owned(i64_dec(*value)).append(
                Document::text(kind_suffix_str(kind)),
            ),
            Value::Size { value } => Document::text_owned(usize_dec(*value)),
            Value::String(s) => Document::text("\"").append(
                Document::text_owned(s.clone()).append(Document::text("\"")),
            ),
            Value::Struct { fields } => {
                proof {
                    assert(fields@.subrange(0, fields@.len() as int) =~= fields@);
                }
                Document::text("{ ").append(
                    fields_doc(fields, 0).append(Document::text(" }")),
                )
            },
            Value::UnsignedInteger { value, kind } => Document::text_owned(u64_dec(*value)).append(
                Document::text("u").append(Document::text(kind_suffix_str(kind))),
            ),
        }
    }
}

fn values_doc(vs: &Vec<Value>, i: usize) -> (d: Document)
    requires
        i <= vs@.len(),
    ensures
        d@ == values_docv(vs@.subrange(i as int, vs@.len() as int)),
    decreases vs@, vs@.len() - i,
{
    let ghost s = vs@.subrange(i as int, vs@.len() as int);
    if i >= vs.len() {
        Document::nil()
    } else if i == vs.len() - 1 {
        proof {
            assert(s[0] == vs@[i as int]);
        }
        vs[i].pretty()
    } else {
        let head = vs[i].pretty();
        let rest = values_doc(vs, i + 1);
        proof {
            assert(s[0] == vs@[i as int]);
            assert(s.drop_first() =~= vs@.subrange(i as int + 1, vs@.len() as int));
        }
        head.append(Document::text(", ").append(rest))
    }
}

fn fields_doc(fs: &Vec<(String, Value)>, i: usize) -> (d: Document)
    requires
        i <= fs@.len(),
    ensures
        d@ == fields_docv(fs@.subrange(i as int, fs@.len() as int)),
    decreases fs@, fs@.len() - i,
{
    let ghost s = fs@.subrange(i as int, fs@.len() as int);
    if i >= fs.len() {
        Document::nil()
    } else {
        let head = Document::text_owned(fs[i].0.clone()).append(
            Document::text(": ").append(fs[i].1.pretty()),
        );
        proof {
            assert(s[0] == fs@[i as int]);
        }
        if i == fs.len() - 1 {
            head
        } else {
            let rest = fields_doc(fs, i + 1);
            proof {
                assert(s.drop_first() =~= fs@.subrange(i as int + 1, fs@.len() as int));
            }
            head.append(Document::text(", ").append(rest))
        }
    }
}

impl Expression {
    /// The document for this expression.
    #[verifier::rlimit(100)]
    pub fn pretty(&self) -> (d: Document)
        ensures
            d@ == expr_docv(*self),
        decreases self, 1nat,
    {
        match self {
            Expression::AlignOf(t) => Document::text("_Alignof").append(
                Document::text("(").append(t.pretty().append(Document::text(")"))),
            ),
            Expression::ArraySubscript(s) => s.array.pretty().append(
                Document::text("[").append(s.index.pretty().append(Document::text("]"))),
            ),
            Expression::Assignment(a) => a.left.pretty().append(
                Document::text(" = ").append(a.right.pretty()),
            ),
            Expression::BinaryOperator(b) => b.left.pretty().append(
                Document::space().append(
                    Document::text(binary_op_str(&b.operator)).append(
                        Document::space().append(b.right.pretty()),
                    ),
                ),
            ),
            Expression::Cast(c) => Document::text("(").append(
                scalar_doc(&c.new_ty).append(
                    Document::text(")").append(Document::space().append(c.expression.pretty())),
                ),
            ),
            Expression::CommaOperator(c) => c.left.pretty().append(
                Document::text(", ").append(c.right.pretty()),
            ),
            Expression::CompoundAssignment(c) => c.left.pretty().append(
                Document::space().append(
                    Document::text(compound_op_str(&c.operator)).append(
                        Document::space().append(c.right.pretty()),
                    ),
                ),
            ),
            Expression::Conditional(c) => c.condition.pretty().append(
                Document::text(" ? ").append(
                    c.then_branch.pretty().append(
                        Document::text(" : ").append(c.else_branch.pretty()),
                    ),
                ),
            ),
            Expression::FunctionCall(f) => {
                proof {
                    assert(f.arguments@.subrange(0, f.arguments@.len() as int)
                        =~= f.arguments@);
                }
                f.callee.pretty().append(
                    Document::text("(").append(
                        args_doc(&f.arguments, 0).append(Document::text(")")),
                    ),
                )
            },
            Expression::IndirectMemberAccess(m) => m.left.pretty().append(
                Document::text("->").append(Document::text_owned(m.member.to_string())),
            ),
            Expression::InitializerList(l) => l.pretty(),
            Expression::MemberAccess(m) => m.left.pretty().append(
                Document::text(".").append(Document::text_owned(m.member.to_string())),
            ),
            Expression::Parentheses(inner) => Document::text("(").append(
                inner.pretty().append(Document::text(")")),
            ),
            Expression::PostfixOperator(p) => p.operand.pretty().append(
                Document::text(postfix_op_str(&p.operator)),
            ),
            Expression::PrefixOperator(p) => Document::text(prefix_op_str(&p.operator)).append(
                p.operand.pretty(),
            ),
            Expression::SizeOf(s) => Document::text("sizeof ").append(sizeof_arg_doc(s)),
            Expression::Value(v) => v.pretty(),
            Expression::Variable(id) => Document::text_owned(id.to_string()),
        }
    }
}

fn sizeof_arg_doc(s: &SizeOf) -> (d: Document)
    ensures
        d@ == sizeof_arg_docv(*s),
    decreases s, 0nat,
{
    match s {
        SizeOf::Expression(e) => e.pretty(),
        SizeOf::Type(t) => Document::text("(").append(t.pretty().append(Document::text(")"))),
    }
}

fn args_doc(es: &Vec<Expression>, i: usize) -> (d: Document)
    requires
        i <= es@.len(),
    ensures
        d@ == args_docv(es@.subrange(i as int, es@.len() as int)),
    decreases es@, es@.len() - i,
{
    let ghost s = es@.subrange(i as int, es@.len() as int);
    if i >= es.len() {
        Document::nil()
    } else if i == es.len() - 1 {
        proof {
            assert(s[0] == es@[i as int]);
        }
        es[i].pretty()
    } else {
        let head = es[i].pretty();
        let rest = args_doc(es, i + 1);
        proof {
            assert(s[0] == es@[i as int]);
            assert(s.drop_first() =~= es@.subrange(i as int + 1, es@.len() as int));
        }
        head.append(Document::text(", ").append(rest))
    }
}

impl InitializerList {
    /// The document for this aggregate initializer.
    pub fn pretty(&self) -> (d: Document)
        ensures
            d@ == initializer_docv(*self),
        decreases self, 1nat,
    {
        match self {
            InitializerList::Ordered(es) => {
                proof {
                    assert(es@.subrange(0, es@.len() as int) =~= es@);
                }
                Document::text("{ ").append(args_doc(es, 0).append(Document::text(" }")))
            },
            InitializerList::Named(ns) => {
                proof {
                    assert(ns@.subrange(0, ns@.len() as int) =~= ns@);
                }
                Document::text("{ ").append(named_inits_doc(ns, 0).append(Document::text(" }")))
            },
        }
    }
}

fn named_inits_doc(ns: &Vec<(Identifier, Expression)>, i: usize) -> (d: Document)
    requires
        i <= ns@.len(),
    ensures
        d@ == named_inits_docv(ns@.subrange(i as int, ns@.len() as int)),
    decreases ns@, ns@.len() - i,
{
    let ghost s = ns@.subrange(i as int, ns@.len() as int);
    if i >= ns.len() {
        Document::nil()
    } else {
        let head = Document::text(".").append(
            Document::text_owned(ns[i].0.to_string()).append(
                Document::text(" = ").append(ns[i].1.pretty()),
            ),
        );
        proof {
            assert(s[0] == ns@[i as int]);
        }
        if i == ns.len() - 1 {
            head
        } else {
            let rest = named_inits_doc(ns, i + 1);
            proof {
                assert(s.drop_first() =~= ns@.subrange(i as int + 1, ns@.len() as int));
            }
            head.append(Document::text(", ").append(rest))
        }
    }
}


impl Definition {
    /// The document for this file-level type definition.
    pub fn pretty(&self) -> (d: Document)
        ensures
            d@ == definition_docv(*self),
    {
        let inner = match self {
            Definition::Enum(e) => e.pretty(),
            Definition::Struct(s) => s.pretty(),
            Definition::Union(u) => u.pretty(),
        };
        inner.append(Document::text(";"))
    }

    /// The definition rendered as C text at the standard line width.
    pub fn to_string(&self) -> (r: String)
        ensures
            r@ == crate::doc::rendered(definition_docv(*self), 80),
    {
        crate::doc::render(&self.pretty(), 80)
    }
}

impl Declaration {
    /// The document for this file-level type declaration.
    pub fn pretty(&self) -> (d: Document)
        ensures
            d@ == declaration_docv(*self),
    {
        match self {
            Declaration::Enum(e) => e.pretty(),
            Declaration::Struct(s) => s.pretty(),
            Declaration::Union(u) => u.pretty(),
        }
    }

    /// The declaration rendered as C text at the standard line width.
    pub fn to_string(&self) -> (r: String)
        ensures
            r@ == crate::doc::rendered(declaration_docv(*self), 80),
    {
        crate::doc::render(&self.pretty(), 80)
    }
}

impl Pointer {
    /// The pointer type rendered as C text at the standard line width.
    pub fn to_string(&self) -> (r: String)
        ensures
            r@ == crate::doc::rendered(pointer_docv(*self), 80),
    {
        crate::doc::render(&self.pretty(), 80)
    }
}

impl Expression {
    /// The expression rendered as C text at the standard line width.
    pub fn to_string(&self) -> (r: String)
        ensures
            r@ == crate::doc::rendered(expr_docv(*self), 80),
    {
        crate::doc::render(&self.pretty(), 80)
    }
}

impl Conditional {
    /// The document for this conditional expression.
    pub fn pretty(&self) -> (d: Document)
        ensures
            d@ == concatv(
                expr_docv(self.condition),
                concatv(
                    textv(" ? "@),
                    concatv(
                        expr_docv(self.then_branch),
                        concatv(textv(" : "@), expr_docv(self.else_branch)),
                    ),
                ),
            ),
    {
        self.condition.pretty().append(
            Document::text(" ? ").append(
                self.then_branch.pretty().append(
                    Document::text(" : ").append(self.else_branch.pretty()),
                ),
            ),
        )
    }

    /// The conditional rendered as C text at the standard line width.
    pub fn to_string(&self) -> (r: String)
        ensures
            r@ == crate::doc::rendered(
                concatv(
                    expr_docv(self.condition),
                    concatv(
                        textv(" ? "@),
                        concatv(
                            expr_docv(self.then_branch),
                            concatv(textv(" : "@), expr_docv(self.else_branch)),
                        ),
                    ),
                ),
                80,
            ),
    {
        crate::doc::render(&self.pretty(), 80)
    }
}

} // verus!
