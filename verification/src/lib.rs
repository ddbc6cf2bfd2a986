//! A structured builder for a subset of the C language: clients construct an
//! in-memory representation of C constructs (types, declarations, expressions,
//! statements, whole files) and obtain syntactically correct, canonically
//! formatted C source text through a verified document layout engine.
pub mod ast;
pub mod compose;
pub mod doc;
pub mod error;
pub mod file;
pub mod function;
pub mod identifier;
pub mod laws;
pub mod non_empty_vec;
pub mod statement;
pub mod text;
pub mod variable;

pub use ast::Array;
pub use ast::ArraySubscript;
pub use ast::Assignment;
pub use ast::BinaryOperator;
pub use ast::BinaryOperatorKind;
pub use ast::Cast;
pub use ast::CommaOperator;
pub use ast::CompoundAssignment;
pub use ast::CompoundAssignmentOperator;
pub use ast::ConcreteType;
pub use ast::Conditional;
pub use ast::Declaration;
pub use ast::Definition;
pub use ast::Enum;
pub use ast::Expression;
pub use ast::Function;
pub use ast::FunctionCall;
pub use ast::FunctionParameter;
pub use ast::IndirectMemberAccess;
pub use ast::InitializerList;
pub use ast::Integer;
pub use ast::IntegerKind;
pub use ast::Member;
pub use ast::MemberAccess;
pub use ast::MemberGroup;
pub use ast::OpaqueType;
pub use ast::Pointer;
pub use ast::PostfixOperator;
pub use ast::PostfixOperatorKind;
pub use ast::PrefixOperator;
pub use ast::PrefixOperatorKind;
pub use ast::Real;
pub use ast::Scalar;
pub use ast::SizeOf;
pub use ast::StorageClass;
pub use ast::StrongInt;
pub use ast::Struct;
pub use ast::Typedef;
pub use ast::Union;
pub use ast::Value;
pub use ast::Variable;
pub use doc::render;
pub use doc::DocV;
pub use doc::Document;
pub use error::Error;
pub use file::CFileBuilder;
pub use file::FileLevelStatement;
pub use function::Declaration as FunctionDeclaration;
pub use function::Definition as FunctionDefinition;
pub use identifier::Identifier;
pub use non_empty_vec::NonEmptyVec;
pub use statement::Block;
pub use statement::Do;
pub use statement::For;
pub use statement::ForDeclaration;
pub use statement::Goto;
pub use statement::If;
pub use statement::Include;
pub use statement::Label;
pub use statement::Return;
pub use statement::Statement;
pub use statement::Style;
pub use statement::Switch;
pub use statement::While;
pub use variable::Declaration as VariableDeclaration;
