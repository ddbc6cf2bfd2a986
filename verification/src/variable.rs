//! Variable declarations: an optional storage class, a type composed with
//! the declared identifier, and an optional initializer.
use vstd::prelude::*;

use crate::ast::{ConcreteType, Expression, StorageClass};
use crate::compose::{decl_docv, expr_docv, storage_class_text};
use crate::doc::{concatv, textv, DocV, Document};
use crate::identifier::Identifier;

verus! {

/// A variable declaration. Declaring several identifiers in one statement is
/// not supported; each declaration carries exactly one identifier.
pub struct Declaration {
    pub storage_class: Option<StorageClass>,
    pub ty: ConcreteType,
    pub identifier: Identifier,
    pub initializer: Option<Expression>,
}

/// The document for a variable declaration, without the closing semicolon:
/// the storage class if any, the declarator for the type and identifier, and
/// `= initializer` if an initializer is given.
pub open spec fn var_decl_docv(d: Declaration) -> DocV {
    let head = match d.storage_class {
        Option::Some(sc) => concatv(textv(storage_class_text(sc)), textv(" "@)),
        Option::None => DocV::Empty,
    };
    let decl = concatv(head, decl_docv(d.ty, d.identifier@));
    match d.initializer {
        Option::Some(e) => concatv(decl, concatv(textv(" = "@), expr_docv(e))),
        Option::None => decl,
    }
}

impl Declaration {
    /// The document for this declaration.
    pub fn pretty(&self) -> (d: Document)
        ensures
            d@ == var_decl_docv(*self),
    {
        let head = match &self.storage_class {
            Option::Some(sc) => Document::text(sc.as_str()).append(Document::space()),
            Option::None => Document::nil(),
        };
        let decl = head.append(self.ty.pretty_definition(&self.identifier));
        match &self.initializer {
            Option::Some(e) => decl.append(Document::text(" = ").append(e.pretty())),
            Option::None => decl,
        }
    }

    /// The declaration rendered as C text at the standard line width.
    pub fn to_string(&self) -> (r: String)
        ensures
            r@ == crate::doc::rendered(var_decl_docv(*self), 80),
    {
        crate::doc::render(&self.pretty(), 80)
    }
}

} // verus!
