//! Function declarations and definitions at file level.
use vstd::prelude::*;

use crate::ast::{ConcreteType, Function};
use crate::compose::{params_docv, ret_docv, type_docv};
use crate::doc::{concatv, textv, DocV, Document};
use crate::identifier::Identifier;
use crate::statement::{block_docv, Block};

verus! {

/// A function declaration: `[static] return-type name (parameters);`.
pub struct Declaration {
    pub is_static: bool,
    pub name: Identifier,
    pub ty: Function,
}

/// A function definition: the return type on its own line, then
/// `name (parameters) { … }`.
pub struct Definition {
    pub is_static: bool,
    pub name: Identifier,
    pub parameters: Vec<(ConcreteType, Identifier)>,
    pub return_ty: ConcreteType,
    pub body: Block,
}

/// The document for a function declaration.
pub open spec fn fn_decl_docv(d: Declaration) -> DocV {
    let head = if d.is_static {
        concatv(textv("static"@), textv(" "@))
    } else {
        DocV::Empty
    };
    concatv(
        head,
        concatv(
            ret_docv(d.ty),
            concatv(
                textv(d.name@),
                concatv(textv(" "@), concatv(params_docv(d.ty.parameters@), textv(";"@))),
            ),
        ),
    )
}

/// The comma-separated `type name` parameters of a function definition.
pub open spec fn def_params_docv(ps: Seq<(ConcreteType, Identifier)>) -> DocV
    decreases ps,
{
    if ps.len() == 0 {
        DocV::Empty
    } else {
        let head = concatv(type_docv(ps[0].0), concatv(textv(" "@), textv(ps[0].1@)));
        if ps.len() == 1 {
            head
        } else {
            concatv(head, concatv(textv(", "@), def_params_docv(ps.drop_first())))
        }
    }
}

/// The document for a function definition: the optional `static`, the return
/// type, a hard line, the name, the parenthesized parameters, and the body
/// block at depth zero.
pub open spec fn fn_def_docv(d: Definition) -> DocV {
    let head = if d.is_static {
        concatv(textv("static"@), textv(" "@))
    } else {
        DocV::Empty
    };
    concatv(
        head,
        concatv(
            type_docv(d.return_ty),
            concatv(
                DocV::HardLine,
                concatv(
                    textv(d.name@),
                    concatv(
                        textv(" "@),
                        concatv(
                            textv("("@),
                            concatv(
                                def_params_docv(d.parameters@),
                                concatv(
                                    textv(")"@),
                                    concatv(textv(" "@), block_docv(d.body, 0)),
                                ),
                            ),
                        ),
                    ),
                ),
            ),
        ),
    )
}

impl Declaration {
    /// The document for this declaration.
    pub fn pretty(&self) -> (d: Document)
        ensures
            d@ == fn_decl_docv(*self),
    {
        let head = if self.is_static {
            Document::text("static").append(Document::space())
        } else {
            Document::nil()
        };
        head.append(
            self.ty.pretty_return_type().append(
                Document::text_owned(self.name.to_string()).append(
                    Document::space().append(
                        self.ty.pretty_parameters().append(Document::text(";")),
                    ),
                ),
            ),
        )
    }

    /// The declaration rendered as C text at the standard line width.
    pub fn to_string(&self) -> (r: String)
        ensures
            r@ == crate::doc::rendered(fn_decl_docv(*self), 80),
    {
        crate::doc::render(&self.pretty(), 80)
    }
}

fn def_params_doc(ps: &Vec<(ConcreteType, Identifier)>, i: usize) -> (d: Document)
    requires
        i <= ps@.len(),
    ensures
        d@ == def_params_docv(ps@.subrange(i as int, ps@.len() as int)),
    decreases ps@.len() - i,
{
    let ghost s = ps@.subrange(i as int, ps@.len() as int);
    if i >= ps.len() {
        Document::nil()
    } else {
        let head = ps[i].0.pretty().append(
            Document::space().append(Document::text_owned(ps[i].1.to_string())),
        );
        proof {
            assert(s[0] == ps@[i as int]);
        }
        if i == ps.len() - 1 {
            head
        } else {
            let rest = def_params_doc(ps, i + 1);
            proof {
                assert(s.drop_first() =~= ps@.subrange(i as int + 1, ps@.len() as int));
            }
            head.append(Document::text(", ").append(rest))
        }
    }
}

impl Definition {
    /// The document for this definition.
    pub fn pretty(&self) -> (d: Document)
        ensures
            d@ == fn_def_docv(*self),
    {
        let head = if self.is_static {
            Document::text("static").append(Document::space())
        } else {
            Document::nil()
        };
        proof {
            assert(self.parameters@.subrange(0, self.parameters@.len() as int)
                =~= self.parameters@);
        }
        head.append(
            self.return_ty.pretty().append(
                Document::hardline().append(
                    Document::text_owned(self.name.to_string()).append(
                        Document::space().append(
                            Document::text("(").append(
                                def_params_doc(&self.parameters, 0).append(
                                    Document::text(")").append(
                                        Document::space().append(self.body.pretty(0)),
                                    ),
                                ),
                            ),
                        ),
                    ),
                ),
            ),
        )
    }

    /// The definition rendered as C text at the standard line width.
    pub fn to_string(&self) -> (r: String)
        ensures
            r@ == crate::doc::rendered(fn_def_docv(*self), 80),
    {
        crate::doc::render(&self.pretty(), 80)
    }
}

} // verus!
