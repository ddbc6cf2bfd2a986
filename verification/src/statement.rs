//! Statements and blocks: control flow, labels, jumps, declarations and the
//! rules for brace placement, two-column indentation of single-statement
//! branches, else-if chaining and label outdenting.
//!
//! Every rendering function takes the `depth` at which the statement's own
//! hard line breaks sit, so that a label can compensate it exactly and land
//! at column zero.
use vstd::prelude::*;

use crate::ast::{ConcreteType, Expression, Typedef, Value};
use crate::compose::{expr_docv, type_docv, typedef_docv, value_docv};
use crate::doc::{concatv, ind_add, nestv, textv, DocV, Document};
use crate::identifier::Identifier;
use crate::variable::{var_decl_docv, Declaration as VariableDeclaration};

verus! {

/// How an inclusion directive's path is quoted.
pub enum Style {
    AngleBrackets,
    Quotes,
}

/// A header inclusion directive.
pub struct Include {
    pub path: String,
    pub style: Style,
}

impl Include {
    /// A directive whose path is written between angle brackets.
    pub fn with_angle_brackets(path: String) -> (r: Include)
        ensures
            r.path == path && r.style is AngleBrackets,
    {
        Include { path, style: Style::AngleBrackets }
    }

    /// A directive whose path is written between double quotes.
    pub fn with_quotes(path: String) -> (r: Include)
        ensures
            r.path == path && r.style is Quotes,
    {
        Include { path, style: Style::Quotes }
    }
}

/// A jump to a label.
pub struct Goto {
    pub label: Identifier,
}

/// A return statement with an optional result expression.
pub struct Return {
    pub expression: Option<Expression>,
}

/// A label, outdented to column zero, and the statement it labels, if any.
pub struct Label {
    pub identifier: Identifier,
    pub statement: Option<Statement>,
}

/// A brace-delimited sequence of statements.
pub struct Block {
    pub statements: Vec<Statement>,
}

/// An `if` statement with an optional `else` branch.
pub struct If {
    pub condition: Expression,
    pub then_statement: Statement,
    pub else_statement: Option<Statement>,
}

/// A `switch` statement: cases are pairs of a guard expression and a
/// statement list, and fallthrough is caller-controlled — no `break` is ever
/// appended.
pub struct Switch {
    pub condition: Expression,
    pub cases: Vec<(Expression, Vec<Statement>)>,
    pub default: Option<Vec<Statement>>,
}

/// A `while` loop.
pub struct While {
    pub condition: Expression,
    pub body: Statement,
}

/// A `do … while` loop.
pub struct Do {
    pub body: Statement,
    pub condition: Expression,
}

/// What may stand in the first slot of a `for` head.
pub enum ForDeclaration {
    Expression(Expression),
    VariableDeclaration(VariableDeclaration),
}

/// A `for` loop; each of the three head slots is independently optional.
pub struct For {
    pub init: Option<ForDeclaration>,
    pub condition: Expression,
    pub step: Option<Expression>,
    pub body: Box<Statement>,
}

/// A C statement.
pub enum Statement {
    Expression(Expression),
    Label(Box<Label>),
    If(Box<If>),
    Switch(Box<Switch>),
    While(Box<While>),
    Do(Box<Do>),
    For(Box<For>),
    Block(Block),
    Null,
    Goto(Goto),
    Break,
    Continue,
    Return(Return),
    Typedef(Typedef),
    VariableDeclaration(VariableDeclaration),
    FunctionDeclaration {
        return_type: ConcreteType,
        name: Identifier,
        parameters: Vec<(ConcreteType, Option<Identifier>)>,
    },
    FunctionDefinition {
        return_type: ConcreteType,
        name: Identifier,
        parameters: Vec<(ConcreteType, Option<Identifier>)>,
        body: Vec<Statement>,
    },
    StructDeclaration { name: Identifier, fields: Vec<(ConcreteType, Identifier)> },
    EnumDeclaration { name: Identifier, variants: Vec<(Identifier, Option<Value>)> },
    Include(String),
    MacroDefinition { name: Identifier, body: String },
}

impl Statement {
    /// Whether the statement manages its own line break and indentation;
    /// only labels do.
    pub fn has_custom_indentation(&self) -> (r: bool)
        ensures
            r == (*self is Label),
    {
        match self {
            Statement::Label(_) => true,
            _ => false,
        }
    }

    /// Whether the statement is a block.
    pub fn is_block(&self) -> (r: bool)
        ensures
            r == (*self is Block),
    {
        match self {
            Statement::Block(_) => true,
            _ => false,
        }
    }
}

// ---------------------------------------------------------------------------
// Specification-level documents
// ---------------------------------------------------------------------------
/// The indentation two columns deeper than `depth`.
pub open spec fn dep2(depth: int) -> int {
    ind_add(depth, 2)
}

/// The document for a `goto`.
pub open spec fn goto_docv(g: Goto) -> DocV {
    concatv(textv("goto "@), concatv(textv(g.label@), textv(";"@)))
}

/// The document for a `return`, with a space and the expression when one is
/// returned.
pub open spec fn return_docv(r: Return) -> DocV {
    match r.expression {
        Option::Some(e) => concatv(
            textv("return"@),
            concatv(textv(" "@), concatv(expr_docv(e), textv(";"@))),
        ),
        Option::None => concatv(textv("return"@), textv(";"@)),
    }
}

/// The document for an inclusion directive.
pub open spec fn include_docv(inc: Include) -> DocV {
    let (pre, post) = match inc.style {
        Style::AngleBrackets => ("<"@, ">"@),
        Style::Quotes => ("\""@, "\""@),
    };
    concatv(
        textv("#include"@),
        concatv(textv(" "@), concatv(textv(pre), concatv(textv(inc.path@), textv(post)))),
    )
}

/// The document for a statement whose own line breaks sit at `depth`.
pub open spec fn stmt_docv(s: Statement, depth: int) -> DocV
    decreases s, 1nat,
{
    match s {
        Statement::Expression(e) => concatv(expr_docv(e), textv(";"@)),
        Statement::Label(l) => label_docv(*l, depth),
        Statement::If(i) => if_docv(*i, depth),
        Statement::Switch(sw) => switch_docv(*sw, depth),
        Statement::While(w) => while_docv(*w, depth),
        Statement::Do(d) => do_docv(*d, depth),
        Statement::For(f) => for_docv(*f, depth),
        Statement::Block(b) => block_docv(b, depth),
        Statement::Null => textv(";"@),
        Statement::Goto(g) => goto_docv(g),
        Statement::Break => textv("break;"@),
        Statement::Continue => textv("continue;"@),
        Statement::Return(r) => return_docv(r),
        Statement::Typedef(td) => typedef_docv(td),
        Statement::VariableDeclaration(d) => concatv(var_decl_docv(d), textv(";"@)),
        Statement::FunctionDeclaration { return_type, name, parameters } => concatv(
            type_docv(return_type),
            concatv(
                textv(" "@),
                concatv(
                    textv(name@),
                    concatv(
                        textv("("@),
                        concatv(sig_params_docv(parameters@), textv(");"@)),
                    ),
                ),
            ),
        ),
        Statement::FunctionDefinition { return_type, name, parameters, body } => nestv(
            2,
            concatv(
                type_docv(return_type),
                concatv(
                    textv(" "@),
                    concatv(
                        textv(name@),
                        concatv(
                            textv("("@),
                            concatv(
                                sig_params_docv(parameters@),
                                concatv(
                                    textv(") {"@),
                                    concatv(
                                        DocV::HardLine,
                                        concatv(
                                            lines_docv(body@, dep2(depth)),
                                            textv("}"@),
                                        ),
                                    ),
                                ),
                            ),
                        ),
                    ),
                ),
            ),
        ),
        Statement::StructDeclaration { name, fields } => nestv(
            2,
            concatv(
                textv("struct "@),
                concatv(
                    textv(name@),
                    concatv(
                        textv(" {"@),
                        concatv(
                            DocV::HardLine,
                            concatv(struct_fields_docv(fields@), textv("};"@)),
                        ),
                    ),
                ),
            ),
        ),
        Statement::EnumDeclaration { name, variants } => nestv(
            2,
            concatv(
                textv("enum "@),
                concatv(
                    textv(name@),
                    concatv(
                        textv(" {"@),
                        concatv(
                            DocV::HardLine,
                            concatv(enum_variants_docv(name@, variants@), textv("};"@)),
                        ),
                    ),
                ),
            ),
        ),
        Statement::Include(header) => concatv(
            textv("#include <"@),
            concatv(textv(header@), textv(">"@)),
        ),
        Statement::MacroDefinition { name, body } => concatv(
            textv("#define "@),
            concatv(textv(name@), concatv(textv(" "@), textv(body@))),
        ),
    }
}

/// `type name` parameters of a function signature written in one line,
/// comma-separated; an unnamed parameter is its bare type.
pub open spec fn sig_params_docv(ps: Seq<(ConcreteType, Option<Identifier>)>) -> DocV
    decreases ps, 0nat,
{
    if ps.len() == 0 {
        DocV::Empty
    } else {
        let head = match ps[0].1 {
            Option::Some(n) => concatv(
                type_docv(ps[0].0),
                concatv(textv(" "@), textv(n@)),
            ),
            Option::None => type_docv(ps[0].0),
        };
        if ps.len() == 1 {
            head
        } else {
            concatv(head, concatv(textv(", "@), sig_params_docv(ps.drop_first())))
        }
    }
}

/// Statements each followed by a hard line break.
pub open spec fn lines_docv(ss: Seq<Statement>, depth: int) -> DocV
    decreases ss, 0nat,
{
    if ss.len() == 0 {
        DocV::Empty
    } else {
        concatv(
            stmt_docv(ss[0], depth),
            concatv(DocV::HardLine, lines_docv(ss.drop_first(), depth)),
        )
    }
}

/// `type name;` field lines of a plain struct declaration.
pub open spec fn struct_fields_docv(fs: Seq<(ConcreteType, Identifier)>) -> DocV
    decreases fs, 0nat,
{
    if fs.len() == 0 {
        DocV::Empty
    } else {
        concatv(
            type_docv(fs[0].0),
            concatv(
                textv(" "@),
                concatv(
                    textv(fs[0].1@),
                    concatv(textv(";"@), concatv(DocV::HardLine, struct_fields_docv(fs.drop_first()))),
                ),
            ),
        )
    }
}

/// `tag__variant` enumerator lines of a plain enum declaration, each with an
/// optional value and a trailing comma.
pub open spec fn enum_variants_docv(tag: Seq<char>, vs: Seq<(Identifier, Option<Value>)>) -> DocV
    decreases vs, 0nat,
{
    if vs.len() == 0 {
        DocV::Empty
    } else {
        let head = concatv(
            textv(tag),
            concatv(
                textv("__"@),
                concatv(
                    textv(vs[0].0@),
                    match vs[0].1 {
                        Option::Some(v) => concatv(
                            textv(" = "@),
                            concatv(value_docv(v), textv(","@)),
                        ),
                        Option::None => textv(","@),
                    },
                ),
            ),
        );
        concatv(head, concatv(DocV::HardLine, enum_variants_docv(tag, vs.drop_first())))
    }
}

/// The document for a label at nesting depth `depth`: a hard line whose
/// indentation is compensated to zero by a negative nest of the same
/// magnitude, the label text, and then the labeled statement, if any, at the
/// unadjusted depth. A labeled label manages its own line break.
pub open spec fn label_docv(l: Label, depth: int) -> DocV
    decreases l, 0nat,
{
    let lab = nestv(
        0 - depth,
        concatv(DocV::HardLine, concatv(textv(l.identifier@), textv(":"@))),
    );
    match l.statement {
        Option::Some(st) => if st is Label {
            concatv(lab, stmt_docv(st, depth))
        } else {
            concatv(lab, concatv(DocV::HardLine, stmt_docv(st, depth)))
        },
        Option::None => lab,
    }
}

/// The items of a block: each statement on its own hard line, except a
/// label, which supplies its own line break.
pub open spec fn block_items_docv(ss: Seq<Statement>, depth: int) -> DocV
    decreases ss, 0nat,
{
    if ss.len() == 0 {
        DocV::Empty
    } else {
        let head = if ss[0] is Label {
            stmt_docv(ss[0], depth)
        } else {
            concatv(DocV::HardLine, stmt_docv(ss[0], depth))
        };
        concatv(head, block_items_docv(ss.drop_first(), depth))
    }
}

/// The document for a block at `depth`: an opening brace, the statements
/// nested two columns deeper, and the closing brace back at `depth`.
pub open spec fn block_docv(b: Block, depth: int) -> DocV
    decreases b, 1nat,
{
    concatv(
        textv("{"@),
        concatv(
            nestv(2, block_items_docv(b.statements@, dep2(depth))),
            concatv(DocV::HardLine, textv("}"@)),
        ),
    )
}

/// A loop or branch body under its head: a block keeps its own indentation;
/// a single statement is indented by exactly two columns.
pub open spec fn body_docv(s: Statement, depth: int) -> DocV
    decreases s, 2nat,
{
    if s is Block {
        stmt_docv(s, depth)
    } else {
        concatv(textv("  "@), nestv(2, stmt_docv(s, dep2(depth))))
    }
}

/// The head of an `if` statement: the keyword and the parenthesized
/// condition.
pub open spec fn if_head_docv(c: Expression) -> DocV
    decreases c, 2nat,
{
    concatv(
        textv("if"@),
        concatv(textv(" "@), concatv(textv("("@), concatv(expr_docv(c), textv(")"@)))),
    )
}

/// The document for an `if` statement: the parenthesized condition, the then
/// branch (inline for a block, indented two columns otherwise), and the
/// `else` branch, where an else-if chain continues on the `else` line.
pub open spec fn if_docv(i: If, depth: int) -> DocV
    decreases i, 0nat,
{
    let head = if_head_docv(i.condition);
    let then_part = if i.then_statement is Block {
        concatv(
            DocV::HardLine,
            concatv(stmt_docv(i.then_statement, depth), DocV::HardLine),
        )
    } else {
        nestv(
            2,
            concatv(
                DocV::HardLine,
                concatv(stmt_docv(i.then_statement, dep2(depth)), DocV::HardLine),
            ),
        )
    };
    let with_then = concatv(head, then_part);
    match i.else_statement {
        Option::Some(e) => {
            let else_part = if e is If {
                concatv(textv(" "@), stmt_docv(e, depth))
            } else if e is Block {
                concatv(DocV::HardLine, stmt_docv(e, depth))
            } else {
                nestv(2, concatv(DocV::HardLine, stmt_docv(e, dep2(depth))))
            };
            concatv(
                with_then,
                concatv(textv("else"@), concatv(else_part, DocV::HardLine)),
            )
        },
        Option::None => with_then,
    }
}

/// One hard line per case body statement, two columns deeper than the case
/// label.
pub open spec fn case_body_docv(ss: Seq<Statement>, depth: int) -> DocV
    decreases ss, 0nat,
{
    if ss.len() == 0 {
        DocV::Empty
    } else {
        concatv(
            DocV::HardLine,
            concatv(stmt_docv(ss[0], depth), case_body_docv(ss.drop_first(), depth)),
        )
    }
}

/// The cases of a switch: `case expr:` on its own line, then the case body
/// nested two columns deeper. A case with no statements renders as a bare
/// label, so consecutive empty cases fall through.
pub open spec fn cases_docv(cs: Seq<(Expression, Vec<Statement>)>, depth: int) -> DocV
    decreases cs, 0nat,
{
    if cs.len() == 0 {
        DocV::Empty
    } else {
        let head = concatv(
            DocV::HardLine,
            concatv(
                textv("case"@),
                concatv(
                    textv(" "@),
                    concatv(expr_docv(cs[0].0), textv(":"@)),
                ),
            ),
        );
        concatv(
            head,
            concatv(
                nestv(2, case_body_docv(cs[0].1@, dep2(depth))),
                cases_docv(cs.drop_first(), depth),
            ),
        )
    }
}

/// The `default:` case, if present.
pub open spec fn default_docv(d: Option<Vec<Statement>>, depth: int) -> DocV
    decreases d, 0nat,
{
    match d {
        Option::Some(ss) => concatv(
            concatv(DocV::HardLine, textv("default:"@)),
            nestv(2, case_body_docv(ss@, dep2(depth))),
        ),
        Option::None => DocV::Empty,
    }
}

/// The document for a `switch` statement: the head, then a braced case list
/// nested two columns deeper; case labels sit two columns inside the braces
/// and case bodies two further.
pub open spec fn switch_docv(sw: Switch, depth: int) -> DocV
    decreases sw, 0nat,
{
    let head = nestv(
        2,
        concatv(
            textv("switch"@),
            concatv(
                textv(" "@),
                concatv(textv("("@), concatv(expr_docv(sw.condition), textv(")"@))),
            ),
        ),
    );
    let d2 = dep2(depth);
    let d4 = dep2(d2);
    nestv(
        2,
        concatv(
            head,
            concatv(
                DocV::HardLine,
                concatv(
                    textv("{"@),
                    concatv(
                        nestv(
                            2,
                            concatv(cases_docv(sw.cases@, d4), default_docv(sw.default, d4)),
                        ),
                        concatv(DocV::HardLine, textv("}"@)),
                    ),
                ),
            ),
        ),
    )
}

/// The document for a `while` loop: the parenthesized condition, a line
/// break, then the body under the usual block-or-indent rule.
pub open spec fn while_docv(w: While, depth: int) -> DocV
    decreases w, 0nat,
{
    concatv(
        textv("while"@),
        concatv(
            textv(" "@),
            concatv(
                textv("("@),
                concatv(
                    expr_docv(w.condition),
                    concatv(textv(")"@), concatv(DocV::HardLine, body_docv(w.body, depth))),
                ),
            ),
        ),
    )
}

/// The document for a `do … while` loop.
pub open spec fn do_docv(d: Do, depth: int) -> DocV
    decreases d, 0nat,
{
    concatv(
        textv("do"@),
        concatv(
            DocV::HardLine,
            concatv(
                body_docv(d.body, depth),
                concatv(
                    DocV::HardLine,
                    concatv(
                        textv("while"@),
                        concatv(
                            textv(" "@),
                            concatv(
                                textv("("@),
                                concatv(
                                    expr_docv(d.condition),
                                    concatv(textv(")"@), textv(";"@)),
                                ),
                            ),
                        ),
                    ),
                ),
            ),
        ),
    )
}

/// The first slot of a `for` head.
pub open spec fn for_init_docv(i: Option<ForDeclaration>) -> DocV
    decreases i, 0nat,
{
    match i {
        Option::Some(ForDeclaration::Expression(e)) => expr_docv(e),
        Option::Some(ForDeclaration::VariableDeclaration(d)) => var_decl_docv(d),
        Option::None => DocV::Empty,
    }
}

/// The document for a `for` loop: the three `;`-separated head slots, each
/// independently optional, then the body under the block-or-indent rule.
pub open spec fn for_docv(f: For, depth: int) -> DocV
    decreases f, 0nat,
{
    let step = match f.step {
        Option::Some(e) => expr_docv(e),
        Option::None => DocV::Empty,
    };
    concatv(
        textv("for"@),
        concatv(
            textv(" "@),
            concatv(
                textv("("@),
                concatv(
                    for_init_docv(f.init),
                    concatv(
                        textv("; "@),
                        concatv(
                            expr_docv(f.condition),
                            concatv(
                                textv("; "@),
                                concatv(
                                    step,
                                    concatv(
                                        textv(")"@),
                                        concatv(DocV::HardLine, body_docv(*f.body, depth)),
                                    ),
                                ),
                            ),
                        ),
                    ),
                ),
            ),
        ),
    )
}

// ---------------------------------------------------------------------------
// Executable documents
// ---------------------------------------------------------------------------
/// The indentation two columns deeper than `depth`.
fn dep2_exec(depth: i64) -> (r: i64)
    requires
        depth >= 0,
    ensures
        r == dep2(depth as int),
        r >= 0,
{
    if depth > i64::MAX - 2 {
        i64::MAX
    } else {
        depth + 2
    }
}

impl Goto {
    /// The document for this `goto`.
    pub fn pretty(&self) -> (d: Document)
        ensures
            d@ == goto_docv(*self),
    {
        Document::text("goto ").append(
            Document::text_owned(self.label.to_string()).append(Document::text(";")),
        )
    }

    /// The statement rendered as C text at the standard line width.
    pub fn to_string(&self) -> (r: String)
        ensures
            r@ == crate::doc::rendered(goto_docv(*self), 80),
    {
        crate::doc::render(&self.pretty(), 80)
    }
}

impl Return {
    /// The document for this `return`.
    pub fn pretty(&self) -> (d: Document)
        ensures
            d@ == return_docv(*self),
    {
        match &self.expression {
            Option::Some(e) => Document::text("return").append(
                Document::space().append(e.pretty().append(Document::text(";"))),
            ),
            Option::None => Document::text("return").append(Document::text(";")),
        }
    }
}

impl Include {
    /// The document for this inclusion directive.
    pub fn pretty(&self) -> (d: Document)
        ensures
            d@ == include_docv(*self),
    {
        let (pre, post): (&'static str, &'static str) = match self.style {
            Style::AngleBrackets => ("<", ">"),
            Style::Quotes => ("\"", "\""),
        };
        Document::text("#include").append(
            Document::space().append(
                Document::text(pre).append(
                    Document::text_owned(self.path.clone()).append(Document::text(post)),
                ),
            ),
        )
    }

    /// The directive rendered as C text at the standard line width.
    pub fn to_string(&self) -> (r: String)
        ensures
            r@ == crate::doc::rendered(include_docv(*self), 80),
    {
        crate::doc::render(&self.pretty(), 80)
    }
}

fn sig_params_doc(ps: &Vec<(ConcreteType, Option<Identifier>)>, i: usize) -> (d: Document)
    requires
        i <= ps@.len(),
    ensures
        d@ == sig_params_docv(ps@.subrange(i as int, ps@.len() as int)),
    decreases ps@, ps@.len() - i,
{
    let ghost s = ps@.subrange(i as int, ps@.len() as int);
    if i >= ps.len() {
        Document::nil()
    } else {
        let head = match &ps[i].1 {
            Option::Some(n) => ps[i].0.pretty().append(
                Document::space().append(Document::text_owned(n.to_string())),
            ),
            Option::None => ps[i].0.pretty(),
        };
        proof {
            assert(s[0] == ps@[i as int]);
        }
        if i == ps.len() - 1 {
            head
        } else {
            let rest = sig_params_doc(ps, i + 1);
            proof {
                assert(s.drop_first() =~= ps@.subrange(i as int + 1, ps@.len() as int));
            }
            head.append(Document::text(", ").append(rest))
        }
    }
}

fn lines_doc(ss: &Vec<Statement>, i: usize, depth: i64) -> (d: Document)
    requires
        i <= ss@.len(),
        depth >= 0,
    ensures
        d@ == lines_docv(ss@.subrange(i as int, ss@.len() as int), depth as int),
    decreases ss@, ss@.len() - i,
{
    let ghost s = ss@.subrange(i as int, ss@.len() as int);
    if i >= ss.len() {
        Document::nil()
    } else {
        let head = ss[i].pretty(depth);
        let rest = lines_doc(ss, i + 1, depth);
        proof {
            assert(s[0] == ss@[i as int]);
            assert(s.drop_first() =~= ss@.subrange(i as int + 1, ss@.len() as int));
        }
        head.append(Document::hardline().append(rest))
    }
}

fn struct_fields_doc(fs: &Vec<(ConcreteType, Identifier)>, i: usize) -> (d: Document)
    requires
        i <= fs@.len(),
    ensures
        d@ == struct_fields_docv(fs@.subrange(i as int, fs@.len() as int)),
    decreases fs@, fs@.len() - i,
{
    let ghost s = fs@.subrange(i as int, fs@.len() as int);
    if i >= fs.len() {
        Document::nil()
    } else {
        let rest = struct_fields_doc(fs, i + 1);
        proof {
            assert(s[0] == fs@[i as int]);
            assert(s.drop_first() =~= fs@.subrange(i as int + 1, fs@.len() as int));
        }
        fs[i].0.pretty().append(
            Document::space().append(
                Document::text_owned(fs[i].1.to_string()).append(
                    Document::text(";").append(Document::hardline().append(rest)),
                ),
            ),
        )
    }
}

fn enum_variants_doc(tag: &Identifier, vs: &Vec<(Identifier, Option<Value>)>, i: usize) -> (d:
    Document)
    requires
        i <= vs@.len(),
    ensures
        d@ == enum_variants_docv(tag@, vs@.subrange(i as int, vs@.len() as int)),
    decreases vs@, vs@.len() - i,
{
    let ghost s = vs@.subrange(i as int, vs@.len() as int);
    if i >= vs.len() {
        Document::nil()
    } else {
        let tail = match &vs[i].1 {
            Option::Some(v) => Document::text(" = ").append(
                v.pretty().append(Document::text(",")),
            ),
            Option::None => Document::text(","),
        };
        let head = Document::text_owned(tag.to_string()).append(
            Document::text("__").append(
                Document::text_owned(vs[i].0.to_string()).append(tail),
            ),
        );
        let rest = enum_variants_doc(tag, vs, i + 1);
        proof {
            assert(s[0] == vs@[i as int]);
            assert(s.drop_first() =~= vs@.subrange(i as int + 1, vs@.len() as int));
        }
        head.append(Document::hardline().append(rest))
    }
}

impl Label {
    /// The document for this label at nesting depth `depth`.
    pub fn pretty(&self, depth: i64) -> (d: Document)
        requires
            depth >= 0,
        ensures
            d@ == label_docv(*self, depth as int),
        decreases self, 0nat,
    {
        let neg: i64 = -depth;
        let lab = Document::hardline().append(
            Document::text_owned(self.identifier.to_string()).append(Document::text(":")),
        ).nest(neg);
        match &self.statement {
            Option::Some(st) => if st.has_custom_indentation() {
                lab.append(st.pretty(depth))
            } else {
                lab.append(Document::hardline().append(st.pretty(depth)))
            },
            Option::None => lab,
        }
    }
}

fn block_items_doc(ss: &Vec<Statement>, i: usize, depth: i64) -> (d: Document)
    requires
        i <= ss@.len(),
        depth >= 0,
    ensures
        d@ == block_items_docv(ss@.subrange(i as int, ss@.len() as int), depth as int),
    decreases ss@, ss@.len() - i,
{
    let ghost s = ss@.subrange(i as int, ss@.len() as int);
    if i >= ss.len() {
        Document::nil()
    } else {
        let head = if ss[i].has_custom_indentation() {
            ss[i].pretty(depth)
        } else {
            Document::hardline().append(ss[i].pretty(depth))
        };
        let rest = block_items_doc(ss, i + 1, depth);
        proof {
            assert(s[0] == ss@[i as int]);
            assert(s.drop_first() =~= ss@.subrange(i as int + 1, ss@.len() as int));
        }
        head.append(rest)
    }
}

impl Block {
    /// The document for this block at nesting depth `depth`.
    pub fn pretty(&self, depth: i64) -> (d: Document)
        requires
            depth >= 0,
        ensures
            d@ == block_docv(*self, depth as int),
        decreases self, 1nat,
    {
        proof {
            assert(self.statements@.subrange(0, self.statements@.len() as int)
                =~= self.statements@);
        }
        Document::text("{").append(
            block_items_doc(&self.statements, 0, dep2_exec(depth)).nest(2).append(
                Document::hardline().append(Document::text("}")),
            ),
        )
    }

    /// The block rendered as C text at the standard line width.
    pub fn to_string(&self) -> (r: String)
        ensures
            r@ == crate::doc::rendered(block_docv(*self, 0), 80),
    {
        crate::doc::render(&self.pretty(0), 80)
    }
}

fn body_doc(s: &Statement, depth: i64) -> (d: Document)
    requires
        depth >= 0,
    ensures
        d@ == body_docv(*s, depth as int),
    decreases s, 2nat,
{
    if s.is_block() {
        s.pretty(depth)
    } else {
        Document::text("  ").append(s.pretty(dep2_exec(depth)).nest(2))
    }
}

impl If {
    /// The document for this `if` statement at nesting depth `depth`.
    pub fn pretty(&self, depth: i64) -> (d: Document)
        requires
            depth >= 0,
        ensures
            d@ == if_docv(*self, depth as int),
        decreases self, 0nat,
    {
        let head = Document::text("if").append(
            Document::space().append(
                Document::text("(").append(
                    self.condition.pretty().append(Document::text(")")),
                ),
            ),
        );
        let then_part = if self.then_statement.is_block() {
            Document::hardline().append(
                self.then_statement.pretty(depth).append(Document::hardline()),
            )
        } else {
            Document::hardline().append(
                self.then_statement.pretty(dep2_exec(depth)).append(Document::hardline()),
            ).nest(2)
        };
        let with_then = head.append(then_part);
        match &self.else_statement {
            Option::Some(e) => {
                let else_part = match e {
                    Statement::If(_) => Document::space().append(e.pretty(depth)),
                    Statement::Block(_) => Document::hardline().append(e.pretty(depth)),
                    _ => Document::hardline().append(e.pretty(dep2_exec(depth))).nest(2),
                };
                with_then.append(
                    Document::text("else").append(else_part.append(Document::hardline())),
                )
            },
            Option::None => with_then,
        }
    }

    /// The statement rendered as C text at the standard line width.
    pub fn to_string(&self) -> (r: String)
        ensures
            r@ == crate::doc::rendered(if_docv(*self, 0), 80),
    {
        crate::doc::render(&self.pretty(0), 80)
    }
}

fn case_body_doc(ss: &Vec<Statement>, i: usize, depth: i64) -> (d: Document)
    requires
        i <= ss@.len(),
        depth >= 0,
    ensures
        d@ == case_body_docv(ss@.subrange(i as int, ss@.len() as int), depth as int),
    decreases ss@, ss@.len() - i,
{
    let ghost s = ss@.subrange(i as int, ss@.len() as int);
    if i >= ss.len() {
        Document::nil()
    } else {
        let head = ss[i].pretty(depth);
        let rest = case_body_doc(ss, i + 1, depth);
        proof {
            assert(s[0] == ss@[i as int]);
            assert(s.drop_first() =~= ss@.subrange(i as int + 1, ss@.len() as int));
        }
        Document::hardline().append(head.append(rest))
    }
}

fn cases_doc(cs: &Vec<(Expression, Vec<Statement>)>, i: usize, depth: i64) -> (d: Document)
    requires
        i <= cs@.len(),
        depth >= 0,
    ensures
        d@ == cases_docv(cs@.subrange(i as int, cs@.len() as int), depth as int),
    decreases cs@, cs@.len() - i,
{
    let ghost s = cs@.subrange(i as int, cs@.len() as int);
    if i >= cs.len() {
        Document::nil()
    } else {
        let head = Document::hardline().append(
            Document::text("case").append(
                Document::space().append(cs[i].0.pretty().append(Document::text(":"))),
            ),
        );
        let body = case_body_doc(&cs[i].1, 0, dep2_exec(depth)).nest(2);
        let rest = cases_doc(cs, i + 1, depth);
        proof {
            assert(s[0] == cs@[i as int]);
            assert(cs@[i as int].1@.subrange(0, cs@[i as int].1@.len() as int)
                =~= cs@[i as int].1@);
            assert(s.drop_first() =~= cs@.subrange(i as int + 1, cs@.len() as int));
        }
        head.append(body.append(rest))
    }
}

fn default_doc(d0: &Option<Vec<Statement>>, depth: i64) -> (d: Document)
    requires
        depth >= 0,
    ensures
        d@ == default_docv(*d0, depth as int),
    decreases d0, 0nat,
{
    match d0 {
        Option::Some(ss) => {
            proof {
                assert(ss@.subrange(0, ss@.len() as int) =~= ss@);
            }
            Document::hardline().append(Document::text("default:")).append(
                case_body_doc(ss, 0, dep2_exec(depth)).nest(2),
            )
        },
        Option::None => Document::nil(),
    }
}

impl Switch {
    /// The document for this `switch` statement at nesting depth `depth`.
    pub fn pretty(&self, depth: i64) -> (d: Document)
        requires
            depth >= 0,
        ensures
            d@ == switch_docv(*self, depth as int),
        decreases self, 0nat,
    {
        let head = Document::text("switch").append(
            Document::space().append(
                Document::text("(").append(
                    self.condition.pretty().append(Document::text(")")),
                ),
            ),
        ).nest(2);
        let d4 = dep2_exec(dep2_exec(depth));
        proof {
            assert(self.cases@.subrange(0, self.cases@.len() as int) =~= self.cases@);
        }
        let cases = cases_doc(&self.cases, 0, d4);
        let dflt = default_doc(&self.default, d4);
        head.append(
            Document::hardline().append(
                Document::text("{").append(
                    cases.append(dflt).nest(2).append(
                        Document::hardline().append(Document::text("}")),
                    ),
                ),
            ),
        ).nest(2)
    }

    /// The statement rendered as C text at the standard line width.
    pub fn to_string(&self) -> (r: String)
        ensures
            r@ == crate::doc::rendered(switch_docv(*self, 0), 80),
    {
        crate::doc::render(&self.pretty(0), 80)
    }
}

impl While {
    /// The document for this `while` loop at nesting depth `depth`.
    pub fn pretty(&self, depth: i64) -> (d: Document)
        requires
            depth >= 0,
        ensures
            d@ == while_docv(*self, depth as int),
        decreases self, 0nat,
    {
        Document::text("while").append(
            Document::space().append(
                Document::text("(").append(
                    self.condition.pretty().append(
                        Document::text(")").append(
                            Document::hardline().append(body_doc(&self.body, depth)),
                        ),
                    ),
                ),
            ),
        )
    }

    /// The statement rendered as C text at the standard line width.
    pub fn to_string(&self) -> (r: String)
        ensures
            r@ == crate::doc::rendered(while_docv(*self, 0), 80),
    {
        crate::doc::render(&self.pretty(0), 80)
    }
}

impl Do {
    /// The document for this `do … while` loop at nesting depth `depth`.
    pub fn pretty(&self, depth: i64) -> (d: Document)
        requires
            depth >= 0,
        ensures
            d@ == do_docv(*self, depth as int),
        decreases self, 0nat,
    {
        Document::text("do").append(
            Document::hardline().append(
                body_doc(&self.body, depth).append(
                    Document::hardline().append(
                        Document::text("while").append(
                            Document::space().append(
                                Document::text("(").append(
                                    self.condition.pretty().append(
                                        Document::text(")").append(Document::text(";")),
                                    ),
                                ),
                            ),
                        ),
                    ),
                ),
            ),
        )
    }

    /// The statement rendered as C text at the standard line width.
    pub fn to_string(&self) -> (r: String)
        ensures
            r@ == crate::doc::rendered(do_docv(*self, 0), 80),
    {
        crate::doc::render(&self.pretty(0), 80)
    }
}

fn for_init_doc(i: &Option<ForDeclaration>) -> (d: Document)
    ensures
        d@ == for_init_docv(*i),
{
    match i {
        Option::Some(ForDeclaration::Expression(e)) => e.pretty(),
        Option::Some(ForDeclaration::VariableDeclaration(vd)) => vd.pretty(),
        Option::None => Document::nil(),
    }
}

impl For {
    /// The document for this `for` loop at nesting depth `depth`.
    pub fn pretty(&self, depth: i64) -> (d: Document)
        requires
            depth >= 0,
        ensures
            d@ == for_docv(*self, depth as int),
        decreases self, 0nat,
    {
        let step = match &self.step {
            Option::Some(e) => e.pretty(),
            Option::None => Document::nil(),
        };
        Document::text("for").append(
            Document::space().append(
                Document::text("(").append(
                    for_init_doc(&self.init).append(
                        Document::text("; ").append(
                            self.condition.pretty().append(
                                Document::text("; ").append(
                                    step.append(
                                        Document::text(")").append(
                                            Document::hardline().append(
                                                body_doc(&self.body, depth),
                                            ),
                                        ),
                                    ),
                                ),
                            ),
                        ),
                    ),
                ),
            ),
        )
    }

    /// The statement rendered as C text at the standard line width.
    pub fn to_string(&self) -> (r: String)
        ensures
            r@ == crate::doc::rendered(for_docv(*self, 0), 80),
    {
        crate::doc::render(&self.pretty(0), 80)
    }
}

impl Statement {
    /// The document for this statement whose own line breaks sit at `depth`.
    pub fn pretty(&self, depth: i64) -> (d: Document)
        requires
            depth >= 0,
        ensures
            d@ == stmt_docv(*self, depth as int),
        decreases self, 1nat,
    {
        match self {
            Statement::Expression(e) => e.pretty().append(Document::text(";")),
            Statement::Label(l) => l.pretty(depth),
            Statement::If(i) => i.pretty(depth),
            Statement::Switch(sw) => sw.pretty(depth),
            Statement::While(w) => w.pretty(depth),
            Statement::Do(d) => d.pretty(depth),
            Statement::For(f) => f.pretty(depth),
            Statement::Block(b) => b.pretty(depth),
            Statement::Null => Document::text(";"),
            Statement::Goto(g) => g.pretty(),
            Statement::Break => Document::text("break;"),
            Statement::Continue => Document::text("continue;"),
            Statement::Return(r) => r.pretty(),
            Statement::Typedef(td) => td.pretty(),
            Statement::VariableDeclaration(d) => d.pretty().append(Document::text(";")),
            Statement::FunctionDeclaration { return_type, name, parameters } => {
                proof {
                    assert(parameters@.subrange(0, parameters@.len() as int) =~= parameters@);
                }
                return_type.pretty().append(
                    Document::space().append(
                        Document::text_owned(name.to_string()).append(
                            Document::text("(").append(
                                sig_params_doc(parameters, 0).append(Document::text(");")),
                            ),
                        ),
                    ),
                )
            },
            Statement::FunctionDefinition { return_type, name, parameters, body } => {
                proof {
                    assert(parameters@.subrange(0, parameters@.len() as int) =~= parameters@);
                    assert(body@.subrange(0, body@.len() as int) =~= body@);
                }
                return_type.pretty().append(
                    Document::space().append(
                        Document::text_owned(name.to_string()).append(
                            Document::text("(").append(
                                sig_params_doc(parameters, 0).append(
                                    Document::text(") {").append(
                                        Document::hardline().append(
                                            lines_doc(body, 0, dep2_exec(depth)).append(
                                                Document::text("}"),
                                            ),
                                        ),
                                    ),
                                ),
                            ),
                        ),
                    ),
                ).nest(2)
            },
            Statement::StructDeclaration { name, fields } => {
                proof {
                    assert(fields@.subrange(0, fields@.len() as int) =~= fields@);
                }
                Document::text("struct ").append(
                    Document::text_owned(name.to_string()).append(
                        Document::text(" {").append(
                            Document::hardline().append(
                                struct_fields_doc(fields, 0).append(Document::text("};")),
                            ),
                        ),
                    ),
                ).nest(2)
            },
            Statement::EnumDeclaration { name, variants } => {
                proof {
                    assert(variants@.subrange(0, variants@.len() as int) =~= variants@);
                }
                Document::text("enum ").append(
                    Document::text_owned(name.to_string()).append(
                        Document::text(" {").append(
                            Document::hardline().append(
                                enum_variants_doc(name, variants, 0).append(Document::text("};")),
                            ),
                        ),
                    ),
                ).nest(2)
            },
            Statement::Include(header) => Document::text("#include <").append(
                Document::text_owned(header.clone()).append(Document::text(">")),
            ),
            Statement::MacroDefinition { name, body } => Document::text("#define ").append(
                Document::text_owned(name.to_string()).append(
                    Document::space().append(Document::text_owned(body.clone())),
                ),
            ),
        }
    }

    /// The statement rendered as C text at the standard line width.
    pub fn to_string(&self) -> (r: String)
        ensures
            r@ == crate::doc::rendered(stmt_docv(*self, 0), 80),
    {
        crate::doc::render(&self.pretty(0), 80)
    }
}

} // verus!
