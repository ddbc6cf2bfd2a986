//! Laws of the formatter, stated over the rendering semantics and proved for
//! all inputs: the label-outdent invariant, the shapes of `if`/`else`
//! branches, and switch fallthrough for empty cases.
use vstd::prelude::*;

use crate::ast::Expression;
use crate::compose::expr_docv;
use crate::doc::{concatv, doc_run, effective_ind, ind_add, nestv, spaces, textv, DocV};
use crate::statement::{
    case_body_docv, cases_docv, dep2, if_docv, if_head_docv, label_docv, stmt_docv, Label,
    Statement, If,
};

verus! {

/// After a line break, the next visible text is indented by exactly the
/// nesting level in effect at that text: its line reads `spaces(ind)` then
/// the text.
pub proof fn lemma_pending_indents_next_text(
    s: Seq<char>,
    width: int,
    ind: int,
    col: int,
)
    requires
        s.len() > 0,
    ensures
        doc_run(textv(s), width, ind, col, true, false).0 == spaces(ind) + s,
{
}

/// Law: the label-outdent invariant, for a bare label. At every nesting
/// depth `d`, the document of a label carrying no statement renders as a
/// line break followed immediately by `name:` — at column zero, with no
/// leading indentation — whenever it is rendered at the depth it was
/// composed for.
pub proof fn lemma_label_outdent(l: Label, d: int, width: int, col: int, pending: bool)
    requires
        l.statement is None,
    ensures
        doc_run(label_docv(l, d), width, d, col, pending, false).0 == seq!['\n'] + l.identifier@
            + ":"@,
{
    reveal_with_fuel(doc_run, 6);
    let lab = concatv(DocV::HardLine, concatv(textv(l.identifier@), textv(":"@)));
    assert(ind_add(d, 0 - d) == 0);
    assert(spaces(0) =~= Seq::<char>::empty());
    let (s, c, p) = doc_run(lab, width, 0, col, pending, false);
    if l.identifier@.len() == 0 {
        assert(s =~= seq!['\n'] + l.identifier@ + ":"@);
    } else {
        assert(s =~= seq!['\n'] + l.identifier@ + ":"@);
    }
    assert(doc_run(label_docv(l, d), width, d, col, pending, false).0 == s);
}

/// Law: the label-outdent invariant, for a labeled statement. The label
/// lands at column zero, and the labeled statement follows on its own line,
/// rendered at the unadjusted depth `d` — it keeps the surrounding nesting
/// depth's normal indentation.
pub proof fn lemma_label_statement_indent(
    l: Label,
    st: Statement,
    d: int,
    width: int,
    col: int,
    pending: bool,
)
    requires
        l.statement == Some(st),
        !(st is Label),
    ensures
        doc_run(label_docv(l, d), width, d, col, pending, false).0 == seq!['\n'] + l.identifier@
            + ":"@ + seq!['\n'] + doc_run(stmt_docv(st, d), width, d, 0, true, false).0,
{
    reveal_with_fuel(doc_run, 6);
    let lab = concatv(DocV::HardLine, concatv(textv(l.identifier@), textv(":"@)));
    assert(ind_add(d, 0 - d) == 0);
    assert(spaces(0) =~= Seq::<char>::empty());
    let (s, c, p) = doc_run(lab, width, 0, col, pending, false);
    if l.identifier@.len() == 0 {
        assert(s =~= seq!['\n'] + l.identifier@ + ":"@);
    } else {
        assert(s =~= seq!['\n'] + l.identifier@ + ":"@);
    }
    assert((":"@).len() == 1) by {
        reveal_strlit(":");
    }
    assert(p == false);
    let (ts, tc, tp) = doc_run(stmt_docv(st, d), width, d, 0, true, false);
    assert(doc_run(label_docv(l, d), width, d, col, pending, false).0 =~= seq!['\n']
        + l.identifier@ + ":"@ + seq!['\n'] + ts);
}

/// Law: the shape of an `if` with a single-statement then branch and no
/// `else`. The branch is not wrapped in braces; it follows the head on its
/// own line, rendered two columns deeper than the statement — so its first
/// text is indented by exactly two columns more.
#[verifier::rlimit(100)]
pub proof fn lemma_if_single_statement_shape(i: If, d: int, width: int, col: int, pending: bool)
    requires
        !(i.then_statement is Block),
        i.else_statement is None,
        0 <= d,
        d + 2 <= i64::MAX as int,
    ensures
        doc_run(if_docv(i, d), width, d, col, pending, false).0 == doc_run(
            if_head_docv(i.condition),
            width,
            d,
            col,
            pending,
            false,
        ).0 + seq!['\n'] + doc_run(
            stmt_docv(i.then_statement, d + 2),
            width,
            d + 2,
            0,
            true,
            false,
        ).0 + seq!['\n'],
{
    reveal_with_fuel(doc_run, 8);
    assert(ind_add(d, 2) == d + 2);
    let (hs, hc, hp) = doc_run(if_head_docv(i.condition), width, d, col, pending, false);
    let (bs, bc, bp) = doc_run(stmt_docv(i.then_statement, d + 2), width, d + 2, 0, true, false);
    assert(doc_run(if_docv(i, d), width, d, col, pending, false).0 =~= hs + seq!['\n'] + bs
        + seq!['\n']);
}

/// Law: the shape of an `if` whose then branch is a block and that has no
/// `else`. The block follows the head on its own line at the unchanged
/// depth: braces carry their own indentation and the block gets no extra
/// columns.
#[verifier::rlimit(100)]
pub proof fn lemma_if_block_shape(i: If, d: int, width: int, col: int, pending: bool)
    requires
        i.then_statement is Block,
        i.else_statement is None,
    ensures
        doc_run(if_docv(i, d), width, d, col, pending, false).0 == doc_run(
            if_head_docv(i.condition),
            width,
            d,
            col,
            pending,
            false,
        ).0 + seq!['\n'] + doc_run(stmt_docv(i.then_statement, d), width, d, 0, true, false).0
            + seq!['\n'],
{
    reveal_with_fuel(doc_run, 8);
    let (hs, hc, hp) = doc_run(if_head_docv(i.condition), width, d, col, pending, false);
    let (bs, bc, bp) = doc_run(stmt_docv(i.then_statement, d), width, d, 0, true, false);
    assert(doc_run(if_docv(i, d), width, d, col, pending, false).0 =~= hs + seq!['\n'] + bs
        + seq!['\n']);
}

/// Law: else-if chaining. When the `else` branch is itself an `if`, the
/// chained statement follows `else` after a single space on the same line —
/// never on a line of its own: whatever the shape of the then branch, the
/// output continues `else if (…)` with the chained statement rendered from
/// column `d + 5` of the `else` line.
#[verifier::rlimit(100)]
pub proof fn lemma_else_if_same_line(
    i: If,
    e: Statement,
    d: int,
    width: int,
    col: int,
    pending: bool,
)
    requires
        i.else_statement == Some(e),
        e is If,
        0 <= d,
        d + 5 <= i64::MAX as int,
    ensures
        ({
            let head = doc_run(if_head_docv(i.condition), width, d, col, pending, false);
            let then_branch = if i.then_statement is Block {
                doc_run(stmt_docv(i.then_statement, d), width, d, 0, true, false)
            } else {
                doc_run(stmt_docv(i.then_statement, d + 2), width, d + 2, 0, true, false)
            };
            let chained = doc_run(stmt_docv(e, d), width, d, d + 5, false, false);
            doc_run(if_docv(i, d), width, d, col, pending, false).0 == head.0 + seq!['\n']
                + then_branch.0 + seq!['\n'] + spaces(d) + "else"@ + " "@ + chained.0 + seq!['\n']
        }),
{
    reveal_with_fuel(doc_run, 4);
    assert(ind_add(d, 2) == d + 2);
    assert(effective_ind(d) == d);
    let head = doc_run(if_head_docv(i.condition), width, d, col, pending, false);
    let tb = if i.then_statement is Block {
        doc_run(stmt_docv(i.then_statement, d), width, d, 0, true, false)
    } else {
        doc_run(stmt_docv(i.then_statement, d + 2), width, d + 2, 0, true, false)
    };
    if i.then_statement is Block {
        let then_inner = concatv(
            DocV::HardLine,
            concatv(stmt_docv(i.then_statement, d), DocV::HardLine),
        );
        let r_then = doc_run(then_inner, width, d, head.1, head.2, false);
        assert(r_then.0 =~= seq!['\n'] + tb.0 + seq!['\n']);
        assert(r_then.1 == 0 && r_then.2 == true);
    } else {
        let then_inner = concatv(
            DocV::HardLine,
            concatv(stmt_docv(i.then_statement, d + 2), DocV::HardLine),
        );
        let r_then = doc_run(nestv(2, then_inner), width, d, head.1, head.2, false);
        assert(r_then.0 =~= seq!['\n'] + tb.0 + seq!['\n']);
        assert(r_then.1 == 0 && r_then.2 == true);
    }
    assert(("else"@).len() == 4) by {
        reveal_strlit("else");
    }
    assert((" "@).len() == 1) by {
        reveal_strlit(" ");
    }
    let r_kw = doc_run(textv("else"@), width, d, 0, true, false);
    assert(r_kw.0 == spaces(d) + "else"@);
    assert(ind_add(d, 4) == d + 4);
    assert(r_kw.1 == d + 4 && r_kw.2 == false);
    let chained = doc_run(stmt_docv(e, d), width, d, d + 5, false, false);
    let else_part = concatv(textv(" "@), stmt_docv(e, d));
    let r_ep = doc_run(else_part, width, d, d + 4, false, false);
    assert(ind_add(d + 4, 1) == d + 5);
    assert(r_ep.0 =~= " "@ + chained.0);
    let r_tail = doc_run(
        concatv(textv("else"@), concatv(else_part, DocV::HardLine)),
        width,
        d,
        0,
        true,
        false,
    );
    assert(r_tail.0 =~= spaces(d) + "else"@ + " "@ + chained.0 + seq!['\n']);
    assert(doc_run(if_docv(i, d), width, d, col, pending, false).0 =~= head.0 + (seq!['\n'] + tb.0
        + seq!['\n']) + r_tail.0);
    assert(doc_run(if_docv(i, d), width, d, col, pending, false).0 =~= head.0 + seq!['\n'] + tb.0
        + seq!['\n'] + spaces(d) + "else"@ + " "@ + chained.0 + seq!['\n']);
}

/// Law: the shape of a single-statement `else` branch: not wrapped in
/// braces, on its own line after `else`, rendered two columns deeper than
/// the statement.
#[verifier::rlimit(100)]
pub proof fn lemma_else_single_statement_indent(
    i: If,
    e: Statement,
    d: int,
    width: int,
    col: int,
    pending: bool,
)
    requires
        !(i.then_statement is Block),
        i.else_statement == Some(e),
        !(e is If),
        !(e is Block),
        0 <= d,
        d + 5 <= i64::MAX as int,
    ensures
        ({
            let head = doc_run(if_head_docv(i.condition), width, d, col, pending, false);
            let then_branch = doc_run(
                stmt_docv(i.then_statement, d + 2),
                width,
                d + 2,
                0,
                true,
                false,
            );
            let else_branch = doc_run(stmt_docv(e, d + 2), width, d + 2, 0, true, false);
            doc_run(if_docv(i, d), width, d, col, pending, false).0 == head.0 + seq!['\n']
                + then_branch.0 + seq!['\n'] + spaces(d) + "else"@ + seq!['\n'] + else_branch.0
                + seq!['\n']
        }),
{
    reveal_with_fuel(doc_run, 4);
    assert(ind_add(d, 2) == d + 2);
    assert(effective_ind(d) == d);
    let head = doc_run(if_head_docv(i.condition), width, d, col, pending, false);
    let then_inner = concatv(
        DocV::HardLine,
        concatv(stmt_docv(i.then_statement, d + 2), DocV::HardLine),
    );
    let tb = doc_run(stmt_docv(i.then_statement, d + 2), width, d + 2, 0, true, false);
    let r_then = doc_run(nestv(2, then_inner), width, d, head.1, head.2, false);
    assert(r_then.0 =~= seq!['\n'] + tb.0 + seq!['\n']);
    assert(r_then.1 == 0 && r_then.2 == true);
    assert(("else"@).len() == 4) by {
        reveal_strlit("else");
    }
    let r_kw = doc_run(textv("else"@), width, d, 0, true, false);
    assert(r_kw.0 == spaces(d) + "else"@);
    assert(r_kw.2 == false);
    let eb = doc_run(stmt_docv(e, d + 2), width, d + 2, 0, true, false);
    let else_part = nestv(2, concatv(DocV::HardLine, stmt_docv(e, d + 2)));
    let r_ep = doc_run(else_part, width, d, r_kw.1, false, false);
    assert(r_ep.0 =~= seq!['\n'] + eb.0);
    let r_tail = doc_run(
        concatv(textv("else"@), concatv(else_part, DocV::HardLine)),
        width,
        d,
        0,
        true,
        false,
    );
    assert(r_tail.0 =~= spaces(d) + "else"@ + seq!['\n'] + eb.0 + seq!['\n']);
    assert(doc_run(if_docv(i, d), width, d, col, pending, false).0 =~= head.0 + (seq!['\n'] + tb.0
        + seq!['\n']) + r_tail.0);
    assert(doc_run(if_docv(i, d), width, d, col, pending, false).0 =~= head.0 + seq!['\n'] + tb.0
        + seq!['\n'] + spaces(d) + "else"@ + seq!['\n'] + eb.0 + seq!['\n']);
}

/// Law: switch fallthrough. A `case` whose statement list is empty
/// contributes exactly its own line and label; the following cases continue
/// immediately, with nothing standing between the empty case and the next —
/// case bodies are independently optional.
#[verifier::rlimit(100)]
pub proof fn lemma_switch_empty_case_fallthrough(
    cs: Seq<(Expression, Vec<Statement>)>,
    d: int,
    width: int,
    ind: int,
    col: int,
    pending: bool,
)
    requires
        cs.len() >= 1,
        cs[0].1@.len() == 0,
    ensures
        ({
            let label = concatv(
                DocV::HardLine,
                concatv(
                    textv("case"@),
                    concatv(textv(" "@), concatv(expr_docv(cs[0].0), textv(":"@))),
                ),
            );
            let first = doc_run(label, width, ind, col, pending, false);
            let rest = doc_run(cases_docv(cs.drop_first(), d), width, ind, first.1, first.2, false);
            doc_run(cases_docv(cs, d), width, ind, col, pending, false).0 == first.0 + rest.0
        }),
{
    reveal_with_fuel(doc_run, 10);
    let label = concatv(
        DocV::HardLine,
        concatv(
            textv("case"@),
            concatv(textv(" "@), concatv(expr_docv(cs[0].0), textv(":"@))),
        ),
    );
    let first = doc_run(label, width, ind, col, pending, false);
    assert(case_body_docv(cs[0].1@, dep2(d)) == DocV::Empty);
    let rest = doc_run(cases_docv(cs.drop_first(), d), width, ind, first.1, first.2, false);
    assert(doc_run(cases_docv(cs, d), width, ind, col, pending, false).0 =~= first.0 + rest.0);
}

} // verus!
