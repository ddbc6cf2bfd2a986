//! The document layout engine: an indentation- and line-break-aware text
//! builder in the tradition of Wadler-style pretty printers, together with a
//! renderer that linearizes a document into a string for a given maximum line
//! width.
//!
//! Rendering is a pure function of the document and the width: it is total
//! (every well-formed document renders to some string) and deterministic.
//! The width is advisory layout guidance, not a hard constraint; an overlong
//! text token is still emitted in full.
use vstd::prelude::*;

verus! {

/// The mathematical model of a document: the same tree as [`Document`], with
/// text as a sequence of characters and nesting deltas as unbounded integers.
#[verifier::ext_equal]
pub enum DocV {
    Empty,
    Text(Seq<char>),
    Line,
    HardLine,
    Concat(Box<DocV>, Box<DocV>),
    Nest(int, Box<DocV>),
    Group(Box<DocV>),
}

/// An immutable layout tree, built bottom-up and consumed by [`render`].
///
/// - `Text` contributes its characters verbatim.
/// - `HardLine` always emits a newline followed by the current indentation.
/// - `Line` is a soft break: a newline like `HardLine`, except inside a
///   [`Document::Group`] that fits in the remaining width, where it becomes
///   a single space.
/// - `Concat` renders both operands in sequence, left first.
/// - `Nest` increases (or, with a negative delta, decreases) the indentation
///   used by nested line breaks, restoring the prior level on exit.
/// - `Group` marks a subtree as a unit for the fits-check.
pub enum Document {
    Empty,
    Text(String),
    Line,
    HardLine,
    Concat(Box<Document>, Box<Document>),
    Nest(i64, Box<Document>),
    Group(Box<Document>),
}

impl View for Document {
    type V = DocV;

    open spec fn view(&self) -> DocV
        decreases self,
    {
        match self {
            Document::Empty => DocV::Empty,
            Document::Text(s) => DocV::Text(s@),
            Document::Line => DocV::Line,
            Document::HardLine => DocV::HardLine,
            Document::Concat(a, b) => DocV::Concat(Box::new((**a)@), Box::new((**b)@)),
            Document::Nest(k, d) => DocV::Nest(*k as int, Box::new((**d)@)),
            Document::Group(d) => DocV::Group(Box::new((**d)@)),
        }
    }
}

/// Concatenation at the model level.
pub open spec fn concatv(a: DocV, b: DocV) -> DocV {
    DocV::Concat(Box::new(a), Box::new(b))
}

/// Nesting at the model level.
pub open spec fn nestv(delta: int, d: DocV) -> DocV {
    DocV::Nest(delta, Box::new(d))
}

/// Grouping at the model level.
pub open spec fn groupv(d: DocV) -> DocV {
    DocV::Group(Box::new(d))
}

/// Text at the model level.
pub open spec fn textv(s: Seq<char>) -> DocV {
    DocV::Text(s)
}

impl Document {
    /// The empty document.
    pub fn nil() -> (d: Document)
        ensures
            d@ == DocV::Empty,
    {
        Document::Empty
    }

    /// A text fragment taken from a string slice.
    pub fn text(s: &str) -> (d: Document)
        ensures
            d@ == textv(s@),
    {
        Document::Text(String::from_str(s))
    }

    /// A text fragment taking ownership of a string.
    pub fn text_owned(s: String) -> (d: Document)
        ensures
            d@ == textv(s@),
    {
        Document::Text(s)
    }

    /// A single space.
    pub fn space() -> (d: Document)
        ensures
            d@ == textv(" "@),
    {
        Document::Text(String::from_str(" "))
    }

    /// A soft line break.
    pub fn line() -> (d: Document)
        ensures
            d@ == DocV::Line,
    {
        Document::Line
    }

    /// A hard line break: always a newline plus the current indentation.
    pub fn hardline() -> (d: Document)
        ensures
            d@ == DocV::HardLine,
    {
        Document::HardLine
    }

    /// `self` followed by `other`.
    pub fn append(self, other: Document) -> (d: Document)
        ensures
            d@ == concatv(self@, other@),
    {
        Document::Concat(Box::new(self), Box::new(other))
    }

    /// `self` with the indentation of its line breaks changed by `delta`.
    pub fn nest(self, delta: i64) -> (d: Document)
        ensures
            d@ == nestv(delta as int, self@),
    {
        Document::Nest(delta, Box::new(self))
    }

    /// `self` as a unit for the fits-check.
    pub fn group(self) -> (d: Document)
        ensures
            d@ == groupv(self@),
    {
        Document::Group(Box::new(self))
    }

    /// `self` surrounded by parentheses.
    pub fn parens(self) -> (d: Document)
        ensures
            d@ == concatv(textv("("@), concatv(self@, textv(")"@))),
    {
        Document::text("(").append(self.append(Document::text(")")))
    }

    /// `self` surrounded by square brackets.
    pub fn brackets(self) -> (d: Document)
        ensures
            d@ == concatv(textv("["@), concatv(self@, textv("]"@))),
    {
        Document::text("[").append(self.append(Document::text("]")))
    }
}

/// `n` spaces (none when `n` is negative).
pub open spec fn spaces(n: int) -> Seq<char> {
    Seq::new(if n < 0 { 0 } else { n } as nat, |i: int| ' ')
}

/// Indentation arithmetic: addition saturating at the `i64` range, so that
/// rendering is total for every document.
pub open spec fn ind_add(a: int, b: int) -> int {
    if a + b > i64::MAX as int {
        i64::MAX as int
    } else if a + b < i64::MIN as int {
        i64::MIN as int
    } else {
        a + b
    }
}

/// Whether a document may be flattened: it holds no hard line break.
pub open spec fn doc_fits(d: DocV) -> bool
    decreases d,
{
    match d {
        DocV::Empty => true,
        DocV::Text(_) => true,
        DocV::Line => true,
        DocV::HardLine => false,
        DocV::Concat(a, b) => doc_fits(*a) && doc_fits(*b),
        DocV::Nest(_, d2) => doc_fits(*d2),
        DocV::Group(d2) => doc_fits(*d2),
    }
}

/// The width of a document when laid out on one line (soft breaks as spaces).
pub open spec fn flat_len(d: DocV) -> nat
    decreases d,
{
    match d {
        DocV::Empty => 0,
        DocV::Text(s) => s.len(),
        DocV::Line => 1,
        DocV::HardLine => 0,
        DocV::Concat(a, b) => flat_len(*a) + flat_len(*b),
        DocV::Nest(_, d2) => flat_len(*d2),
        DocV::Group(d2) => flat_len(*d2),
    }
}

/// The indentation actually written at the start of a line: never negative.
pub open spec fn effective_ind(ind: int) -> int {
    if ind < 0 {
        0
    } else {
        ind
    }
}

/// One step of rendering: the text that `d` contributes, the column after
/// it, and whether a line break is still waiting for its indentation; given
/// the maximum `width`, the current indentation `ind`, the current column
/// `col`, whether a break is `pending`, and whether the surroundings were
/// flattened.
///
/// Layout is decided depth-first, left to right, with the column as running
/// state. A line break emits only the newline; the indentation is written in
/// front of the next visible text, at the nesting level in effect there, so
/// that no line carries trailing spaces and a dedented continuation (an
/// `else`, a closing brace, an outdented label) lands at its own level. A
/// group is flattened exactly when it holds no hard line break and its
/// one-line width fits in what remains of the line.
pub open spec fn doc_run(d: DocV, width: int, ind: int, col: int, pending: bool, flat: bool) -> (
    Seq<char>,
    int,
    bool,
)
    decreases d,
{
    match d {
        DocV::Empty => (Seq::<char>::empty(), col, pending),
        DocV::Text(s) => if s.len() == 0 {
            (Seq::<char>::empty(), col, pending)
        } else if pending {
            (spaces(ind) + s, ind_add(effective_ind(ind), s.len() as int), false)
        } else {
            (s, ind_add(col, s.len() as int), false)
        },
        DocV::Line => if flat {
            if pending {
                (spaces(ind) + seq![' '], ind_add(effective_ind(ind), 1), false)
            } else {
                (seq![' '], ind_add(col, 1), false)
            }
        } else {
            (seq!['\n'], 0, true)
        },
        DocV::HardLine => (seq!['\n'], 0, true),
        DocV::Concat(a, b) => {
            let (s1, c1, p1) = doc_run(*a, width, ind, col, pending, flat);
            let (s2, c2, p2) = doc_run(*b, width, ind, c1, p1, flat);
            (s1 + s2, c2, p2)
        },
        DocV::Nest(k, d2) => doc_run(*d2, width, ind_add(ind, k), col, pending, flat),
        DocV::Group(d2) => {
            let here = if pending {
                effective_ind(ind)
            } else {
                col
            };
            if flat || (doc_fits(*d2) && here + flat_len(*d2) <= width) {
                doc_run(*d2, width, ind, col, pending, true)
            } else {
                doc_run(*d2, width, ind, col, pending, false)
            }
        },
    }
}

/// The full rendering of a document at the given width.
pub open spec fn rendered(d: DocV, width: int) -> Seq<char> {
    doc_run(d, width, 0, 0, false, false).0
}

/// Saturating addition on `i64`, mirroring [`ind_add`].
fn i64_sat_add(a: i64, b: i64) -> (r: i64)
    ensures
        r == ind_add(a as int, b as int),
{
    if b >= 0 {
        if a > i64::MAX - b {
            i64::MAX
        } else {
            a + b
        }
    } else {
        if a < i64::MIN - b {
            i64::MIN
        } else {
            a + b
        }
    }
}

/// Saturating advance of a column by a text length, mirroring [`ind_add`].
fn col_add(col: i64, len: usize) -> (r: i64)
    requires
        col >= 0,
    ensures
        r == ind_add(col as int, len as int),
{
    let rem: u64 = (i64::MAX - col) as u64;
    if (len as u64) > rem {
        i64::MAX
    } else {
        col + (len as i64)
    }
}

/// Whether `d` can be flattened into `budget` columns; on success, returns
/// the budget that remains.
fn fits_rem(d: &Document, budget: u64) -> (r: Option<u64>)
    ensures
        match r {
            Some(rem) => doc_fits(d@) && flat_len(d@) <= budget && rem == budget - flat_len(d@),
            None => !(doc_fits(d@) && flat_len(d@) <= budget),
        },
    decreases d,
{
    match d {
        Document::Empty => Some(budget),
        Document::Text(s) => {
            let l = s.as_str().unicode_len();
            if l as u64 <= budget {
                Some(budget - l as u64)
            } else {
                None
            }
        },
        Document::Line => if budget >= 1 {
            Some(budget - 1)
        } else {
            None
        },
        Document::HardLine => None,
        Document::Concat(a, b) => match fits_rem(a, budget) {
            Some(r1) => fits_rem(b, r1),
            None => None,
        },
        Document::Nest(_, d2) => fits_rem(d2, budget),
        Document::Group(d2) => fits_rem(d2, budget),
    }
}

/// Appends `ind` spaces (none when `ind` is negative).
fn push_spaces(out: &mut String, ind: i64)
    ensures
        final(out)@ == old(out)@ + spaces(ind as int),
{
    if ind > 0 {
        let mut i: i64 = 0;
        while i < ind
            invariant
                0 <= i <= ind,
                out@ == old(out)@ + spaces(i as int),
            decreases ind - i,
        {
            out.append(" ");
            proof {
                reveal_strlit(" ");
                assert(spaces(i + 1) =~= spaces(i as int) + seq![' ']);
                assert(out@ =~= old(out)@ + spaces(i + 1));
            }
            i = i + 1;
        }
        proof {
            assert(out@ =~= old(out)@ + spaces(ind as int));
        }
    } else {
        proof {
            assert(spaces(ind as int) =~= Seq::<char>::empty());
            assert(out@ =~= old(out)@ + spaces(ind as int));
        }
    }
}

/// Renders `d` into `out`, returning the column after it and whether a line
/// break is still waiting for its indentation.
fn render_go(d: &Document, width: u64, ind: i64, col: i64, pending: bool, flat: bool, out:
    &mut String) -> (r: (i64, bool))
    requires
        col >= 0,
    ensures
        ({
            let (s, c, p) = doc_run(d@, width as int, ind as int, col as int, pending, flat);
            final(out)@ == old(out)@ + s && r.0 == c && r.1 == p && r.0 >= 0
        }),
    decreases d,
{
    match d {
        Document::Empty => {
            proof {
                assert(out@ =~= out@ + Seq::<char>::empty());
            }
            (col, pending)
        },
        Document::Text(s) => {
            let l = s.as_str().unicode_len();
            if l == 0 {
                proof {
                    assert(out@ =~= out@ + Seq::<char>::empty());
                }
                (col, pending)
            } else if pending {
                push_spaces(out, ind);
                out.append(s.as_str());
                let base: i64 = if ind > 0 {
                    ind
                } else {
                    0
                };
                (col_add(base, l), false)
            } else {
                out.append(s.as_str());
                (col_add(col, l), false)
            }
        },
        Document::Line => {
            if flat {
                if pending {
                    push_spaces(out, ind);
                    proof {
                        reveal_strlit(" ");
                        assert(" "@ =~= seq![' ']);
                    }
                    out.append(" ");
                    let base: i64 = if ind > 0 {
                        ind
                    } else {
                        0
                    };
                    (col_add(base, 1), false)
                } else {
                    proof {
                        reveal_strlit(" ");
                        assert(" "@ =~= seq![' ']);
                    }
                    out.append(" ");
                    (col_add(col, 1), false)
                }
            } else {
                proof {
                    reveal_strlit("\n");
                    assert("\n"@ =~= seq!['\n']);
                }
                out.append("\n");
                (0, true)
            }
        },
        Document::HardLine => {
            proof {
                reveal_strlit("\n");
                assert("\n"@ =~= seq!['\n']);
            }
            out.append("\n");
            (0, true)
        },
        Document::Concat(a, b) => {
            let r1 = render_go(a, width, ind, col, pending, flat, out);
            let r2 = render_go(b, width, ind, r1.0, r1.1, flat, out);
            proof {
                let (s1, c1, p1) = doc_run(a@, width as int, ind as int, col as int, pending, flat);
                let (s2, c2, p2) = doc_run(b@, width as int, ind as int, c1, p1, flat);
                assert(out@ =~= old(out)@ + (s1 + s2));
            }
            r2
        },
        Document::Nest(k, d2) => render_go(d2, width, i64_sat_add(ind, *k), col, pending, flat, out),
        Document::Group(d2) => {
            let here: i64 = if pending {
                if ind > 0 {
                    ind
                } else {
                    0
                }
            } else {
                col
            };
            let f2 = flat || (here as u64 <= width && fits_rem(d2, width - here as u64).is_some());
            render_go(d2, width, ind, col, pending, f2, out)
        },
    }
}

/// Renders a document into a string at the given maximum line width.
///
/// Rendering is total and deterministic: it accepts every document, and the
/// result is a function of the document and the width alone.
pub fn render(d: &Document, width: usize) -> (r: String)
    ensures
        r@ == rendered(d@, width as int),
{
    let mut out = String::new();
    let _ = render_go(d, width as u64, 0, 0, false, false, &mut out);
    out
}

/// Law: rendering is deterministic. Any two strings that both satisfy the
/// contract of [`render`] for the same document and width are equal.
pub proof fn lemma_render_deterministic(d: DocV, width: int, r1: Seq<char>, r2: Seq<char>)
    requires
        r1 == rendered(d, width),
        r2 == rendered(d, width),
    ensures
        r1 == r2,
{
}

} // verus!
