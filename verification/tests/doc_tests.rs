use c_builder::render;
use c_builder::Document;

fn text(s: &str) -> Document {
    Document::text(s)
}

#[test]
fn empty_document_renders_to_empty_string() {
    let d = Document::nil();
    assert_eq!(render(&d, 80), "");
}

#[test]
fn text_is_emitted_verbatim() {
    let d = text("hello world");
    assert_eq!(render(&d, 80), "hello world");
}

#[test]
fn hardline_breaks_and_nest_indents_following_text() {
    let d = text("a").append(Document::hardline().append(text("b"))).nest(2);
    assert_eq!(render(&d, 80), "a\n  b");
}

#[test]
fn negative_nest_outdents() {
    let inner = Document::hardline().append(text("label:")).nest(-4);
    let d = text("head").append(inner).nest(4);
    assert_eq!(render(&d, 80), "head\nlabel:");
}

#[test]
fn no_trailing_spaces_before_dedented_text() {
    // The break sits inside the nest, the following text outside: the
    // following line is indented for the text's own level, not the break's.
    let d = text("a").append(Document::hardline()).nest(2).append(text("b"));
    assert_eq!(render(&d, 80), "a\nb");
}

#[test]
fn group_that_fits_flattens_its_soft_breaks() {
    let d = text("a").append(Document::line().append(text("b"))).group();
    assert_eq!(render(&d, 80), "a b");
}

#[test]
fn group_that_does_not_fit_breaks() {
    let d = text("aaaa").append(Document::line().append(text("bbbb"))).group().nest(2);
    assert_eq!(render(&d, 5), "aaaa\n  bbbb");
}

#[test]
fn group_with_hard_break_never_flattens() {
    let d = text("a").append(Document::hardline().append(text("b"))).group();
    assert_eq!(render(&d, 80), "a\nb");
}

#[test]
fn soft_break_outside_any_group_breaks() {
    let d = text("a").append(Document::line().append(text("b")));
    assert_eq!(render(&d, 80), "a\nb");
}

#[test]
fn render_is_deterministic_on_repeated_calls() {
    let make = || {
        text("x")
            .append(Document::hardline().append(text("y")))
            .nest(2)
            .append(Document::line().append(text("z")).group())
    };
    let first = render(&make(), 30);
    let second = render(&make(), 30);
    assert_eq!(first, second);
}

#[test]
fn render_is_total_on_deep_nesting() {
    let mut d = text("x");
    let mut i = 0;
    while i < 300 {
        d = d.nest(1).group();
        i += 1;
    }
    assert_eq!(render(&d, 80), "x");
}

#[test]
fn parens_and_brackets_wrap() {
    assert_eq!(render(&text("a").parens(), 80), "(a)");
    assert_eq!(render(&text("7").brackets(), 80), "[7]");
}

#[test]
fn width_is_advisory_for_overlong_text() {
    let d = text("this text is longer than the width");
    assert_eq!(render(&d, 4), "this text is longer than the width");
}
