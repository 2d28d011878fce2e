//! Markdown rendering and document assembly: the Markdown text becomes an
//! HTML fragment, and the fragment is wrapped into a full HTML document shell
//! together with the stylesheet of the selected theme. The fragment and the
//! stylesheet are embedded verbatim; no escaping or sanitisation is applied.

use vstd::prelude::*;

verus! {

/// The HTML fragment that the Markdown renderer produces for a given text,
/// with the fixed option set (tables and strikethrough enabled). The result
/// depends on the text alone.
pub uninterp spec fn html_of(md: Seq<char>) -> Seq<char>;

/// Relies on pulldown_cmark::Parser::new_ext and
/// pulldown_cmark::html::push_html: parsing is deterministic, so the rendered
/// fragment is a function of the Markdown text and the fixed option set.
#[verifier::external_body]
fn markdown_to_html(md: &str) -> (r: String)
    ensures
        r@ == html_of(md@),
{
    let options =
        pulldown_cmark::Options::ENABLE_TABLES | pulldown_cmark::Options::ENABLE_STRIKETHROUGH;
    let parser = pulldown_cmark::Parser::new_ext(md, options);
    let mut out = String::new();
    pulldown_cmark::html::push_html(&mut out, parser);
    out
}

/// Renders a Markdown text to an HTML fragment.
pub fn render_markdown(md: &str) -> (r: String)
    ensures
        r@ == html_of(md@),
{
    markdown_to_html(md)
}

/// The document shell up to and excluding the stylesheet text.
pub open spec fn doc_head() -> Seq<char> {
    "<!DOCTYPE html>\n<html>\n<head>\n<meta charset=\"utf-8\">\n<title>Markdown to PDF</title>\n<style>\n"@
}

/// The document shell between the stylesheet text and the body fragment.
pub open spec fn doc_mid() -> Seq<char> {
    "\n</style>\n</head>\n<body>\n"@
}

/// The document shell after the body fragment.
pub open spec fn doc_tail() -> Seq<char> {
    "\n</body>\n</html>\n"@
}

/// The full HTML document for a stylesheet and a body fragment: the shell
/// with the stylesheet and the fragment embedded verbatim.
pub open spec fn assembled_doc(css: Seq<char>, body: Seq<char>) -> Seq<char> {
    doc_head() + css + doc_mid() + body + doc_tail()
}

/// Wraps a rendered HTML body fragment and a stylesheet into a full HTML
/// document.
pub fn assemble_document(css: &str, body: &str) -> (r: String)
    ensures
        r@ == assembled_doc(css@, body@),
{
    let mut r = String::from_str("<!DOCTYPE html>\n<html>\n<head>\n<meta charset=\"utf-8\">\n<title>Markdown to PDF</title>\n<style>\n");
    r.append(css);
    r.append("\n</style>\n</head>\n<body>\n");
    r.append(body);
    r.append("\n</body>\n</html>\n");
    proof {
        assert(r@ =~= assembled_doc(css@, body@));
    }
    r
}

/// The assembled document embeds each of its parts verbatim: the shell's
/// head, the stylesheet, the shell between stylesheet and fragment, the
/// fragment, and the shell's tail, in that order and nothing else.
pub proof fn lemma_document_embeds_parts_verbatim(css: Seq<char>, body: Seq<char>)
    ensures
        assembled_doc(css, body).len() == doc_head().len() + css.len() + doc_mid().len()
            + body.len() + doc_tail().len(),
        assembled_doc(css, body).subrange(0, doc_head().len() as int) == doc_head(),
        assembled_doc(css, body).subrange(
            doc_head().len() as int,
            (doc_head().len() + css.len()) as int,
        ) == css,
        assembled_doc(css, body).subrange(
            (doc_head().len() + css.len()) as int,
            (doc_head().len() + css.len() + doc_mid().len()) as int,
        ) == doc_mid(),
        assembled_doc(css, body).subrange(
            (doc_head().len() + css.len() + doc_mid().len()) as int,
            (doc_head().len() + css.len() + doc_mid().len() + body.len()) as int,
        ) == body,
        assembled_doc(css, body).subrange(
            (doc_head().len() + css.len() + doc_mid().len() + body.len()) as int,
            assembled_doc(css, body).len() as int,
        ) == doc_tail(),
{
    let d = assembled_doc(css, body);
    let a = doc_head().len() as int;
    let b = a + css.len();
    let c = b + doc_mid().len();
    let e = c + body.len();
    assert(d.subrange(0, a) =~= doc_head());
    assert(d.subrange(a, b) =~= css);
    assert(d.subrange(b, c) =~= doc_mid());
    assert(d.subrange(c, e) =~= body);
    assert(d.subrange(e, d.len() as int) =~= doc_tail());
}

/// Changing the stylesheet changes only the `<style>` block content of the
/// assembled document: the shell before the stylesheet and everything from
/// the end of the stylesheet on — in particular the body fragment, embedded
/// verbatim at its css-dependent offset — are the same for any two
/// stylesheets.
pub proof fn lemma_theme_changes_style_only(css1: Seq<char>, css2: Seq<char>, body: Seq<char>)
    ensures
        assembled_doc(css1, body).subrange(0, doc_head().len() as int) == assembled_doc(
            css2,
            body,
        ).subrange(0, doc_head().len() as int),
        assembled_doc(css1, body).subrange(
            (doc_head().len() + css1.len()) as int,
            assembled_doc(css1, body).len() as int,
        ) == assembled_doc(css2, body).subrange(
            (doc_head().len() + css2.len()) as int,
            assembled_doc(css2, body).len() as int,
        ),
        assembled_doc(css1, body).subrange(
            (doc_head().len() + css1.len() + doc_mid().len()) as int,
            (doc_head().len() + css1.len() + doc_mid().len() + body.len()) as int,
        ) == body,
{
    let d1 = assembled_doc(css1, body);
    let d2 = assembled_doc(css2, body);
    assert(d1.subrange(0, doc_head().len() as int) =~= doc_head());
    assert(d2.subrange(0, doc_head().len() as int) =~= doc_head());
    assert(d1.subrange((doc_head().len() + css1.len()) as int, d1.len() as int) =~= doc_mid() + body
        + doc_tail());
    assert(d2.subrange((doc_head().len() + css2.len()) as int, d2.len() as int) =~= doc_mid() + body
        + doc_tail());
    assert(d1.subrange(
        (doc_head().len() + css1.len() + doc_mid().len()) as int,
        (doc_head().len() + css1.len() + doc_mid().len() + body.len()) as int,
    ) =~= body);
}

} // verus!
