//! Turning a Markdown document into a complete HTML page.

use vstd::prelude::*;
use crate::uptime::notifier::{lemma_occurs_between, occurs_in};

verus! {

/// The option bit with which `pulldown-cmark` renders `~~strikethrough~~`
/// (its `Options::ENABLE_STRIKETHROUGH`); the only extension enabled.
pub const STRIKETHROUGH_OPTION: u32 = 8;

/// The HTML `pulldown-cmark` renders for `markdown` with the extensions
/// whose bits are set in `options`.
pub uninterp spec fn spec_markdown_html(markdown: Seq<char>, options: u32) -> Seq<char>;

/// Renders `markdown` with `pulldown_cmark::html::push_html` into an empty
/// string, parsing with `Parser::new_ext` and the given option bits.
/// Trusted: the result is what `spec_markdown_html` names.
#[verifier::external_body]
fn markdown_to_html(markdown: &str, options: u32) -> (html: String)
    ensures
        html@ == spec_markdown_html(markdown@, options),
{
    let mut html = String::new();
    let parser = pulldown_cmark::Parser::new_ext(
        markdown,
        pulldown_cmark::Options::from_bits_truncate(options),
    );
    pulldown_cmark::html::push_html(&mut html, parser);
    html
}

/// The page around `content`: an HTML5 document with a UTF-8 charset and
/// a fixed title, whose body is `content` as it stands.
pub open spec fn page_html(content: Seq<char>) -> Seq<char> {
    "<!DOCTYPE html><html><head><meta charset=\"utf-8\"><title>html file created using rust cli</title></head><body>"@
        + content + "</body></html>"@
}

/// Lays `content` (already HTML) out as a complete page.
pub fn render_html_content(content: &str) -> (page: String)
    ensures
        page@ == page_html(content@),
{
    let mut page = String::from_str(
        "<!DOCTYPE html><html><head><meta charset=\"utf-8\"><title>html file created using rust cli</title></head><body>",
    );
    page.append(content);
    page.append("</body></html>");
    page
}

/// The complete page for a Markdown document, strikethrough enabled.
pub fn markdown_page(markdown: &str) -> (page: String)
    ensures
        page@ == page_html(spec_markdown_html(markdown@, STRIKETHROUGH_OPTION)),
{
    let html = markdown_to_html(markdown, STRIKETHROUGH_OPTION);
    render_html_content(html.as_str())
}

/// A page is an HTML5 document, `<!DOCTYPE html>` first and
/// `</body></html>` last, holding the content unchanged right after the
/// opening `<body>`.
pub proof fn law_page_wraps_content(content: Seq<char>)
    ensures
        page_html(content).take(15) == "<!DOCTYPE html>"@,
        page_html(content).skip(page_html(content).len() - 14) == "</body></html>"@,
        occurs_in(content, page_html(content)),
        occurs_in("<body>"@ + content + "</body>"@, page_html(content)),
{
    let head = "<!DOCTYPE html><html><head><meta charset=\"utf-8\"><title>html file created using rust cli</title></head><body>"@;
    let tail = "</body></html>"@;
    reveal_strlit("<!DOCTYPE html><html><head><meta charset=\"utf-8\"><title>html file created using rust cli</title></head><body>");
    reveal_strlit("</body></html>");
    reveal_strlit("<!DOCTYPE html>");
    reveal_strlit("<body>");
    reveal_strlit("</body>");
    assert(page_html(content).take(15) =~= "<!DOCTYPE html>"@);
    assert(page_html(content).skip(page_html(content).len() - 14) =~= tail);
    lemma_occurs_between(head, content, tail);
    reveal_strlit("</html>");
    let front = head.take(head.len() - 6);
    assert(head =~= front + "<body>"@);
    assert(tail =~= "</body>"@ + "</html>"@);
    assert(page_html(content) =~= front + ("<body>"@ + content + "</body>"@) + "</html>"@);
    lemma_occurs_between(front, "<body>"@ + content + "</body>"@, "</html>"@);
}

} // verus!
