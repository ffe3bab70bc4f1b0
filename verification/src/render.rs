//! Markdown rendering: a `.md` file's bytes become an HTML page, with the
//! host's configured stylesheet linked before the rendered body and its
//! configured script appended after it.

use vstd::prelude::*;
use vstd::string::StringExecFns;
use crate::config::MarkdownOptions;

verus! {

/// The HTML that the Markdown renderer produces for a document. The rendering
/// rules take pages to state; what matters here is that the result depends on
/// the document alone.
pub uninterp spec fn html_of(markdown: Seq<char>) -> Seq<char>;

/// The text that lossy UTF-8 decoding yields for a byte sequence: valid
/// sequences decode as themselves, invalid ones become replacement
/// characters. Depends on the bytes alone.
pub uninterp spec fn utf8_lossy_of(bytes: Seq<u8>) -> Seq<char>;

/// Relies on `pulldown_cmark::Parser::new` and `pulldown_cmark::html::push_html`:
/// with default options, the rendered HTML is a function of the input text alone.
#[verifier::external_body]
fn render_markdown(text: &str) -> (r: String)
    ensures
        r@ == html_of(text@),
{
    let parser = pulldown_cmark::Parser::new(text);
    let mut out = String::new();
    pulldown_cmark::html::push_html(&mut out, parser);
    out
}

/// Relies on `String::from_utf8_lossy`: the decoded text is a function of the
/// bytes alone (invalid UTF-8 sequences are replaced with U+FFFD).
#[verifier::external_body]
fn decode_utf8_lossy(bytes: &Vec<u8>) -> (r: String)
    ensures
        r@ == utf8_lossy_of(bytes@),
{
    String::from_utf8_lossy(bytes).into_owned()
}

/// The `<link>` tag injected before a rendered page for a stylesheet URL.
pub open spec fn css_link_tag(css: Seq<char>) -> Seq<char> {
    "<link rel=\"stylesheet\" type=\"text/css\" href=\""@ + css + "\">"@
}

/// The `<script>` tag injected after a rendered page for a script URL.
pub open spec fn js_script_tag(js: Seq<char>) -> Seq<char> {
    "<script src=\""@ + js + "\"></script>"@
}

/// The full HTML page served for a Markdown document: optional stylesheet
/// link, rendered body, optional script tag.
pub open spec fn rendered_page(md: MarkdownOptions, content: Seq<u8>) -> Seq<char> {
    (match md.css {
        Some(c) => css_link_tag(c@),
        None => Seq::<char>::empty(),
    }) + html_of(utf8_lossy_of(content)) + (match md.js {
        Some(j) => js_script_tag(j@),
        None => Seq::<char>::empty(),
    })
}

/// Renders a Markdown document's bytes into the HTML page served for it.
pub fn render_page(md: &MarkdownOptions, content: &Vec<u8>) -> (r: String)
    ensures
        r@ == rendered_page(*md, content@),
{
    let mut page = String::new();
    if let Some(css) = &md.css {
        page.append("<link rel=\"stylesheet\" type=\"text/css\" href=\"");
        page.append(css.as_str());
        page.append("\">");
    }
    let text = decode_utf8_lossy(content);
    let html = render_markdown(text.as_str());
    page.append(html.as_str());
    if let Some(js) = &md.js {
        page.append("<script src=\"");
        page.append(js.as_str());
        page.append("\"></script>");
    }
    proof {
        assert(page@ =~= rendered_page(*md, content@));
    }
    page
}

/// The number of characters standing before the renderer's HTML in the page
/// served for a Markdown document.
pub open spec fn page_lead_len(md: MarkdownOptions) -> int {
    match md.css {
        Some(c) => css_link_tag(c@).len() as int,
        None => 0,
    }
}

/// The page served for a Markdown document lays out as promised: when a
/// stylesheet is configured the page begins with its `<link>` tag, when a
/// script is configured the page ends with its `<script>` tag, and the
/// renderer's HTML for the document stands in between, in full, in every case.
pub open spec fn page_layout(md: MarkdownOptions, content: Seq<u8>) -> bool {
    let page = rendered_page(md, content);
    let body = html_of(utf8_lossy_of(content));
    &&& (match md.css {
        Some(c) => page.take(css_link_tag(c@).len() as int) == css_link_tag(c@),
        None => true,
    })
    &&& (match md.js {
        Some(j) => page.skip(page.len() - js_script_tag(j@).len()) == js_script_tag(j@),
        None => true,
    })
    &&& page.subrange(page_lead_len(md), page_lead_len(md) + body.len()) == body
}

/// The page layout law: every rendered page satisfies [`page_layout`].
pub proof fn lemma_rendered_page_layout(md: MarkdownOptions, content: Seq<u8>)
    ensures
        page_layout(md, content),
{
    let page = rendered_page(md, content);
    let body = html_of(utf8_lossy_of(content));
    match md.css {
        Some(c) => {
            assert(page.take(css_link_tag(c@).len() as int) =~= css_link_tag(c@));
        },
        None => {},
    }
    match md.js {
        Some(j) => {
            assert(page.skip(page.len() - js_script_tag(j@).len()) =~= js_script_tag(j@));
        },
        None => {},
    }
    assert(page.subrange(page_lead_len(md), page_lead_len(md) + body.len()) =~= body);
}

} // verus!
