//! What the streaming HTML scanner of `lol_html` sees in a template.

use vstd::prelude::*;

verus! {

/// The elements of `template` in document order, each with its tag name
/// and its attributes as (name, value) pairs; `None` when the scanner fails.
pub uninterp spec fn html_elements(template: Seq<char>) -> Option<
    Seq<(Seq<char>, Seq<(Seq<char>, Seq<char>)>)>,
>;

/// The chunks of text that the scanner reports for `template`, in document
/// order; `None` when the scanner fails.
pub uninterp spec fn html_text_chunks(template: Seq<char>) -> Option<Seq<Seq<char>>>;

/// Runs `lol_html::rewrite_str` over the template with an element handler
/// for the selector `*` that records, for every element, `Element::tag_name`
/// and the name and value of each of `Element::attributes`.
#[verifier::external_body]
pub(crate) fn scan_elements(template: &str) -> (r: Option<Vec<(String, Vec<(String, String)>)>>)
    ensures
        r.deep_view() == html_elements(template@),
{
    let mut found = Vec::new();
    let handler = |el: &mut lol_html::html_content::Element<'_, '_>| -> lol_html::HandlerResult {
        found.push((el.tag_name(), el.attributes().iter().map(|a| (a.name(), a.value())).collect()));
        Ok(())
    };
    let handlers = lol_html::ElementContentHandlers::default().element(handler);
    let selector = std::borrow::Cow::Owned("*".parse::<lol_html::Selector>().ok()?);
    let settings = lol_html::RewriteStrSettings::new().append_element_content_handler((selector, handlers));
    lol_html::rewrite_str(template, settings).ok()?;
    Some(found)
}

/// Runs `lol_html::rewrite_str` over the template with a document text
/// handler that records `TextChunk::as_str` of every chunk.
#[verifier::external_body]
pub(crate) fn scan_text_chunks(template: &str) -> (r: Option<Vec<String>>)
    ensures
        r.deep_view() == html_text_chunks(template@),
{
    let mut found = Vec::new();
    let handler = |t: &mut lol_html::html_content::TextChunk<'_>| -> lol_html::HandlerResult {
        found.push(t.as_str().to_string());
        Ok(())
    };
    let handlers = lol_html::DocumentContentHandlers::default().text(handler);
    let settings = lol_html::RewriteStrSettings::new().append_document_content_handler(handlers);
    lol_html::rewrite_str(template, settings).ok()?;
    Some(found)
}

} // verus!
