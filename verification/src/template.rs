//! The template fact extractor: directives and bindings on elements,
//! interpolations in text, and the identifiers and calls of each of them.

use crate::markup::{html_elements, html_text_chunks, scan_elements, scan_text_chunks};
use crate::model::{
    DirectiveModel, MustacheExpressionInfo, MustacheModel, TemplateFacts, TemplateParsingState, VueDirectiveInfo,
};
use crate::patterns::{all_captures, capture_group, group, pattern_captures};
use crate::sections::TransformError;
use crate::strs::{str_starts_with, str_trim};
use crate::syntax::{javascript_tree, parse_javascript};
use crate::text;
use crate::text::push_deep;
use crate::visit::{template_walk, walk_tree_recursive_template};
use vstd::prelude::*;

verus! {

/// The pattern of an interpolation: two braces, the shortest text, two
/// braces, line breaks allowed inside.
pub const MUSTACHE_PATTERN: &'static str = "(?s)\\{\\{(.*?)\\}\\}";

/// Whether an attribute name marks a directive or a binding.
pub open spec fn is_directive_name(name: Seq<char>) -> bool {
    text::starts_with(name, "v-"@) || text::starts_with(name, ":"@) || text::starts_with(name, "@"@)
}

/// The directives among the attributes of one element from index `i` on,
/// appended to `acc`.
pub open spec fn element_directives_from(
    tag: Seq<char>,
    attributes: Seq<(Seq<char>, Seq<char>)>,
    i: int,
    acc: Seq<DirectiveModel>,
) -> Seq<DirectiveModel>
    decreases attributes.len() - i,
{
    if i < 0 || i >= attributes.len() {
        acc
    } else if is_directive_name(attributes[i].0) {
        element_directives_from(
            tag,
            attributes,
            i + 1,
            acc.push(DirectiveModel { name: attributes[i].0, value: attributes[i].1, element_tag: tag }),
        )
    } else {
        element_directives_from(tag, attributes, i + 1, acc)
    }
}

/// The directives of the elements from index `i` on, appended to `acc`.
pub open spec fn directives_from(
    elements: Seq<(Seq<char>, Seq<(Seq<char>, Seq<char>)>)>,
    i: int,
    acc: Seq<DirectiveModel>,
) -> Seq<DirectiveModel>
    decreases elements.len() - i,
{
    if i < 0 || i >= elements.len() {
        acc
    } else {
        directives_from(elements, i + 1, element_directives_from(elements[i].0, elements[i].1, 0, acc))
    }
}

/// The interpolations that the matches from index `i` on stand for,
/// appended to `acc`: the inner text of each, trimmed.
pub open spec fn mustaches_of_matches(found: Seq<Seq<Option<Seq<char>>>>, i: int, acc: Seq<MustacheModel>) -> Seq<
    MustacheModel,
>
    decreases found.len() - i,
{
    if i < 0 || i >= found.len() {
        acc
    } else {
        mustaches_of_matches(found, i + 1, acc.push(MustacheModel { content: text::trim(group(found[i], 1)) }))
    }
}

/// The interpolations of the text chunks from index `i` on, appended to
/// `acc`.
pub open spec fn mustaches_from(chunks: Seq<Seq<char>>, i: int, acc: Seq<MustacheModel>) -> Seq<MustacheModel>
    decreases chunks.len() - i,
{
    if i < 0 || i >= chunks.len() {
        acc
    } else {
        mustaches_from(
            chunks,
            i + 1,
            mustaches_of_matches(all_captures(MUSTACHE_PATTERN@, chunks[i]), 0, acc),
        )
    }
}

/// The facts with what the expression `fragment` refers to; a fragment
/// that the grammar rejects adds nothing.
pub open spec fn fragment_walk(fragment: Seq<char>, st: TemplateFacts) -> TemplateFacts {
    match javascript_tree(fragment) {
        Some(tree) => template_walk(tree, st),
        None => st,
    }
}

/// The facts after the directives from index `i` on were recorded and
/// their values walked.
pub open spec fn with_directives_from(directives: Seq<DirectiveModel>, i: int, st: TemplateFacts) -> TemplateFacts
    decreases directives.len() - i,
{
    if i < 0 || i >= directives.len() {
        st
    } else {
        with_directives_from(
            directives,
            i + 1,
            fragment_walk(
                directives[i].value,
                TemplateFacts { vue_directives: st.vue_directives.push(directives[i]), ..st },
            ),
        )
    }
}

/// The facts after the interpolations from index `i` on were recorded and
/// walked.
pub open spec fn with_mustaches_from(mustaches: Seq<MustacheModel>, i: int, st: TemplateFacts) -> TemplateFacts
    decreases mustaches.len() - i,
{
    if i < 0 || i >= mustaches.len() {
        st
    } else {
        with_mustaches_from(
            mustaches,
            i + 1,
            fragment_walk(
                mustaches[i].content,
                TemplateFacts { mustache_expressions: st.mustache_expressions.push(mustaches[i]), ..st },
            ),
        )
    }
}

/// Whether the grammar accepts the value of every directive from index
/// `i` on.
pub open spec fn directives_parse_from(directives: Seq<DirectiveModel>, i: int) -> bool
    decreases directives.len() - i,
{
    if i < 0 || i >= directives.len() {
        true
    } else {
        javascript_tree(directives[i].value) is Some && directives_parse_from(directives, i + 1)
    }
}

/// Whether the grammar accepts every interpolation from index `i` on.
pub open spec fn mustaches_parse_from(mustaches: Seq<MustacheModel>, i: int) -> bool
    decreases mustaches.len() - i,
{
    if i < 0 || i >= mustaches.len() {
        true
    } else {
        javascript_tree(mustaches[i].content) is Some && mustaches_parse_from(mustaches, i + 1)
    }
}

/// The directives of a template, when the scanner reads it.
pub open spec fn template_directives(template: Seq<char>) -> Option<Seq<DirectiveModel>> {
    match html_elements(template) {
        Some(elements) => Some(directives_from(elements, 0, Seq::empty())),
        None => None,
    }
}

/// The interpolations of a template, when the scanner reads it.
pub open spec fn template_mustaches(template: Seq<char>) -> Option<Seq<MustacheModel>> {
    match html_text_chunks(template) {
        Some(chunks) => Some(mustaches_from(chunks, 0, Seq::empty())),
        None => None,
    }
}

/// The facts of a template: every directive and its expression first, then
/// every interpolation. Nothing is added when the scanner fails.
pub open spec fn template_facts(template: Seq<char>, st: TemplateFacts) -> TemplateFacts {
    match (template_directives(template), template_mustaches(template)) {
        (Some(directives), Some(mustaches)) => with_mustaches_from(
            mustaches,
            0,
            with_directives_from(directives, 0, st),
        ),
        _ => st,
    }
}

/// Whether a template can be read in full: the scanner reads it and the
/// grammar accepts each expression in it.
pub open spec fn template_parses(template: Seq<char>) -> bool {
    match (template_directives(template), template_mustaches(template)) {
        (Some(directives), Some(mustaches)) => directives_parse_from(directives, 0) && mustaches_parse_from(
            mustaches,
            0,
        ),
        _ => false,
    }
}

/// Tells whether an attribute name marks a directive or a binding.
pub fn is_directive(name: &str) -> (r: bool)
    ensures
        r == is_directive_name(name@),
{
    str_starts_with(name, "v-") || str_starts_with(name, ":") || str_starts_with(name, "@")
}

/// Picks the directives and bindings out of the scanned elements.
pub fn collect_directives(elements: &Vec<(String, Vec<(String, String)>)>) -> (r: Vec<VueDirectiveInfo>)
    ensures
        r.deep_view() == directives_from(elements.deep_view(), 0, Seq::empty()),
{
    let mut out: Vec<VueDirectiveInfo> = Vec::new();
    assert(out.deep_view() =~= Seq::empty());
    let ghost all = elements.deep_view();
    let mut i: usize = 0;
    while i < elements.len()
        invariant
            i <= elements.len(),
            all == elements.deep_view(),
            directives_from(all, 0, Seq::empty()) == directives_from(all, i as int, out.deep_view()),
        decreases elements.len() - i,
    {
        let element = &elements[i];
        let ghost tag = element.0@;
        let ghost attributes = element.1.deep_view();
        assert(all[i as int] == (tag, attributes));
        let ghost start = out.deep_view();
        let mut k: usize = 0;
        while k < element.1.len()
            invariant
                k <= element.1.len(),
                tag == element.0@,
                attributes == element.1.deep_view(),
                element_directives_from(tag, attributes, 0, start) == element_directives_from(
                    tag,
                    attributes,
                    k as int,
                    out.deep_view(),
                ),
            decreases element.1.len() - k,
        {
            let attribute = &element.1[k];
            assert(attributes[k as int] == (attribute.0@, attribute.1@));
            if is_directive(attribute.0.as_str()) {
                push_deep(
                    &mut out,
                    VueDirectiveInfo {
                        name: attribute.0.clone(),
                        value: attribute.1.clone(),
                        element_tag: element.0.clone(),
                    },
                );
            }
            k += 1;
        }
        i += 1;
    }
    out
}

/// Picks the interpolations out of the scanned text chunks.
pub fn collect_mustaches(chunks: &Vec<String>) -> (r: Vec<MustacheExpressionInfo>)
    ensures
        r.deep_view() == mustaches_from(chunks.deep_view(), 0, Seq::empty()),
{
    let mut out: Vec<MustacheExpressionInfo> = Vec::new();
    assert(out.deep_view() =~= Seq::empty());
    let ghost all = chunks.deep_view();
    let mut i: usize = 0;
    while i < chunks.len()
        invariant
            i <= chunks.len(),
            all == chunks.deep_view(),
            mustaches_from(all, 0, Seq::empty()) == mustaches_from(all, i as int, out.deep_view()),
        decreases chunks.len() - i,
    {
        assert(all[i as int] == chunks@[i as int]@);
        let found = pattern_captures(MUSTACHE_PATTERN, chunks[i].as_str());
        let ghost matches_found = found.deep_view();
        let ghost start = out.deep_view();
        let mut k: usize = 0;
        while k < found.len()
            invariant
                k <= found.len(),
                matches_found == found.deep_view(),
                mustaches_of_matches(matches_found, 0, start) == mustaches_of_matches(
                    matches_found,
                    k as int,
                    out.deep_view(),
                ),
            decreases found.len() - k,
        {
            assert(matches_found[k as int] == found@[k as int].deep_view());
            let inner = capture_group(&found[k], 1);
            push_deep(&mut out, MustacheExpressionInfo { content: str_trim(inner.as_str()) });
            k += 1;
        }
        i += 1;
    }
    out
}

/// Walks one expression of the template; tells whether the grammar
/// accepted it.
fn walk_fragment(fragment: &str, state: &mut TemplateParsingState) -> (parsed: bool)
    ensures
        final(state).deep_view() == fragment_walk(fragment@, old(state).deep_view()),
        parsed == (javascript_tree(fragment@) is Some),
{
    match parse_javascript(fragment) {
        Some(root) => {
            walk_tree_recursive_template(&root, state);
            true
        },
        None => false,
    }
}

/// Gathers the facts of a template section into `state`.
///
/// Succeeds exactly when the scanner reads the template and the grammar
/// accepts each directive value and each interpolation. When the scanner
/// fails nothing is gathered; an expression that the grammar rejects still
/// leaves its directive or interpolation on record.
pub fn parse_template_section(template_content: &str, state: &mut TemplateParsingState) -> (r: Result<
    (),
    TransformError,
>)
    ensures
        final(state).deep_view() == template_facts(template_content@, old(state).deep_view()),
        r is Ok <==> template_parses(template_content@),
        r is Err ==> r == Err::<(), TransformError>(TransformError::GrammarParseFailure),
{
    let elements = match scan_elements(template_content) {
        Some(e) => e,
        None => {
            return Err(TransformError::GrammarParseFailure);
        },
    };
    let chunks = match scan_text_chunks(template_content) {
        Some(c) => c,
        None => {
            return Err(TransformError::GrammarParseFailure);
        },
    };
    let directives = collect_directives(&elements);
    let mustaches = collect_mustaches(&chunks);
    let ghost d = directives.deep_view();
    let ghost m = mustaches.deep_view();
    let mut ok = true;
    let mut i: usize = 0;
    while i < directives.len()
        invariant
            i <= directives.len(),
            d == directives.deep_view(),
            with_directives_from(d, 0, old(state).deep_view()) == with_directives_from(
                d,
                i as int,
                state.deep_view(),
            ),
            directives_parse_from(d, 0) == (ok && directives_parse_from(d, i as int)),
        decreases directives.len() - i,
    {
        let directive = &directives[i];
        assert(d[i as int] == directive.deep_view());
        push_deep(
            &mut state.vue_directives,
            VueDirectiveInfo {
                name: directive.name.clone(),
                value: directive.value.clone(),
                element_tag: directive.element_tag.clone(),
            },
        );
        let parsed = walk_fragment(directive.value.as_str(), state);
        ok = ok && parsed;
        i += 1;
    }
    let ghost after_directives = state.deep_view();
    let ghost directives_ok = ok;
    let mut k: usize = 0;
    let mut all_ok = true;
    while k < mustaches.len()
        invariant
            k <= mustaches.len(),
            m == mustaches.deep_view(),
            with_mustaches_from(m, 0, after_directives) == with_mustaches_from(m, k as int, state.deep_view()),
            mustaches_parse_from(m, 0) == (all_ok && mustaches_parse_from(m, k as int)),
        decreases mustaches.len() - k,
    {
        let mustache = &mustaches[k];
        assert(m[k as int] == mustache.deep_view());
        push_deep(&mut state.mustache_expressions, MustacheExpressionInfo { content: mustache.content.clone() });
        let parsed = walk_fragment(mustache.content.as_str(), state);
        all_ok = all_ok && parsed;
        k += 1;
    }
    if ok && all_ok {
        Ok(())
    } else {
        Err(TransformError::GrammarParseFailure)
    }
}

} // verus!
