//! The unit for the page head that a component declares.

use super::composition::{indented_from, push_indented};
use super::{body_rewritten, transform_body_text, Transformer};
use crate::model::{
    ContextModel, ResultModel, TransformationContext, TransformationResult, TransformerConfig,
    TransformerConfigModel,
};
use crate::result::empty_result;
use crate::strs::{
    concat2, owned, str_contains, str_ends_with, str_join, str_len, str_lines, str_starts_with, str_trim,
};
use crate::text;
use crate::text::push_deep;
use vstd::prelude::*;

verus! {

/// The unit that turns the `head` option into a `useHead` call.
#[derive(Debug, Clone, Copy)]
pub struct HeadTransformer;

/// Whether the first line from `j` on that is not blank starts with a
/// closing brace.
pub open spec fn closes_next(lines: Seq<Seq<char>>, j: int) -> bool
    decreases lines.len() - j,
{
    if j < 0 || j >= lines.len() {
        false
    } else if text::trim(lines[j]).len() == 0 {
        closes_next(lines, j + 1)
    } else {
        text::starts_with(text::trim(lines[j]), "}"@)
    }
}

/// Whether line `i` is the last property of an object and has no comma yet.
pub open spec fn wants_comma(lines: Seq<Seq<char>>, i: int) -> bool {
    let trimmed = text::trim(lines[i]);
    text::contains(trimmed, ":"@) && !text::ends_with(trimmed, ","@) && !text::ends_with(trimmed, "{"@)
        && closes_next(lines, i + 1)
}

/// The lines from index `i` on, with a comma after each last property,
/// appended to `acc`.
pub open spec fn commas_from(lines: Seq<Seq<char>>, i: int, acc: Seq<Seq<char>>) -> Seq<Seq<char>>
    decreases lines.len() - i,
{
    if i < 0 || i >= lines.len() {
        acc
    } else if wants_comma(lines, i) {
        commas_from(lines, i + 1, acc.push(lines[i] + ","@))
    } else {
        commas_from(lines, i + 1, acc.push(lines[i]))
    }
}

/// A body with a comma after the last property of each object.
pub open spec fn with_trailing_commas(body: Seq<char>) -> Seq<char> {
    text::join(commas_from(text::lines(body), 0, Seq::empty()), "\n"@)
}

pub open spec fn applies(context: ContextModel) -> bool {
    context.script.head_method is Some
}

/// The body of the head as it is written out.
pub open spec fn head_body(context: ContextModel, config: TransformerConfigModel, body: Seq<char>) -> Seq<char> {
    with_trailing_commas(body_rewritten(context, config, body))
}

/// What the unit contributes.
pub open spec fn output(context: ContextModel, config: TransformerConfigModel) -> ResultModel {
    match context.script.head_method {
        Some(head) => {
            let lines = indented_from(
                text::lines(head_body(context, config, head.body)),
                0,
                "  "@,
                seq!["useHead(() => {"@],
            );
            empty_result().with_import("@unhead/vue"@, "useHead"@).with_method_lines(lines.push("});"@))
        },
        None => empty_result(),
    }
}

fn next_closes(lines: &Vec<String>, start: usize) -> (r: bool)
    ensures
        r == closes_next(lines.deep_view(), start as int),
{
    let ghost all = lines.deep_view();
    let mut j: usize = start;
    while j < lines.len()
        invariant
            start <= j,
            all == lines.deep_view(),
            closes_next(all, start as int) == closes_next(all, j as int),
        decreases lines.len() - j,
    {
        assert(all[j as int] == lines@[j as int]@);
        let trimmed = str_trim(lines[j].as_str());
        if str_len(trimmed.as_str()) > 0 {
            return str_starts_with(trimmed.as_str(), "}");
        }
        j += 1;
    }
    false
}

impl HeadTransformer {
    pub fn new() -> (r: Self) {
        HeadTransformer
    }

    /// Puts a comma after the last property of each object.
    pub fn add_trailing_commas(body: &str) -> (r: String)
        ensures
            r@ == with_trailing_commas(body@),
    {
        let lines = str_lines(body);
        let mut out: Vec<String> = Vec::new();
        assert(out.deep_view() =~= Seq::empty());
        let ghost all = lines.deep_view();
        let mut i: usize = 0;
        while i < lines.len()
            invariant
                i <= lines.len(),
                all == lines.deep_view(),
                commas_from(all, 0, Seq::empty()) == commas_from(all, i as int, out.deep_view()),
            decreases lines.len() - i,
        {
            assert(all[i as int] == lines@[i as int]@);
            let trimmed = str_trim(lines[i].as_str());
            let t = trimmed.as_str();
            if str_contains(t, ":") && !str_ends_with(t, ",") && !str_ends_with(t, "{") && next_closes(
                &lines,
                i + 1,
            ) {
                push_deep(&mut out, concat2(lines[i].as_str(), ","));
            } else {
                push_deep(&mut out, lines[i].clone());
            }
            i += 1;
        }
        str_join(&out, "\n")
    }

    /// Rewrites the body of the head.
    pub fn transform_head_body(body: &str, context: &TransformationContext, config: &TransformerConfig) -> (r:
        String)
        ensures
            r@ == head_body(context.deep_view(), config.deep_view(), body@),
    {
        Self::add_trailing_commas(transform_body_text(body, context, config).as_str())
    }

    pub fn build(context: &TransformationContext, config: &TransformerConfig) -> (r: TransformationResult)
        ensures
            r.deep_view() == output(context.deep_view(), config.deep_view()),
    {
        let mut result = TransformationResult::new();
        match &context.script_state.head_method {
            Some(head) => {
                result.add_import("@unhead/vue", "useHead");
                let body = Self::transform_head_body(head.body.as_str(), context, config);
                let mut lines: Vec<String> = Vec::new();
                push_deep(&mut lines, owned("useHead(() => {"));
                assert(lines.deep_view() =~= seq!["useHead(() => {"@]);
                push_indented(&mut lines, body.as_str(), "  ");
                push_deep(&mut lines, owned("});"));
                result.extend_methods(&lines);
            },
            None => {},
        }
        result
    }
}

impl Default for HeadTransformer {
    fn default() -> Self {
        HeadTransformer
    }
}

impl Transformer for HeadTransformer {
    open spec fn applies(&self, context: ContextModel, config: TransformerConfigModel) -> bool {
        applies(context)
    }

    open spec fn output(&self, context: ContextModel, config: TransformerConfigModel) -> ResultModel {
        output(context, config)
    }

    open spec fn body_after(
        &self,
        body: Seq<char>,
        context: ContextModel,
        config: TransformerConfigModel,
    ) -> Seq<char> {
        body
    }

    open spec fn label(&self) -> Seq<char> {
        "head"@
    }

    fn name(&self) -> &'static str {
        "head"
    }

    fn should_transform(&self, context: &TransformationContext, config: &TransformerConfig) -> bool {
        context.script_state.head_method.is_some()
    }

    fn transform(&self, context: &TransformationContext, config: &TransformerConfig) -> TransformationResult {
        Self::build(context, config)
    }

    fn transform_body(&self, body: &str, context: &TransformationContext, config: &TransformerConfig) -> String {
        owned(body)
    }
}

} // verus!
