//! The unit for filters that are reached through the component's options.

use super::Transformer;
use crate::imports::{distinct_names, sort_distinct};
use crate::model::{
    ComputedModel, ContextModel, MethodModel, ResultModel, TransformationContext, TransformationResult,
    TransformerConfig, TransformerConfigModel,
};
use crate::patterns::{
    all_captures, capture_group, capture_has_group, group, has_group, pattern_captures, pattern_replace,
    replace_matches, replaced, replaced_with, Fill,
};
use crate::result::empty_result;
use crate::strs::{concat3, concat4, owned, str_join, str_replace, str_trim};
use crate::text;
use crate::text::push_deep;
use vstd::prelude::*;

verus! {

/// The unit that takes filters from a composable.
#[derive(Debug, Clone, Copy)]
pub struct FiltersTransformer;

pub const FILTER_THIS_OPTIONS_PATTERN: &'static str = "this\\.\\$options\\.filters\\.(\\w+)\\s*\\(";

pub const FILTER_THIS_OPTIONS_SIMPLE: &'static str = "this\\.\\$options\\.filters\\.(\\w+)";

pub const FILTER_CALL_PATTERN: &'static str = "(\\w+)\\(\\s*\\n\\s*([^)]+)\\s*\\n\\s*\\)";

pub const FILTER_WHITESPACE_PATTERN: &'static str = "\\s+";

/// The names captured by the matches from index `i` on, appended to `acc`.
pub open spec fn names_of_matches(found: Seq<Seq<Option<Seq<char>>>>, i: int, acc: Seq<Seq<char>>) -> Seq<
    Seq<char>,
>
    decreases found.len() - i,
{
    if i < 0 || i >= found.len() {
        acc
    } else if has_group(found[i], 1) {
        names_of_matches(found, i + 1, acc.push(group(found[i], 1)))
    } else {
        names_of_matches(found, i + 1, acc)
    }
}

/// The filters that a body calls, appended to `acc`.
pub open spec fn body_filters(body: Seq<char>, acc: Seq<Seq<char>>) -> Seq<Seq<char>> {
    names_of_matches(all_captures(FILTER_THIS_OPTIONS_PATTERN@, body), 0, acc)
}

pub open spec fn method_filters_from(methods: Seq<MethodModel>, i: int, acc: Seq<Seq<char>>) -> Seq<Seq<char>>
    decreases methods.len() - i,
{
    if i < 0 || i >= methods.len() {
        acc
    } else {
        method_filters_from(methods, i + 1, body_filters(methods[i].body, acc))
    }
}

/// The filters that the getter and the setter of a computed property call.
pub open spec fn computed_filters(detail: ComputedModel, acc: Seq<Seq<char>>) -> Seq<Seq<char>> {
    let a = match detail.getter {
        Some(getter) => body_filters(getter, acc),
        None => acc,
    };
    match detail.setter {
        Some(setter) => body_filters(setter, a),
        None => a,
    }
}

pub open spec fn computed_filters_from(details: Seq<ComputedModel>, i: int, acc: Seq<Seq<char>>) -> Seq<
    Seq<char>,
>
    decreases details.len() - i,
{
    if i < 0 || i >= details.len() {
        acc
    } else {
        computed_filters_from(details, i + 1, computed_filters(details[i], acc))
    }
}

/// Every call of a filter in the methods and the computed properties, in
/// order of appearance.
pub open spec fn filter_calls(context: ContextModel) -> Seq<Seq<char>> {
    computed_filters_from(
        context.script.computed_details,
        0,
        method_filters_from(context.script.method_details, 0, Seq::empty()),
    )
}

pub open spec fn applies(context: ContextModel) -> bool {
    filter_calls(context).len() > 0
}

/// What the unit contributes: the composable's import and the statement
/// that takes the filters out of it, in alphabetical order.
pub open spec fn output(context: ContextModel) -> ResultModel {
    if applies(context) {
        empty_result().with_import("@/composables/useFilters"@, "useFilters"@).with_setup(
            "const { "@ + text::join(distinct_names(filter_calls(context)), ", "@) + " } = useFilters();"@,
        ).with_setup(""@)
    } else {
        empty_result()
    }
}

/// Arguments written over several lines, brought onto one line.
pub open spec fn one_line(arguments: Seq<char>) -> Seq<char> {
    text::trim(replaced(FILTER_WHITESPACE_PATTERN@, text::trim(text::replace(arguments, "\n"@, " "@)), " "@))
}

/// The rule for a call whose arguments stand on lines of their own: the
/// call on one line.
#[derive(Debug, Clone, Copy)]
pub struct CallFill;

impl Fill for CallFill {
    open spec fn fill(&self, caps: Seq<Option<Seq<char>>>, before: Seq<char>) -> Seq<char> {
        group(caps, 1) + "("@ + one_line(group(caps, 2)) + ")"@
    }

    fn make(&self, caps: &Vec<Option<String>>, before: &str) -> (r: String) {
        let arguments = str_trim(str_replace(capture_group(caps, 2).as_str(), "\n", " ").as_str());
        let clean = pattern_replace(FILTER_WHITESPACE_PATTERN, arguments.as_str(), " ");
        concat4(capture_group(caps, 1).as_str(), "(", str_trim(clean.as_str()).as_str(), ")")
    }
}

/// A body with filters called by their bare names.
pub open spec fn body_after(body: Seq<char>) -> Seq<char> {
    replaced_with(&CallFill, FILTER_CALL_PATTERN@, replaced(FILTER_THIS_OPTIONS_SIMPLE@, body, "$1"@))
}

impl FiltersTransformer {
    pub fn new() -> (r: Self) {
        FiltersTransformer
    }

    /// Adds to `filter_names` the filters that a body calls.
    pub fn extract_filters_from_body(body: &str, filter_names: &mut Vec<String>)
        ensures
            final(filter_names).deep_view() == body_filters(body@, old(filter_names).deep_view()),
    {
        let found = pattern_captures(FILTER_THIS_OPTIONS_PATTERN, body);
        let ghost all = found.deep_view();
        let mut i: usize = 0;
        while i < found.len()
            invariant
                i <= found.len(),
                all == found.deep_view(),
                names_of_matches(all, 0, old(filter_names).deep_view()) == names_of_matches(
                    all,
                    i as int,
                    filter_names.deep_view(),
                ),
            decreases found.len() - i,
        {
            assert(all[i as int] == found@[i as int].deep_view());
            if capture_has_group(&found[i], 1) {
                push_deep(filter_names, capture_group(&found[i], 1));
            }
            i += 1;
        }
    }

    /// Every call of a filter in the component.
    pub fn extract_filter_names(context: &TransformationContext) -> (r: Vec<String>)
        ensures
            r.deep_view() == filter_calls(context.deep_view()),
    {
        let mut names: Vec<String> = Vec::new();
        assert(names.deep_view() =~= Seq::empty());
        let methods = &context.script_state.method_details;
        let ghost all = methods.deep_view();
        let mut i: usize = 0;
        while i < methods.len()
            invariant
                i <= methods.len(),
                all == methods.deep_view(),
                method_filters_from(all, 0, Seq::empty()) == method_filters_from(
                    all,
                    i as int,
                    names.deep_view(),
                ),
            decreases methods.len() - i,
        {
            assert(all[i as int] == methods@[i as int].deep_view());
            Self::extract_filters_from_body(methods[i].body.as_str(), &mut names);
            i += 1;
        }
        let details = &context.script_state.computed_details;
        let ghost every = details.deep_view();
        let ghost start = names.deep_view();
        let mut k: usize = 0;
        while k < details.len()
            invariant
                k <= details.len(),
                every == details.deep_view(),
                computed_filters_from(every, 0, start) == computed_filters_from(
                    every,
                    k as int,
                    names.deep_view(),
                ),
            decreases details.len() - k,
        {
            assert(every[k as int] == details@[k as int].deep_view());
            match &details[k].getter {
                Some(getter) => {
                    Self::extract_filters_from_body(getter.as_str(), &mut names);
                },
                None => {},
            }
            match &details[k].setter {
                Some(setter) => {
                    Self::extract_filters_from_body(setter.as_str(), &mut names);
                },
                None => {},
            }
            k += 1;
        }
        names
    }

    pub fn has_filter_usage(context: &TransformationContext) -> (r: bool)
        ensures
            r == applies(context.deep_view()),
    {
        Self::extract_filter_names(context).len() > 0
    }

    pub fn build(context: &TransformationContext) -> (r: TransformationResult)
        ensures
            r.deep_view() == output(context.deep_view()),
    {
        let mut result = TransformationResult::new();
        let names = Self::extract_filter_names(context);
        if names.len() > 0 {
            result.add_import("@/composables/useFilters", "useFilters");
            let list = str_join(&sort_distinct(&names), ", ");
            result.add_setup(concat3("const { ", list.as_str(), " } = useFilters();"));
            result.add_setup(owned(""));
        }
        result
    }

    pub fn rewrite_body(body: &str) -> (r: String)
        ensures
            r@ == body_after(body@),
    {
        let b1 = pattern_replace(FILTER_THIS_OPTIONS_SIMPLE, body, "$1");
        replace_matches(FILTER_CALL_PATTERN, b1.as_str(), &CallFill)
    }
}

impl Default for FiltersTransformer {
    fn default() -> Self {
        FiltersTransformer
    }
}

impl Transformer for FiltersTransformer {
    open spec fn applies(&self, context: ContextModel, config: TransformerConfigModel) -> bool {
        applies(context)
    }

    open spec fn output(&self, context: ContextModel, config: TransformerConfigModel) -> ResultModel {
        output(context)
    }

    open spec fn body_after(
        &self,
        body: Seq<char>,
        context: ContextModel,
        config: TransformerConfigModel,
    ) -> Seq<char> {
        body_after(body)
    }

    open spec fn label(&self) -> Seq<char> {
        "filters"@
    }

    fn name(&self) -> &'static str {
        "filters"
    }

    fn should_transform(&self, context: &TransformationContext, config: &TransformerConfig) -> bool {
        Self::has_filter_usage(context)
    }

    fn transform(&self, context: &TransformationContext, config: &TransformerConfig) -> TransformationResult {
        Self::build(context)
    }

    fn transform_body(&self, body: &str, context: &TransformationContext, config: &TransformerConfig) -> String {
        Self::rewrite_body(body)
    }
}

} // verus!
