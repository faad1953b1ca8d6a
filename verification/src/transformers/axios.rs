//! The unit for the HTTP client that hangs on the component instance.

use super::Transformer;
use crate::model::{
    ContextModel, ResultModel, TransformationContext, TransformationResult, TransformerConfig,
    TransformerConfigModel,
};
use crate::result::empty_result;
use crate::strs::{any_contains, list_any_contains, owned, str_replace};
use crate::text;
use vstd::prelude::*;

verus! {

/// The unit that turns `$axios` into a composable.
#[derive(Debug, Clone, Copy)]
pub struct AxiosTransformer;

/// Whether the script calls or names `$axios`.
pub open spec fn uses_axios(context: ContextModel) -> bool {
    any_contains(context.script.function_calls, "$axios"@) || any_contains(
        context.script.identifiers,
        "$axios"@,
    )
}

/// What the unit contributes: the composable's import and its setup line.
pub open spec fn output(context: ContextModel) -> ResultModel {
    if uses_axios(context) {
        empty_result().with_import("@/composables/useHttp"@, "useHttp"@).with_setup(
            "const http = useHttp();"@,
        )
    } else {
        empty_result()
    }
}

/// A body with `this.$axios` and `$axios` turned into `http`.
pub open spec fn body_after(body: Seq<char>, context: ContextModel) -> Seq<char> {
    if uses_axios(context) {
        text::replace(text::replace(body, "this.$axios"@, "http"@), "$axios"@, "http"@)
    } else {
        body
    }
}

impl AxiosTransformer {
    pub fn new() -> (r: Self) {
        AxiosTransformer
    }

    pub fn has_axios_usage(context: &TransformationContext) -> (r: bool)
        ensures
            r == uses_axios(context.deep_view()),
    {
        list_any_contains(&context.script_state.function_calls, "$axios") || list_any_contains(
            &context.script_state.identifiers,
            "$axios",
        )
    }

    pub fn build(context: &TransformationContext) -> (r: TransformationResult)
        ensures
            r.deep_view() == output(context.deep_view()),
    {
        let mut result = TransformationResult::new();
        if !Self::has_axios_usage(context) {
            return result;
        }
        result.add_import("@/composables/useHttp", "useHttp");
        result.add_setup(owned("const http = useHttp();"));
        result
    }

    pub fn rewrite_body(body: &str, context: &TransformationContext) -> (r: String)
        ensures
            r@ == body_after(body@, context.deep_view()),
    {
        if !Self::has_axios_usage(context) {
            return owned(body);
        }
        str_replace(str_replace(body, "this.$axios", "http").as_str(), "$axios", "http")
    }
}

impl Default for AxiosTransformer {
    fn default() -> Self {
        AxiosTransformer
    }
}

impl Transformer for AxiosTransformer {
    open spec fn applies(&self, context: ContextModel, config: TransformerConfigModel) -> bool {
        uses_axios(context)
    }

    open spec fn output(&self, context: ContextModel, config: TransformerConfigModel) -> ResultModel {
        output(context)
    }

    open spec fn body_after(
        &self,
        body: Seq<char>,
        context: ContextModel,
        config: TransformerConfigModel,
    ) -> Seq<char> {
        body_after(body, context)
    }

    open spec fn label(&self) -> Seq<char> {
        "axios"@
    }

    fn name(&self) -> &'static str {
        "axios"
    }

    fn should_transform(&self, context: &TransformationContext, config: &TransformerConfig) -> bool {
        Self::has_axios_usage(context)
    }

    fn transform(&self, context: &TransformationContext, config: &TransformerConfig) -> TransformationResult {
        Self::build(context)
    }

    fn transform_body(&self, body: &str, context: &TransformationContext, config: &TransformerConfig) -> String {
        Self::rewrite_body(body, context)
    }
}

} // verus!
