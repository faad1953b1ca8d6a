//! The unit for the route and the router that hang on the component
//! instance.

use super::Transformer;
use crate::model::{
    ContextModel, MethodDetail, MethodModel, ResultModel, TransformationContext, TransformationResult,
    TransformerConfig, TransformerConfigModel,
};
use crate::result::empty_result;
use crate::strs::{any_contains, list_any_contains, owned, str_contains, str_replace};
use crate::text;
use crate::text::push_deep;
use vstd::prelude::*;

verus! {

/// The unit that turns `$route` and `$router` into composables.
#[derive(Debug, Clone, Copy)]
pub struct RouterTransformer;

/// Whether the body of some method holds `word`.
pub open spec fn any_body_contains(methods: Seq<MethodModel>, word: Seq<char>) -> bool {
    exists|i: int| 0 <= i < methods.len() && text::contains((#[trigger] methods[i]).body, word)
}

/// Tells whether the body of some method holds `word`.
pub fn methods_mention(methods: &Vec<MethodDetail>, word: &str) -> (r: bool)
    ensures
        r == any_body_contains(methods.deep_view(), word@),
{
    let mut i: usize = 0;
    while i < methods.len()
        invariant
            i <= methods.len(),
            forall|j: int| 0 <= j < i ==> !text::contains((#[trigger] methods.deep_view()[j]).body, word@),
        decreases methods.len() - i,
    {
        assert(methods.deep_view()[i as int].body == methods@[i as int].body@);
        if str_contains(methods[i].body.as_str(), word) {
            assert(text::contains(methods.deep_view()[i as int].body, word@));
            return true;
        }
        i += 1;
    }
    false
}

/// Whether the template text holds `word`.
pub open spec fn template_mentions(context: ContextModel, word: Seq<char>) -> bool {
    match context.sections.template_content {
        Some(template) => text::contains(template, word),
        None => false,
    }
}

pub fn template_has(context: &TransformationContext, word: &str) -> (r: bool)
    ensures
        r == template_mentions(context.deep_view(), word@),
{
    match &context.sfc_sections.template_content {
        Some(template) => str_contains(template.as_str(), word),
        None => false,
    }
}

/// Whether the script's identifiers or calls hold `word`.
pub open spec fn script_mentions(context: ContextModel, word: Seq<char>) -> bool {
    any_contains(context.script.identifiers, word) || any_contains(
        context.script.function_calls,
        word,
    )
}

pub fn script_has(context: &TransformationContext, word: &str) -> (r: bool)
    ensures
        r == script_mentions(context.deep_view(), word@),
{
    list_any_contains(&context.script_state.identifiers, word) || list_any_contains(
        &context.script_state.function_calls,
        word,
    )
}

/// Whether the component refers to `word` anywhere: in the script's
/// identifiers and calls, in a method body, or in the template.
pub open spec fn mentions(context: ContextModel, word: Seq<char>) -> bool {
    script_mentions(context, word) || any_body_contains(context.script.method_details, word)
        || template_mentions(context, word)
}

pub open spec fn uses_route(context: ContextModel) -> bool {
    mentions(context, "$route"@)
}

pub open spec fn uses_router(context: ContextModel) -> bool {
    mentions(context, "$router"@)
}

pub open spec fn applies(context: ContextModel) -> bool {
    uses_route(context) || uses_router(context)
}

/// The composables to import: one for the route, one for the router.
pub open spec fn router_imports(context: ContextModel) -> Seq<Seq<char>> {
    let a = if uses_route(context) {
        seq!["useRoute"@]
    } else {
        Seq::empty()
    };
    if uses_router(context) {
        a.push("useRouter"@)
    } else {
        a
    }
}

/// What the unit contributes.
pub open spec fn output(context: ContextModel) -> ResultModel {
    let r0 = empty_result();
    let r1 = if router_imports(context).len() > 0 {
        r0.with_imports("vue-router"@, router_imports(context))
    } else {
        r0
    };
    let r2 = if uses_route(context) {
        r1.with_setup("const route = useRoute();"@)
    } else {
        r1
    };
    let r3 = if uses_router(context) {
        r2.with_setup("const router = useRouter();"@)
    } else {
        r2
    };
    let r4 = if applies(context) {
        r3.with_setup(""@)
    } else {
        r3
    };
    let r5 = if template_mentions(context, "$route"@) {
        r4.with_replacement("$route"@, "route"@)
    } else {
        r4
    };
    if template_mentions(context, "$router"@) {
        r5.with_replacement("$router"@, "router"@)
    } else {
        r5
    }
}

/// A body with the route and the router taken from the composables.
pub open spec fn body_after(body: Seq<char>, context: ContextModel) -> Seq<char> {
    let b1 = if uses_route(context) {
        text::replace(text::replace(body, "this.$route"@, "route"@), "$route"@, "route"@)
    } else {
        body
    };
    if uses_router(context) {
        text::replace(text::replace(b1, "this.$router"@, "router"@), "$router"@, "router"@)
    } else {
        b1
    }
}

impl RouterTransformer {
    pub fn new() -> (r: Self) {
        RouterTransformer
    }

    pub fn has_route_in_identifiers(context: &TransformationContext) -> (r: bool)
        ensures
            r == script_mentions(context.deep_view(), "$route"@),
    {
        script_has(context, "$route")
    }

    pub fn has_router_in_identifiers(context: &TransformationContext) -> (r: bool)
        ensures
            r == script_mentions(context.deep_view(), "$router"@),
    {
        script_has(context, "$router")
    }

    pub fn has_route_in_methods(context: &TransformationContext) -> (r: bool)
        ensures
            r == any_body_contains(context.deep_view().script.method_details, "$route"@),
    {
        methods_mention(&context.script_state.method_details, "$route")
    }

    pub fn has_router_in_methods(context: &TransformationContext) -> (r: bool)
        ensures
            r == any_body_contains(context.deep_view().script.method_details, "$router"@),
    {
        methods_mention(&context.script_state.method_details, "$router")
    }

    pub fn has_route_in_template(context: &TransformationContext) -> (r: bool)
        ensures
            r == template_mentions(context.deep_view(), "$route"@),
    {
        template_has(context, "$route")
    }

    pub fn has_router_in_template(context: &TransformationContext) -> (r: bool)
        ensures
            r == template_mentions(context.deep_view(), "$router"@),
    {
        template_has(context, "$router")
    }

    pub fn has_route_usage(context: &TransformationContext) -> (r: bool)
        ensures
            r == uses_route(context.deep_view()),
    {
        Self::has_route_in_identifiers(context) || Self::has_route_in_methods(context)
            || Self::has_route_in_template(context)
    }

    pub fn has_router_usage(context: &TransformationContext) -> (r: bool)
        ensures
            r == uses_router(context.deep_view()),
    {
        Self::has_router_in_identifiers(context) || Self::has_router_in_methods(context)
            || Self::has_router_in_template(context)
    }

    pub fn build(context: &TransformationContext) -> (r: TransformationResult)
        ensures
            r.deep_view() == output(context.deep_view()),
    {
        let mut result = TransformationResult::new();
        let route = Self::has_route_usage(context);
        let router = Self::has_router_usage(context);
        let mut imports: Vec<String> = Vec::new();
        assert(imports.deep_view() =~= Seq::empty());
        if route {
            push_deep(&mut imports, owned("useRoute"));
            assert(imports.deep_view() =~= seq!["useRoute"@]);
        }
        if router {
            push_deep(&mut imports, owned("useRouter"));
        }
        if imports.len() > 0 {
            result.add_imports("vue-router", &imports);
        }
        if route {
            result.add_setup(owned("const route = useRoute();"));
        }
        if router {
            result.add_setup(owned("const router = useRouter();"));
        }
        if route || router {
            result.add_setup(owned(""));
        }
        if Self::has_route_in_template(context) {
            result.add_template_replacement("$route", "route");
        }
        if Self::has_router_in_template(context) {
            result.add_template_replacement("$router", "router");
        }
        result
    }

    pub fn rewrite_body(body: &str, context: &TransformationContext) -> (r: String)
        ensures
            r@ == body_after(body@, context.deep_view()),
    {
        let mut current = owned(body);
        if Self::has_route_usage(context) {
            current = str_replace(str_replace(current.as_str(), "this.$route", "route").as_str(), "$route", "route");
        }
        if Self::has_router_usage(context) {
            current = str_replace(
                str_replace(current.as_str(), "this.$router", "router").as_str(),
                "$router",
                "router",
            );
        }
        current
    }
}

impl Default for RouterTransformer {
    fn default() -> Self {
        RouterTransformer
    }
}

impl Transformer for RouterTransformer {
    open spec fn applies(&self, context: ContextModel, config: TransformerConfigModel) -> bool {
        applies(context)
    }

    open spec fn output(&self, context: ContextModel, config: TransformerConfigModel) -> ResultModel {
        output(context)
    }

    open spec fn body_after(
        &self,
        body: Seq<char>,
        context: ContextModel,
        config: TransformerConfigModel,
    ) -> Seq<char> {
        body_after(body, context)
    }

    open spec fn label(&self) -> Seq<char> {
        "router"@
    }

    fn name(&self) -> &'static str {
        "router"
    }

    fn should_transform(&self, context: &TransformationContext, config: &TransformerConfig) -> bool {
        Self::has_route_usage(context) || Self::has_router_usage(context)
    }

    fn transform(&self, context: &TransformationContext, config: &TransformerConfig) -> TransformationResult {
        Self::build(context)
    }

    fn transform_body(&self, body: &str, context: &TransformationContext, config: &TransformerConfig) -> String {
        Self::rewrite_body(body, context)
    }
}

} // verus!
