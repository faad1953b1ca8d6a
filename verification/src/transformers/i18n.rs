//! The unit for the formatting of messages, numbers and dates.

use super::composition::push_if;
use super::router::{any_body_contains, methods_mention, template_has, template_mentions};
use super::usage::{
    any_call_contains, any_value_contains, calls_mention, function_used, is_named, names, uses_function,
    values_mention,
};
use super::Transformer;
use crate::model::{
    ContextModel, ReplacementModel, ResultModel, TemplateReplacement, TransformationContext,
    TransformationResult, TransformerConfig, TransformerConfigModel,
};
use crate::result::empty_result;
use crate::strs::{any_contains, concat3, list_any_contains, list_contains, owned, str_join, str_replace};
use crate::text;
use crate::text::push_deep;
use vstd::prelude::*;

verus! {

/// The unit that takes the formatting functions from a composable.
#[derive(Debug, Clone, Copy)]
pub struct I18nTransformer;

/// Whether the component formats messages, numbers or dates.
pub open spec fn uses_i18n(context: ContextModel) -> bool {
    let calls = context.script.function_calls;
    any_contains(calls, "this.$t("@) || any_contains(calls, "this.$n("@) || any_contains(calls, "this.$d("@)
        || any_call_contains(context, "$t("@) || any_call_contains(context, "$n("@) || any_call_contains(
        context,
        "$d("@,
    ) || is_named(context, "$t"@) || is_named(context, "$n"@) || is_named(context, "$d"@)
}

/// Whether the component reads the properties of the locale: in a method,
/// in the initial value of a data field, or in the template.
pub open spec fn uses_locale_properties(context: ContextModel) -> bool {
    any_body_contains(context.script.method_details, "$i18n.localeProperties"@) || any_value_contains(
        context.script.data_properties,
        "$i18n.localeProperties"@,
    ) || template_mentions(context, "$i18n.localeProperties"@)
}

/// Whether the component uses the helpers around the locale.
pub open spec fn uses_i18n_utils(context: ContextModel) -> bool {
    uses_locale_properties(context) || any_call_contains(context, "localePath("@) || any_call_contains(
        context,
        "localeRoute("@,
    ) || is_named(context, "localePath"@) || is_named(context, "localeRoute"@)
}

/// Whether the component reads the current locale.
pub open spec fn uses_locale(context: ContextModel) -> bool {
    context.script.identifiers.contains("$i18n.locale"@) || any_body_contains(
        context.script.method_details,
        "$i18n.locale"@,
    ) || any_value_contains(context.script.data_properties, "$i18n.locale"@)
}

pub open spec fn applies(context: ContextModel, config: TransformerConfigModel) -> bool {
    config.enable_i18n && (uses_i18n(context) || uses_i18n_utils(context) || uses_locale(context))
}

/// The statement that takes `names` out of `source`, and a blank line;
/// nothing without names.
pub open spec fn destructuring(names: Seq<Seq<char>>, source: Seq<char>) -> Seq<Seq<char>> {
    if names.len() > 0 {
        seq!["const { "@ + text::join(names, ", "@) + " } = "@ + source + "();"@, ""@]
    } else {
        Seq::empty()
    }
}

/// The helpers to take out of the helper composable.
pub open spec fn needed_utils(context: ContextModel) -> Seq<Seq<char>> {
    let a = push_if(Seq::empty(), uses_locale_properties(context), "localeProperties"@);
    let b = push_if(a, uses_function(context, "localePath("@, "localePath"@), "localePath"@);
    push_if(b, uses_function(context, "localeRoute("@, "localeRoute"@), "localeRoute"@)
}

/// The functions to take out of the formatting composable.
pub open spec fn needed_functions(context: ContextModel) -> Seq<Seq<char>> {
    let a = push_if(Seq::empty(), uses_function(context, "$t("@, "$t"@), "t"@);
    let b = push_if(a, uses_function(context, "$n("@, "$n"@), "n"@);
    let c = push_if(b, uses_function(context, "$d("@, "$d"@), "d"@);
    push_if(c, uses_locale(context), "locale"@)
}

/// The find and replace pairs for the template: the formatting functions
/// by their short names, and the locale when the component reads it.
pub open spec fn replacements(context: ContextModel) -> Seq<ReplacementModel> {
    let fixed = seq![
        ReplacementModel { find: "$t("@, replace: "t("@ },
        ReplacementModel { find: "$n("@, replace: "n("@ },
        ReplacementModel { find: "$d("@, replace: "d("@ },
    ];
    if uses_locale(context) {
        fixed.push(ReplacementModel { find: "$i18n.locale"@, replace: "locale"@ })
    } else {
        fixed
    }
}

/// What the unit contributes.
pub open spec fn output(context: ContextModel) -> ResultModel {
    let r0 = empty_result();
    let r1 = if uses_i18n(context) || uses_locale(context) {
        r0.with_import("vue-i18n"@, "useI18n"@).with_setup_lines(
            destructuring(needed_functions(context), "useI18n"@),
        ).with_replacements(replacements(context))
    } else {
        r0
    };
    let r2 = if uses_i18n_utils(context) {
        r1.with_import("@/composables/useI18nUtils"@, "useI18nUtils"@).with_setup_lines(
            destructuring(needed_utils(context), "useI18nUtils"@),
        )
    } else {
        r1
    };
    if template_mentions(context, "$i18n.localeProperties"@) {
        r2.with_replacement("$i18n.localeProperties"@, "localeProperties"@)
    } else {
        r2
    }
}

/// A body with the formatting functions called by their short names.
pub open spec fn body_after(body: Seq<char>, context: ContextModel, config: TransformerConfigModel) -> Seq<
    char,
> {
    if !config.enable_i18n {
        body
    } else {
        let b1 = text::replace(body, "this.$t("@, "t("@);
        let b2 = text::replace(b1, "this.$n("@, "n("@);
        let b3 = text::replace(b2, "this.$d("@, "d("@);
        let b4 = text::replace(b3, "$t("@, "t("@);
        let b5 = text::replace(b4, "$n("@, "n("@);
        let b6 = text::replace(b5, "$d("@, "d("@);
        let b7 = if uses_i18n_utils(context) {
            text::replace(
                text::replace(
                    text::replace(
                        text::replace(b6, "this.$i18n.localeProperties"@, "localeProperties"@),
                        "$i18n.localeProperties"@,
                        "localeProperties"@,
                    ),
                    "this.localePath"@,
                    "localePath"@,
                ),
                "this.localeRoute"@,
                "localeRoute"@,
            )
        } else {
            b6
        };
        if uses_locale(context) {
            text::replace(
                text::replace(b7, "this.$i18n.locale"@, "locale.value"@),
                "$i18n.locale"@,
                "locale.value"@,
            )
        } else {
            b7
        }
    }
}

fn push_name_if(list: &mut Vec<String>, keep: bool, name: &str)
    ensures
        final(list).deep_view() == push_if(old(list).deep_view(), keep, name@),
{
    if keep {
        push_deep(list, owned(name));
    }
}

fn destructure(names: &Vec<String>, source: &str) -> (r: Vec<String>)
    ensures
        r.deep_view() == destructuring(names.deep_view(), source@),
{
    let mut out: Vec<String> = Vec::new();
    if names.len() > 0 {
        let list = str_join(names, ", ");
        let head = concat3("const { ", list.as_str(), " } = ");
        push_deep(&mut out, concat3(head.as_str(), source, "();"));
        push_deep(&mut out, owned(""));
        assert(out.deep_view() =~= destructuring(names.deep_view(), source@));
    } else {
        assert(out.deep_view() =~= Seq::empty());
    }
    out
}

impl I18nTransformer {
    pub fn new() -> (r: Self) {
        I18nTransformer
    }

    pub fn has_i18n_usage(context: &TransformationContext) -> (r: bool)
        ensures
            r == uses_i18n(context.deep_view()),
    {
        let calls = &context.script_state.function_calls;
        list_any_contains(calls, "this.$t(") || list_any_contains(calls, "this.$n(") || list_any_contains(
            calls,
            "this.$d(",
        ) || calls_mention(context, "$t(") || calls_mention(context, "$n(") || calls_mention(context, "$d(")
            || names(context, "$t") || names(context, "$n") || names(context, "$d")
    }

    fn has_locale_properties(context: &TransformationContext) -> (r: bool)
        ensures
            r == uses_locale_properties(context.deep_view()),
    {
        methods_mention(&context.script_state.method_details, "$i18n.localeProperties") || values_mention(
            &context.script_state.data_properties,
            "$i18n.localeProperties",
        ) || template_has(context, "$i18n.localeProperties")
    }

    pub fn has_i18n_utils_usage(context: &TransformationContext) -> (r: bool)
        ensures
            r == uses_i18n_utils(context.deep_view()),
    {
        Self::has_locale_properties(context) || calls_mention(context, "localePath(") || calls_mention(
            context,
            "localeRoute(",
        ) || names(context, "localePath") || names(context, "localeRoute")
    }

    pub fn has_i18n_locale_usage(context: &TransformationContext) -> (r: bool)
        ensures
            r == uses_locale(context.deep_view()),
    {
        list_contains(&context.script_state.identifiers, "$i18n.locale") || methods_mention(
            &context.script_state.method_details,
            "$i18n.locale",
        ) || values_mention(&context.script_state.data_properties, "$i18n.locale")
    }

    pub fn should_apply(context: &TransformationContext, config: &TransformerConfig) -> (r: bool)
        ensures
            r == applies(context.deep_view(), config.deep_view()),
    {
        config.enable_i18n && (Self::has_i18n_usage(context) || Self::has_i18n_utils_usage(context)
            || Self::has_i18n_locale_usage(context))
    }

    /// The statement that takes the helpers out of their composable.
    pub fn generate_i18n_utils_setup(context: &TransformationContext) -> (r: Vec<String>)
        ensures
            r.deep_view() == destructuring(needed_utils(context.deep_view()), "useI18nUtils"@),
    {
        let mut needed: Vec<String> = Vec::new();
        assert(needed.deep_view() =~= Seq::empty());
        push_name_if(&mut needed, Self::has_locale_properties(context), "localeProperties");
        push_name_if(&mut needed, function_used(context, "localePath(", "localePath"), "localePath");
        push_name_if(&mut needed, function_used(context, "localeRoute(", "localeRoute"), "localeRoute");
        destructure(&needed, "useI18nUtils")
    }

    /// The statement that takes the formatting functions out of their
    /// composable.
    pub fn generate_i18n_setup(context: &TransformationContext) -> (r: Vec<String>)
        ensures
            r.deep_view() == destructuring(needed_functions(context.deep_view()), "useI18n"@),
    {
        let mut needed: Vec<String> = Vec::new();
        assert(needed.deep_view() =~= Seq::empty());
        push_name_if(&mut needed, function_used(context, "$t(", "$t"), "t");
        push_name_if(&mut needed, function_used(context, "$n(", "$n"), "n");
        push_name_if(&mut needed, function_used(context, "$d(", "$d"), "d");
        push_name_if(&mut needed, Self::has_i18n_locale_usage(context), "locale");
        destructure(&needed, "useI18n")
    }

    /// The find and replace pairs for the template.
    pub fn generate_template_replacements(context: &TransformationContext) -> (r: Vec<TemplateReplacement>)
        ensures
            r.deep_view() == replacements(context.deep_view()),
    {
        let mut out: Vec<TemplateReplacement> = Vec::new();
        push_deep(&mut out, TemplateReplacement { find: owned("$t("), replace: owned("t(") });
        push_deep(&mut out, TemplateReplacement { find: owned("$n("), replace: owned("n(") });
        push_deep(&mut out, TemplateReplacement { find: owned("$d("), replace: owned("d(") });
        assert(out.deep_view() =~= seq![
            ReplacementModel { find: "$t("@, replace: "t("@ },
            ReplacementModel { find: "$n("@, replace: "n("@ },
            ReplacementModel { find: "$d("@, replace: "d("@ },
        ]);
        if Self::has_i18n_locale_usage(context) {
            push_deep(&mut out, TemplateReplacement { find: owned("$i18n.locale"), replace: owned("locale") });
        }
        out
    }

    pub fn build(context: &TransformationContext) -> (r: TransformationResult)
        ensures
            r.deep_view() == output(context.deep_view()),
    {
        let mut result = TransformationResult::new();
        let locale = Self::has_i18n_locale_usage(context);
        if Self::has_i18n_usage(context) || locale {
            result.add_import("vue-i18n", "useI18n");
            result.extend_setup_code(Self::generate_i18n_setup(context));
            result.extend_template_replacements(&Self::generate_template_replacements(context));
        }
        if Self::has_i18n_utils_usage(context) {
            result.add_import("@/composables/useI18nUtils", "useI18nUtils");
            result.extend_setup_code(Self::generate_i18n_utils_setup(context));
        }
        if template_has(context, "$i18n.localeProperties") {
            result.add_template_replacement("$i18n.localeProperties", "localeProperties");
        }
        result
    }

    /// Rewrites the calls of the formatting functions in a body.
    pub fn apply_i18n_transforms(body: &str, context: &TransformationContext, config: &TransformerConfig) -> (r:
        String)
        ensures
            r@ == body_after(body@, context.deep_view(), config.deep_view()),
    {
        if !config.enable_i18n {
            return owned(body);
        }
        let b1 = str_replace(body, "this.$t(", "t(");
        let b2 = str_replace(b1.as_str(), "this.$n(", "n(");
        let b3 = str_replace(b2.as_str(), "this.$d(", "d(");
        let b4 = str_replace(b3.as_str(), "$t(", "t(");
        let b5 = str_replace(b4.as_str(), "$n(", "n(");
        let b6 = str_replace(b5.as_str(), "$d(", "d(");
        let b7 = if Self::has_i18n_utils_usage(context) {
            let c1 = str_replace(b6.as_str(), "this.$i18n.localeProperties", "localeProperties");
            let c2 = str_replace(c1.as_str(), "$i18n.localeProperties", "localeProperties");
            let c3 = str_replace(c2.as_str(), "this.localePath", "localePath");
            str_replace(c3.as_str(), "this.localeRoute", "localeRoute")
        } else {
            b6
        };
        if Self::has_i18n_locale_usage(context) {
            let d1 = str_replace(b7.as_str(), "this.$i18n.locale", "locale.value");
            str_replace(d1.as_str(), "$i18n.locale", "locale.value")
        } else {
            b7
        }
    }
}

impl Default for I18nTransformer {
    fn default() -> Self {
        I18nTransformer
    }
}

impl Transformer for I18nTransformer {
    open spec fn applies(&self, context: ContextModel, config: TransformerConfigModel) -> bool {
        applies(context, config)
    }

    open spec fn output(&self, context: ContextModel, config: TransformerConfigModel) -> ResultModel {
        output(context)
    }

    open spec fn body_after(
        &self,
        body: Seq<char>,
        context: ContextModel,
        config: TransformerConfigModel,
    ) -> Seq<char> {
        body_after(body, context, config)
    }

    open spec fn label(&self) -> Seq<char> {
        "i18n"@
    }

    fn name(&self) -> &'static str {
        "i18n"
    }

    fn should_transform(&self, context: &TransformationContext, config: &TransformerConfig) -> bool {
        Self::should_apply(context, config)
    }

    fn transform(&self, context: &TransformationContext, config: &TransformerConfig) -> TransformationResult {
        Self::build(context)
    }

    fn transform_body(&self, body: &str, context: &TransformationContext, config: &TransformerConfig) -> String {
        Self::apply_i18n_transforms(body, context, config)
    }
}

} // verus!
