//! The unit for what the Nuxt framework adds to a component.

use super::composition::{body_lines, indented_from, push_body, push_if, push_indented};
use super::router::{
    any_body_contains, methods_mention, script_has, script_mentions, template_has, template_mentions,
};
use super::Transformer;
use crate::model::{
    ContextModel, DataPropertyModel, ResultModel, TransformationContext, TransformationResult,
    TransformerConfig, TransformerConfigModel,
};
use crate::result::{assign, empty_result, table_assign, RefTable};
use crate::strs::{
    any_contains, concat3, concat5, list_any_contains, list_contains, owned, str_contains, str_find,
    str_find_from, str_join, str_len, str_lines, str_replace, str_rfind, str_slice, str_trim,
    str_trim_end_matches, str_trim_start_matches,
};
use crate::text;
use crate::text::{push_deep, to_chars};
use crate::transformers::body_transforms::{data_names, data_names_of};
use vstd::prelude::*;

verus! {

/// The unit for the Nuxt framework.
#[derive(Debug, Clone, Copy)]
pub struct NuxtTransformer;

pub open spec fn has_fetch_method(context: ContextModel) -> bool {
    context.script.fetch_method is Some
}

pub open spec fn has_async_data(context: ContextModel) -> bool {
    context.script.async_data_method is Some
}

pub open spec fn has_fetch_calls(context: ContextModel) -> bool {
    script_mentions(context, "$fetch"@)
}

pub open spec fn has_nuxt_i18n(context: ContextModel) -> bool {
    context.script.nuxt_i18n is Some
}

pub open spec fn has_nuxt_link(context: ContextModel) -> bool {
    template_mentions(context, "nuxt-link"@) || template_mentions(context, "NuxtLink"@)
}

pub open spec fn has_config(context: ContextModel) -> bool {
    script_mentions(context, "$config"@) || any_body_contains(context.script.method_details, "$config"@)
        || any_contains(context.template.function_calls, "$config"@) || any_contains(
        context.template.identifiers,
        "$config"@,
    )
}

pub open spec fn has_event_bus(context: ContextModel) -> bool {
    let calls = context.script.function_calls;
    let methods = context.script.method_details;
    any_contains(calls, "$nuxt.$on"@) || any_contains(calls, "$nuxt.$off"@) || any_contains(
        calls,
        "$nuxt.$emit"@,
    ) || any_body_contains(methods, "this.$nuxt.$on"@) || any_body_contains(methods, "this.$nuxt.$off"@)
        || any_body_contains(methods, "this.$nuxt.$emit"@)
}

pub open spec fn has_redirect(context: ContextModel) -> bool {
    script_mentions(context, "$nuxt.context.redirect"@) || any_body_contains(
        context.script.method_details,
        "this.$nuxt.context.redirect"@,
    )
}

pub open spec fn has_refresh(context: ContextModel) -> bool {
    script_mentions(context, "$nuxt.refresh"@) || any_body_contains(
        context.script.method_details,
        "this.$nuxt.refresh"@,
    )
}

pub open spec fn applies(context: ContextModel) -> bool {
    has_fetch_method(context) || has_fetch_calls(context) || has_nuxt_i18n(context) || has_async_data(context)
        || has_event_bus(context) || has_config(context) || has_nuxt_link(context) || has_redirect(context)
        || has_refresh(context)
}

/// The position just after the brace that closes `depth` open braces,
/// scanning from `pos`; `None` when the text ends first.
pub open spec fn brace_end(s: Seq<char>, pos: int, depth: nat) -> Option<int>
    decreases s.len() - pos,
{
    if depth == 0 {
        Some(pos)
    } else if pos < 0 || pos >= s.len() {
        None
    } else if s[pos] == '{' {
        brace_end(s, pos + 1, depth + 1)
    } else if s[pos] == '}' {
        brace_end(s, pos + 1, (depth - 1) as nat)
    } else {
        brace_end(s, pos + 1, depth)
    }
}

/// The object that follows `paths:` in the localisation option, with its
/// braces.
pub open spec fn i18n_paths(content: Seq<char>) -> Option<Seq<char>> {
    match text::find(content, "paths:"@) {
        Some(at) => {
            let section = content.subrange(at + 6, content.len() as int);
            match text::find(section, "{"@) {
                Some(open) => match brace_end(section, open + 1, 1) {
                    Some(end) => if open <= end <= section.len() {
                        Some(section.subrange(open, end))
                    } else {
                        None
                    },
                    None => None,
                },
                None => None,
            }
        },
        None => None,
    }
}

/// The entries of the lines from index `i` on, each indented and ended by a
/// comma, appended to `acc`.
pub open spec fn path_entries_from(lines: Seq<Seq<char>>, i: int, acc: Seq<char>) -> Seq<char>
    decreases lines.len() - i,
{
    if i < 0 || i >= lines.len() {
        acc
    } else {
        let line = text::trim(lines[i]);
        if line.len() > 0 && text::contains(line, ":"@) {
            path_entries_from(lines, i + 1, acc + "  "@ + text::trim_end_matches(line, ',') + ",\n"@)
        } else {
            path_entries_from(lines, i + 1, acc)
        }
    }
}

/// The paths object, one entry on each line.
pub open spec fn formatted_paths(paths: Seq<char>) -> Seq<char> {
    let content = text::trim_end_matches(text::trim_start_matches(text::trim(paths), '{'), '}');
    path_entries_from(text::lines(content), 0, "{\n"@) + "}"@
}

/// The script block that exports the localised paths.
pub open spec fn i18n_script(context: ContextModel) -> Option<Seq<char>> {
    match context.script.nuxt_i18n {
        Some(content) => match i18n_paths(content) {
            Some(paths) => Some("<script>\nexport const i18n = "@ + formatted_paths(paths) + ";\n</script>"@),
            None => None,
        },
        None => None,
    }
}

/// The lines that declare `fetch`.
pub open spec fn fetch_lines(context: ContextModel, config: TransformerConfigModel) -> Seq<Seq<char>> {
    match context.script.fetch_method {
        Some(method) => {
            let head = if method.is_async {
                "const fetch = async () => {"@
            } else {
                "const fetch = () => {"@
            };
            body_lines(context, config, method.body, "  "@, seq![head]).push("};"@)
        },
        None => Seq::empty(),
    }
}

/// The hook that calls `fetch` once the component is mounted.
pub open spec fn fetch_hook(context: ContextModel) -> Seq<Seq<char>> {
    match context.script.fetch_method {
        Some(method) => seq![
            if method.is_async {
                "onMounted(async () => {"@
            } else {
                "onMounted(() => {"@
            },
            "  fetch();"@,
            "});"@,
            ""@,
        ],
        None => Seq::empty(),
    }
}

/// The parameter list of the `asyncData` method as written; the standard
/// list when the text has no well-formed one.
pub open spec fn async_data_params(method: Seq<char>) -> Seq<char> {
    match (text::find(method, "("@), text::find(method, ")"@)) {
        (Some(open), Some(close)) => if open + 1 <= close <= method.len() {
            text::trim(method.subrange(open + 1, close))
        } else {
            "$axios, app, redirect, params"@
        },
        _ => "$axios, app, redirect, params"@,
    }
}

/// What follows the brace at `open`, without closing braces at the end,
/// trimmed.
pub open spec fn after_brace(method: Seq<char>, open: int) -> Seq<char> {
    text::trim(text::trim_end_matches(method.subrange(open + 1, method.len() as int), '}'))
}

/// The body of the `asyncData` method: what follows the first brace after
/// the parameter list, or the first brace at all.
pub open spec fn async_data_body(method: Seq<char>) -> Seq<char> {
    let close = text::find(method, ")"@);
    let after = if close is Some {
        text::find_from(method, "{"@, close->0)
    } else {
        None
    };
    if after is Some && 0 <= after->0 < method.len() {
        after_brace(method, after->0)
    } else {
        match text::find(method, "{"@) {
            Some(open) => if 0 <= open < method.len() {
                after_brace(method, open)
            } else {
                method
            },
            None => method,
        }
    }
}

/// The property that one line of a returned object names, appended.
pub open spec fn returned_from(lines: Seq<Seq<char>>, i: int, acc: Seq<Seq<char>>) -> Seq<Seq<char>>
    decreases lines.len() - i,
{
    if i < 0 || i >= lines.len() {
        acc
    } else {
        let line = text::trim_end_matches(text::trim(lines[i]), ',');
        if line.len() == 0 {
            returned_from(lines, i + 1, acc)
        } else {
            match text::find(line, ":"@) {
                Some(colon) => if 0 <= colon <= line.len() {
                    returned_from(lines, i + 1, acc.push(text::trim(line.subrange(0, colon))))
                } else {
                    returned_from(lines, i + 1, acc)
                },
                None => returned_from(lines, i + 1, acc.push(line)),
            }
        }
    }
}

/// The properties of the object that a body returns last.
pub open spec fn returned_properties(body: Seq<char>) -> Seq<Seq<char>> {
    match text::rfind(body, "return"@) {
        Some(at) => if 0 <= at <= body.len() {
            let section = body.subrange(at, body.len() as int);
            match (text::find(section, "{"@), text::find(section, "}"@)) {
                (Some(open), Some(close)) => if open + 1 <= close <= section.len() {
                    returned_from(text::lines(section.subrange(open + 1, close)), 0, Seq::empty())
                } else {
                    Seq::empty()
                },
                _ => Seq::empty(),
            }
        } else {
            Seq::empty()
        },
        None => Seq::empty(),
    }
}

/// The declarations for the returned properties from index `i` on that
/// are data fields too, set into `acc` with priority 10.
pub open spec fn async_refs_from(
    data: Seq<DataPropertyModel>,
    properties: Seq<Seq<char>>,
    i: int,
    acc: RefTable,
) -> RefTable
    decreases properties.len() - i,
{
    if i < 0 || i >= properties.len() {
        acc
    } else if data_names(data).contains(properties[i]) {
        async_refs_from(
            data,
            properties,
            i + 1,
            assign(acc, properties[i], "const "@ + properties[i] + " = ref(data."@ + properties[i] + ");"@, 10),
        )
    } else {
        async_refs_from(data, properties, i + 1, acc)
    }
}

/// The reactive declarations that take their value from `asyncData`.
pub open spec fn async_data_refs(context: ContextModel) -> RefTable {
    match context.script.async_data_method {
        Some(method) => async_refs_from(
            context.script.data_properties,
            returned_properties(async_data_body(method)),
            0,
            Seq::empty(),
        ),
        None => Seq::empty(),
    }
}

/// The lines that call `useAsyncData`.
pub open spec fn async_data_lines(context: ContextModel) -> Seq<Seq<char>> {
    match context.script.async_data_method {
        Some(method) => indented_from(
            text::lines(async_data_body(method)),
            0,
            "  "@,
            seq!["const data = await useAsyncData(async ("@ + async_data_params(method) + ") => {"@],
        ).push("});"@).push(""@),
        None => Seq::empty(),
    }
}

/// The helpers to take out of the compatibility composable.
pub open spec fn compat_functions(context: ContextModel) -> Seq<Seq<char>> {
    let a = push_if(Seq::empty(), has_event_bus(context), "eventBus"@);
    let b = push_if(a, has_redirect(context), "redirect"@);
    let c = push_if(b, has_refresh(context), "refresh"@);
    push_if(c, has_config(context), "runtimeConfig"@)
}

/// What the unit contributes.
pub open spec fn output(context: ContextModel, config: TransformerConfigModel) -> ResultModel {
    let r0 = empty_result();
    let r1 = if has_config(context) {
        r0.with_replacement("$config"@, "runtimeConfig"@)
    } else {
        r0
    };
    let used = compat_functions(context);
    let r2 = if used.len() > 0 {
        r1.with_import("@/composables/useNuxtCompat"@, "useNuxtCompat"@).with_setup(
            "const { "@ + text::join(used, ", "@) + " } = useNuxtCompat();\n"@,
        )
    } else {
        r1
    };
    let r3 = if has_fetch_method(context) {
        r2.with_import("vue"@, "onMounted"@).with_method_lines(fetch_lines(context, config)).with_lifecycle_lines(
            fetch_hook(context),
        )
    } else {
        r2
    };
    let r4 = if has_async_data(context) {
        let a = r3.with_import("@/composables/useAsyncData"@, "useAsyncData"@).with_setup_lines(
            async_data_lines(context),
        );
        ResultModel { data_refs: async_data_refs(context), ..a }
    } else {
        r3
    };
    let r5 = match i18n_script(context) {
        Some(script) => r4.with_script(script),
        None => r4,
    };
    if has_nuxt_link(context) {
        r5.with_replacement("nuxt-link"@, "router-link"@).with_replacement("NuxtLink"@, "router-link"@)
    } else {
        r5
    }
}

/// A body after the unit's rewrite.
pub open spec fn body_after(body: Seq<char>, context: ContextModel) -> Seq<char> {
    let b1 = if has_fetch_calls(context) {
        text::replace(text::replace(body, "this.$fetch"@, "fetch"@), "$fetch"@, "fetch"@)
    } else {
        body
    };
    let b2 = if has_event_bus(context) {
        text::replace(
            text::replace(text::replace(b1, "this.$nuxt.$on"@, "eventBus.on"@), "this.$nuxt.$off"@, "eventBus.off"@),
            "this.$nuxt.$emit"@,
            "eventBus.emit"@,
        )
    } else {
        b1
    };
    let b3 = if has_config(context) {
        text::replace(text::replace(b2, "this.$config"@, "runtimeConfig"@), "$config"@, "runtimeConfig"@)
    } else {
        b2
    };
    let b4 = if has_redirect(context) {
        text::replace(b3, "this.$nuxt.context.redirect"@, "redirect"@)
    } else {
        b3
    };
    if has_refresh(context) {
        text::replace(b4, "this.$nuxt.refresh"@, "refresh"@)
    } else {
        b4
    }
}

fn find_brace_end(s: &Vec<char>, start: usize) -> (r: Option<usize>)
    requires
        1 <= start <= s.len(),
    ensures
        match r {
            Some(end) => brace_end(s@, start as int, 1) == Some(end as int) && start <= end <= s.len(),
            None => brace_end(s@, start as int, 1) is None,
        },
{
    let mut depth: usize = 1;
    let mut pos: usize = start;
    while pos < s.len() && depth > 0
        invariant
            1 <= start <= pos <= s.len(),
            depth <= pos - start + 1,
            brace_end(s@, start as int, 1) == brace_end(s@, pos as int, depth as nat),
        decreases s.len() - pos,
    {
        if s[pos] == '{' {
            depth += 1;
        } else if s[pos] == '}' {
            depth -= 1;
        }
        pos += 1;
    }
    if depth == 0 {
        Some(pos)
    } else {
        None
    }
}

fn after_brace_of(method: &str, open: usize) -> (r: String)
    requires
        open < method@.len(),
    ensures
        r@ == after_brace(method@, open as int),
{
    let n = str_len(method);
    str_trim(str_trim_end_matches(str_slice(method, open + 1, n).as_str(), '}').as_str())
}

impl NuxtTransformer {
    pub fn new() -> (r: Self) {
        NuxtTransformer
    }

    pub fn has_fetch_calls(context: &TransformationContext) -> (r: bool)
        ensures
            r == has_fetch_calls(context.deep_view()),
    {
        script_has(context, "$fetch")
    }

    pub fn has_nuxt_link_usage(context: &TransformationContext) -> (r: bool)
        ensures
            r == has_nuxt_link(context.deep_view()),
    {
        template_has(context, "nuxt-link") || template_has(context, "NuxtLink")
    }

    pub fn has_config_usage(context: &TransformationContext) -> (r: bool)
        ensures
            r == has_config(context.deep_view()),
    {
        script_has(context, "$config") || methods_mention(&context.script_state.method_details, "$config")
            || list_any_contains(&context.template_state.function_calls, "$config") || list_any_contains(
            &context.template_state.identifiers,
            "$config",
        )
    }

    pub fn has_nuxt_event_bus(context: &TransformationContext) -> (r: bool)
        ensures
            r == has_event_bus(context.deep_view()),
    {
        let calls = &context.script_state.function_calls;
        let methods = &context.script_state.method_details;
        list_any_contains(calls, "$nuxt.$on") || list_any_contains(calls, "$nuxt.$off") || list_any_contains(
            calls,
            "$nuxt.$emit",
        ) || methods_mention(methods, "this.$nuxt.$on") || methods_mention(methods, "this.$nuxt.$off")
            || methods_mention(methods, "this.$nuxt.$emit")
    }

    pub fn has_nuxt_redirect(context: &TransformationContext) -> (r: bool)
        ensures
            r == has_redirect(context.deep_view()),
    {
        script_has(context, "$nuxt.context.redirect") || methods_mention(
            &context.script_state.method_details,
            "this.$nuxt.context.redirect",
        )
    }

    pub fn has_nuxt_refresh(context: &TransformationContext) -> (r: bool)
        ensures
            r == has_refresh(context.deep_view()),
    {
        script_has(context, "$nuxt.refresh") || methods_mention(
            &context.script_state.method_details,
            "this.$nuxt.refresh",
        )
    }

    pub fn should_apply(context: &TransformationContext) -> (r: bool)
        ensures
            r == applies(context.deep_view()),
    {
        context.script_state.fetch_method.is_some() || Self::has_fetch_calls(context)
            || context.script_state.nuxt_i18n.is_some() || context.script_state.async_data_method.is_some()
            || Self::has_nuxt_event_bus(context) || Self::has_config_usage(context)
            || Self::has_nuxt_link_usage(context) || Self::has_nuxt_redirect(context)
            || Self::has_nuxt_refresh(context)
    }

    /// The object that follows `paths:` in the localisation option.
    pub fn extract_paths_from_nuxt_i18n(nuxt_i18n_content: &str) -> (r: Option<String>)
        ensures
            r.deep_view() == i18n_paths(nuxt_i18n_content@),
    {
        proof {
            reveal_strlit("paths:");
            reveal_strlit("{");
        }
        match str_find(nuxt_i18n_content, "paths:") {
            Some(at) => {
                let n = str_len(nuxt_i18n_content);
                let section = str_slice(nuxt_i18n_content, at + 6, n);
                match str_find(section.as_str(), "{") {
                    Some(open) => {
                        let chars = to_chars(section.as_str());
                        match find_brace_end(&chars, open + 1) {
                            Some(end) => Some(str_slice(section.as_str(), open, end)),
                            None => None,
                        }
                    },
                    None => None,
                }
            },
            None => None,
        }
    }

    /// The paths object, one entry on each line.
    pub fn format_paths_object(paths_content: &str) -> (r: String)
        ensures
            r@ == formatted_paths(paths_content@),
    {
        let content = str_trim_end_matches(
            str_trim_start_matches(str_trim(paths_content).as_str(), '{').as_str(),
            '}',
        );
        let lines = str_lines(content.as_str());
        let mut out = owned("{\n");
        let ghost all = lines.deep_view();
        let mut i: usize = 0;
        while i < lines.len()
            invariant
                i <= lines.len(),
                all == lines.deep_view(),
                path_entries_from(all, 0, "{\n"@) == path_entries_from(all, i as int, out@),
            decreases lines.len() - i,
        {
            assert(all[i as int] == lines@[i as int]@);
            let line = str_trim(lines[i].as_str());
            if str_len(line.as_str()) > 0 && str_contains(line.as_str(), ":") {
                out.append("  ");
                out.append(str_trim_end_matches(line.as_str(), ',').as_str());
                out.append(",\n");
            }
            i += 1;
        }
        out.append("}");
        out
    }

    /// The script block that exports the localised paths.
    pub fn generate_i18n_script(context: &TransformationContext) -> (r: Option<String>)
        ensures
            r.deep_view() == i18n_script(context.deep_view()),
    {
        match &context.script_state.nuxt_i18n {
            Some(content) => match Self::extract_paths_from_nuxt_i18n(content.as_str()) {
                Some(paths) => Some(
                    concat3(
                        "<script>\nexport const i18n = ",
                        Self::format_paths_object(paths.as_str()).as_str(),
                        ";\n</script>",
                    ),
                ),
                None => None,
            },
            None => None,
        }
    }

    /// The hook that calls `fetch` once the component is mounted.
    pub fn generate_fetch_hook(context: &TransformationContext) -> (r: Vec<String>)
        ensures
            r.deep_view() == fetch_hook(context.deep_view()),
    {
        let mut out: Vec<String> = Vec::new();
        match &context.script_state.fetch_method {
            Some(method) => {
                if method.is_async {
                    push_deep(&mut out, owned("onMounted(async () => {"));
                } else {
                    push_deep(&mut out, owned("onMounted(() => {"));
                }
                push_deep(&mut out, owned("  fetch();"));
                push_deep(&mut out, owned("});"));
                push_deep(&mut out, owned(""));
                assert(out.deep_view() =~= fetch_hook(context.deep_view()));
                out
            },
            None => {
                assert(out.deep_view() =~= Seq::empty());
                out
            },
        }
    }

    /// The lines that declare `fetch`.
    pub fn generate_fetch_method(context: &TransformationContext, config: &TransformerConfig) -> (r: Vec<
        String,
    >)
        ensures
            r.deep_view() == fetch_lines(context.deep_view(), config.deep_view()),
    {
        let mut out: Vec<String> = Vec::new();
        match &context.script_state.fetch_method {
            Some(method) => {
                if method.is_async {
                    push_deep(&mut out, owned("const fetch = async () => {"));
                    assert(out.deep_view() =~= seq!["const fetch = async () => {"@]);
                } else {
                    push_deep(&mut out, owned("const fetch = () => {"));
                    assert(out.deep_view() =~= seq!["const fetch = () => {"@]);
                }
                push_body(&mut out, context, config, method.body.as_str(), "  ");
                push_deep(&mut out, owned("};"));
                out
            },
            None => {
                assert(out.deep_view() =~= Seq::empty());
                out
            },
        }
    }

    /// The parameter list of the `asyncData` method.
    pub fn extract_async_data_params(method_content: &str) -> (r: String)
        ensures
            r@ == async_data_params(method_content@),
    {
        proof {
            reveal_strlit("(");
            reveal_strlit(")");
        }
        // taking the length first shows that positions in the text can be added to
        let _length = str_len(method_content);
        match (str_find(method_content, "("), str_find(method_content, ")")) {
            (Some(open), Some(close)) => {
                if open + 1 <= close {
                    str_trim(str_slice(method_content, open + 1, close).as_str())
                } else {
                    owned("$axios, app, redirect, params")
                }
            },
            _ => owned("$axios, app, redirect, params"),
        }
    }

    /// The body of the `asyncData` method.
    pub fn extract_async_data_body(method_content: &str) -> (r: String)
        ensures
            r@ == async_data_body(method_content@),
    {
        proof {
            reveal_strlit("{");
            reveal_strlit(")");
        }
        let close = str_find(method_content, ")");
        let after = match close {
            Some(c) => str_find_from(method_content, "{", c),
            None => None,
        };
        match after {
            Some(open) => after_brace_of(method_content, open),
            None => match str_find(method_content, "{") {
                Some(open) => after_brace_of(method_content, open),
                None => owned(method_content),
            },
        }
    }

    /// The properties of the object that a body returns last.
    pub fn extract_returned_properties(body: &str) -> (r: Vec<String>)
        ensures
            r.deep_view() == returned_properties(body@),
    {
        proof {
            reveal_strlit("{");
            reveal_strlit("}");
            reveal_strlit("return");
            reveal_strlit(":");
        }
        let mut out: Vec<String> = Vec::new();
        assert(out.deep_view() =~= Seq::empty());
        match str_rfind(body, "return") {
            Some(at) => {
                let n = str_len(body);
                let section = str_slice(body, at, n);
                // taking the length first shows that positions in the text can be added to
                let _length = str_len(section.as_str());
                match (str_find(section.as_str(), "{"), str_find(section.as_str(), "}")) {
                    (Some(open), Some(close)) => {
                        if open + 1 <= close {
                            let lines = str_lines(str_slice(section.as_str(), open + 1, close).as_str());
                            let ghost all = lines.deep_view();
                            let mut i: usize = 0;
                            while i < lines.len()
                                invariant
                                    i <= lines.len(),
                                    all == lines.deep_view(),
                                    returned_from(all, 0, Seq::empty()) == returned_from(
                                        all,
                                        i as int,
                                        out.deep_view(),
                                    ),
                                decreases lines.len() - i,
                            {
                                assert(all[i as int] == lines@[i as int]@);
                                let line = str_trim_end_matches(str_trim(lines[i].as_str()).as_str(), ',');
                                if str_len(line.as_str()) > 0 {
                                    proof {
                                        reveal_strlit(":");
                                    }
                                    match str_find(line.as_str(), ":") {
                                        Some(colon) => {
                                            push_deep(
                                                &mut out,
                                                str_trim(str_slice(line.as_str(), 0, colon).as_str()),
                                            );
                                        },
                                        None => {
                                            push_deep(&mut out, line);
                                        },
                                    }
                                }
                                i += 1;
                            }
                            out
                        } else {
                            out
                        }
                    },
                    _ => out,
                }
            },
            None => out,
        }
    }

    /// The reactive declarations that take their value from `asyncData`.
    pub fn generate_async_data_refs(context: &TransformationContext) -> (r: Vec<(String, (String, u8))>)
        ensures
            r.deep_view() == async_data_refs(context.deep_view()),
    {
        let mut out: Vec<(String, (String, u8))> = Vec::new();
        assert(out.deep_view() =~= Seq::empty());
        match &context.script_state.async_data_method {
            Some(method) => {
                let body = Self::extract_async_data_body(method.as_str());
                let properties = Self::extract_returned_properties(body.as_str());
                let names = data_names_of(&context.script_state.data_properties);
                let ghost all = properties.deep_view();
                let ghost data = context.deep_view().script.data_properties;
                let mut i: usize = 0;
                while i < properties.len()
                    invariant
                        i <= properties.len(),
                        all == properties.deep_view(),
                        names.deep_view() == data_names(data),
                        async_refs_from(data, all, 0, Seq::empty()) == async_refs_from(
                            data,
                            all,
                            i as int,
                            out.deep_view(),
                        ),
                    decreases properties.len() - i,
                {
                    assert(all[i as int] == properties@[i as int]@);
                    let p = properties[i].as_str();
                    if list_contains(&names, p) {
                        table_assign(&mut out, p, concat5("const ", p, " = ref(data.", p, ");").as_str(), 10);
                    }
                    i += 1;
                }
                out
            },
            None => out,
        }
    }

    /// The lines that call `useAsyncData`.
    pub fn generate_async_data_method(context: &TransformationContext) -> (r: Vec<String>)
        ensures
            r.deep_view() == async_data_lines(context.deep_view()),
    {
        let mut out: Vec<String> = Vec::new();
        match &context.script_state.async_data_method {
            Some(method) => {
                let params = Self::extract_async_data_params(method.as_str());
                let body = Self::extract_async_data_body(method.as_str());
                push_deep(
                    &mut out,
                    concat3("const data = await useAsyncData(async (", params.as_str(), ") => {"),
                );
                assert(out.deep_view() =~= seq![
                    "const data = await useAsyncData(async ("@ + params@ + ") => {"@,
                ]);
                push_indented(&mut out, body.as_str(), "  ");
                push_deep(&mut out, owned("});"));
                push_deep(&mut out, owned(""));
                out
            },
            None => {
                assert(out.deep_view() =~= Seq::empty());
                out
            },
        }
    }

    fn compat(context: &TransformationContext) -> (r: Vec<String>)
        ensures
            r.deep_view() == compat_functions(context.deep_view()),
    {
        let mut used: Vec<String> = Vec::new();
        assert(used.deep_view() =~= Seq::empty());
        if Self::has_nuxt_event_bus(context) {
            push_deep(&mut used, owned("eventBus"));
        }
        if Self::has_nuxt_redirect(context) {
            push_deep(&mut used, owned("redirect"));
        }
        if Self::has_nuxt_refresh(context) {
            push_deep(&mut used, owned("refresh"));
        }
        if Self::has_config_usage(context) {
            push_deep(&mut used, owned("runtimeConfig"));
        }
        used
    }

    pub fn build(context: &TransformationContext, config: &TransformerConfig) -> (r: TransformationResult)
        ensures
            r.deep_view() == output(context.deep_view(), config.deep_view()),
    {
        let mut result = TransformationResult::new();
        if Self::has_config_usage(context) {
            result.add_template_replacement("$config", "runtimeConfig");
        }
        let used = Self::compat(context);
        if used.len() > 0 {
            result.add_import("@/composables/useNuxtCompat", "useNuxtCompat");
            result.add_setup(concat3("const { ", str_join(&used, ", ").as_str(), " } = useNuxtCompat();\n"));
        }
        if context.script_state.fetch_method.is_some() {
            result.add_import("vue", "onMounted");
            result.extend_methods(&Self::generate_fetch_method(context, config));
            result.extend_lifecycle_hooks(&Self::generate_fetch_hook(context));
        }
        if context.script_state.async_data_method.is_some() {
            result.add_import("@/composables/useAsyncData", "useAsyncData");
            result.extend_setup_code(Self::generate_async_data_method(context));
            result.data_refs = Self::generate_async_data_refs(context);
        }
        match Self::generate_i18n_script(context) {
            Some(script) => {
                result.add_additional_script(script);
            },
            None => {},
        }
        if Self::has_nuxt_link_usage(context) {
            result.add_template_replacement("nuxt-link", "router-link");
            result.add_template_replacement("NuxtLink", "router-link");
        }
        result
    }

    pub fn rewrite_body(body: &str, context: &TransformationContext) -> (r: String)
        ensures
            r@ == body_after(body@, context.deep_view()),
    {
        let b1 = if Self::has_fetch_calls(context) {
            str_replace(str_replace(body, "this.$fetch", "fetch").as_str(), "$fetch", "fetch")
        } else {
            owned(body)
        };
        let b2 = if Self::has_nuxt_event_bus(context) {
            let c1 = str_replace(b1.as_str(), "this.$nuxt.$on", "eventBus.on");
            let c2 = str_replace(c1.as_str(), "this.$nuxt.$off", "eventBus.off");
            str_replace(c2.as_str(), "this.$nuxt.$emit", "eventBus.emit")
        } else {
            b1
        };
        let b3 = if Self::has_config_usage(context) {
            str_replace(
                str_replace(b2.as_str(), "this.$config", "runtimeConfig").as_str(),
                "$config",
                "runtimeConfig",
            )
        } else {
            b2
        };
        let b4 = if Self::has_nuxt_redirect(context) {
            str_replace(b3.as_str(), "this.$nuxt.context.redirect", "redirect")
        } else {
            b3
        };
        if Self::has_nuxt_refresh(context) {
            str_replace(b4.as_str(), "this.$nuxt.refresh", "refresh")
        } else {
            b4
        }
    }
}

impl Default for NuxtTransformer {
    fn default() -> Self {
        NuxtTransformer
    }
}

impl Transformer for NuxtTransformer {
    open spec fn applies(&self, context: ContextModel, config: TransformerConfigModel) -> bool {
        applies(context)
    }

    open spec fn output(&self, context: ContextModel, config: TransformerConfigModel) -> ResultModel {
        output(context, config)
    }

    open spec fn body_after(
        &self,
        body: Seq<char>,
        context: ContextModel,
        config: TransformerConfigModel,
    ) -> Seq<char> {
        body_after(body, context)
    }

    open spec fn label(&self) -> Seq<char> {
        "nuxt"@
    }

    fn name(&self) -> &'static str {
        "nuxt"
    }

    fn should_transform(&self, context: &TransformationContext, config: &TransformerConfig) -> bool {
        Self::should_apply(context)
    }

    fn transform(&self, context: &TransformationContext, config: &TransformerConfig) -> TransformationResult {
        Self::build(context, config)
    }

    fn transform_body(&self, body: &str, context: &TransformationContext, config: &TransformerConfig) -> String {
        Self::rewrite_body(body, context)
    }
}

} // verus!
