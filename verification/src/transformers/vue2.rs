//! The unit for what only the older component API has: lifecycle options,
//! `$set`, `$delete`, `$nextTick` and `$refs`.

use super::composition::{body_lines, push_body};
use super::Transformer;
use crate::extract::{is_lifecycle, is_lifecycle_name};
use crate::imports::{distinct_names, sort_distinct};
use crate::model::{
    ComputedDetail, ComputedModel, ContextModel, MethodDetail, MethodModel, ResultModel, TransformationContext,
    TransformationResult, TransformerConfig, TransformerConfigModel,
};
use crate::patterns::{
    all_captures, capture_group, collect_distinct_groups, distinct_groups_from, group, pattern_captures,
    replace_matches, replaced_with, Fill,
};
use crate::result::empty_result;
use crate::strs::{
    concat2, concat3, concat4, concat5, owned, str_contains, str_ends_with, str_eq, str_len, str_lowercase,
    str_replace, str_slice, str_split, str_starts_with, str_trim_quotes, str_uppercase,
};
use crate::text;
use crate::text::push_deep;
use vstd::prelude::*;

verus! {

/// The unit for the older component API.
#[derive(Debug, Clone, Copy)]
pub struct Vue2Transformer;

pub const VUE2_SET_THIS_PATTERN: &'static str =
    "this\\.\\$set\\(this\\.(\\w+),\\s*([^,]+),\\s*([^)]+)\\)";

pub const VUE2_SET_VALUE_PATTERN: &'static str =
    "this\\.\\$set\\((\\w+)\\.value,\\s*([^,]+),\\s*([^)]+)\\)";

pub const VUE2_DELETE_PATTERN: &'static str = "this\\.\\$delete\\(this\\.(\\w+),\\s*([^)]+)\\)";

pub const VUE2_REFS_DOT_PATTERN: &'static str = "\\$refs\\.([a-zA-Z_$][a-zA-Z0-9_$]*)";

pub const VUE2_REFS_BRACKET_PATTERN: &'static str = "\\$refs\\[['\"]([^'\"]+)['\"]\\]";

/// The member of a reactive object that a key names: by a dot for a quoted
/// key, in brackets for any other.
pub open spec fn keyed_access(object: Seq<char>, key: Seq<char>) -> Seq<char> {
    if text::starts_with(key, "'"@) || text::starts_with(key, "\""@) {
        object + ".value."@ + text::trim_quotes(key)
    } else {
        object + ".value["@ + key + "]"@
    }
}

fn keyed_access_of(object: &str, key: &str) -> (r: String)
    ensures
        r@ == keyed_access(object@, key@),
{
    if str_starts_with(key, "'") || str_starts_with(key, "\"") {
        concat3(object, ".value.", str_trim_quotes(key).as_str())
    } else {
        concat4(object, ".value[", key, "]")
    }
}

/// The rule for a `$set` call: an assignment to the member.
#[derive(Debug, Clone, Copy)]
pub struct SetFill;

impl Fill for SetFill {
    open spec fn fill(&self, caps: Seq<Option<Seq<char>>>, before: Seq<char>) -> Seq<char> {
        keyed_access(group(caps, 1), group(caps, 2)) + " = "@ + group(caps, 3)
    }

    fn make(&self, caps: &Vec<Option<String>>, before: &str) -> (r: String) {
        let access = keyed_access_of(capture_group(caps, 1).as_str(), capture_group(caps, 2).as_str());
        concat3(access.as_str(), " = ", capture_group(caps, 3).as_str())
    }
}

/// The rule for a `$delete` call: a `delete` of the member.
#[derive(Debug, Clone, Copy)]
pub struct DeleteFill;

impl Fill for DeleteFill {
    open spec fn fill(&self, caps: Seq<Option<Seq<char>>>, before: Seq<char>) -> Seq<char> {
        "delete "@ + keyed_access(group(caps, 1), group(caps, 2))
    }

    fn make(&self, caps: &Vec<Option<String>>, before: &str) -> (r: String) {
        let access = keyed_access_of(capture_group(caps, 1).as_str(), capture_group(caps, 2).as_str());
        concat2("delete ", access.as_str())
    }
}

/// A word with its first letter in upper case and the rest in lower case.
pub open spec fn capitalized(word: Seq<char>) -> Seq<char> {
    if word.len() == 0 {
        word
    } else {
        text::uppercase(word.subrange(0, 1)) + text::lowercase(word.subrange(1, word.len() as int))
    }
}

/// The words from index `i` on, capitalized but for the very first, joined
/// to `acc`.
pub open spec fn camel_from(words: Seq<Seq<char>>, i: int, acc: Seq<char>) -> Seq<char>
    decreases words.len() - i,
{
    if i < 0 || i >= words.len() {
        acc
    } else if i == 0 {
        camel_from(words, i + 1, acc + words[i])
    } else {
        camel_from(words, i + 1, acc + capitalized(words[i]))
    }
}

/// The variable that holds a template ref: the ref's name in camel case,
/// ending in `Ref`.
pub open spec fn ref_variable(name: Seq<char>) -> Seq<char> {
    let camel = camel_from(text::split(name, '-'), 0, Seq::empty());
    if text::ends_with(camel, "Ref"@) {
        camel
    } else {
        camel + "Ref"@
    }
}

/// The template refs that the bodies of the methods from index `i` on
/// name, each once, appended to `acc`.
pub open spec fn refs_from(methods: Seq<MethodModel>, i: int, acc: Seq<Seq<char>>) -> Seq<Seq<char>>
    decreases methods.len() - i,
{
    if i < 0 || i >= methods.len() {
        acc
    } else {
        let dotted = distinct_groups_from(all_captures(VUE2_REFS_DOT_PATTERN@, methods[i].body), 1, 0, acc);
        refs_from(
            methods,
            i + 1,
            distinct_groups_from(all_captures(VUE2_REFS_BRACKET_PATTERN@, methods[i].body), 1, 0, dotted),
        )
    }
}

/// The template refs that the methods name.
pub open spec fn template_refs(context: ContextModel) -> Seq<Seq<char>> {
    refs_from(context.script.method_details, 0, Seq::empty())
}

/// Whether a body uses something that only the older API has.
pub open spec fn is_vue2_body(body: Seq<char>) -> bool {
    text::contains(body, "$set("@) || text::contains(body, "$delete("@) || text::contains(
        body,
        "$nextTick("@,
    ) || text::contains(body, "this.$refs"@) || text::contains(body, "$refs"@)
}

/// Whether a method from index `i` on is a lifecycle hook or uses the older
/// API.
pub open spec fn any_vue2_from(methods: Seq<MethodModel>, i: int) -> bool
    decreases methods.len() - i,
{
    if i < 0 || i >= methods.len() {
        false
    } else {
        is_vue2_body(methods[i].body) || is_lifecycle(methods[i].name) || any_vue2_from(methods, i + 1)
    }
}

pub open spec fn applies(context: ContextModel) -> bool {
    any_vue2_from(context.script.method_details, 0) || template_refs(context).len() > 0
}

/// The hook of the newer API that takes the body of a lifecycle option;
/// `setup` for what runs at once, and the empty text for any other name.
pub open spec fn hook_of(name: Seq<char>) -> Seq<char> {
    if name == "beforeCreate"@ || name == "created"@ {
        "setup"@
    } else if name == "beforeMount"@ {
        "onBeforeMount"@
    } else if name == "mounted"@ {
        "onMounted"@
    } else if name == "beforeUpdate"@ {
        "onBeforeUpdate"@
    } else if name == "updated"@ {
        "onUpdated"@
    } else if name == "beforeUnmount"@ || name == "beforeDestroy"@ {
        "onBeforeUnmount"@
    } else if name == "destroyed"@ || name == "unmounted"@ {
        "onUnmounted"@
    } else if name == "activated"@ {
        "onActivated"@
    } else if name == "deactivated"@ {
        "onDeactivated"@
    } else {
        ""@
    }
}

/// The hooks in the order in which their blocks are written.
pub open spec fn hook_order() -> Seq<Seq<char>> {
    seq![
        "setup"@,
        "onBeforeMount"@,
        "onMounted"@,
        "onBeforeUpdate"@,
        "onUpdated"@,
        "onBeforeUnmount"@,
        "onUnmounted"@,
        "onActivated"@,
        "onDeactivated"@,
    ]
}

/// The hooks to import for the methods from index `i` on, appended.
pub open spec fn hook_imports_from(methods: Seq<MethodModel>, i: int, acc: Seq<Seq<char>>) -> Seq<Seq<char>>
    decreases methods.len() - i,
{
    if i < 0 || i >= methods.len() {
        acc
    } else {
        let hook = hook_of(methods[i].name);
        if hook.len() == 0 || hook == "setup"@ {
            hook_imports_from(methods, i + 1, acc)
        } else {
            hook_imports_from(methods, i + 1, acc.push(hook))
        }
    }
}

/// Whether a method from index `i` on goes into the block of `hook`.
pub open spec fn any_in_hook_from(methods: Seq<MethodModel>, hook: Seq<char>, i: int) -> bool
    decreases methods.len() - i,
{
    if i < 0 || i >= methods.len() {
        false
    } else {
        hook_of(methods[i].name) == hook || any_in_hook_from(methods, hook, i + 1)
    }
}

/// The bodies of the methods of `hook` from index `i` on, rewritten and
/// appended to `acc`. What runs in `setup` is not indented, and a blank
/// line follows each body.
pub open spec fn hook_bodies_from(
    context: ContextModel,
    config: TransformerConfigModel,
    methods: Seq<MethodModel>,
    hook: Seq<char>,
    i: int,
    acc: Seq<Seq<char>>,
) -> Seq<Seq<char>>
    decreases methods.len() - i,
{
    if i < 0 || i >= methods.len() {
        acc
    } else if hook_of(methods[i].name) == hook {
        if hook == "setup"@ {
            hook_bodies_from(
                context,
                config,
                methods,
                hook,
                i + 1,
                body_lines(context, config, methods[i].body, ""@, acc).push(""@),
            )
        } else {
            hook_bodies_from(
                context,
                config,
                methods,
                hook,
                i + 1,
                body_lines(context, config, methods[i].body, "  "@, acc),
            )
        }
    } else {
        hook_bodies_from(context, config, methods, hook, i + 1, acc)
    }
}

/// The block of one hook, appended to `acc`; nothing when no method goes
/// into it.
pub open spec fn hook_block(
    context: ContextModel,
    config: TransformerConfigModel,
    hook: Seq<char>,
    acc: Seq<Seq<char>>,
) -> Seq<Seq<char>> {
    let methods = context.script.method_details;
    if !any_in_hook_from(methods, hook, 0) {
        acc
    } else if hook == "setup"@ {
        hook_bodies_from(context, config, methods, hook, 0, acc)
    } else {
        hook_bodies_from(context, config, methods, hook, 0, acc.push(hook + "(() => {"@)).push("});"@).push(
            ""@,
        )
    }
}

/// The blocks of the hooks from index `i` on, appended to `acc`.
pub open spec fn hook_blocks_from(
    context: ContextModel,
    config: TransformerConfigModel,
    hooks: Seq<Seq<char>>,
    i: int,
    acc: Seq<Seq<char>>,
) -> Seq<Seq<char>>
    decreases hooks.len() - i,
{
    if i < 0 || i >= hooks.len() {
        acc
    } else {
        hook_blocks_from(context, config, hooks, i + 1, hook_block(context, config, hooks[i], acc))
    }
}

/// Whether a method body from index `i` on calls `this.$nextTick(`.
pub open spec fn any_tick_method_from(methods: Seq<MethodModel>, i: int) -> bool
    decreases methods.len() - i,
{
    if i < 0 || i >= methods.len() {
        false
    } else {
        text::contains(methods[i].body, "this.$nextTick("@) || any_tick_method_from(methods, i + 1)
    }
}

/// Whether a computed property calls `this.$nextTick(`: in its setter when
/// it has one, else in its getter.
pub open spec fn computed_ticks(detail: ComputedModel) -> bool {
    match detail.setter {
        Some(setter) => text::contains(setter, "this.$nextTick("@),
        None => match detail.getter {
            Some(getter) => text::contains(getter, "this.$nextTick("@),
            None => false,
        },
    }
}

pub open spec fn any_tick_computed_from(details: Seq<ComputedModel>, i: int) -> bool
    decreases details.len() - i,
{
    if i < 0 || i >= details.len() {
        false
    } else {
        computed_ticks(details[i]) || any_tick_computed_from(details, i + 1)
    }
}

pub open spec fn uses_next_tick(context: ContextModel) -> bool {
    any_tick_method_from(context.script.method_details, 0) || any_tick_computed_from(
        context.script.computed_details,
        0,
    )
}

/// The declarations of the template refs from index `i` on, appended.
pub open spec fn ref_declarations_from(refs: Seq<Seq<char>>, i: int, acc: ResultModel) -> ResultModel
    decreases refs.len() - i,
{
    if i < 0 || i >= refs.len() {
        acc
    } else {
        ref_declarations_from(
            refs,
            i + 1,
            acc.with_reactive_state(
                "const "@ + ref_variable(refs[i]) + " = useTemplateRef('"@ + refs[i] + "');"@,
            ),
        )
    }
}

/// What the unit contributes.
pub open spec fn output(context: ContextModel, config: TransformerConfigModel) -> ResultModel {
    let methods = context.script.method_details;
    let hooks = hook_imports_from(methods, 0, Seq::empty());
    let r0 = empty_result();
    let r1 = if hooks.len() > 0 {
        r0.with_imports("vue"@, distinct_names(hooks))
    } else {
        r0
    };
    let r2 = r1.with_lifecycle_lines(hook_blocks_from(context, config, hook_order(), 0, Seq::empty()));
    let r3 = if uses_next_tick(context) {
        r2.with_import("vue"@, "nextTick"@)
    } else {
        r2
    };
    let refs = template_refs(context);
    if refs.len() > 0 {
        ref_declarations_from(refs, 0, r3.with_import("vue"@, "useTemplateRef"@))
    } else {
        r3
    }
}

/// A body with the accesses to one template ref turned into accesses to
/// its variable.
pub open spec fn ref_rewritten(body: Seq<char>, name: Seq<char>) -> Seq<char> {
    let access = ref_variable(name) + ".value"@;
    let b1 = text::replace(body, "this.$refs."@ + name, access);
    let b2 = text::replace(b1, "this.$refs?."@ + name, access);
    let b3 = text::replace(b2, "this.$refs['"@ + name + "']"@, access);
    let b4 = text::replace(b3, "this.$refs[\""@ + name + "\"]"@, access);
    let b5 = text::replace(b4, "$refs."@ + name, access);
    let b6 = text::replace(b5, "$refs?."@ + name, access);
    let b7 = text::replace(b6, "$refs['"@ + name + "']"@, access);
    text::replace(b7, "$refs[\""@ + name + "\"]"@, access)
}

pub open spec fn refs_rewritten_from(body: Seq<char>, refs: Seq<Seq<char>>, i: int) -> Seq<char>
    decreases refs.len() - i,
{
    if i < 0 || i >= refs.len() {
        body
    } else {
        refs_rewritten_from(ref_rewritten(body, refs[i]), refs, i + 1)
    }
}

/// A body after the unit's rewrite.
pub open spec fn body_after(body: Seq<char>, context: ContextModel) -> Seq<char> {
    let b1 = replaced_with(&SetFill, VUE2_SET_THIS_PATTERN@, body);
    let b2 = replaced_with(&SetFill, VUE2_SET_VALUE_PATTERN@, b1);
    let b3 = replaced_with(&DeleteFill, VUE2_DELETE_PATTERN@, b2);
    let b4 = text::replace(b3, "this.$nextTick("@, "nextTick("@);
    let b5 = text::replace(b4, "$nextTick("@, "nextTick("@);
    refs_rewritten_from(b5, template_refs(context), 0)
}

fn capitalize(word: &str) -> (r: String)
    ensures
        r@ == capitalized(word@),
{
    let n = str_len(word);
    if n == 0 {
        owned(word)
    } else {
        let first = str_uppercase(str_slice(word, 0, 1).as_str());
        let rest = str_lowercase(str_slice(word, 1, n).as_str());
        concat2(first.as_str(), rest.as_str())
    }
}

fn hook_name(name: &str) -> (r: &'static str)
    ensures
        r@ == hook_of(name@),
{
    if str_eq(name, "beforeCreate") || str_eq(name, "created") {
        "setup"
    } else if str_eq(name, "beforeMount") {
        "onBeforeMount"
    } else if str_eq(name, "mounted") {
        "onMounted"
    } else if str_eq(name, "beforeUpdate") {
        "onBeforeUpdate"
    } else if str_eq(name, "updated") {
        "onUpdated"
    } else if str_eq(name, "beforeUnmount") || str_eq(name, "beforeDestroy") {
        "onBeforeUnmount"
    } else if str_eq(name, "destroyed") || str_eq(name, "unmounted") {
        "onUnmounted"
    } else if str_eq(name, "activated") {
        "onActivated"
    } else if str_eq(name, "deactivated") {
        "onDeactivated"
    } else {
        ""
    }
}

fn computed_has_tick(detail: &ComputedDetail) -> (r: bool)
    ensures
        r == computed_ticks(detail.deep_view()),
{
    match &detail.setter {
        Some(setter) => str_contains(setter.as_str(), "this.$nextTick("),
        None => match &detail.getter {
            Some(getter) => str_contains(getter.as_str(), "this.$nextTick("),
            None => false,
        },
    }
}

impl Vue2Transformer {
    pub fn new() -> (r: Self) {
        Vue2Transformer
    }

    /// Tells whether a body uses `$set`, `$delete` or `$nextTick`.
    pub fn has_vue2_methods(body: &str) -> (r: bool)
        ensures
            r == (text::contains(body@, "$set("@) || text::contains(body@, "$delete("@) || text::contains(
                body@,
                "$nextTick("@,
            )),
    {
        str_contains(body, "$set(") || str_contains(body, "$delete(") || str_contains(body, "$nextTick(")
    }

    /// Tells whether a body uses `$refs`.
    pub fn has_refs_usage(body: &str) -> (r: bool)
        ensures
            r == (text::contains(body@, "this.$refs"@) || text::contains(body@, "$refs"@)),
    {
        str_contains(body, "this.$refs") || str_contains(body, "$refs")
    }

    /// The variable that holds a template ref.
    pub fn ref_name_to_variable(ref_name: &str) -> (r: String)
        ensures
            r@ == ref_variable(ref_name@),
    {
        let words = str_split(ref_name, '-');
        let mut camel = String::new();
        let ghost all = words.deep_view();
        let mut i: usize = 0;
        while i < words.len()
            invariant
                i <= words.len(),
                all == words.deep_view(),
                camel_from(all, 0, Seq::empty()) == camel_from(all, i as int, camel@),
            decreases words.len() - i,
        {
            assert(all[i as int] == words@[i as int]@);
            if i == 0 {
                camel.append(words[i].as_str());
            } else {
                camel.append(capitalize(words[i].as_str()).as_str());
            }
            i += 1;
        }
        if str_ends_with(camel.as_str(), "Ref") {
            camel
        } else {
            concat2(camel.as_str(), "Ref")
        }
    }

    /// The template refs that the methods name.
    pub fn extract_template_refs(context: &TransformationContext) -> (r: Vec<String>)
        ensures
            r.deep_view() == template_refs(context.deep_view()),
    {
        let methods = &context.script_state.method_details;
        let mut refs: Vec<String> = Vec::new();
        assert(refs.deep_view() =~= Seq::empty());
        let ghost all = methods.deep_view();
        let mut i: usize = 0;
        while i < methods.len()
            invariant
                i <= methods.len(),
                all == methods.deep_view(),
                refs_from(all, 0, Seq::empty()) == refs_from(all, i as int, refs.deep_view()),
            decreases methods.len() - i,
        {
            assert(all[i as int] == methods@[i as int].deep_view());
            let body = methods[i].body.as_str();
            collect_distinct_groups(&pattern_captures(VUE2_REFS_DOT_PATTERN, body), 1, &mut refs);
            collect_distinct_groups(&pattern_captures(VUE2_REFS_BRACKET_PATTERN, body), 1, &mut refs);
            i += 1;
        }
        refs
    }

    pub fn context_has_template_refs(context: &TransformationContext) -> (r: bool)
        ensures
            r == (template_refs(context.deep_view()).len() > 0),
    {
        Self::extract_template_refs(context).len() > 0
    }

    /// Tells whether the unit applies.
    pub fn context_has_vue2_methods(context: &TransformationContext) -> (r: bool)
        ensures
            r == applies(context.deep_view()),
    {
        let methods = &context.script_state.method_details;
        let ghost all = methods.deep_view();
        let mut i: usize = 0;
        while i < methods.len()
            invariant
                i <= methods.len(),
                all == methods.deep_view(),
                all == context.deep_view().script.method_details,
                any_vue2_from(all, 0) == any_vue2_from(all, i as int),
            decreases methods.len() - i,
        {
            assert(all[i as int] == methods@[i as int].deep_view());
            let body = methods[i].body.as_str();
            if Self::has_vue2_methods(body) || Self::has_refs_usage(body) || is_lifecycle_name(
                methods[i].name.as_str(),
            ) {
                return true;
            }
            i += 1;
        }
        Self::context_has_template_refs(context)
    }

    fn hook_imports(methods: &Vec<MethodDetail>) -> (r: Vec<String>)
        ensures
            r.deep_view() == hook_imports_from(methods.deep_view(), 0, Seq::empty()),
    {
        let mut out: Vec<String> = Vec::new();
        assert(out.deep_view() =~= Seq::empty());
        let ghost all = methods.deep_view();
        let mut i: usize = 0;
        while i < methods.len()
            invariant
                i <= methods.len(),
                all == methods.deep_view(),
                hook_imports_from(all, 0, Seq::empty()) == hook_imports_from(all, i as int, out.deep_view()),
            decreases methods.len() - i,
        {
            assert(all[i as int] == methods@[i as int].deep_view());
            let hook = hook_name(methods[i].name.as_str());
            if str_len(hook) > 0 && !str_eq(hook, "setup") {
                push_deep(&mut out, owned(hook));
            }
            i += 1;
        }
        out
    }

    fn any_in_hook(methods: &Vec<MethodDetail>, hook: &str) -> (r: bool)
        ensures
            r == any_in_hook_from(methods.deep_view(), hook@, 0),
    {
        let ghost all = methods.deep_view();
        let mut i: usize = 0;
        while i < methods.len()
            invariant
                i <= methods.len(),
                all == methods.deep_view(),
                any_in_hook_from(all, hook@, 0) == any_in_hook_from(all, hook@, i as int),
            decreases methods.len() - i,
        {
            assert(all[i as int] == methods@[i as int].deep_view());
            if str_eq(hook_name(methods[i].name.as_str()), hook) {
                return true;
            }
            i += 1;
        }
        false
    }

    fn push_hook_bodies(
        out: &mut Vec<String>,
        context: &TransformationContext,
        config: &TransformerConfig,
        hook: &str,
    )
        ensures
            final(out).deep_view() == hook_bodies_from(
                context.deep_view(),
                config.deep_view(),
                context.deep_view().script.method_details,
                hook@,
                0,
                old(out).deep_view(),
            ),
    {
        let methods = &context.script_state.method_details;
        let setup = str_eq(hook, "setup");
        let ghost all = methods.deep_view();
        let mut i: usize = 0;
        while i < methods.len()
            invariant
                i <= methods.len(),
                all == methods.deep_view(),
                setup == (hook@ == "setup"@),
                hook_bodies_from(context.deep_view(), config.deep_view(), all, hook@, 0, old(out).deep_view())
                    == hook_bodies_from(
                    context.deep_view(),
                    config.deep_view(),
                    all,
                    hook@,
                    i as int,
                    out.deep_view(),
                ),
            decreases methods.len() - i,
        {
            assert(all[i as int] == methods@[i as int].deep_view());
            if str_eq(hook_name(methods[i].name.as_str()), hook) {
                if setup {
                    push_body(out, context, config, methods[i].body.as_str(), "");
                    push_deep(out, owned(""));
                } else {
                    push_body(out, context, config, methods[i].body.as_str(), "  ");
                }
            }
            i += 1;
        }
    }

    fn push_hook_block(
        out: &mut Vec<String>,
        context: &TransformationContext,
        config: &TransformerConfig,
        hook: &str,
    )
        ensures
            final(out).deep_view() == hook_block(
                context.deep_view(),
                config.deep_view(),
                hook@,
                old(out).deep_view(),
            ),
    {
        if !Self::any_in_hook(&context.script_state.method_details, hook) {
            return ;
        }
        if str_eq(hook, "setup") {
            Self::push_hook_bodies(out, context, config, hook);
        } else {
            push_deep(out, concat2(hook, "(() => {"));
            Self::push_hook_bodies(out, context, config, hook);
            push_deep(out, owned("});"));
            push_deep(out, owned(""));
        }
    }

    fn hooks_in_order() -> (r: Vec<String>)
        ensures
            r.deep_view() == hook_order(),
    {
        let mut v: Vec<String> = Vec::new();
        v.push(owned("setup"));
        v.push(owned("onBeforeMount"));
        v.push(owned("onMounted"));
        v.push(owned("onBeforeUpdate"));
        v.push(owned("onUpdated"));
        v.push(owned("onBeforeUnmount"));
        v.push(owned("onUnmounted"));
        v.push(owned("onActivated"));
        v.push(owned("onDeactivated"));
        assert(v.deep_view() =~= hook_order());
        v
    }

    fn lifecycle_lines(context: &TransformationContext, config: &TransformerConfig) -> (r: Vec<String>)
        ensures
            r.deep_view() == hook_blocks_from(
                context.deep_view(),
                config.deep_view(),
                hook_order(),
                0,
                Seq::empty(),
            ),
    {
        let hooks = Self::hooks_in_order();
        let mut out: Vec<String> = Vec::new();
        assert(out.deep_view() =~= Seq::empty());
        let ghost all = hooks.deep_view();
        let mut i: usize = 0;
        while i < hooks.len()
            invariant
                i <= hooks.len(),
                all == hooks.deep_view(),
                hook_blocks_from(context.deep_view(), config.deep_view(), all, 0, Seq::empty())
                    == hook_blocks_from(
                    context.deep_view(),
                    config.deep_view(),
                    all,
                    i as int,
                    out.deep_view(),
                ),
            decreases hooks.len() - i,
        {
            assert(all[i as int] == hooks@[i as int]@);
            Self::push_hook_block(&mut out, context, config, hooks[i].as_str());
            i += 1;
        }
        out
    }

    fn has_next_tick(context: &TransformationContext) -> (r: bool)
        ensures
            r == uses_next_tick(context.deep_view()),
    {
        let methods = &context.script_state.method_details;
        let ghost all = methods.deep_view();
        let mut i: usize = 0;
        while i < methods.len()
            invariant
                i <= methods.len(),
                all == methods.deep_view(),
                all == context.deep_view().script.method_details,
                any_tick_method_from(all, 0) == any_tick_method_from(all, i as int),
            decreases methods.len() - i,
        {
            assert(all[i as int] == methods@[i as int].deep_view());
            if str_contains(methods[i].body.as_str(), "this.$nextTick(") {
                return true;
            }
            i += 1;
        }
        let details = &context.script_state.computed_details;
        let ghost every = details.deep_view();
        let mut k: usize = 0;
        while k < details.len()
            invariant
                k <= details.len(),
                every == details.deep_view(),
                every == context.deep_view().script.computed_details,
                !any_tick_method_from(context.deep_view().script.method_details, 0),
                any_tick_computed_from(every, 0) == any_tick_computed_from(every, k as int),
            decreases details.len() - k,
        {
            assert(every[k as int] == details@[k as int].deep_view());
            if computed_has_tick(&details[k]) {
                return true;
            }
            k += 1;
        }
        false
    }

    pub fn build(context: &TransformationContext, config: &TransformerConfig) -> (r: TransformationResult)
        ensures
            r.deep_view() == output(context.deep_view(), config.deep_view()),
    {
        let mut result = TransformationResult::new();
        let hooks = Self::hook_imports(&context.script_state.method_details);
        if hooks.len() > 0 {
            result.add_imports("vue", &sort_distinct(&hooks));
        }
        result.extend_lifecycle_hooks(&Self::lifecycle_lines(context, config));
        if Self::has_next_tick(context) {
            result.add_import("vue", "nextTick");
        }
        let refs = Self::extract_template_refs(context);
        if refs.len() > 0 {
            result.add_import("vue", "useTemplateRef");
            let ghost all = refs.deep_view();
            let ghost start = result.deep_view();
            let mut i: usize = 0;
            while i < refs.len()
                invariant
                    i <= refs.len(),
                    all == refs.deep_view(),
                    ref_declarations_from(all, 0, start) == ref_declarations_from(
                        all,
                        i as int,
                        result.deep_view(),
                    ),
                decreases refs.len() - i,
            {
                assert(all[i as int] == refs@[i as int]@);
                let variable = Self::ref_name_to_variable(refs[i].as_str());
                result.add_reactive_state(
                    concat5("const ", variable.as_str(), " = useTemplateRef('", refs[i].as_str(), "');"),
                );
                i += 1;
            }
        }
        result
    }

    fn rewrite_ref(body: &str, name: &str) -> (r: String)
        ensures
            r@ == ref_rewritten(body@, name@),
    {
        let access = concat2(Self::ref_name_to_variable(name).as_str(), ".value");
        let a = access.as_str();
        let b1 = str_replace(body, concat2("this.$refs.", name).as_str(), a);
        let b2 = str_replace(b1.as_str(), concat2("this.$refs?.", name).as_str(), a);
        let b3 = str_replace(b2.as_str(), concat3("this.$refs['", name, "']").as_str(), a);
        let b4 = str_replace(b3.as_str(), concat3("this.$refs[\"", name, "\"]").as_str(), a);
        let b5 = str_replace(b4.as_str(), concat2("$refs.", name).as_str(), a);
        let b6 = str_replace(b5.as_str(), concat2("$refs?.", name).as_str(), a);
        let b7 = str_replace(b6.as_str(), concat3("$refs['", name, "']").as_str(), a);
        str_replace(b7.as_str(), concat3("$refs[\"", name, "\"]").as_str(), a)
    }

    pub fn rewrite_body(body: &str, context: &TransformationContext) -> (r: String)
        ensures
            r@ == body_after(body@, context.deep_view()),
    {
        let b1 = replace_matches(VUE2_SET_THIS_PATTERN, body, &SetFill);
        let b2 = replace_matches(VUE2_SET_VALUE_PATTERN, b1.as_str(), &SetFill);
        let b3 = replace_matches(VUE2_DELETE_PATTERN, b2.as_str(), &DeleteFill);
        let b4 = str_replace(b3.as_str(), "this.$nextTick(", "nextTick(");
        let b5 = str_replace(b4.as_str(), "$nextTick(", "nextTick(");
        let refs = Self::extract_template_refs(context);
        let mut current = b5;
        let ghost all = refs.deep_view();
        let ghost start = current@;
        let mut i: usize = 0;
        while i < refs.len()
            invariant
                i <= refs.len(),
                all == refs.deep_view(),
                refs_rewritten_from(start, all, 0) == refs_rewritten_from(current@, all, i as int),
            decreases refs.len() - i,
        {
            assert(all[i as int] == refs@[i as int]@);
            current = Self::rewrite_ref(current.as_str(), refs[i].as_str());
            i += 1;
        }
        current
    }
}

impl Default for Vue2Transformer {
    fn default() -> Self {
        Vue2Transformer
    }
}

impl Transformer for Vue2Transformer {
    open spec fn applies(&self, context: ContextModel, config: TransformerConfigModel) -> bool {
        applies(context)
    }

    open spec fn output(&self, context: ContextModel, config: TransformerConfigModel) -> ResultModel {
        output(context, config)
    }

    open spec fn body_after(
        &self,
        body: Seq<char>,
        context: ContextModel,
        config: TransformerConfigModel,
    ) -> Seq<char> {
        body_after(body, context)
    }

    open spec fn label(&self) -> Seq<char> {
        "vue2"@
    }

    fn name(&self) -> &'static str {
        "vue2"
    }

    fn should_transform(&self, context: &TransformationContext, config: &TransformerConfig) -> bool {
        Self::context_has_vue2_methods(context)
    }

    fn transform(&self, context: &TransformationContext, config: &TransformerConfig) -> TransformationResult {
        Self::build(context, config)
    }

    fn transform_body(&self, body: &str, context: &TransformationContext, config: &TransformerConfig) -> String {
        Self::rewrite_body(body, context)
    }
}

} // verus!
