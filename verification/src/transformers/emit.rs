//! The unit for events that a component emits.

use super::Transformer;
use crate::model::{
    ComputedModel, ContextModel, DirectiveModel, FunctionCallModel, MethodModel, ResultModel,
    TransformationContext, TransformationResult, TransformerConfig, TransformerConfigModel,
};
use crate::patterns::{
    all_captures, capture_group, capture_has_group, group, has_group, pattern_captures, replace_matches,
    replaced_with, Fill,
};
use crate::result::empty_result;
use crate::strs::{
    concat3, owned, str_contains, str_ends_with, str_eq, str_join, str_len, str_starts_with, str_trim,
    str_trim_matches,
};
use crate::text;
use crate::text::push_deep;
use vstd::prelude::*;

verus! {

/// The unit that turns `$emit` into a declared emitter.
#[derive(Debug, Clone, Copy)]
pub struct EmitTransformer;

pub const EMIT_TEMPLATE_PATTERN: &'static str = "\\$emit\\s*\\(\\s*['\"`]([^'\"`]+)['\"`]";

pub const EMIT_THIS_PATTERN: &'static str = "this\\.\\$emit\\s*\\(\\s*['\"`]([^'\"`]+)['\"`]";

/// Whether a text emits an event of the component itself, and not one on
/// the application's event bus.
pub open spec fn emits(t: Seq<char>) -> bool {
    text::contains(t, "$emit"@) && !text::contains(t, "$nuxt.$emit"@)
}

pub fn text_emits(t: &str) -> (r: bool)
    ensures
        r == emits(t@),
{
    str_contains(t, "$emit") && !str_contains(t, "$nuxt.$emit")
}

/// Whether some text from index `i` on emits.
pub open spec fn any_emits_from(items: Seq<Seq<char>>, i: int) -> bool
    decreases items.len() - i,
{
    if i < 0 || i >= items.len() {
        false
    } else {
        emits(items[i]) || any_emits_from(items, i + 1)
    }
}

pub fn list_emits(items: &Vec<String>) -> (r: bool)
    ensures
        r == any_emits_from(items.deep_view(), 0),
{
    let ghost all = items.deep_view();
    let mut i: usize = 0;
    while i < items.len()
        invariant
            i <= items.len(),
            all == items.deep_view(),
            any_emits_from(all, 0) == any_emits_from(all, i as int),
        decreases items.len() - i,
    {
        assert(all[i as int] == items@[i as int]@);
        if text_emits(items[i].as_str()) {
            return true;
        }
        i += 1;
    }
    false
}

pub open spec fn any_directive_emits_from(items: Seq<DirectiveModel>, i: int) -> bool
    decreases items.len() - i,
{
    if i < 0 || i >= items.len() {
        false
    } else {
        emits(items[i].value) || any_directive_emits_from(items, i + 1)
    }
}

pub open spec fn any_method_emits_from(items: Seq<MethodModel>, i: int) -> bool
    decreases items.len() - i,
{
    if i < 0 || i >= items.len() {
        false
    } else {
        emits(items[i].body) || any_method_emits_from(items, i + 1)
    }
}

pub open spec fn setter_emits(detail: ComputedModel) -> bool {
    match detail.setter {
        Some(setter) => emits(setter),
        None => false,
    }
}

pub open spec fn any_setter_emits_from(items: Seq<ComputedModel>, i: int) -> bool
    decreases items.len() - i,
{
    if i < 0 || i >= items.len() {
        false
    } else {
        setter_emits(items[i]) || any_setter_emits_from(items, i + 1)
    }
}

pub open spec fn emit_in_template(context: ContextModel) -> bool {
    any_emits_from(context.template.function_calls, 0) || any_emits_from(context.template.identifiers, 0)
        || any_directive_emits_from(context.template.vue_directives, 0)
}

pub open spec fn emit_in_identifiers(context: ContextModel) -> bool {
    any_emits_from(context.script.identifiers, 0) || any_emits_from(context.script.function_calls, 0)
}

pub open spec fn emit_in_methods(context: ContextModel) -> bool {
    any_method_emits_from(context.script.method_details, 0)
}

pub open spec fn emit_in_computed(context: ContextModel) -> bool {
    any_setter_emits_from(context.script.computed_details, 0)
}

/// Whether the component emits events.
pub open spec fn applies(context: ContextModel) -> bool {
    emit_in_identifiers(context) || emit_in_methods(context) || emit_in_computed(context) || emit_in_template(
        context,
    )
}

/// The name under which an event is declared.
pub open spec fn mapped_event(event: Seq<char>) -> Seq<char> {
    if event == "input"@ {
        "update:value"@
    } else {
        event
    }
}

/// `events` with the mapped form of `event`, unless it is there already.
pub open spec fn with_event(events: Seq<Seq<char>>, event: Seq<char>) -> Seq<Seq<char>> {
    if events.contains(mapped_event(event)) {
        events
    } else {
        events.push(mapped_event(event))
    }
}

/// Whether a text has the same quote character at both ends.
pub open spec fn is_quoted(t: Seq<char>) -> bool {
    (text::starts_with(t, "'"@) && text::ends_with(t, "'"@)) || (text::starts_with(t, "\""@)
        && text::ends_with(t, "\""@)) || (text::starts_with(t, "`"@) && text::ends_with(t, "`"@))
}

/// A text without the quotes of any kind around it.
pub open spec fn unquoted_name(t: Seq<char>) -> Seq<char> {
    text::trim_matches(text::trim_matches(text::trim_matches(t, '\''), '"'), '`')
}

/// The index of the first argument from `i` on that is a quoted, non-empty
/// name, or the number of arguments.
pub open spec fn event_argument(arguments: Seq<Seq<char>>, i: int) -> int
    decreases arguments.len() - i,
{
    if i < 0 || i >= arguments.len() {
        arguments.len() as int
    } else if is_quoted(text::trim(arguments[i])) && unquoted_name(text::trim(arguments[i])).len() > 0 {
        i
    } else {
        event_argument(arguments, i + 1)
    }
}

/// The events of the template's `$emit` calls from index `i` on, added to
/// `acc`.
pub open spec fn call_events_from(calls: Seq<FunctionCallModel>, i: int, acc: Seq<Seq<char>>) -> Seq<Seq<char>>
    decreases calls.len() - i,
{
    if i < 0 || i >= calls.len() {
        acc
    } else {
        let at = event_argument(calls[i].arguments, 0);
        if calls[i].name == "$emit"@ && 0 <= at < calls[i].arguments.len() {
            call_events_from(calls, i + 1, with_event(acc, unquoted_name(text::trim(calls[i].arguments[at]))))
        } else {
            call_events_from(calls, i + 1, acc)
        }
    }
}

/// The events of the matches from index `i` on, added to `acc`.
pub open spec fn match_events_from(found: Seq<Seq<Option<Seq<char>>>>, i: int, acc: Seq<Seq<char>>) -> Seq<
    Seq<char>,
>
    decreases found.len() - i,
{
    if i < 0 || i >= found.len() {
        acc
    } else if has_group(found[i], 1) {
        match_events_from(found, i + 1, with_event(acc, group(found[i], 1)))
    } else {
        match_events_from(found, i + 1, acc)
    }
}

/// The events that a text emits, added to `acc`.
pub open spec fn body_events(body: Seq<char>, acc: Seq<Seq<char>>) -> Seq<Seq<char>> {
    match_events_from(all_captures(EMIT_TEMPLATE_PATTERN@, body), 0, acc)
}

pub open spec fn directive_events_from(items: Seq<DirectiveModel>, i: int, acc: Seq<Seq<char>>) -> Seq<Seq<char>>
    decreases items.len() - i,
{
    if i < 0 || i >= items.len() {
        acc
    } else {
        directive_events_from(items, i + 1, body_events(items[i].value, acc))
    }
}

pub open spec fn method_events_from(items: Seq<MethodModel>, i: int, acc: Seq<Seq<char>>) -> Seq<Seq<char>>
    decreases items.len() - i,
{
    if i < 0 || i >= items.len() {
        acc
    } else {
        method_events_from(items, i + 1, body_events(items[i].body, acc))
    }
}

pub open spec fn setter_events_from(items: Seq<ComputedModel>, i: int, acc: Seq<Seq<char>>) -> Seq<Seq<char>>
    decreases items.len() - i,
{
    if i < 0 || i >= items.len() {
        acc
    } else {
        setter_events_from(
            items,
            i + 1,
            match items[i].setter {
                Some(setter) => body_events(setter, acc),
                None => acc,
            },
        )
    }
}

/// The events that the component emits, each once: those of the template's
/// calls first, then those of directives, methods and setters.
pub open spec fn emit_events(context: ContextModel) -> Seq<Seq<char>> {
    let a = call_events_from(context.template.function_call_details, 0, Seq::empty());
    let b = directive_events_from(context.template.vue_directives, 0, a);
    let c = method_events_from(context.script.method_details, 0, b);
    setter_events_from(context.script.computed_details, 0, c)
}

/// The events from index `i` on, each in quotes, appended to `acc`.
pub open spec fn quoted_from(events: Seq<Seq<char>>, i: int, acc: Seq<Seq<char>>) -> Seq<Seq<char>>
    decreases events.len() - i,
{
    if i < 0 || i >= events.len() {
        acc
    } else {
        quoted_from(events, i + 1, acc.push("'"@ + events[i] + "'"@))
    }
}

/// The statement that declares the emitter; empty without events.
pub open spec fn emit_setup(events: Seq<Seq<char>>) -> Seq<char> {
    if events.len() == 0 {
        Seq::empty()
    } else {
        "const emit = defineEmits(["@ + text::join(quoted_from(events, 0, Seq::empty()), ","@) + "]);"@
    }
}

/// What the unit contributes.
pub open spec fn output(context: ContextModel) -> ResultModel {
    if applies(context) {
        let events = emit_events(context);
        let r1 = if events.len() > 0 {
            empty_result().with_setup(emit_setup(events)).with_setup(""@)
        } else {
            empty_result()
        };
        r1.with_replacement("$emit("@, "emit("@)
    } else {
        empty_result()
    }
}

/// The rule for `this.$emit('name'`: a call of the emitter.
#[derive(Debug, Clone, Copy)]
pub struct ThisEmitFill;

impl Fill for ThisEmitFill {
    open spec fn fill(&self, caps: Seq<Option<Seq<char>>>, before: Seq<char>) -> Seq<char> {
        "emit('"@ + mapped_event(group(caps, 1)) + "'"@
    }

    fn make(&self, caps: &Vec<Option<String>>, before: &str) -> (r: String) {
        concat3("emit('", EmitTransformer::map_event_name(capture_group(caps, 1).as_str()).as_str(), "'")
    }
}

/// The rule for `$emit('name'`: a call of the emitter, unless the call is
/// one on the application's event bus, which stays as it is.
#[derive(Debug, Clone, Copy)]
pub struct BareEmitFill;

impl Fill for BareEmitFill {
    open spec fn fill(&self, caps: Seq<Option<Seq<char>>>, before: Seq<char>) -> Seq<char> {
        if text::ends_with(before, "$nuxt."@) {
            group(caps, 0)
        } else {
            "emit('"@ + mapped_event(group(caps, 1)) + "'"@
        }
    }

    fn make(&self, caps: &Vec<Option<String>>, before: &str) -> (r: String) {
        if str_ends_with(before, "$nuxt.") {
            capture_group(caps, 0)
        } else {
            concat3("emit('", EmitTransformer::map_event_name(capture_group(caps, 1).as_str()).as_str(), "'")
        }
    }
}

/// A body with its `$emit` calls turned into calls of the emitter.
pub open spec fn body_after(body: Seq<char>, context: ContextModel) -> Seq<char> {
    if applies(context) {
        replaced_with(
            &BareEmitFill,
            EMIT_TEMPLATE_PATTERN@,
            replaced_with(&ThisEmitFill, EMIT_THIS_PATTERN@, body),
        )
    } else {
        body
    }
}

fn quoted(t: &str) -> (r: bool)
    ensures
        r == is_quoted(t@),
{
    (str_starts_with(t, "'") && str_ends_with(t, "'")) || (str_starts_with(t, "\"") && str_ends_with(
        t,
        "\"",
    )) || (str_starts_with(t, "`") && str_ends_with(t, "`"))
}

fn unquote_name(t: &str) -> (r: String)
    ensures
        r@ == unquoted_name(t@),
{
    str_trim_matches(str_trim_matches(str_trim_matches(t, '\'').as_str(), '"').as_str(), '`')
}

fn add_event(events: &mut Vec<String>, event: &str)
    ensures
        final(events).deep_view() == with_event(old(events).deep_view(), event@),
{
    let mapped = EmitTransformer::map_event_name(event);
    if !crate::strs::list_contains(events, mapped.as_str()) {
        push_deep(events, mapped);
    }
}

fn find_event_argument(arguments: &Vec<String>) -> (r: usize)
    ensures
        r == event_argument(arguments.deep_view(), 0),
        r <= arguments.len(),
{
    let ghost all = arguments.deep_view();
    let mut i: usize = 0;
    while i < arguments.len()
        invariant
            i <= arguments.len(),
            all == arguments.deep_view(),
            event_argument(all, 0) == event_argument(all, i as int),
        decreases arguments.len() - i,
    {
        assert(all[i as int] == arguments@[i as int]@);
        let cleaned = str_trim(arguments[i].as_str());
        if quoted(cleaned.as_str()) && str_len(unquote_name(cleaned.as_str()).as_str()) > 0 {
            return i;
        }
        i += 1;
    }
    i
}

fn add_body_events(events: &mut Vec<String>, body: &str)
    ensures
        final(events).deep_view() == body_events(body@, old(events).deep_view()),
{
    let found = pattern_captures(EMIT_TEMPLATE_PATTERN, body);
    let ghost all = found.deep_view();
    let mut i: usize = 0;
    while i < found.len()
        invariant
            i <= found.len(),
            all == found.deep_view(),
            match_events_from(all, 0, old(events).deep_view()) == match_events_from(
                all,
                i as int,
                events.deep_view(),
            ),
        decreases found.len() - i,
    {
        assert(all[i as int] == found@[i as int].deep_view());
        if capture_has_group(&found[i], 1) {
            add_event(events, capture_group(&found[i], 1).as_str());
        }
        i += 1;
    }
}

impl EmitTransformer {
    pub fn new() -> (r: Self) {
        EmitTransformer
    }

    /// The name under which an event is declared.
    pub fn map_event_name(event: &str) -> (r: String)
        ensures
            r@ == mapped_event(event@),
    {
        if str_eq(event, "input") {
            owned("update:value")
        } else {
            owned(event)
        }
    }

    pub fn has_emit_in_template(context: &TransformationContext) -> (r: bool)
        ensures
            r == emit_in_template(context.deep_view()),
    {
        if list_emits(&context.template_state.function_calls) || list_emits(
            &context.template_state.identifiers,
        ) {
            return true;
        }
        let items = &context.template_state.vue_directives;
        let ghost all = items.deep_view();
        let mut i: usize = 0;
        while i < items.len()
            invariant
                i <= items.len(),
                all == items.deep_view(),
                all == context.deep_view().template.vue_directives,
                !any_emits_from(context.deep_view().template.function_calls, 0),
                !any_emits_from(context.deep_view().template.identifiers, 0),
                any_directive_emits_from(all, 0) == any_directive_emits_from(all, i as int),
            decreases items.len() - i,
        {
            assert(all[i as int] == items@[i as int].deep_view());
            if text_emits(items[i].value.as_str()) {
                return true;
            }
            i += 1;
        }
        false
    }

    pub fn has_emit_in_identifiers(context: &TransformationContext) -> (r: bool)
        ensures
            r == emit_in_identifiers(context.deep_view()),
    {
        list_emits(&context.script_state.identifiers) || list_emits(&context.script_state.function_calls)
    }

    pub fn has_emit_in_methods(context: &TransformationContext) -> (r: bool)
        ensures
            r == emit_in_methods(context.deep_view()),
    {
        let items = &context.script_state.method_details;
        let ghost all = items.deep_view();
        let mut i: usize = 0;
        while i < items.len()
            invariant
                i <= items.len(),
                all == items.deep_view(),
                all == context.deep_view().script.method_details,
                any_method_emits_from(all, 0) == any_method_emits_from(all, i as int),
            decreases items.len() - i,
        {
            assert(all[i as int] == items@[i as int].deep_view());
            if text_emits(items[i].body.as_str()) {
                return true;
            }
            i += 1;
        }
        false
    }

    pub fn has_emit_in_computed(context: &TransformationContext) -> (r: bool)
        ensures
            r == emit_in_computed(context.deep_view()),
    {
        let items = &context.script_state.computed_details;
        let ghost all = items.deep_view();
        let mut i: usize = 0;
        while i < items.len()
            invariant
                i <= items.len(),
                all == items.deep_view(),
                all == context.deep_view().script.computed_details,
                any_setter_emits_from(all, 0) == any_setter_emits_from(all, i as int),
            decreases items.len() - i,
        {
            assert(all[i as int] == items@[i as int].deep_view());
            let hit = match &items[i].setter {
                Some(setter) => text_emits(setter.as_str()),
                None => false,
            };
            if hit {
                return true;
            }
            i += 1;
        }
        false
    }

    pub fn has_emit_usage(context: &TransformationContext) -> (r: bool)
        ensures
            r == applies(context.deep_view()),
    {
        Self::has_emit_in_identifiers(context) || Self::has_emit_in_methods(context)
            || Self::has_emit_in_computed(context) || Self::has_emit_in_template(context)
    }

    /// The events that a text emits; `None` when it emits none.
    pub fn extract_events_from_body(body: &str) -> (r: Option<Vec<String>>)
        ensures
            match r {
                Some(events) => events.deep_view() == body_events(body@, Seq::empty()) && events.len() > 0,
                None => body_events(body@, Seq::empty()).len() == 0,
            },
    {
        let mut events: Vec<String> = Vec::new();
        assert(events.deep_view() =~= Seq::empty());
        add_body_events(&mut events, body);
        if events.len() == 0 {
            None
        } else {
            Some(events)
        }
    }

    /// The events that the component emits.
    pub fn extract_emit_events(context: &TransformationContext) -> (r: Vec<String>)
        ensures
            r.deep_view() == emit_events(context.deep_view()),
    {
        let mut events: Vec<String> = Vec::new();
        assert(events.deep_view() =~= Seq::empty());
        let calls = &context.template_state.function_call_details;
        let ghost all_calls = calls.deep_view();
        let mut i: usize = 0;
        while i < calls.len()
            invariant
                i <= calls.len(),
                all_calls == calls.deep_view(),
                call_events_from(all_calls, 0, Seq::empty()) == call_events_from(
                    all_calls,
                    i as int,
                    events.deep_view(),
                ),
            decreases calls.len() - i,
        {
            assert(all_calls[i as int] == calls@[i as int].deep_view());
            let at = find_event_argument(&calls[i].arguments);
            if str_eq(calls[i].name.as_str(), "$emit") && at < calls[i].arguments.len() {
                assert(all_calls[i as int].arguments[at as int] == calls@[i as int].arguments@[at as int]@);
                let cleaned = str_trim(calls[i].arguments[at].as_str());
                add_event(&mut events, unquote_name(cleaned.as_str()).as_str());
            }
            i += 1;
        }
        let directives = &context.template_state.vue_directives;
        let ghost all_directives = directives.deep_view();
        let ghost a = events.deep_view();
        let mut k: usize = 0;
        while k < directives.len()
            invariant
                k <= directives.len(),
                all_directives == directives.deep_view(),
                directive_events_from(all_directives, 0, a) == directive_events_from(
                    all_directives,
                    k as int,
                    events.deep_view(),
                ),
            decreases directives.len() - k,
        {
            assert(all_directives[k as int] == directives@[k as int].deep_view());
            add_body_events(&mut events, directives[k].value.as_str());
            k += 1;
        }
        let methods = &context.script_state.method_details;
        let ghost all_methods = methods.deep_view();
        let ghost b = events.deep_view();
        let mut m: usize = 0;
        while m < methods.len()
            invariant
                m <= methods.len(),
                all_methods == methods.deep_view(),
                method_events_from(all_methods, 0, b) == method_events_from(
                    all_methods,
                    m as int,
                    events.deep_view(),
                ),
            decreases methods.len() - m,
        {
            assert(all_methods[m as int] == methods@[m as int].deep_view());
            add_body_events(&mut events, methods[m].body.as_str());
            m += 1;
        }
        let details = &context.script_state.computed_details;
        let ghost all_details = details.deep_view();
        let ghost c = events.deep_view();
        let mut d: usize = 0;
        while d < details.len()
            invariant
                d <= details.len(),
                all_details == details.deep_view(),
                setter_events_from(all_details, 0, c) == setter_events_from(
                    all_details,
                    d as int,
                    events.deep_view(),
                ),
            decreases details.len() - d,
        {
            assert(all_details[d as int] == details@[d as int].deep_view());
            match &details[d].setter {
                Some(setter) => {
                    add_body_events(&mut events, setter.as_str());
                },
                None => {},
            }
            d += 1;
        }
        events
    }

    /// The statement that declares the emitter.
    pub fn generate_emit_setup(events: &Vec<String>) -> (r: String)
        ensures
            r@ == emit_setup(events.deep_view()),
    {
        if events.len() == 0 {
            return String::new();
        }
        let mut quoted_events: Vec<String> = Vec::new();
        assert(quoted_events.deep_view() =~= Seq::empty());
        let ghost all = events.deep_view();
        let mut i: usize = 0;
        while i < events.len()
            invariant
                i <= events.len(),
                all == events.deep_view(),
                quoted_from(all, 0, Seq::empty()) == quoted_from(all, i as int, quoted_events.deep_view()),
            decreases events.len() - i,
        {
            assert(all[i as int] == events@[i as int]@);
            push_deep(&mut quoted_events, concat3("'", events[i].as_str(), "'"));
            i += 1;
        }
        concat3("const emit = defineEmits([", str_join(&quoted_events, ",").as_str(), "]);")
    }

    pub fn build(context: &TransformationContext) -> (r: TransformationResult)
        ensures
            r.deep_view() == output(context.deep_view()),
    {
        let mut result = TransformationResult::new();
        if Self::has_emit_usage(context) {
            let events = Self::extract_emit_events(context);
            if events.len() > 0 {
                result.add_setup(Self::generate_emit_setup(&events));
                result.add_setup(owned(""));
            }
            result.add_template_replacement("$emit(", "emit(");
        }
        result
    }

    pub fn rewrite_body(body: &str, context: &TransformationContext) -> (r: String)
        ensures
            r@ == body_after(body@, context.deep_view()),
    {
        if Self::has_emit_usage(context) {
            let b1 = replace_matches(EMIT_THIS_PATTERN, body, &ThisEmitFill);
            replace_matches(EMIT_TEMPLATE_PATTERN, b1.as_str(), &BareEmitFill)
        } else {
            owned(body)
        }
    }
}

impl Default for EmitTransformer {
    fn default() -> Self {
        EmitTransformer
    }
}

impl Transformer for EmitTransformer {
    open spec fn applies(&self, context: ContextModel, config: TransformerConfigModel) -> bool {
        applies(context)
    }

    open spec fn output(&self, context: ContextModel, config: TransformerConfigModel) -> ResultModel {
        output(context)
    }

    open spec fn body_after(
        &self,
        body: Seq<char>,
        context: ContextModel,
        config: TransformerConfigModel,
    ) -> Seq<char> {
        body_after(body, context)
    }

    open spec fn label(&self) -> Seq<char> {
        "emit"@
    }

    fn name(&self) -> &'static str {
        "emit"
    }

    fn should_transform(&self, context: &TransformationContext, config: &TransformerConfig) -> bool {
        Self::has_emit_usage(context)
    }

    fn transform(&self, context: &TransformationContext, config: &TransformerConfig) -> TransformationResult {
        Self::build(context)
    }

    fn transform_body(&self, body: &str, context: &TransformationContext, config: &TransformerConfig) -> String {
        Self::rewrite_body(body, context)
    }
}

} // verus!
