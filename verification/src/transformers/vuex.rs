//! The unit for the Vuex store: namespaces become stores of their own.

use super::Transformer;
use crate::imports::{distinct_names, sort_distinct};
use crate::members::{find_kind, kind_index};
use crate::model::{
    ContextModel, FunctionCallDetail, FunctionCallModel, ReplacementModel, ResultModel, TemplateReplacement,
    TransformationContext, TransformationResult, TransformerConfig, TransformerConfigModel,
};
use crate::patterns::{
    all_captures, capture_group, capture_has_group, group, has_group, pattern_captures, pattern_escape,
    pattern_replace, regex_escaped, replace_matches, replaced, replaced_with, Fill,
};
use crate::result::empty_result;
use crate::strs::{
    any_contains, concat2, concat3, concat4, concat5, concat6, concat7, list_any_contains, list_contains, owned,
    str_contains, str_eq, str_find, str_len, str_lowercase, str_slice, str_starts_with, str_trim_by,
    str_trim_matches, str_uppercase,
};
use crate::syntax::{child_by_field, javascript_tree, parse_javascript, SyntaxNode, TreeModel};
use crate::text;
use crate::text::{char_is_alphanumeric, push_deep, to_chars};
use vstd::prelude::*;

verus! {

/// The unit that puts stores in the place of the Vuex store.
#[derive(Debug, Clone, Copy)]
pub struct VuexTransformer;

pub const VUEX_NAMESPACE_PATTERN: &'static str = "['`\"]([a-zA-Z_]\\w*)/[a-zA-Z_]\\w*['`\"]";

pub const VUEX_MAP_NS_PATTERN: &'static str =
    "map(?:State|Getters|Mutations|Actions)\\(\\s*['\"`]([a-zA-Z_]\\w*)['\"`]\\s*,\\s*\\[";

pub const VUEX_COMMIT_PATTERN: &'static str =
    "this\\.\\$store\\.commit\\(['\"]([a-zA-Z_]\\w*)/([a-zA-Z_]\\w*)['\"](?:,\\s*([^)]+))?\\)";

pub const VUEX_DISPATCH_PATTERN: &'static str =
    "this\\.\\$store\\.dispatch\\(['\"]([a-zA-Z_]\\w*)/([a-zA-Z_]\\w*)['\"](?:,\\s*([^)]+))?\\)";

pub const VUEX_STATE_PATTERN: &'static str = "this\\.\\$store\\.state\\.([a-zA-Z_]\\w*)\\.([a-zA-Z_]\\w*)";

pub const VUEX_TEMPLATE_STATE_PATTERN: &'static str = "\\$store\\.state\\.([a-zA-Z_]\\w*)\\.([a-zA-Z_]\\w*)";

/// A local name that a map helper gives to a member of a store.
#[derive(Debug, Clone)]
pub struct StoreMapping {
    /// The local name.
    pub alias: String,
    /// The namespace of the store.
    pub namespace: String,
    /// The member's name in the store.
    pub name: String,
    /// Whether the helper was given a list of names.
    pub is_array_syntax: bool,
}

/// The mathematical content of [`StoreMapping`].
pub struct MappingModel {
    pub alias: Seq<char>,
    pub namespace: Seq<char>,
    pub name: Seq<char>,
    pub is_array_syntax: bool,
}

impl DeepView for StoreMapping {
    type V = MappingModel;

    open spec fn deep_view(&self) -> MappingModel {
        MappingModel {
            alias: self.alias@,
            namespace: self.namespace@,
            name: self.name@,
            is_array_syntax: self.is_array_syntax,
        }
    }
}

/// Whether a text is made of letters, digits and underscores only.
pub open spec fn is_word(s: Seq<char>) -> bool {
    forall|i: int| 0 <= i < s.len() ==> text::is_alphanumeric(#[trigger] s[i]) || s[i] == '_'
}

fn word(s: &str) -> (r: bool)
    ensures
        r == is_word(s@),
{
    let chars = to_chars(s);
    let mut i: usize = 0;
    while i < chars.len()
        invariant
            i <= chars.len(),
            chars@ == s@,
            forall|j: int| 0 <= j < i ==> text::is_alphanumeric(#[trigger] chars@[j]) || chars@[j] == '_',
        decreases chars.len() - i,
    {
        if !(char_is_alphanumeric(chars[i]) || chars[i] == '_') {
            return false;
        }
        i += 1;
    }
    true
}

/// `s` when it is a non-empty word.
pub open spec fn as_namespace(s: Seq<char>) -> Option<Seq<char>> {
    if s.len() > 0 && is_word(s) {
        Some(s)
    } else {
        None
    }
}

fn namespace_of(s: String) -> (r: Option<String>)
    ensures
        r.deep_view() == as_namespace(s@),
{
    if str_len(s.as_str()) > 0 && word(s.as_str()) {
        Some(s)
    } else {
        None
    }
}

/// The namespace that a quoted `namespace/member` argument names.
pub open spec fn namespace_of_argument(argument: Seq<char>) -> Option<Seq<char>> {
    let cleaned = text::trim_by(argument, text::Strip::AnyQuote);
    match text::find(cleaned, "/"@) {
        Some(slash) => if 0 <= slash <= cleaned.len() {
            as_namespace(cleaned.subrange(0, slash))
        } else {
            None
        },
        None => None,
    }
}

/// The namespace that an access to the store's state names.
pub open spec fn namespace_of_state_access(identifier: Seq<char>) -> Option<Seq<char>> {
    match text::find(identifier, "$store.state."@) {
        Some(at) => if 0 <= at && at + 13 <= identifier.len() {
            let after = identifier.subrange(at + 13, identifier.len() as int);
            match text::find(after, "."@) {
                Some(dot) => if 0 <= dot <= after.len() {
                    as_namespace(after.subrange(0, dot))
                } else {
                    None
                },
                None => as_namespace(after),
            }
        } else {
            None
        },
        None => None,
    }
}

/// `acc` with the namespace, when there is one.
pub open spec fn with_namespace(acc: Seq<Seq<char>>, namespace: Option<Seq<char>>) -> Seq<Seq<char>> {
    match namespace {
        Some(n) => acc.push(n),
        None => acc,
    }
}

/// The first capture group of the matches from index `i` on, appended.
pub open spec fn first_groups_from(found: Seq<Seq<Option<Seq<char>>>>, i: int, acc: Seq<Seq<char>>) -> Seq<
    Seq<char>,
>
    decreases found.len() - i,
{
    if i < 0 || i >= found.len() {
        acc
    } else if has_group(found[i], 1) {
        first_groups_from(found, i + 1, acc.push(group(found[i], 1)))
    } else {
        first_groups_from(found, i + 1, acc)
    }
}

/// The namespaces that a text names in `namespace/member` form.
pub open spec fn quoted_namespaces(t: Seq<char>, acc: Seq<Seq<char>>) -> Seq<Seq<char>> {
    first_groups_from(all_captures(VUEX_NAMESPACE_PATTERN@, t), 0, acc)
}

pub open spec fn argument_namespaces_from(arguments: Seq<Seq<char>>, i: int, acc: Seq<Seq<char>>) -> Seq<
    Seq<char>,
>
    decreases arguments.len() - i,
{
    if i < 0 || i >= arguments.len() {
        acc
    } else {
        argument_namespaces_from(arguments, i + 1, with_namespace(acc, namespace_of_argument(arguments[i])))
    }
}

pub open spec fn object_namespaces_from(arguments: Seq<Seq<char>>, i: int, acc: Seq<Seq<char>>) -> Seq<
    Seq<char>,
>
    decreases arguments.len() - i,
{
    if i < 0 || i >= arguments.len() {
        acc
    } else {
        object_namespaces_from(arguments, i + 1, quoted_namespaces(arguments[i], acc))
    }
}

/// Whether a call commits to the store or dispatches on it.
pub open spec fn is_store_call(name: Seq<char>) -> bool {
    text::contains(name, "$store.commit"@) || text::contains(name, "$store.dispatch"@)
}

/// Whether a call is one of the map helpers that take members by path.
pub open spec fn is_path_helper(name: Seq<char>) -> bool {
    name == "mapGetters"@ || name == "mapActions"@ || name == "mapMutations"@
}

/// The namespaces that one call names, appended.
pub open spec fn call_namespaces(call: FunctionCallModel, acc: Seq<Seq<char>>) -> Seq<Seq<char>> {
    let a = if is_store_call(call.name) {
        argument_namespaces_from(call.arguments, 0, acc)
    } else {
        acc
    };
    if is_path_helper(call.name) {
        object_namespaces_from(call.arguments, 0, a)
    } else {
        a
    }
}

pub open spec fn calls_namespaces_from(calls: Seq<FunctionCallModel>, i: int, acc: Seq<Seq<char>>) -> Seq<
    Seq<char>,
>
    decreases calls.len() - i,
{
    if i < 0 || i >= calls.len() {
        acc
    } else {
        calls_namespaces_from(calls, i + 1, call_namespaces(calls[i], acc))
    }
}

pub open spec fn identifier_namespaces_from(names: Seq<Seq<char>>, i: int, acc: Seq<Seq<char>>) -> Seq<
    Seq<char>,
>
    decreases names.len() - i,
{
    if i < 0 || i >= names.len() {
        acc
    } else if text::contains(names[i], "$store.state."@) {
        identifier_namespaces_from(names, i + 1, with_namespace(acc, namespace_of_state_access(names[i])))
    } else {
        identifier_namespaces_from(names, i + 1, acc)
    }
}

/// The namespaces that the whole script text names.
pub open spec fn script_namespaces(script: Seq<char>, acc: Seq<Seq<char>>) -> Seq<Seq<char>> {
    first_groups_from(all_captures(VUEX_MAP_NS_PATTERN@, script), 0, quoted_namespaces(script, acc))
}

/// Every mention of a namespace in the component, in order of discovery.
pub open spec fn namespace_mentions(context: ContextModel) -> Seq<Seq<char>> {
    let a = calls_namespaces_from(context.script.function_call_details, 0, Seq::empty());
    let b = calls_namespaces_from(context.template.function_call_details, 0, a);
    let c = identifier_namespaces_from(context.script.identifiers, 0, b);
    let d = identifier_namespaces_from(context.template.identifiers, 0, c);
    match context.sections.script_content {
        Some(script) => script_namespaces(script, d),
        None => d,
    }
}

/// Whether the component uses the store or its map helpers.
pub open spec fn applies(context: ContextModel) -> bool {
    let names = context.script.identifiers;
    any_contains(context.script.function_calls, "$store"@) || any_contains(
        context.template.identifiers,
        "$store"@,
    ) || any_contains(names, "$store"@) || any_contains(names, "mapState"@) || any_contains(
        names,
        "mapGetters"@,
    ) || any_contains(names, "mapActions"@) || any_contains(names, "mapMutations"@)
}

/// The text of a string literal without its quotes.
pub open spec fn string_content(literal: Seq<char>) -> Seq<char> {
    text::trim_matches(text::trim_matches(literal, '\''), '"')
}

/// The key and the value of a pair: its last property name and the content
/// of its last string, scanning the children from index `i` on.
pub open spec fn pair_parts_from(
    children: Seq<TreeModel>,
    i: int,
    key: Option<Seq<char>>,
    value: Option<Seq<char>>,
) -> (Option<Seq<char>>, Option<Seq<char>>)
    decreases children.len() - i,
{
    if i < 0 || i >= children.len() {
        (key, value)
    } else if children[i].kind == "property_identifier"@ {
        pair_parts_from(children, i + 1, Some(children[i].text), value)
    } else if children[i].kind == "string"@ {
        pair_parts_from(children, i + 1, key, Some(string_content(children[i].text)))
    } else {
        pair_parts_from(children, i + 1, key, value)
    }
}

/// The mapping that one member of a helper's object states, appended.
pub open spec fn object_mapping(child: TreeModel, namespace: Option<Seq<char>>, acc: Seq<MappingModel>) -> Seq<
    MappingModel,
> {
    let parts = pair_parts_from(child.children, 0, None, None);
    if child.kind == "pair"@ && parts.0 is Some && parts.1 is Some {
        let alias = parts.0->0;
        let value = parts.1->0;
        match namespace {
            Some(ns) => acc.push(
                MappingModel { alias, namespace: ns, name: value, is_array_syntax: false },
            ),
            None => match text::find(value, "/"@) {
                Some(slash) => if 0 <= slash < value.len() {
                    acc.push(
                        MappingModel {
                            alias,
                            namespace: value.subrange(0, slash),
                            name: value.subrange(slash + 1, value.len() as int),
                            is_array_syntax: false,
                        },
                    )
                } else {
                    acc
                },
                None => acc,
            },
        }
    } else {
        acc
    }
}

pub open spec fn object_mappings_from(
    children: Seq<TreeModel>,
    namespace: Option<Seq<char>>,
    i: int,
    acc: Seq<MappingModel>,
) -> Seq<MappingModel>
    decreases children.len() - i,
{
    if i < 0 || i >= children.len() {
        acc
    } else {
        object_mappings_from(children, namespace, i + 1, object_mapping(children[i], namespace, acc))
    }
}

/// The local name for a member taken by name: a getter called `getX` is
/// known as `x`, anything else by its own name.
pub open spec fn array_alias(name: Seq<char>) -> Seq<char> {
    if text::starts_with(name, "get"@) && name.len() > 3 {
        text::lowercase(name.subrange(3, 4)) + name.subrange(4, name.len() as int)
    } else {
        name
    }
}

pub open spec fn array_mappings_from(
    children: Seq<TreeModel>,
    namespace: Seq<char>,
    i: int,
    acc: Seq<MappingModel>,
) -> Seq<MappingModel>
    decreases children.len() - i,
{
    if i < 0 || i >= children.len() {
        acc
    } else if children[i].kind == "string"@ {
        let name = string_content(children[i].text);
        array_mappings_from(
            children,
            namespace,
            i + 1,
            acc.push(MappingModel { alias: array_alias(name), namespace, name, is_array_syntax: true }),
        )
    } else {
        array_mappings_from(children, namespace, i + 1, acc)
    }
}

/// The namespace that the first string argument of a helper names; a
/// string with a slash names none.
pub open spec fn helper_namespace(arguments: TreeModel) -> Option<Seq<char>> {
    let s = kind_index(arguments.children, "string"@, "string"@, 0);
    if 0 <= s < arguments.children.len() && !text::contains(
        string_content(arguments.children[s].text),
        "/"@,
    ) {
        Some(string_content(arguments.children[s].text))
    } else {
        None
    }
}

/// The mappings that the arguments of one helper call state, appended.
pub open spec fn helper_mappings(arguments: TreeModel, acc: Seq<MappingModel>) -> Seq<MappingModel> {
    let namespace = helper_namespace(arguments);
    let a = kind_index(arguments.children, "object"@, "array"@, 0);
    if 0 <= a < arguments.children.len() {
        let argument = arguments.children[a];
        if argument.kind == "object"@ {
            object_mappings_from(argument.children, namespace, 0, acc)
        } else if namespace is Some {
            array_mappings_from(argument.children, namespace->0, 0, acc)
        } else {
            acc
        }
    } else {
        acc
    }
}

/// The mappings that the helper calls at `node` and below it state.
pub open spec fn node_mappings(node: TreeModel, acc: Seq<MappingModel>) -> Seq<MappingModel>
    decreases node, 0nat,
{
    let here = if node.kind == "call_expression"@ {
        match child_by_field(node, "arguments"@) {
            Some(arguments) => helper_mappings(arguments, acc),
            None => acc,
        }
    } else {
        acc
    };
    children_mappings(node.children, 0, here)
}

pub open spec fn children_mappings(children: Seq<TreeModel>, i: int, acc: Seq<MappingModel>) -> Seq<MappingModel>
    decreases children, children.len() - i,
{
    if 0 <= i < children.len() {
        children_mappings(children, i + 1, node_mappings(children[i], acc))
    } else {
        acc
    }
}

/// The mappings that the text of one helper call states, appended; none
/// when the grammar rejects it.
pub open spec fn call_mappings(full_call: Seq<char>, acc: Seq<MappingModel>) -> Seq<MappingModel> {
    match javascript_tree(full_call) {
        Some(tree) => node_mappings(tree, acc),
        None => acc,
    }
}

pub open spec fn helper_mappings_from(
    calls: Seq<FunctionCallModel>,
    helper: Seq<char>,
    i: int,
    acc: Seq<MappingModel>,
) -> Seq<MappingModel>
    decreases calls.len() - i,
{
    if i < 0 || i >= calls.len() {
        acc
    } else if calls[i].name == helper {
        helper_mappings_from(calls, helper, i + 1, call_mappings(calls[i].full_call, acc))
    } else {
        helper_mappings_from(calls, helper, i + 1, acc)
    }
}

/// The mappings that the calls of one map helper state.
pub open spec fn aliased(context: ContextModel, helper: Seq<char>) -> Seq<MappingModel> {
    helper_mappings_from(context.script.function_call_details, helper, 0, Seq::empty())
}

/// Whether the component refers to a property by the given name.
pub open spec fn is_used(context: ContextModel, name: Seq<char>) -> bool {
    (match context.sections.template_content {
        Some(t) => text::contains(t, "{ "@ + name) || text::contains(t, "{{"@ + name) || text::contains(
            t,
            " "@ + name,
        ) || text::contains(t, "\""@ + name + "\""@) || text::contains(t, "'"@ + name + "'"@),
        None => false,
    }) || (match context.sections.script_content {
        Some(s) => text::contains(s, "this."@ + name),
        None => false,
    }) || context.script.identifiers.contains(name) || context.script.identifiers.contains("this."@ + name)
        || context.template.identifiers.contains(name)
}

/// A name with its first letter in upper case.
pub open spec fn capitalized_first(s: Seq<char>) -> Seq<char> {
    if s.len() == 0 {
        s
    } else {
        text::uppercase(s.subrange(0, 1)) + s.subrange(1, s.len() as int)
    }
}

/// The import and the setup line of the stores from index `i` on.
pub open spec fn stores_from(namespaces: Seq<Seq<char>>, i: int, acc: ResultModel) -> ResultModel
    decreases namespaces.len() - i,
{
    if i < 0 || i >= namespaces.len() {
        acc
    } else {
        let ns = namespaces[i];
        let hook = "use"@ + capitalized_first(ns) + "Store"@;
        stores_from(
            namespaces,
            i + 1,
            acc.with_import("@/stores/"@ + ns, hook).with_setup("const "@ + ns + "Store = "@ + hook + "();"@),
        )
    }
}

/// The computed declarations for the mappings from index `i` on that are
/// used; with `call`, a member taken by name is called.
pub open spec fn mapped_from(
    context: ContextModel,
    mappings: Seq<MappingModel>,
    call: bool,
    i: int,
    acc: ResultModel,
) -> ResultModel
    decreases mappings.len() - i,
{
    if i < 0 || i >= mappings.len() {
        acc
    } else if is_used(context, mappings[i].alias) {
        let m = mappings[i];
        let tail = if call && m.is_array_syntax {
            "());"@
        } else {
            ");"@
        };
        mapped_from(
            context,
            mappings,
            call,
            i + 1,
            acc.with_computed("const "@ + m.alias + " = computed(() => "@ + m.namespace + "Store."@ + m.name + tail),
        )
    } else {
        mapped_from(context, mappings, call, i + 1, acc)
    }
}

/// The pairs for the accesses to the store's state in the template.
pub open spec fn state_pairs_from(found: Seq<Seq<Option<Seq<char>>>>, i: int, acc: Seq<ReplacementModel>) -> Seq<
    ReplacementModel,
>
    decreases found.len() - i,
{
    if i < 0 || i >= found.len() {
        acc
    } else if has_group(found[i], 1) && has_group(found[i], 2) {
        state_pairs_from(
            found,
            i + 1,
            acc.push(
                ReplacementModel {
                    find: group(found[i], 0),
                    replace: group(found[i], 1) + "Store."@ + group(found[i], 2),
                },
            ),
        )
    } else {
        state_pairs_from(found, i + 1, acc)
    }
}

pub open spec fn replacements(context: ContextModel) -> Seq<ReplacementModel> {
    match context.sections.template_content {
        Some(template) => state_pairs_from(all_captures(VUEX_TEMPLATE_STATE_PATTERN@, template), 0, Seq::empty()),
        None => Seq::empty(),
    }
}

/// What the unit contributes.
pub open spec fn output(context: ContextModel) -> ResultModel {
    let namespaces = distinct_names(namespace_mentions(context));
    let r1 = stores_from(namespaces, 0, empty_result());
    let r2 = if r1.setup.len() > 0 {
        r1.with_setup(""@)
    } else {
        r1
    };
    let r3 = mapped_from(context, aliased(context, "mapGetters"@), true, 0, r2);
    let r4 = mapped_from(context, aliased(context, "mapState"@), false, 0, r3);
    r4.with_replacements(replacements(context)).without_source("vuex"@)
}

/// The rule for a commit or a dispatch: a call on the namespace's store.
#[derive(Debug, Clone, Copy)]
pub struct StoreCallFill;

impl Fill for StoreCallFill {
    open spec fn fill(&self, caps: Seq<Option<Seq<char>>>, before: Seq<char>) -> Seq<char> {
        if group(caps, 3).len() == 0 {
            group(caps, 1) + "Store."@ + group(caps, 2) + "()"@
        } else {
            group(caps, 1) + "Store."@ + group(caps, 2) + "("@ + group(caps, 3) + ")"@
        }
    }

    fn make(&self, caps: &Vec<Option<String>>, before: &str) -> (r: String) {
        let namespace = capture_group(caps, 1);
        let action = capture_group(caps, 2);
        let arguments = capture_group(caps, 3);
        if str_len(arguments.as_str()) == 0 {
            concat4(namespace.as_str(), "Store.", action.as_str(), "()")
        } else {
            concat6(namespace.as_str(), "Store.", action.as_str(), "(", arguments.as_str(), ")")
        }
    }
}

/// The rule for an access to the store's state: the member of the
/// namespace's store.
#[derive(Debug, Clone, Copy)]
pub struct StateFill;

impl Fill for StateFill {
    open spec fn fill(&self, caps: Seq<Option<Seq<char>>>, before: Seq<char>) -> Seq<char> {
        group(caps, 1) + "Store."@ + group(caps, 2)
    }

    fn make(&self, caps: &Vec<Option<String>>, before: &str) -> (r: String) {
        concat3(capture_group(caps, 1).as_str(), "Store.", capture_group(caps, 2).as_str())
    }
}

/// A body with the accesses to the mapped values from index `i` on turned
/// into accesses to their reactive values.
pub open spec fn values_rewritten_from(body: Seq<char>, mappings: Seq<MappingModel>, i: int) -> Seq<char>
    decreases mappings.len() - i,
{
    if i < 0 || i >= mappings.len() {
        body
    } else {
        values_rewritten_from(
            replaced(
                "\\bthis\\."@ + regex_escaped(mappings[i].alias) + "\\b"@,
                body,
                mappings[i].alias + ".value"@,
            ),
            mappings,
            i + 1,
        )
    }
}

/// A body with the calls of the mapped functions from index `i` on turned
/// into calls on their stores.
pub open spec fn calls_rewritten_from(body: Seq<char>, mappings: Seq<MappingModel>, i: int) -> Seq<char>
    decreases mappings.len() - i,
{
    if i < 0 || i >= mappings.len() {
        body
    } else {
        calls_rewritten_from(
            replaced(
                "this\\."@ + regex_escaped(mappings[i].alias) + "\\("@,
                body,
                mappings[i].namespace + "Store."@ + mappings[i].alias + "("@,
            ),
            mappings,
            i + 1,
        )
    }
}

/// A body after the unit's rewrite.
pub open spec fn body_after(body: Seq<char>, context: ContextModel) -> Seq<char> {
    let b1 = values_rewritten_from(body, aliased(context, "mapGetters"@), 0);
    let b2 = values_rewritten_from(b1, aliased(context, "mapState"@), 0);
    let b3 = calls_rewritten_from(b2, aliased(context, "mapActions"@), 0);
    let b4 = calls_rewritten_from(b3, aliased(context, "mapMutations"@), 0);
    let b5 = replaced_with(&StoreCallFill, VUEX_COMMIT_PATTERN@, b4);
    let b6 = replaced_with(&StoreCallFill, VUEX_DISPATCH_PATTERN@, b5);
    replaced_with(&StateFill, VUEX_STATE_PATTERN@, b6)
}

fn content_of(literal: &str) -> (r: String)
    ensures
        r@ == string_content(literal@),
{
    str_trim_matches(str_trim_matches(literal, '\'').as_str(), '"')
}

fn push_namespace(out: &mut Vec<String>, namespace: Option<String>)
    ensures
        final(out).deep_view() == with_namespace(old(out).deep_view(), namespace.deep_view()),
{
    match namespace {
        Some(n) => {
            push_deep(out, n);
        },
        None => {},
    }
}

fn push_first_groups(out: &mut Vec<String>, pattern: &str, haystack: &str)
    ensures
        final(out).deep_view() == first_groups_from(
            all_captures(pattern@, haystack@),
            0,
            old(out).deep_view(),
        ),
{
    let found = pattern_captures(pattern, haystack);
    let ghost all = found.deep_view();
    let mut i: usize = 0;
    while i < found.len()
        invariant
            i <= found.len(),
            all == found.deep_view(),
            first_groups_from(all, 0, old(out).deep_view()) == first_groups_from(all, i as int, out.deep_view()),
        decreases found.len() - i,
    {
        assert(all[i as int] == found@[i as int].deep_view());
        if capture_has_group(&found[i], 1) {
            push_deep(out, capture_group(&found[i], 1));
        }
        i += 1;
    }
}

fn array_alias_of(name: &str) -> (r: String)
    ensures
        r@ == array_alias(name@),
{
    let n = str_len(name);
    if str_starts_with(name, "get") && n > 3 {
        concat2(str_lowercase(str_slice(name, 3, 4).as_str()).as_str(), str_slice(name, 4, n).as_str())
    } else {
        owned(name)
    }
}

/// A name with its first letter in upper case.
pub fn capitalize_first_letter(s: &str) -> (r: String)
    ensures
        r@ == capitalized_first(s@),
{
    let n = str_len(s);
    if n == 0 {
        owned(s)
    } else {
        concat2(str_uppercase(str_slice(s, 0, 1).as_str()).as_str(), str_slice(s, 1, n).as_str())
    }
}

impl VuexTransformer {
    pub fn new() -> (r: Self) {
        VuexTransformer
    }

    /// The namespace that a quoted `namespace/member` argument names.
    pub fn extract_namespace_from_string_arg(arg: &str) -> (r: Option<String>)
        ensures
            r.deep_view() == namespace_of_argument(arg@),
    {
        proof {
            reveal_strlit("/");
        }
        let cleaned = str_trim_by(arg, text::Strip::AnyQuote);
        match str_find(cleaned.as_str(), "/") {
            Some(slash) => namespace_of(str_slice(cleaned.as_str(), 0, slash)),
            None => None,
        }
    }

    /// The namespace that an access to the store's state names.
    pub fn extract_namespace_from_state_access(identifier: &str) -> (r: Option<String>)
        ensures
            r.deep_view() == namespace_of_state_access(identifier@),
    {
        proof {
            reveal_strlit("$store.state.");
            reveal_strlit(".");
        }
        match str_find(identifier, "$store.state.") {
            Some(at) => {
                let n = str_len(identifier);
                let after = str_slice(identifier, at + 13, n);
                match str_find(after.as_str(), ".") {
                    Some(dot) => namespace_of(str_slice(after.as_str(), 0, dot)),
                    None => namespace_of(after),
                }
            },
            None => None,
        }
    }

    /// Adds the namespaces that a text names in `namespace/member` form.
    pub fn extract_namespaces_from_object_arg(arg: &str, namespaces: &mut Vec<String>)
        ensures
            final(namespaces).deep_view() == quoted_namespaces(arg@, old(namespaces).deep_view()),
    {
        push_first_groups(namespaces, VUEX_NAMESPACE_PATTERN, arg);
    }

    /// Adds the namespaces that one call names.
    pub fn extract_namespaces_from_function_call(function_call: &FunctionCallDetail, namespaces: &mut Vec<String>)
        ensures
            final(namespaces).deep_view() == call_namespaces(
                function_call.deep_view(),
                old(namespaces).deep_view(),
            ),
    {
        let name = function_call.name.as_str();
        let arguments = &function_call.arguments;
        let ghost all = arguments.deep_view();
        if str_contains(name, "$store.commit") || str_contains(name, "$store.dispatch") {
            let mut i: usize = 0;
            while i < arguments.len()
                invariant
                    i <= arguments.len(),
                    all == arguments.deep_view(),
                    argument_namespaces_from(all, 0, old(namespaces).deep_view()) == argument_namespaces_from(
                        all,
                        i as int,
                        namespaces.deep_view(),
                    ),
                decreases arguments.len() - i,
            {
                assert(all[i as int] == arguments@[i as int]@);
                push_namespace(namespaces, Self::extract_namespace_from_string_arg(arguments[i].as_str()));
                i += 1;
            }
        }
        let ghost middle = namespaces.deep_view();
        if str_eq(name, "mapGetters") || str_eq(name, "mapActions") || str_eq(name, "mapMutations") {
            let mut i: usize = 0;
            while i < arguments.len()
                invariant
                    i <= arguments.len(),
                    all == arguments.deep_view(),
                    object_namespaces_from(all, 0, middle) == object_namespaces_from(
                        all,
                        i as int,
                        namespaces.deep_view(),
                    ),
                decreases arguments.len() - i,
            {
                assert(all[i as int] == arguments@[i as int]@);
                Self::extract_namespaces_from_object_arg(arguments[i].as_str(), namespaces);
                i += 1;
            }
        }
    }

    fn add_calls_namespaces(calls: &Vec<FunctionCallDetail>, namespaces: &mut Vec<String>)
        ensures
            final(namespaces).deep_view() == calls_namespaces_from(
                calls.deep_view(),
                0,
                old(namespaces).deep_view(),
            ),
    {
        let ghost all = calls.deep_view();
        let mut i: usize = 0;
        while i < calls.len()
            invariant
                i <= calls.len(),
                all == calls.deep_view(),
                calls_namespaces_from(all, 0, old(namespaces).deep_view()) == calls_namespaces_from(
                    all,
                    i as int,
                    namespaces.deep_view(),
                ),
            decreases calls.len() - i,
        {
            assert(all[i as int] == calls@[i as int].deep_view());
            Self::extract_namespaces_from_function_call(&calls[i], namespaces);
            i += 1;
        }
    }

    /// Adds the namespace that an identifier names through the store's
    /// state.
    pub fn extract_namespaces_from_identifier(identifier: &str, namespaces: &mut Vec<String>)
        ensures
            final(namespaces).deep_view() == if text::contains(identifier@, "$store.state."@) {
                with_namespace(old(namespaces).deep_view(), namespace_of_state_access(identifier@))
            } else {
                old(namespaces).deep_view()
            },
    {
        if str_contains(identifier, "$store.state.") {
            push_namespace(namespaces, Self::extract_namespace_from_state_access(identifier));
        }
    }

    fn add_identifier_namespaces(names: &Vec<String>, namespaces: &mut Vec<String>)
        ensures
            final(namespaces).deep_view() == identifier_namespaces_from(
                names.deep_view(),
                0,
                old(namespaces).deep_view(),
            ),
    {
        let ghost all = names.deep_view();
        let mut i: usize = 0;
        while i < names.len()
            invariant
                i <= names.len(),
                all == names.deep_view(),
                identifier_namespaces_from(all, 0, old(namespaces).deep_view()) == identifier_namespaces_from(
                    all,
                    i as int,
                    namespaces.deep_view(),
                ),
            decreases names.len() - i,
        {
            assert(all[i as int] == names@[i as int]@);
            Self::extract_namespaces_from_identifier(names[i].as_str(), namespaces);
            i += 1;
        }
    }

    /// Adds the namespaces that the whole script text names.
    pub fn extract_namespaces_from_map_functions(script_content: &str, namespaces: &mut Vec<String>)
        ensures
            final(namespaces).deep_view() == script_namespaces(script_content@, old(namespaces).deep_view()),
    {
        push_first_groups(namespaces, VUEX_NAMESPACE_PATTERN, script_content);
        push_first_groups(namespaces, VUEX_MAP_NS_PATTERN, script_content);
    }

    /// Every mention of a namespace in the component.
    pub fn extract_store_namespaces(context: &TransformationContext) -> (r: Vec<String>)
        ensures
            r.deep_view() == namespace_mentions(context.deep_view()),
    {
        let mut namespaces: Vec<String> = Vec::new();
        assert(namespaces.deep_view() =~= Seq::empty());
        Self::add_calls_namespaces(&context.script_state.function_call_details, &mut namespaces);
        Self::add_calls_namespaces(&context.template_state.function_call_details, &mut namespaces);
        Self::add_identifier_namespaces(&context.script_state.identifiers, &mut namespaces);
        Self::add_identifier_namespaces(&context.template_state.identifiers, &mut namespaces);
        match &context.sfc_sections.script_content {
            Some(script) => {
                Self::extract_namespaces_from_map_functions(script.as_str(), &mut namespaces);
            },
            None => {},
        }
        namespaces
    }

    pub fn has_vuex_usage(context: &TransformationContext) -> (r: bool)
        ensures
            r == applies(context.deep_view()),
    {
        let names = &context.script_state.identifiers;
        list_any_contains(&context.script_state.function_calls, "$store") || list_any_contains(
            &context.template_state.identifiers,
            "$store",
        ) || list_any_contains(names, "$store") || list_any_contains(names, "mapState") || list_any_contains(
            names,
            "mapGetters",
        ) || list_any_contains(names, "mapActions") || list_any_contains(names, "mapMutations")
    }

    fn pair_parts(node: &SyntaxNode) -> (r: (Option<String>, Option<String>))
        ensures
            r.deep_view() == pair_parts_from(node.deep_view().children, 0, None, None),
    {
        let mut key: Option<String> = None;
        let mut value: Option<String> = None;
        let n = node.child_count();
        let mut i: usize = 0;
        while i < n
            invariant
                i <= n,
                n == node.deep_view().children.len(),
                pair_parts_from(node.deep_view().children, 0, None, None) == pair_parts_from(
                    node.deep_view().children,
                    i as int,
                    key.deep_view(),
                    value.deep_view(),
                ),
            decreases n - i,
        {
            let child = node.child(i);
            if child.is_kind("property_identifier") {
                key = Some(child.text.clone());
            } else if child.is_kind("string") {
                value = Some(content_of(child.text.as_str()));
            }
            i += 1;
        }
        (key, value)
    }

    fn push_object_mapping(child: &SyntaxNode, namespace: &Option<String>, results: &mut Vec<StoreMapping>)
        ensures
            final(results).deep_view() == object_mapping(
                child.deep_view(),
                namespace.deep_view(),
                old(results).deep_view(),
            ),
    {
        proof {
            reveal_strlit("/");
        }
        let parts = Self::pair_parts(child);
        if !child.is_kind("pair") {
            return ;
        }
        match parts {
            (Some(alias), Some(value)) => {
                match namespace {
                    Some(ns) => {
                        push_deep(
                            results,
                            StoreMapping { alias, namespace: ns.clone(), name: value, is_array_syntax: false },
                        );
                    },
                    None => {
                        match str_find(value.as_str(), "/") {
                            Some(slash) => {
                                let n = str_len(value.as_str());
                                push_deep(
                                    results,
                                    StoreMapping {
                                        alias,
                                        namespace: str_slice(value.as_str(), 0, slash),
                                        name: str_slice(value.as_str(), slash + 1, n),
                                        is_array_syntax: false,
                                    },
                                );
                            },
                            None => {},
                        }
                    },
                }
            },
            _ => {},
        }
    }

    /// Adds the mappings that a helper's object states.
    pub fn extract_object_mappings(node: &SyntaxNode, results: &mut Vec<StoreMapping>, namespace: &Option<String>)
        ensures
            final(results).deep_view() == object_mappings_from(
                node.deep_view().children,
                namespace.deep_view(),
                0,
                old(results).deep_view(),
            ),
    {
        let n = node.child_count();
        let mut i: usize = 0;
        while i < n
            invariant
                i <= n,
                n == node.deep_view().children.len(),
                object_mappings_from(node.deep_view().children, namespace.deep_view(), 0, old(results).deep_view())
                    == object_mappings_from(
                    node.deep_view().children,
                    namespace.deep_view(),
                    i as int,
                    results.deep_view(),
                ),
            decreases n - i,
        {
            Self::push_object_mapping(node.child(i), namespace, results);
            i += 1;
        }
    }

    /// Adds the mappings that a helper's list of names states.
    pub fn extract_array_mappings(node: &SyntaxNode, results: &mut Vec<StoreMapping>, namespace: &str)
        ensures
            final(results).deep_view() == array_mappings_from(
                node.deep_view().children,
                namespace@,
                0,
                old(results).deep_view(),
            ),
    {
        let n = node.child_count();
        let mut i: usize = 0;
        while i < n
            invariant
                i <= n,
                n == node.deep_view().children.len(),
                array_mappings_from(node.deep_view().children, namespace@, 0, old(results).deep_view())
                    == array_mappings_from(
                    node.deep_view().children,
                    namespace@,
                    i as int,
                    results.deep_view(),
                ),
            decreases n - i,
        {
            let child = node.child(i);
            if child.is_kind("string") {
                let name = content_of(child.text.as_str());
                push_deep(
                    results,
                    StoreMapping {
                        alias: array_alias_of(name.as_str()),
                        namespace: owned(namespace),
                        name,
                        is_array_syntax: true,
                    },
                );
            }
            i += 1;
        }
    }

    fn helper_namespace_of(arguments: &SyntaxNode) -> (r: Option<String>)
        ensures
            r.deep_view() == helper_namespace(arguments.deep_view()),
    {
        let s = find_kind(arguments, "string", "string");
        if s < arguments.child_count() {
            let content = content_of(arguments.child(s).text.as_str());
            if !str_contains(content.as_str(), "/") {
                return Some(content);
            }
        }
        None
    }

    fn push_helper_mappings(arguments: &SyntaxNode, results: &mut Vec<StoreMapping>)
        ensures
            final(results).deep_view() == helper_mappings(arguments.deep_view(), old(results).deep_view()),
    {
        let namespace = Self::helper_namespace_of(arguments);
        let a = find_kind(arguments, "object", "array");
        if a < arguments.child_count() {
            let argument = arguments.child(a);
            if argument.is_kind("object") {
                Self::extract_object_mappings(argument, results, &namespace);
            } else {
                match &namespace {
                    Some(ns) => {
                        Self::extract_array_mappings(argument, results, ns.as_str());
                    },
                    None => {},
                }
            }
        }
    }

    /// Adds the mappings that the helper calls at `node` and below it
    /// state.
    pub fn extract_from_map_call(node: &SyntaxNode, results: &mut Vec<StoreMapping>)
        ensures
            final(results).deep_view() == node_mappings(node.deep_view(), old(results).deep_view()),
        decreases node,
    {
        if node.is_kind("call_expression") {
            match node.child_by_field_name("arguments") {
                Some(arguments) => {
                    Self::push_helper_mappings(arguments, results);
                },
                None => {},
            }
        }
        let ghost here = results.deep_view();
        let n = node.child_count();
        let mut i: usize = 0;
        while i < n
            invariant
                i <= n,
                n == node.deep_view().children.len(),
                children_mappings(node.deep_view().children, 0, here) == children_mappings(
                    node.deep_view().children,
                    i as int,
                    results.deep_view(),
                ),
            decreases n - i,
        {
            Self::extract_from_map_call(node.child(i), results);
            i += 1;
        }
    }

    /// Adds the mappings that the text of one helper call states.
    pub fn parse_map_function_with_tree_sitter(full_call: &str, results: &mut Vec<StoreMapping>)
        ensures
            final(results).deep_view() == call_mappings(full_call@, old(results).deep_view()),
    {
        match parse_javascript(full_call) {
            Some(root) => {
                Self::extract_from_map_call(&root, results);
            },
            None => {},
        }
    }

    /// The mappings that the calls of one map helper state.
    pub fn extract_aliased(context: &TransformationContext, helper: &str) -> (r: Vec<StoreMapping>)
        ensures
            r.deep_view() == aliased(context.deep_view(), helper@),
    {
        let calls = &context.script_state.function_call_details;
        let mut out: Vec<StoreMapping> = Vec::new();
        assert(out.deep_view() =~= Seq::empty());
        let ghost all = calls.deep_view();
        let mut i: usize = 0;
        while i < calls.len()
            invariant
                i <= calls.len(),
                all == calls.deep_view(),
                helper_mappings_from(all, helper@, 0, Seq::empty()) == helper_mappings_from(
                    all,
                    helper@,
                    i as int,
                    out.deep_view(),
                ),
            decreases calls.len() - i,
        {
            assert(all[i as int] == calls@[i as int].deep_view());
            if str_eq(calls[i].name.as_str(), helper) {
                Self::parse_map_function_with_tree_sitter(calls[i].full_call.as_str(), &mut out);
            }
            i += 1;
        }
        out
    }

    pub fn extract_aliased_getters(context: &TransformationContext) -> (r: Vec<StoreMapping>)
        ensures
            r.deep_view() == aliased(context.deep_view(), "mapGetters"@),
    {
        Self::extract_aliased(context, "mapGetters")
    }

    pub fn extract_aliased_actions(context: &TransformationContext) -> (r: Vec<StoreMapping>)
        ensures
            r.deep_view() == aliased(context.deep_view(), "mapActions"@),
    {
        Self::extract_aliased(context, "mapActions")
    }

    pub fn extract_aliased_mutations(context: &TransformationContext) -> (r: Vec<StoreMapping>)
        ensures
            r.deep_view() == aliased(context.deep_view(), "mapMutations"@),
    {
        Self::extract_aliased(context, "mapMutations")
    }

    pub fn extract_aliased_state_properties(context: &TransformationContext) -> (r: Vec<StoreMapping>)
        ensures
            r.deep_view() == aliased(context.deep_view(), "mapState"@),
    {
        Self::extract_aliased(context, "mapState")
    }

    /// Tells whether the component refers to a property by the given name.
    pub fn is_property_used(property_name: &str, context: &TransformationContext) -> (r: bool)
        ensures
            r == is_used(context.deep_view(), property_name@),
    {
        let p = property_name;
        let in_template = match &context.sfc_sections.template_content {
            Some(t) => {
                let t = t.as_str();
                str_contains(t, concat2("{ ", p).as_str()) || str_contains(t, concat2("{{", p).as_str())
                    || str_contains(t, concat2(" ", p).as_str()) || str_contains(
                    t,
                    concat3("\"", p, "\"").as_str(),
                ) || str_contains(t, concat3("'", p, "'").as_str())
            },
            None => false,
        };
        let in_script = match &context.sfc_sections.script_content {
            Some(s) => str_contains(s.as_str(), concat2("this.", p).as_str()),
            None => false,
        };
        in_template || in_script || list_contains(&context.script_state.identifiers, p) || list_contains(
            &context.script_state.identifiers,
            concat2("this.", p).as_str(),
        ) || list_contains(&context.template_state.identifiers, p)
    }

    /// The find and replace pairs for the template.
    pub fn generate_template_replacements(context: &TransformationContext) -> (r: Vec<TemplateReplacement>)
        ensures
            r.deep_view() == replacements(context.deep_view()),
    {
        let mut out: Vec<TemplateReplacement> = Vec::new();
        assert(out.deep_view() =~= Seq::empty());
        match &context.sfc_sections.template_content {
            Some(template) => {
                let found = pattern_captures(VUEX_TEMPLATE_STATE_PATTERN, template.as_str());
                let ghost all = found.deep_view();
                let mut i: usize = 0;
                while i < found.len()
                    invariant
                        i <= found.len(),
                        all == found.deep_view(),
                        state_pairs_from(all, 0, Seq::empty()) == state_pairs_from(all, i as int, out.deep_view()),
                    decreases found.len() - i,
                {
                    assert(all[i as int] == found@[i as int].deep_view());
                    if capture_has_group(&found[i], 1) && capture_has_group(&found[i], 2) {
                        push_deep(
                            &mut out,
                            TemplateReplacement {
                                find: capture_group(&found[i], 0),
                                replace: concat3(
                                    capture_group(&found[i], 1).as_str(),
                                    "Store.",
                                    capture_group(&found[i], 2).as_str(),
                                ),
                            },
                        );
                    }
                    i += 1;
                }
                out
            },
            None => out,
        }
    }

    fn add_mapped(
        context: &TransformationContext,
        mappings: &Vec<StoreMapping>,
        call: bool,
        result: &mut TransformationResult,
    )
        ensures
            final(result).deep_view() == mapped_from(
                context.deep_view(),
                mappings.deep_view(),
                call,
                0,
                old(result).deep_view(),
            ),
    {
        let ghost all = mappings.deep_view();
        let mut i: usize = 0;
        while i < mappings.len()
            invariant
                i <= mappings.len(),
                all == mappings.deep_view(),
                mapped_from(context.deep_view(), all, call, 0, old(result).deep_view()) == mapped_from(
                    context.deep_view(),
                    all,
                    call,
                    i as int,
                    result.deep_view(),
                ),
            decreases mappings.len() - i,
        {
            let m = &mappings[i];
            assert(all[i as int] == m.deep_view());
            if Self::is_property_used(m.alias.as_str(), context) {
                let tail = if call && m.is_array_syntax {
                    "());"
                } else {
                    ");"
                };
                result.add_computed_property(
                    concat7(
                        "const ",
                        m.alias.as_str(),
                        " = computed(() => ",
                        m.namespace.as_str(),
                        "Store.",
                        m.name.as_str(),
                        tail,
                    ),
                );
            }
            i += 1;
        }
    }

    pub fn build(context: &TransformationContext) -> (r: TransformationResult)
        ensures
            r.deep_view() == output(context.deep_view()),
    {
        let mut result = TransformationResult::new();
        let namespaces = sort_distinct(&Self::extract_store_namespaces(context));
        let ghost all = namespaces.deep_view();
        let mut i: usize = 0;
        while i < namespaces.len()
            invariant
                i <= namespaces.len(),
                all == namespaces.deep_view(),
                stores_from(all, 0, empty_result()) == stores_from(all, i as int, result.deep_view()),
            decreases namespaces.len() - i,
        {
            assert(all[i as int] == namespaces@[i as int]@);
            let ns = namespaces[i].as_str();
            let hook = concat3("use", capitalize_first_letter(ns).as_str(), "Store");
            result.add_import(concat2("@/stores/", ns).as_str(), hook.as_str());
            result.add_setup(concat5("const ", ns, "Store = ", hook.as_str(), "();"));
            i += 1;
        }
        if result.setup.len() > 0 {
            result.add_setup(owned(""));
        }
        Self::add_mapped(context, &Self::extract_aliased_getters(context), true, &mut result);
        Self::add_mapped(context, &Self::extract_aliased_state_properties(context), false, &mut result);
        result.extend_template_replacements(&Self::generate_template_replacements(context));
        result.remove_import_source("vuex");
        result
    }

    fn rewrite_values(body: String, mappings: &Vec<StoreMapping>) -> (r: String)
        ensures
            r@ == values_rewritten_from(body@, mappings.deep_view(), 0),
    {
        let mut current = body;
        let ghost all = mappings.deep_view();
        let mut i: usize = 0;
        while i < mappings.len()
            invariant
                i <= mappings.len(),
                all == mappings.deep_view(),
                values_rewritten_from(body@, all, 0) == values_rewritten_from(current@, all, i as int),
            decreases mappings.len() - i,
        {
            let alias = mappings[i].alias.as_str();
            assert(all[i as int] == mappings@[i as int].deep_view());
            let pattern = concat3("\\bthis\\.", pattern_escape(alias).as_str(), "\\b");
            current = pattern_replace(pattern.as_str(), current.as_str(), concat2(alias, ".value").as_str());
            i += 1;
        }
        current
    }

    fn rewrite_calls(body: String, mappings: &Vec<StoreMapping>) -> (r: String)
        ensures
            r@ == calls_rewritten_from(body@, mappings.deep_view(), 0),
    {
        let mut current = body;
        let ghost all = mappings.deep_view();
        let mut i: usize = 0;
        while i < mappings.len()
            invariant
                i <= mappings.len(),
                all == mappings.deep_view(),
                calls_rewritten_from(body@, all, 0) == calls_rewritten_from(current@, all, i as int),
            decreases mappings.len() - i,
        {
            let alias = mappings[i].alias.as_str();
            assert(all[i as int] == mappings@[i as int].deep_view());
            let pattern = concat3("this\\.", pattern_escape(alias).as_str(), "\\(");
            current = pattern_replace(
                pattern.as_str(),
                current.as_str(),
                concat4(mappings[i].namespace.as_str(), "Store.", alias, "(").as_str(),
            );
            i += 1;
        }
        current
    }

    pub fn rewrite_body(body: &str, context: &TransformationContext) -> (r: String)
        ensures
            r@ == body_after(body@, context.deep_view()),
    {
        let b1 = Self::rewrite_values(owned(body), &Self::extract_aliased_getters(context));
        let b2 = Self::rewrite_values(b1, &Self::extract_aliased_state_properties(context));
        let b3 = Self::rewrite_calls(b2, &Self::extract_aliased_actions(context));
        let b4 = Self::rewrite_calls(b3, &Self::extract_aliased_mutations(context));
        let b5 = replace_matches(VUEX_COMMIT_PATTERN, b4.as_str(), &StoreCallFill);
        let b6 = replace_matches(VUEX_DISPATCH_PATTERN, b5.as_str(), &StoreCallFill);
        replace_matches(VUEX_STATE_PATTERN, b6.as_str(), &StateFill)
    }
}

impl Default for VuexTransformer {
    fn default() -> Self {
        VuexTransformer
    }
}

impl Transformer for VuexTransformer {
    open spec fn applies(&self, context: ContextModel, config: TransformerConfigModel) -> bool {
        applies(context)
    }

    open spec fn output(&self, context: ContextModel, config: TransformerConfigModel) -> ResultModel {
        output(context)
    }

    open spec fn body_after(
        &self,
        body: Seq<char>,
        context: ContextModel,
        config: TransformerConfigModel,
    ) -> Seq<char> {
        body_after(body, context)
    }

    open spec fn label(&self) -> Seq<char> {
        "vuex"@
    }

    fn name(&self) -> &'static str {
        "vuex"
    }

    fn should_transform(&self, context: &TransformationContext, config: &TransformerConfig) -> bool {
        Self::has_vuex_usage(context)
    }

    fn transform(&self, context: &TransformationContext, config: &TransformerConfig) -> TransformationResult {
        Self::build(context)
    }

    fn transform_body(&self, body: &str, context: &TransformationContext, config: &TransformerConfig) -> String {
        Self::rewrite_body(body, context)
    }
}

} // verus!
