//! The script fact extractor: the walk from the root of a script's syntax
//! tree down to the members of the exported component object.

use crate::members::{
    bare_method_of, computed_member, computed_step, data_member, data_step, fetch_step, find_kind, head_step,
    key_name, key_name_of, kind_index, methods_member, methods_step, parse_fetch_method, parse_head_method,
    props_member, props_step, read_bare_method, watcher_member, watcher_step,
};
use crate::model::{ScriptFacts, ScriptParsingState};
use crate::script::{after_prepass, extract_imports_and_setup};
use crate::sections::TransformError;
use crate::strs::str_eq;
use crate::syntax::{child_by_field, grammar_accepts, javascript_tree, parse_javascript, SyntaxNode, TreeModel};
use crate::text::push_deep;
use crate::visit::{general_walk, parse_general_node};
use vstd::prelude::*;

verus! {

/// What a walk looks for in the nodes it is given.
#[derive(Clone, Copy, Debug)]
pub enum Walk {
    /// The component objects of a script.
    Sections,
    /// The members of a component object.
    Component,
    /// The members of a `methods` object.
    Methods,
    /// The members of a `computed` object.
    Computed,
    /// The members of a `props` object.
    Props,
    /// The members of a data object.
    Data,
    /// The members of a `watch` object.
    Watchers,
    /// The objects that a function returns.
    Returns,
}

/// Orders the walks that may look at one and the same node.
pub open spec fn rank(walk: Walk) -> nat {
    match walk {
        Walk::Sections => 5,
        Walk::Component => 4,
        Walk::Returns => 0,
        _ => 1,
    }
}

/// The lifecycle hooks of the component API.
pub open spec fn is_lifecycle(name: Seq<char>) -> bool {
    name == "beforeCreate"@ || name == "created"@ || name == "beforeMount"@ || name == "mounted"@ || name
        == "beforeUpdate"@ || name == "updated"@ || name == "beforeDestroy"@ || name == "destroyed"@
        || name == "beforeUnmount"@ || name == "unmounted"@ || name == "activated"@ || name
        == "deactivated"@
}

/// Tells whether `name` is a lifecycle hook.
pub fn is_lifecycle_name(name: &str) -> (r: bool)
    ensures
        r == is_lifecycle(name@),
{
    str_eq(name, "beforeCreate") || str_eq(name, "created") || str_eq(name, "beforeMount") || str_eq(
        name,
        "mounted",
    ) || str_eq(name, "beforeUpdate") || str_eq(name, "updated") || str_eq(name, "beforeDestroy")
        || str_eq(name, "destroyed") || str_eq(name, "beforeUnmount") || str_eq(name, "unmounted")
        || str_eq(name, "activated") || str_eq(name, "deactivated")
}

/// The index of the first child from `i` on that hangs under the field
/// `name`, or the number of children.
pub open spec fn field_index(children: Seq<TreeModel>, name: Seq<char>, i: int) -> int
    decreases children.len() - i,
{
    if i < 0 || i >= children.len() {
        children.len() as int
    } else if children[i].field == Some(name) {
        i
    } else {
        field_index(children, name, i + 1)
    }
}

/// Finds the first child that hangs under the field `name`.
pub fn find_field(node: &SyntaxNode, name: &str) -> (i: usize)
    ensures
        i == field_index(node.deep_view().children, name@, 0),
        i <= node.deep_view().children.len(),
{
    let n = node.child_count();
    let mut i: usize = 0;
    while i < n
        invariant
            i <= n,
            n == node.deep_view().children.len(),
            field_index(node.deep_view().children, name@, 0) == field_index(
                node.deep_view().children,
                name@,
                i as int,
            ),
        decreases n - i,
    {
        let child = node.child(i);
        let hit = match &child.field {
            Some(f) => str_eq(f.as_str(), name),
            None => false,
        };
        if hit {
            return i;
        }
        i += 1;
    }
    i
}

/// The facts with a lifecycle hook, or `fetch`, kept as a method.
pub open spec fn with_hook(st: ScriptFacts, name: Seq<char>, node: TreeModel) -> ScriptFacts {
    ScriptFacts { method_details: st.method_details.push(bare_method_of(name, node)), ..st }
}

/// What `walk` finds in `node`, added to `st`.
pub open spec fn walk_node(walk: Walk, node: TreeModel, st: ScriptFacts) -> ScriptFacts
    decreases node, rank(walk),
{
    match walk {
        Walk::Methods => methods_step(node, st),
        Walk::Computed => computed_step(node, st),
        Walk::Props => props_step(node, st),
        Walk::Data => data_step(node, st),
        Walk::Watchers => watcher_step(node, st),
        Walk::Returns => {
            let o = kind_index(node.children, "object"@, "object"@, 0);
            if node.kind == "return_statement"@ && 0 <= o < node.children.len() {
                walk_children(Walk::Data, node.children[o].children, 0, st)
            } else {
                walk_children(Walk::Returns, node.children, 0, st)
            }
        },
        Walk::Component => {
            if node.kind == "pair"@ {
                if node.children.len() >= 3 {
                    member_pair(key_name(node.children[0].text), node.children[2], st)
                } else {
                    st
                }
            } else if node.kind == "method_definition"@ {
                match child_by_field(node, "name"@) {
                    Some(name) => member_method(key_name(name.text), node, st),
                    None => st,
                }
            } else {
                st
            }
        },
        Walk::Sections => {
            let v = field_index(node.children, "value"@, 0);
            let o = kind_index(node.children, "object"@, "object"@, 0);
            if node.kind == "export_statement"@ && 0 <= v < node.children.len() && node.children[v].kind
                == "object"@ {
                walk_children(Walk::Component, node.children[v].children, 0, st)
            } else if node.kind == "export_statement"@ && 0 <= o < node.children.len() {
                walk_children(Walk::Component, node.children[o].children, 0, st)
            } else if node.kind == "object"@ {
                walk_children(Walk::Component, node.children, 0, st)
            } else {
                walk_children(Walk::Sections, node.children, 0, st)
            }
        },
    }
}

/// What `walk` finds in the children from index `i` on.
pub open spec fn walk_children(walk: Walk, children: Seq<TreeModel>, i: int, st: ScriptFacts) -> ScriptFacts
    decreases children, children.len() - i,
{
    if 0 <= i < children.len() {
        walk_children(walk, children, i + 1, walk_node(walk, children[i], st))
    } else {
        st
    }
}

/// What a `key: value` member of a component object adds to the facts.
pub open spec fn member_pair(key: Seq<char>, value: TreeModel, st: ScriptFacts) -> ScriptFacts
    decreases value, 3nat,
{
    if key == "methods"@ {
        walk_children(Walk::Methods, value.children, 0, st)
    } else if key == "computed"@ {
        walk_children(Walk::Computed, value.children, 0, st)
    } else if key == "props"@ {
        walk_children(Walk::Props, value.children, 0, st)
    } else if key == "data"@ {
        data_function(value, st)
    } else if key == "head"@ {
        head_step(value, st)
    } else if key == "watch"@ {
        general_walk(value, walk_children(Walk::Watchers, value.children, 0, st))
    } else if key == "nuxtI18n"@ {
        ScriptFacts { nuxt_i18n: Some(value.text), ..st }
    } else if key == "asyncData"@ {
        ScriptFacts { async_data_method: Some(value.text), ..st }
    } else if is_lifecycle(key) || key == "fetch"@ {
        with_hook(general_walk(value, st), key, value)
    } else {
        general_walk(value, st)
    }
}

/// What a shorthand method of a component object adds to the facts.
pub open spec fn member_method(name: Seq<char>, node: TreeModel, st: ScriptFacts) -> ScriptFacts
    decreases node, 3nat,
{
    if name == "data"@ {
        data_function(node, st)
    } else if name == "head"@ {
        head_step(node, st)
    } else if name == "fetch"@ {
        fetch_step(node, st)
    } else if name == "asyncData"@ {
        ScriptFacts { async_data_method: Some(node.text), ..st }
    } else if is_lifecycle(name) {
        with_hook(general_walk(node, st), name, node)
    } else {
        general_walk(node, st)
    }
}

/// The data fields that a `data` member declares.
///
/// A function or method is searched for the object literals that it
/// returns. An arrow function may also have the object as its body, bare or
/// in parentheses. Anything else is only walked for identifiers and calls.
pub open spec fn data_function(node: TreeModel, st: ScriptFacts) -> ScriptFacts
    decreases node, 2nat,
{
    if node.kind == "function"@ || node.kind == "function_expression"@ || node.kind
        == "method_definition"@ {
        walk_node(Walk::Returns, node, st)
    } else if node.kind == "arrow_function"@ {
        data_arrow(node, st)
    } else {
        general_walk(node, st)
    }
}

/// The data fields that an arrow function declares: those of the object
/// that is its body, bare or in parentheses, or those of the objects that
/// its block returns.
pub open spec fn data_arrow(node: TreeModel, st: ScriptFacts) -> ScriptFacts
    decreases node, 1nat,
{
    let b = field_index(node.children, "body"@, 0);
    if 0 <= b < node.children.len() {
        let body = node.children[b];
        let o = kind_index(body.children, "object"@, "object"@, 0);
        if body.kind == "object"@ {
            walk_children(Walk::Data, body.children, 0, st)
        } else if body.kind == "parenthesized_expression"@ {
            if 0 <= o < body.children.len() {
                walk_children(Walk::Data, body.children[o].children, 0, st)
            } else {
                st
            }
        } else {
            walk_node(Walk::Returns, body, st)
        }
    } else {
        st
    }
}

fn push_hook(state: &mut ScriptParsingState, name: String, node: &SyntaxNode)
    ensures
        final(state).deep_view() == with_hook(old(state).deep_view(), name@, node.deep_view()),
{
    push_deep(&mut state.method_details, read_bare_method(name, node));
}

/// Adds to `state` what `walk` finds in `node`.
pub fn walk(walk_kind: Walk, node: &SyntaxNode, state: &mut ScriptParsingState)
    ensures
        final(state).deep_view() == walk_node(walk_kind, node.deep_view(), old(state).deep_view()),
    decreases node, rank(walk_kind) + 1,
{
    match walk_kind {
        Walk::Methods => methods_member(node, state),
        Walk::Computed => computed_member(node, state),
        Walk::Props => props_member(node, state),
        Walk::Data => data_member(node, state),
        Walk::Watchers => watcher_member(node, state),
        Walk::Returns => {
            let o = find_kind(node, "object", "object");
            if node.is_kind("return_statement") && o < node.child_count() {
                walk_all(Walk::Data, node.child(o), state);
            } else {
                walk_all(Walk::Returns, node, state);
            }
        },
        Walk::Component => {
            if node.is_kind("pair") {
                if node.child_count() >= 3 {
                    let key = key_name_of(node.child(0));
                    parse_member_pair(key, node.child(2), state);
                }
            } else if node.is_kind("method_definition") {
                match node.child_by_field_name("name") {
                    Some(name) => {
                        let key = key_name_of(name);
                        parse_member_method(key, node, state);
                    },
                    None => {},
                }
            }
        },
        Walk::Sections => {
            let v = find_field(node, "value");
            let o = find_kind(node, "object", "object");
            let export = node.is_kind("export_statement");
            if export && v < node.child_count() && node.child(v).is_kind("object") {
                walk_all(Walk::Component, node.child(v), state);
            } else if export && o < node.child_count() {
                walk_all(Walk::Component, node.child(o), state);
            } else if node.is_kind("object") {
                walk_all(Walk::Component, node, state);
            } else {
                walk_all(Walk::Sections, node, state);
            }
        },
    }
}

/// Adds to `state` what `walk` finds in the children of `parent`.
pub fn walk_all(walk_kind: Walk, parent: &SyntaxNode, state: &mut ScriptParsingState)
    ensures
        final(state).deep_view() == walk_children(
            walk_kind,
            parent.deep_view().children,
            0,
            old(state).deep_view(),
        ),
    decreases parent, 0nat,
{
    let n = parent.child_count();
    let mut i: usize = 0;
    while i < n
        invariant
            i <= n,
            n == parent.deep_view().children.len(),
            walk_children(walk_kind, parent.deep_view().children, 0, old(state).deep_view())
                == walk_children(walk_kind, parent.deep_view().children, i as int, state.deep_view()),
        decreases n - i,
    {
        let child = parent.child(i);
        walk(walk_kind, child, state);
        i += 1;
    }
}

fn parse_member_pair(key: String, value: &SyntaxNode, state: &mut ScriptParsingState)
    ensures
        final(state).deep_view() == member_pair(key@, value.deep_view(), old(state).deep_view()),
    decreases value, 4nat,
{
    let k = key.as_str();
    if str_eq(k, "methods") {
        walk_all(Walk::Methods, value, state);
    } else if str_eq(k, "computed") {
        walk_all(Walk::Computed, value, state);
    } else if str_eq(k, "props") {
        walk_all(Walk::Props, value, state);
    } else if str_eq(k, "data") {
        parse_data_function(value, state);
    } else if str_eq(k, "head") {
        parse_head_method(value, state);
    } else if str_eq(k, "watch") {
        walk_all(Walk::Watchers, value, state);
        parse_general_node(value, state);
    } else if str_eq(k, "nuxtI18n") {
        state.nuxt_i18n = Some(value.text.clone());
    } else if str_eq(k, "asyncData") {
        state.async_data_method = Some(value.text.clone());
    } else if is_lifecycle_name(k) || str_eq(k, "fetch") {
        parse_general_node(value, state);
        push_hook(state, key, value);
    } else {
        parse_general_node(value, state);
    }
}

fn parse_member_method(name: String, node: &SyntaxNode, state: &mut ScriptParsingState)
    ensures
        final(state).deep_view() == member_method(name@, node.deep_view(), old(state).deep_view()),
    decreases node, 4nat,
{
    let k = name.as_str();
    if str_eq(k, "data") {
        parse_data_function(node, state);
    } else if str_eq(k, "head") {
        parse_head_method(node, state);
    } else if str_eq(k, "fetch") {
        parse_fetch_method(node, state);
    } else if str_eq(k, "asyncData") {
        state.async_data_method = Some(node.text.clone());
    } else if is_lifecycle_name(k) {
        parse_general_node(node, state);
        push_hook(state, name, node);
    } else {
        parse_general_node(node, state);
    }
}

/// Reads the data fields that a `data` member declares.
pub fn parse_data_function(node: &SyntaxNode, state: &mut ScriptParsingState)
    ensures
        final(state).deep_view() == data_function(node.deep_view(), old(state).deep_view()),
    decreases node, 3nat,
{
    if node.is_kind("function") || node.is_kind("function_expression") || node.is_kind(
        "method_definition",
    ) {
        walk(Walk::Returns, node, state);
    } else if node.is_kind("arrow_function") {
        parse_data_arrow_function(node, state);
    } else {
        parse_general_node(node, state);
    }
}

/// Reads the data fields that an arrow function declares.
pub fn parse_data_arrow_function(node: &SyntaxNode, state: &mut ScriptParsingState)
    ensures
        final(state).deep_view() == data_arrow(node.deep_view(), old(state).deep_view()),
    decreases node, 2nat,
{
    let b = find_field(node, "body");
    if b < node.child_count() {
        let body = node.child(b);
        if body.is_kind("object") {
            walk_all(Walk::Data, body, state);
        } else if body.is_kind("parenthesized_expression") {
            let o = find_kind(body, "object", "object");
            if o < body.child_count() {
                walk_all(Walk::Data, body.child(o), state);
            }
        } else {
            walk(Walk::Returns, body, state);
        }
    }
}

/// Reads the members of a component object.
pub fn parse_vue_component_object(node: &SyntaxNode, state: &mut ScriptParsingState)
    ensures
        final(state).deep_view() == walk_children(
            Walk::Component,
            node.deep_view().children,
            0,
            old(state).deep_view(),
        ),
{
    walk_all(Walk::Component, node, state);
}

/// Reads the members of a `methods` object.
pub fn parse_methods_object(node: &SyntaxNode, state: &mut ScriptParsingState)
    ensures
        final(state).deep_view() == walk_children(
            Walk::Methods,
            node.deep_view().children,
            0,
            old(state).deep_view(),
        ),
{
    walk_all(Walk::Methods, node, state);
}

/// Reads the members of a `computed` object.
pub fn parse_computed_object(node: &SyntaxNode, state: &mut ScriptParsingState)
    ensures
        final(state).deep_view() == walk_children(
            Walk::Computed,
            node.deep_view().children,
            0,
            old(state).deep_view(),
        ),
{
    walk_all(Walk::Computed, node, state);
}

/// Reads the members of a `props` object.
pub fn parse_props_object(node: &SyntaxNode, state: &mut ScriptParsingState)
    ensures
        final(state).deep_view() == walk_children(
            Walk::Props,
            node.deep_view().children,
            0,
            old(state).deep_view(),
        ),
{
    walk_all(Walk::Props, node, state);
}

/// Reads the members of a data object.
pub fn parse_data_object(node: &SyntaxNode, state: &mut ScriptParsingState)
    ensures
        final(state).deep_view() == walk_children(
            Walk::Data,
            node.deep_view().children,
            0,
            old(state).deep_view(),
        ),
{
    walk_all(Walk::Data, node, state);
}

/// The facts after a `watch` object was read: its watchers are kept, and
/// the object is walked for identifiers and calls.
pub open spec fn watchers_object(node: TreeModel, st: ScriptFacts) -> ScriptFacts {
    general_walk(node, walk_children(Walk::Watchers, node.children, 0, st))
}

/// Reads the members of a `watch` object.
pub fn parse_watchers_object(node: &SyntaxNode, state: &mut ScriptParsingState)
    ensures
        final(state).deep_view() == watchers_object(node.deep_view(), old(state).deep_view()),
{
    walk_all(Walk::Watchers, node, state);
    parse_general_node(node, state);
}

/// Reads the data fields of the objects that a function returns.
pub fn find_return_object(node: &SyntaxNode, state: &mut ScriptParsingState)
    ensures
        final(state).deep_view() == walk_node(Walk::Returns, node.deep_view(), old(state).deep_view()),
{
    walk(Walk::Returns, node, state);
}

/// Whether a call of `import` stands at `node` or below it.
pub open spec fn has_dynamic_import(node: TreeModel) -> bool
    decreases node, 0nat,
{
    (node.kind == "call_expression"@ && child_by_field(node, "function"@) is Some && child_by_field(
        node,
        "function"@,
    )->0.text == "import"@) || any_dynamic_import(node.children, 0)
}

/// Whether a call of `import` stands in one of the children from `i` on.
pub open spec fn any_dynamic_import(children: Seq<TreeModel>, i: int) -> bool
    decreases children, children.len() - i,
{
    if 0 <= i < children.len() {
        has_dynamic_import(children[i]) || any_dynamic_import(children, i + 1)
    } else {
        false
    }
}

/// Tells whether `node` holds a dynamic import.
pub fn contains_dynamic_import(node: &SyntaxNode) -> (r: bool)
    ensures
        r == has_dynamic_import(node.deep_view()),
    decreases node,
{
    if node.is_kind("call_expression") {
        match node.child_by_field_name("function") {
            Some(function) => {
                if str_eq(function.text.as_str(), "import") {
                    return true;
                }
            },
            None => {},
        }
    }
    let n = node.child_count();
    let mut i: usize = 0;
    while i < n
        invariant
            i <= n,
            n == node.deep_view().children.len(),
            any_dynamic_import(node.deep_view().children, 0) == any_dynamic_import(
                node.deep_view().children,
                i as int,
            ),
        decreases n - i,
    {
        if contains_dynamic_import(node.child(i)) {
            return true;
        }
        i += 1;
    }
    false
}

/// Whether `node` is an arrow function whose body holds a dynamic import.
pub open spec fn is_async_component(node: TreeModel) -> bool {
    node.kind == "arrow_function"@ && child_by_field(node, "body"@) is Some && has_dynamic_import(
        child_by_field(node, "body"@)->0,
    )
}

/// Tells whether a declared value is a component that is loaded on demand.
pub fn is_async_component_declaration(node: &SyntaxNode) -> (r: bool)
    ensures
        r == is_async_component(node.deep_view()),
{
    if node.is_kind("arrow_function") {
        match node.child_by_field_name("body") {
            Some(body) => contains_dynamic_import(body),
            None => false,
        }
    } else {
        false
    }
}

/// The facts of a script: the line pass first, then, when the grammar
/// accepts the script, the walk over its tree.
pub open spec fn script_facts(script: Seq<char>, st: ScriptFacts) -> ScriptFacts {
    match javascript_tree(script) {
        Some(tree) => walk_node(Walk::Sections, tree, after_prepass(script, st)),
        None => after_prepass(script, st),
    }
}

/// Adds to `state` what the walk over the syntax tree finds.
pub fn find_vue_component_sections(node: &SyntaxNode, state: &mut ScriptParsingState)
    ensures
        final(state).deep_view() == walk_node(Walk::Sections, node.deep_view(), old(state).deep_view()),
{
    walk(Walk::Sections, node, state);
}

/// Gathers the facts of a script section into `state`.
///
/// Succeeds exactly when the grammar accepts the script; a script that the
/// parser can read only with error nodes fails. The imports and the setup
/// content are gathered in either case.
pub fn parse_script_section(script_content: &str, state: &mut ScriptParsingState) -> (r: Result<
    (),
    TransformError,
>)
    ensures
        final(state).deep_view() == script_facts(script_content@, old(state).deep_view()),
        r is Ok <==> grammar_accepts(script_content@),
        r is Err ==> r == Err::<(), TransformError>(TransformError::GrammarParseFailure),
{
    extract_imports_and_setup(script_content, state);
    match parse_javascript(script_content) {
        None => Err(TransformError::GrammarParseFailure),
        Some(root) => {
            find_vue_component_sections(&root, state);
            Ok(())
        },
    }
}

} // verus!
