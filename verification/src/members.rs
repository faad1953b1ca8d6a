//! What the members of a component object say: methods, computed
//! properties, props, data fields and watchers, one member at a time.

use crate::model::{
    ComputedDetail, ComputedModel, DataPropertyInfo, DataPropertyModel, MethodDetail, MethodModel, PropInfo,
    PropModel, ScriptFacts, ScriptParsingState, WatcherDetail, WatcherModel,
};
use crate::script::{inner, inner_of, is_wrapped, wrapped_in};
use crate::strs::{owned, str_contains, str_eq, str_trim, str_trim_matches};
use crate::syntax::{child_by_field, SyntaxNode, TreeModel};
use crate::text;
use crate::text::push_deep;
use crate::visit::{general_walk, parse_general_node};
use vstd::prelude::*;

verus! {

/// The name that a key stands for: its text without quotes around it.
pub open spec fn key_name(key: Seq<char>) -> Seq<char> {
    text::trim_matches(text::trim_matches(key, '"'), '\'')
}

pub fn key_name_of(node: &SyntaxNode) -> (r: String)
    ensures
        r@ == key_name(node.deep_view().text),
{
    str_trim_matches(str_trim_matches(node.text.as_str(), '"').as_str(), '\'')
}

/// Whether the text of the node holds the word `async`.
pub open spec fn is_async(node: TreeModel) -> bool {
    text::contains(node.text, "async"@)
}

/// Tells whether a function or method is asynchronous.
pub fn check_if_async(node: &SyntaxNode) -> (r: bool)
    ensures
        r == is_async(node.deep_view()),
{
    str_contains(node.text.as_str(), "async")
}

/// A block's text without its braces, trimmed; any other text as it is.
pub open spec fn strip_braces(t: Seq<char>) -> Seq<char> {
    if is_wrapped(t, '{', '}') {
        text::trim(inner(t))
    } else {
        t
    }
}

fn strip_braces_of(t: &str) -> (r: String)
    ensures
        r@ == strip_braces(t@),
{
    if wrapped_in(t, '{', '}') {
        str_trim(inner_of(t).as_str())
    } else {
        owned(t)
    }
}

/// The index of the first child from `i` on whose kind is `a` or `b`, or
/// the number of children.
pub open spec fn kind_index(children: Seq<TreeModel>, a: Seq<char>, b: Seq<char>, i: int) -> int
    decreases children.len() - i,
{
    if i < 0 || i >= children.len() {
        children.len() as int
    } else if children[i].kind == a || children[i].kind == b {
        i
    } else {
        kind_index(children, a, b, i + 1)
    }
}

/// Finds the first child whose kind is `a` or `b`.
pub fn find_kind(node: &SyntaxNode, a: &str, b: &str) -> (i: usize)
    ensures
        i == kind_index(node.deep_view().children, a@, b@, 0),
        i <= node.deep_view().children.len(),
{
    let n = node.child_count();
    let mut i: usize = 0;
    while i < n
        invariant
            i <= n,
            n == node.deep_view().children.len(),
            kind_index(node.deep_view().children, a@, b@, 0) == kind_index(
                node.deep_view().children,
                a@,
                b@,
                i as int,
            ),
        decreases n - i,
    {
        let child = node.child(i);
        if child.is_kind(a) || child.is_kind(b) {
            return i;
        }
        i += 1;
    }
    i
}

/// The body of a function or method: the text of its `body` child, or of
/// its first block child, without the braces; empty when it has neither.
pub open spec fn method_body(node: TreeModel) -> Seq<char> {
    match child_by_field(node, "body"@) {
        Some(body) => strip_braces(body.text),
        None => {
            let i = kind_index(node.children, "statement_block"@, "block_statement"@, 0);
            if 0 <= i < node.children.len() {
                strip_braces(node.children[i].text)
            } else {
                Seq::empty()
            }
        },
    }
}

/// Extracts the body of a function or method.
pub fn extract_method_body(node: &SyntaxNode) -> (r: String)
    ensures
        r@ == method_body(node.deep_view()),
{
    match node.child_by_field_name("body") {
        Some(body) => strip_braces_of(body.text.as_str()),
        None => {
            let i = find_kind(node, "statement_block", "block_statement");
            if i < node.child_count() {
                strip_braces_of(node.child(i).text.as_str())
            } else {
                String::new()
            }
        },
    }
}

/// The texts of the children from `i` on that are identifiers, appended to
/// `acc`.
pub open spec fn identifier_texts_from(children: Seq<TreeModel>, i: int, acc: Seq<Seq<char>>) -> Seq<
    Seq<char>,
>
    decreases children.len() - i,
{
    if i < 0 || i >= children.len() {
        acc
    } else if children[i].kind == "identifier"@ {
        identifier_texts_from(children, i + 1, acc.push(children[i].text))
    } else {
        identifier_texts_from(children, i + 1, acc)
    }
}

fn identifier_texts(list: &SyntaxNode) -> (r: Vec<String>)
    ensures
        r.deep_view() == identifier_texts_from(list.deep_view().children, 0, Seq::empty()),
{
    let mut out: Vec<String> = Vec::new();
    assert(out.deep_view() =~= Seq::empty());
    let n = list.child_count();
    let mut i: usize = 0;
    while i < n
        invariant
            i <= n,
            n == list.deep_view().children.len(),
            identifier_texts_from(list.deep_view().children, 0, Seq::empty()) == identifier_texts_from(
                list.deep_view().children,
                i as int,
                out.deep_view(),
            ),
        decreases n - i,
    {
        let child = list.child(i);
        if child.is_kind("identifier") {
            push_deep(&mut out, child.text.clone());
        }
        i += 1;
    }
    out
}

/// The names of the plain parameters of a function or method: the
/// identifiers directly under its `parameters` child, or under its first
/// parameter list.
pub open spec fn method_parameters(node: TreeModel) -> Seq<Seq<char>> {
    match child_by_field(node, "parameters"@) {
        Some(list) => identifier_texts_from(list.children, 0, Seq::empty()),
        None => {
            let i = kind_index(node.children, "formal_parameters"@, "formal_parameters"@, 0);
            if 0 <= i < node.children.len() {
                identifier_texts_from(node.children[i].children, 0, Seq::empty())
            } else {
                Seq::empty()
            }
        },
    }
}

/// Extracts the parameter names of a function or method.
pub fn extract_method_parameters(node: &SyntaxNode) -> (r: Vec<String>)
    ensures
        r.deep_view() == method_parameters(node.deep_view()),
{
    match node.child_by_field_name("parameters") {
        Some(list) => identifier_texts(list),
        None => {
            let i = find_kind(node, "formal_parameters", "formal_parameters");
            if i < node.child_count() {
                identifier_texts(node.child(i))
            } else {
                let out: Vec<String> = Vec::new();
                assert(out.deep_view() =~= Seq::empty());
                out
            }
        },
    }
}

/// The two parameter names of a watcher's handler; a missing one gets the
/// standard name.
pub open spec fn watcher_params(node: TreeModel) -> (Seq<char>, Seq<char>) {
    let p = method_parameters(node);
    (
        if p.len() >= 1 {
            p[0]
        } else {
            "newVal"@
        },
        if p.len() >= 2 {
            p[1]
        } else {
            "oldVal"@
        },
    )
}

/// Extracts the two parameter names of a watcher's handler.
pub fn extract_watcher_param_names(node: &SyntaxNode) -> (r: (String, String))
    ensures
        r.deep_view() == watcher_params(node.deep_view()),
{
    let p = extract_method_parameters(node);
    let first = if p.len() >= 1 {
        assert(p.deep_view()[0] == p@[0]@);
        p[0].clone()
    } else {
        owned("newVal")
    };
    let second = if p.len() >= 2 {
        assert(p.deep_view()[1] == p@[1]@);
        p[1].clone()
    } else {
        owned("oldVal")
    };
    (first, second)
}

/// A method as a function or method node states it.
pub open spec fn method_of(name: Seq<char>, node: TreeModel) -> MethodModel {
    MethodModel {
        name,
        parameters: method_parameters(node),
        body: method_body(node),
        is_async: is_async(node),
    }
}

/// A method without parameters as a node states it.
pub open spec fn bare_method_of(name: Seq<char>, node: TreeModel) -> MethodModel {
    MethodModel { name, parameters: Seq::empty(), body: method_body(node), is_async: is_async(node) }
}

pub fn read_method(name: String, node: &SyntaxNode) -> (r: MethodDetail)
    ensures
        r.deep_view() == method_of(name@, node.deep_view()),
{
    MethodDetail {
        name,
        parameters: extract_method_parameters(node),
        body: extract_method_body(node),
        is_async: check_if_async(node),
    }
}

pub fn read_bare_method(name: String, node: &SyntaxNode) -> (r: MethodDetail)
    ensures
        r.deep_view() == bare_method_of(name@, node.deep_view()),
{
    let parameters: Vec<String> = Vec::new();
    assert(parameters.deep_view() =~= Seq::empty());
    MethodDetail { name, parameters, body: extract_method_body(node), is_async: check_if_async(node) }
}

/// The facts with one more method.
pub open spec fn with_method(st: ScriptFacts, name: Seq<char>, node: TreeModel) -> ScriptFacts {
    ScriptFacts {
        methods: st.methods.push(name),
        method_details: st.method_details.push(method_of(name, node)),
        ..st
    }
}

/// What one member of a `methods` object adds to the facts.
///
/// A `key: function` pair and a shorthand method each add a method. The
/// body of a shorthand method is walked for identifiers and calls, a spread
/// of a helper call likewise; the function of a pair is not.
pub open spec fn methods_step(child: TreeModel, st: ScriptFacts) -> ScriptFacts {
    if child.kind == "pair"@ {
        if child.children.len() >= 3 {
            with_method(st, key_name(child.children[0].text), child.children[2])
        } else {
            st
        }
    } else if child.kind == "method_definition"@ {
        let named = child_by_field(child, "name"@);
        let st1 = match named {
            Some(name) => with_method(st, key_name(name.text), child),
            None => st,
        };
        let at: int = if named is Some && is_async(child) {
            3
        } else {
            2
        };
        if at < child.children.len() {
            general_walk(child.children[at], st1)
        } else {
            st1
        }
    } else if child.kind == "spread_element"@ {
        general_walk(child, st)
    } else {
        st
    }
}

fn push_method(state: &mut ScriptParsingState, name: String, node: &SyntaxNode)
    ensures
        final(state).deep_view() == with_method(old(state).deep_view(), name@, node.deep_view()),
{
    push_deep(&mut state.methods, name.clone());
    push_deep(&mut state.method_details, read_method(name, node));
}

pub fn methods_member(child: &SyntaxNode, state: &mut ScriptParsingState)
    ensures
        final(state).deep_view() == methods_step(child.deep_view(), old(state).deep_view()),
{
    if child.is_kind("pair") {
        if child.child_count() >= 3 {
            push_method(state, key_name_of(child.child(0)), child.child(2));
        }
    } else if child.is_kind("method_definition") {
        let mut at: usize = 2;
        match child.child_by_field_name("name") {
            Some(name) => {
                push_method(state, key_name_of(name), child);
                if check_if_async(child) {
                    at = 3;
                }
            },
            None => {},
        }
        if at < child.child_count() {
            parse_general_node(child.child(at), state);
        }
    } else if child.is_kind("spread_element") {
        parse_general_node(child, state);
    }
}

/// The accessor that `name` and `body` stand for is set on `detail`; any
/// name but `get` and `set` changes nothing.
pub open spec fn with_accessor(detail: ComputedModel, name: Seq<char>, function: TreeModel) -> ComputedModel {
    let body = method_body(function);
    if name == "get"@ {
        ComputedModel { getter: Some(body), ..detail }
    } else if name == "set"@ {
        let p = method_parameters(function);
        ComputedModel {
            setter: Some(body),
            setter_parameter: if p.len() > 0 {
                Some(p[0])
            } else {
                detail.setter_parameter
            },
            ..detail
        }
    } else {
        detail
    }
}

/// What one member of a get/set object adds to a computed property.
pub open spec fn accessor_step(child: TreeModel, detail: ComputedModel) -> ComputedModel {
    if child.kind == "method_definition"@ {
        match child_by_field(child, "name"@) {
            Some(name) => with_accessor(detail, name.text, child),
            None => detail,
        }
    } else if child.kind == "pair"@ && child.children.len() >= 3 {
        with_accessor(detail, key_name(child.children[0].text), child.children[2])
    } else {
        detail
    }
}

/// The computed property after the members from `i` on were read.
pub open spec fn accessors_from(children: Seq<TreeModel>, i: int, detail: ComputedModel) -> ComputedModel
    decreases children.len() - i,
{
    if i < 0 || i >= children.len() {
        detail
    } else {
        accessors_from(children, i + 1, accessor_step(children[i], detail))
    }
}

fn set_accessor(detail: &mut ComputedDetail, name: &str, function: &SyntaxNode)
    ensures
        final(detail).deep_view() == with_accessor(old(detail).deep_view(), name@, function.deep_view()),
{
    let body = extract_method_body(function);
    if str_eq(name, "get") {
        detail.getter = Some(body);
    } else if str_eq(name, "set") {
        detail.setter = Some(body);
        let p = extract_method_parameters(function);
        if p.len() > 0 {
            assert(p.deep_view()[0] == p@[0]@);
            detail.setter_parameter = Some(p[0].clone());
        }
    }
}

/// Reads the getter and the setter of a computed property from a get/set
/// object.
pub fn parse_computed_getter_setter(object_node: &SyntaxNode, computed_detail: &mut ComputedDetail)
    ensures
        final(computed_detail).deep_view() == accessors_from(
            object_node.deep_view().children,
            0,
            old(computed_detail).deep_view(),
        ),
{
    let n = object_node.child_count();
    let mut i: usize = 0;
    while i < n
        invariant
            i <= n,
            n == object_node.deep_view().children.len(),
            accessors_from(object_node.deep_view().children, 0, old(computed_detail).deep_view())
                == accessors_from(
                object_node.deep_view().children,
                i as int,
                computed_detail.deep_view(),
            ),
        decreases n - i,
    {
        let child = object_node.child(i);
        if child.is_kind("method_definition") {
            match child.child_by_field_name("name") {
                Some(name) => {
                    set_accessor(computed_detail, name.text.as_str(), child);
                },
                None => {},
            }
        } else if child.is_kind("pair") && child.child_count() >= 3 {
            let name = key_name_of(child.child(0));
            set_accessor(computed_detail, name.as_str(), child.child(2));
        }
        i += 1;
    }
}

/// The computed property that a `key: value` pair states.
pub open spec fn computed_of_pair(name: Seq<char>, value: TreeModel) -> ComputedModel {
    let blank = ComputedModel {
        name,
        getter: None,
        setter: None,
        setter_parameter: None,
        is_simple_function: false,
    };
    if value.kind == "arrow_function"@ || value.kind == "function"@ {
        ComputedModel { is_simple_function: true, getter: Some(method_body(value)), ..blank }
    } else if value.kind == "object"@ {
        accessors_from(value.children, 0, blank)
    } else {
        blank
    }
}

/// The facts with one more computed property.
pub open spec fn with_computed(st: ScriptFacts, detail: ComputedModel) -> ScriptFacts {
    ScriptFacts {
        computed_properties: st.computed_properties.push(detail.name),
        computed_details: st.computed_details.push(detail),
        ..st
    }
}

/// What one member of a `computed` object adds to the facts.
pub open spec fn computed_step(child: TreeModel, st: ScriptFacts) -> ScriptFacts {
    if child.kind == "pair"@ {
        if child.children.len() >= 3 {
            with_computed(st, computed_of_pair(key_name(child.children[0].text), child.children[2]))
        } else {
            st
        }
    } else if child.kind == "method_definition"@ {
        let st1 = match child_by_field(child, "name"@) {
            Some(name) => with_computed(
                st,
                ComputedModel {
                    name: key_name(name.text),
                    getter: Some(method_body(child)),
                    setter: None,
                    setter_parameter: None,
                    is_simple_function: true,
                },
            ),
            None => st,
        };
        general_walk(child, st1)
    } else if child.kind == "spread_element"@ {
        general_walk(child, st)
    } else {
        st
    }
}

fn read_computed_pair(name: String, value: &SyntaxNode) -> (r: ComputedDetail)
    ensures
        r.deep_view() == computed_of_pair(name@, value.deep_view()),
{
    let mut detail = ComputedDetail {
        name,
        getter: None,
        setter: None,
        setter_parameter: None,
        is_simple_function: false,
    };
    if value.is_kind("arrow_function") || value.is_kind("function") {
        detail.is_simple_function = true;
        detail.getter = Some(extract_method_body(value));
    } else if value.is_kind("object") {
        parse_computed_getter_setter(value, &mut detail);
    }
    detail
}

fn push_computed(state: &mut ScriptParsingState, detail: ComputedDetail)
    ensures
        final(state).deep_view() == with_computed(old(state).deep_view(), detail.deep_view()),
{
    push_deep(&mut state.computed_properties, detail.name.clone());
    push_deep(&mut state.computed_details, detail);
}

pub fn computed_member(child: &SyntaxNode, state: &mut ScriptParsingState)
    ensures
        final(state).deep_view() == computed_step(child.deep_view(), old(state).deep_view()),
{
    if child.is_kind("pair") {
        if child.child_count() >= 3 {
            let detail = read_computed_pair(key_name_of(child.child(0)), child.child(2));
            push_computed(state, detail);
        }
    } else if child.is_kind("method_definition") {
        match child.child_by_field_name("name") {
            Some(name) => {
                let detail = ComputedDetail {
                    name: key_name_of(name),
                    getter: Some(extract_method_body(child)),
                    setter: None,
                    setter_parameter: None,
                    is_simple_function: true,
                };
                push_computed(state, detail);
            },
            None => {},
        }
        parse_general_node(child, state);
    } else if child.is_kind("spread_element") {
        parse_general_node(child, state);
    }
}

/// What one entry of a prop's definition object sets.
pub open spec fn prop_entry_step(child: TreeModel, prop: PropModel) -> PropModel {
    if child.kind == "pair"@ && child.children.len() >= 3 {
        let key = key_name(child.children[0].text);
        let value = child.children[2].text;
        if key == "type"@ {
            PropModel { prop_type: Some(value), ..prop }
        } else if key == "required"@ {
            PropModel { required: Some(value == "true"@), ..prop }
        } else if key == "default"@ {
            PropModel { default_value: Some(value), ..prop }
        } else if key == "validator"@ {
            PropModel { validator: Some(value), ..prop }
        } else {
            prop
        }
    } else {
        prop
    }
}

/// The prop after the entries from `i` on were read.
pub open spec fn prop_entries_from(children: Seq<TreeModel>, i: int, prop: PropModel) -> PropModel
    decreases children.len() - i,
{
    if i < 0 || i >= children.len() {
        prop
    } else {
        prop_entries_from(children, i + 1, prop_entry_step(children[i], prop))
    }
}

/// Reads a prop's definition object.
pub fn parse_prop_definition(node: &SyntaxNode, prop_info: &mut PropInfo)
    ensures
        final(prop_info).deep_view() == prop_entries_from(
            node.deep_view().children,
            0,
            old(prop_info).deep_view(),
        ),
{
    let n = node.child_count();
    let mut i: usize = 0;
    while i < n
        invariant
            i <= n,
            n == node.deep_view().children.len(),
            prop_entries_from(node.deep_view().children, 0, old(prop_info).deep_view())
                == prop_entries_from(node.deep_view().children, i as int, prop_info.deep_view()),
        decreases n - i,
    {
        let child = node.child(i);
        if child.is_kind("pair") && child.child_count() >= 3 {
            let key = key_name_of(child.child(0));
            let value = child.child(2).text.clone();
            if str_eq(key.as_str(), "type") {
                prop_info.prop_type = Some(value);
            } else if str_eq(key.as_str(), "required") {
                prop_info.required = Some(str_eq(value.as_str(), "true"));
            } else if str_eq(key.as_str(), "default") {
                prop_info.default_value = Some(value);
            } else if str_eq(key.as_str(), "validator") {
                prop_info.validator = Some(value);
            }
        }
        i += 1;
    }
}

/// The prop that a member of a `props` object states.
pub open spec fn prop_of(child: TreeModel) -> PropModel {
    let blank = PropModel {
        name: key_name(child.children[0].text),
        prop_type: None,
        required: None,
        default_value: None,
        validator: None,
    };
    if child.children.len() >= 3 {
        let value = child.children[2];
        if value.kind == "object"@ {
            prop_entries_from(value.children, 0, blank)
        } else {
            PropModel { prop_type: Some(value.text), ..blank }
        }
    } else {
        blank
    }
}

/// What one member of a `props` object adds to the facts.
pub open spec fn props_step(child: TreeModel, st: ScriptFacts) -> ScriptFacts {
    if child.kind == "pair"@ && child.children.len() >= 1 {
        ScriptFacts { props: st.props.push(prop_of(child)), ..st }
    } else {
        st
    }
}

pub fn props_member(child: &SyntaxNode, state: &mut ScriptParsingState)
    ensures
        final(state).deep_view() == props_step(child.deep_view(), old(state).deep_view()),
{
    if child.is_kind("pair") && child.child_count() >= 1 {
        let mut prop = PropInfo {
            name: key_name_of(child.child(0)),
            prop_type: None,
            required: None,
            default_value: None,
            validator: None,
        };
        if child.child_count() >= 3 {
            let value = child.child(2);
            if value.is_kind("object") {
                parse_prop_definition(value, &mut prop);
            } else {
                prop.prop_type = Some(value.text.clone());
            }
        }
        push_deep(&mut state.props, prop);
    }
}

/// What one member of a data object adds to the facts.
pub open spec fn data_step(child: TreeModel, st: ScriptFacts) -> ScriptFacts {
    if child.kind == "pair"@ && child.children.len() >= 1 {
        ScriptFacts {
            data_properties: st.data_properties.push(
                DataPropertyModel {
                    name: key_name(child.children[0].text),
                    value: if child.children.len() >= 3 {
                        Some(child.children[2].text)
                    } else {
                        None
                    },
                },
            ),
            ..st
        }
    } else {
        st
    }
}

pub fn data_member(child: &SyntaxNode, state: &mut ScriptParsingState)
    ensures
        final(state).deep_view() == data_step(child.deep_view(), old(state).deep_view()),
{
    if child.is_kind("pair") && child.child_count() >= 1 {
        let value = if child.child_count() >= 3 {
            Some(child.child(2).text.clone())
        } else {
            None
        };
        push_deep(&mut state.data_properties, DataPropertyInfo { name: key_name_of(child.child(0)), value });
    }
}

/// The watcher that a name and a handler state.
pub open spec fn watcher_of(name: Seq<char>, handler: TreeModel) -> WatcherModel {
    WatcherModel {
        watched_property: name,
        handler_body: method_body(handler),
        is_async: is_async(handler),
        param_names: watcher_params(handler),
    }
}

/// What one member of a `watch` object adds to the facts.
pub open spec fn watcher_step(child: TreeModel, st: ScriptFacts) -> ScriptFacts {
    if child.kind == "pair"@ {
        if child.children.len() >= 3 {
            ScriptFacts {
                watchers: st.watchers.push(
                    watcher_of(key_name(child.children[0].text), child.children[2]),
                ),
                ..st
            }
        } else {
            st
        }
    } else if child.kind == "method_definition"@ {
        match child_by_field(child, "name"@) {
            Some(name) => ScriptFacts {
                watchers: st.watchers.push(watcher_of(key_name(name.text), child)),
                ..st
            },
            None => st,
        }
    } else {
        st
    }
}

fn read_watcher(name: String, handler: &SyntaxNode) -> (r: WatcherDetail)
    ensures
        r.deep_view() == watcher_of(name@, handler.deep_view()),
{
    WatcherDetail {
        watched_property: name,
        handler_body: extract_method_body(handler),
        is_async: check_if_async(handler),
        param_names: extract_watcher_param_names(handler),
    }
}

pub fn watcher_member(child: &SyntaxNode, state: &mut ScriptParsingState)
    ensures
        final(state).deep_view() == watcher_step(child.deep_view(), old(state).deep_view()),
{
    if child.is_kind("pair") {
        if child.child_count() >= 3 {
            push_deep(&mut state.watchers, read_watcher(key_name_of(child.child(0)), child.child(2)));
        }
    } else if child.is_kind("method_definition") {
        match child.child_by_field_name("name") {
            Some(name) => {
                push_deep(&mut state.watchers, read_watcher(key_name_of(name), child));
            },
            None => {},
        }
    }
}

/// The facts after a `head` member was read: its body is kept, and the
/// member is walked for identifiers and calls.
pub open spec fn head_step(node: TreeModel, st: ScriptFacts) -> ScriptFacts {
    general_walk(node, ScriptFacts { head_method: Some(bare_method_of("head"@, node)), ..st })
}

/// Reads the `head` member.
pub fn parse_head_method(node: &SyntaxNode, state: &mut ScriptParsingState)
    ensures
        final(state).deep_view() == head_step(node.deep_view(), old(state).deep_view()),
{
    state.head_method = Some(read_bare_method(owned("head"), node));
    parse_general_node(node, state);
}

/// The facts after a `fetch` method was read.
pub open spec fn fetch_step(node: TreeModel, st: ScriptFacts) -> ScriptFacts {
    general_walk(node, ScriptFacts { fetch_method: Some(bare_method_of("fetch"@, node)), ..st })
}

/// Reads the `fetch` method.
pub fn parse_fetch_method(node: &SyntaxNode, state: &mut ScriptParsingState)
    ensures
        final(state).deep_view() == fetch_step(node.deep_view(), old(state).deep_view()),
{
    state.fetch_method = Some(read_bare_method(owned("fetch"), node));
    parse_general_node(node, state);
}

} // verus!
