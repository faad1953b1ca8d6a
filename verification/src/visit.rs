//! The generic walk over a syntax tree: every identifier and every call is
//! noted, whatever surrounds it.

use crate::model::{FunctionCallDetail, FunctionCallModel, ScriptFacts, ScriptParsingState, TemplateFacts, TemplateParsingState};
use crate::strs::{list_contains, str_len, str_strip_prefix};
use crate::syntax::{child_by_field, SyntaxNode, TreeModel};
use crate::text;
use crate::text::push_deep;
use vstd::prelude::*;

verus! {

/// The facts that the generic walk gathers.
pub struct CallFacts {
    /// Names referred to, each once.
    pub identifiers: Seq<Seq<char>>,
    /// Called expressions, each once.
    pub function_calls: Seq<Seq<char>>,
    /// Every call with its arguments.
    pub function_call_details: Seq<FunctionCallModel>,
}

/// A name is noted once; with `skip_empty` the empty name is not noted.
pub open spec fn note_identifier(facts: CallFacts, name: Seq<char>, skip_empty: bool) -> CallFacts {
    if (skip_empty && name.len() == 0) || facts.identifiers.contains(name) {
        facts
    } else {
        CallFacts { identifiers: facts.identifiers.push(name), ..facts }
    }
}

/// The texts of the children from index `i` on that are not a comma,
/// appended to `acc`.
pub open spec fn argument_texts_from(children: Seq<TreeModel>, i: int, acc: Seq<Seq<char>>) -> Seq<
    Seq<char>,
>
    decreases children.len() - i,
{
    if i < 0 || i >= children.len() {
        acc
    } else if children[i].kind == ","@ {
        argument_texts_from(children, i + 1, acc)
    } else {
        argument_texts_from(children, i + 1, acc.push(children[i].text))
    }
}

/// What a call node says: the called expression, the argument list child
/// by child, and the whole text; `None` when the node lacks either part.
pub open spec fn call_detail(node: TreeModel) -> Option<FunctionCallModel> {
    match child_by_field(node, "function"@) {
        None => None,
        Some(function) => match child_by_field(node, "arguments"@) {
            None => None,
            Some(arguments) => Some(
                FunctionCallModel {
                    name: function.text,
                    arguments: argument_texts_from(arguments.children, 0, Seq::empty()),
                    full_call: node.text,
                },
            ),
        },
    }
}

/// What a node says when it is a call; `None` for any other node.
pub open spec fn function_call_details(node: TreeModel) -> Option<FunctionCallModel> {
    if node.kind == "call_expression"@ {
        call_detail(node)
    } else {
        None
    }
}

/// A call is noted: its detail always, its name once.
pub open spec fn note_call(facts: CallFacts, node: TreeModel) -> CallFacts {
    match call_detail(node) {
        None => facts,
        Some(detail) => CallFacts {
            function_call_details: facts.function_call_details.push(detail),
            function_calls: if facts.function_calls.contains(detail.name) {
                facts.function_calls
            } else {
                facts.function_calls.push(detail.name)
            },
            ..facts
        },
    }
}

/// A member access rooted at `this` is noted by what follows `this.`.
pub open spec fn note_member(facts: CallFacts, node: TreeModel) -> CallFacts {
    match text::strip_prefix(node.text, "this."@) {
        Some(property) => note_identifier(facts, property, true),
        None => facts,
    }
}

/// The generic walk over `node` and everything below it.
///
/// In a script (`script` set) an identifier is a leaf, an empty name is
/// skipped, and member accesses rooted at `this` are noted. In a template
/// expression every node's children are walked and member accesses add
/// nothing of their own.
pub open spec fn visit_node(node: TreeModel, facts: CallFacts, script: bool) -> CallFacts
    decreases node, 0nat,
{
    if node.kind == "identifier"@ {
        if script {
            note_identifier(facts, node.text, true)
        } else {
            visit_children(node.children, 0, note_identifier(facts, node.text, false), script)
        }
    } else if node.kind == "call_expression"@ {
        visit_children(node.children, 0, note_call(facts, node), script)
    } else if script && node.kind == "member_expression"@ {
        visit_children(node.children, 0, note_member(facts, node), script)
    } else {
        visit_children(node.children, 0, facts, script)
    }
}

/// The generic walk over the children from index `i` on.
pub open spec fn visit_children(children: Seq<TreeModel>, i: int, facts: CallFacts, script: bool) -> CallFacts
    decreases children, children.len() - i,
{
    if 0 <= i < children.len() {
        visit_children(children, i + 1, visit_node(children[i], facts, script), script)
    } else {
        facts
    }
}

/// Whether `after` holds everything that `before` holds, in the same
/// places, and possibly more behind it.
pub open spec fn extends(after: CallFacts, before: CallFacts) -> bool {
    &&& before.identifiers.is_prefix_of(after.identifiers)
    &&& before.function_calls.is_prefix_of(after.function_calls)
    &&& before.function_call_details.is_prefix_of(after.function_call_details)
}

/// Whether no name and no called expression is noted twice.
pub open spec fn noted_once(facts: CallFacts) -> bool {
    facts.identifiers.no_duplicates() && facts.function_calls.no_duplicates()
}

/// The walk only appends: what was noted before stays where it was. And
/// it keeps names and called expressions free of repeats.
pub proof fn lemma_walk_appends(node: TreeModel, facts: CallFacts, script: bool)
    ensures
        extends(visit_node(node, facts, script), facts),
        noted_once(facts) ==> noted_once(visit_node(node, facts, script)),
    decreases node, 0nat,
{
    let noted = if node.kind == "identifier"@ {
        note_identifier(facts, node.text, script)
    } else if node.kind == "call_expression"@ {
        note_call(facts, node)
    } else if script && node.kind == "member_expression"@ {
        note_member(facts, node)
    } else {
        facts
    };
    assert(extends(noted, facts) && (noted_once(facts) ==> noted_once(noted))) by {
        lemma_notes_append(node, facts, script);
    }
    if !(node.kind == "identifier"@ && script) {
        lemma_walk_children_append(node.children, 0, noted, script);
    }
}

/// The notes that a single node adds are appended, without repeats.
pub proof fn lemma_notes_append(node: TreeModel, facts: CallFacts, script: bool)
    ensures
        extends(note_identifier(facts, node.text, script), facts),
        extends(note_call(facts, node), facts),
        extends(note_member(facts, node), facts),
        noted_once(facts) ==> noted_once(note_identifier(facts, node.text, script)) && noted_once(
            note_call(facts, node),
        ) && noted_once(note_member(facts, node)),
{
    lemma_push_once(facts.identifiers, node.text);
    match text::strip_prefix(node.text, "this."@) {
        Some(property) => {
            lemma_push_once(facts.identifiers, property);
        },
        None => {},
    }
    match call_detail(node) {
        Some(detail) => {
            lemma_push_once(facts.function_calls, detail.name);
            assert(facts.function_call_details.is_prefix_of(facts.function_call_details.push(detail)));
        },
        None => {},
    }
}

/// Appending a text that a list does not hold keeps the list free of
/// repeats, and the list is a prefix of what comes out.
pub proof fn lemma_push_once(list: Seq<Seq<char>>, item: Seq<char>)
    ensures
        list.is_prefix_of(list.push(item)),
        list.is_prefix_of(list),
        list.no_duplicates() && !list.contains(item) ==> list.push(item).no_duplicates(),
{
    if list.no_duplicates() && !list.contains(item) {
        let out = list.push(item);
        assert forall|i: int, j: int| 0 <= i < out.len() && 0 <= j < out.len() && i != j implies out[i]
            != out[j] by {
            if i < list.len() && j < list.len() {
            } else if i < list.len() {
                assert(list.contains(list[i]));
            } else if j < list.len() {
                assert(list.contains(list[j]));
            }
        }
    }
}

pub proof fn lemma_walk_children_append(children: Seq<TreeModel>, i: int, facts: CallFacts, script: bool)
    ensures
        extends(visit_children(children, i, facts, script), facts),
        noted_once(facts) ==> noted_once(visit_children(children, i, facts, script)),
    decreases children, children.len() - i,
{
    if 0 <= i < children.len() {
        let next = visit_node(children[i], facts, script);
        lemma_walk_appends(children[i], facts, script);
        lemma_walk_children_append(children, i + 1, next, script);
    }
}

/// The three lists as one value.
pub open spec fn facts_of(
    identifiers: &Vec<String>,
    function_calls: &Vec<String>,
    function_call_details: &Vec<FunctionCallDetail>,
) -> CallFacts {
    CallFacts {
        identifiers: identifiers.deep_view(),
        function_calls: function_calls.deep_view(),
        function_call_details: function_call_details.deep_view(),
    }
}

fn push_once(list: &mut Vec<String>, name: String, skip_empty: bool)
    ensures
        final(list).deep_view() == if (skip_empty && name@.len() == 0) || old(list).deep_view().contains(
            name@,
        ) {
            old(list).deep_view()
        } else {
            old(list).deep_view().push(name@)
        },
{
    if skip_empty && str_len(name.as_str()) == 0 {
        return ;
    }
    if !list_contains(list, name.as_str()) {
        push_deep(list, name);
    }
}

fn argument_texts(arguments: &SyntaxNode) -> (r: Vec<String>)
    ensures
        r.deep_view() == argument_texts_from(arguments.deep_view().children, 0, Seq::empty()),
{
    let mut out: Vec<String> = Vec::new();
    assert(out.deep_view() =~= Seq::empty());
    let n = arguments.child_count();
    let mut i: usize = 0;
    while i < n
        invariant
            i <= n,
            n == arguments.deep_view().children.len(),
            argument_texts_from(arguments.deep_view().children, 0, Seq::empty()) == argument_texts_from(
                arguments.deep_view().children,
                i as int,
                out.deep_view(),
            ),
        decreases n - i,
    {
        let child = arguments.child(i);
        if !child.is_kind(",") {
            push_deep(&mut out, child.text.clone());
        }
        i += 1;
    }
    out
}

fn read_call(node: &SyntaxNode) -> (r: Option<FunctionCallDetail>)
    ensures
        r.deep_view() == call_detail(node.deep_view()),
{
    match node.child_by_field_name("function") {
        None => None,
        Some(function) => match node.child_by_field_name("arguments") {
            None => None,
            Some(arguments) => Some(
                FunctionCallDetail {
                    name: function.text.clone(),
                    arguments: argument_texts(arguments),
                    full_call: node.text.clone(),
                },
            ),
        },
    }
}

/// Reads a call node: the called expression, its arguments and its text.
pub fn extract_function_call_details(node: &SyntaxNode) -> (r: Option<FunctionCallDetail>)
    ensures
        r.deep_view() == function_call_details(node.deep_view()),
{
    if !node.is_kind("call_expression") {
        return None;
    }
    read_call(node)
}

/// Walks `node` and everything below it, noting identifiers and calls.
pub fn visit(
    node: &SyntaxNode,
    identifiers: &mut Vec<String>,
    function_calls: &mut Vec<String>,
    function_call_details: &mut Vec<FunctionCallDetail>,
    script: bool,
)
    ensures
        facts_of(final(identifiers), final(function_calls), final(function_call_details)) == visit_node(
            node.deep_view(),
            facts_of(old(identifiers), old(function_calls), old(function_call_details)),
            script,
        ),
    decreases node,
{
    let ghost start = facts_of(identifiers, function_calls, function_call_details);
    if node.is_kind("identifier") {
        push_once(identifiers, node.text.clone(), script);
        if script {
            return ;
        }
    } else if node.is_kind("call_expression") {
        match read_call(node) {
            None => {},
            Some(detail) => {
                push_once(function_calls, detail.name.clone(), false);
                push_deep(function_call_details, detail);
            },
        }
    } else if script && node.is_kind("member_expression") {
        match str_strip_prefix(node.text.as_str(), "this.") {
            Some(property) => {
                push_once(identifiers, property, true);
            },
            None => {},
        }
    }
    let ghost noted = facts_of(identifiers, function_calls, function_call_details);
    let n = node.child_count();
    let mut i: usize = 0;
    while i < n
        invariant
            i <= n,
            n == node.deep_view().children.len(),
            visit_children(node.deep_view().children, 0, noted, script) == visit_children(
                node.deep_view().children,
                i as int,
                facts_of(identifiers, function_calls, function_call_details),
                script,
            ),
        decreases n - i,
    {
        let child = node.child(i);
        visit(child, identifiers, function_calls, function_call_details, script);
        i += 1;
    }
}

/// The generic facts of a script.
pub open spec fn script_general(facts: ScriptFacts) -> CallFacts {
    CallFacts {
        identifiers: facts.identifiers,
        function_calls: facts.function_calls,
        function_call_details: facts.function_call_details,
    }
}

/// Script facts with their generic part replaced.
pub open spec fn with_general(facts: ScriptFacts, general: CallFacts) -> ScriptFacts {
    ScriptFacts {
        identifiers: general.identifiers,
        function_calls: general.function_calls,
        function_call_details: general.function_call_details,
        ..facts
    }
}

/// The script facts after the generic walk over `node`.
pub open spec fn general_walk(node: TreeModel, facts: ScriptFacts) -> ScriptFacts {
    with_general(facts, visit_node(node, script_general(facts), true))
}

/// Notes the identifiers and calls of `node` and everything below it.
pub fn parse_general_node(node: &SyntaxNode, state: &mut ScriptParsingState)
    ensures
        final(state).deep_view() == general_walk(node.deep_view(), old(state).deep_view()),
{
    visit(node, &mut state.identifiers, &mut state.function_calls, &mut state.function_call_details, true);
}

/// The generic facts of a template.
pub open spec fn template_general(facts: TemplateFacts) -> CallFacts {
    CallFacts {
        identifiers: facts.identifiers,
        function_calls: facts.function_calls,
        function_call_details: facts.function_call_details,
    }
}

/// The template facts after the walk over the tree of one expression.
pub open spec fn template_walk(node: TreeModel, facts: TemplateFacts) -> TemplateFacts {
    let general = visit_node(node, template_general(facts), false);
    TemplateFacts {
        identifiers: general.identifiers,
        function_calls: general.function_calls,
        function_call_details: general.function_call_details,
        ..facts
    }
}

/// Walks the tree of one template expression, noting identifiers and calls.
pub fn walk_tree_recursive_template(node: &SyntaxNode, state: &mut TemplateParsingState)
    ensures
        final(state).deep_view() == template_walk(node.deep_view(), old(state).deep_view()),
{
    visit(node, &mut state.identifiers, &mut state.function_calls, &mut state.function_call_details, false);
}

} // verus!
