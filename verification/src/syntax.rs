//! Syntax trees of JavaScript source, as plain values.
//!
//! The grammar itself is the tree-sitter JavaScript grammar. What it finds
//! is copied into records of this library, node by node, and the tree is
//! rebuilt here from those records.

use crate::strs::str_eq;
use vstd::prelude::*;

verus! {

/// One node of a syntax tree as the parser reports it, in document order.
#[derive(Debug, Clone)]
pub struct FlatNode {
    /// The grammar's name for the node.
    pub kind: String,
    /// The source text that the node covers.
    pub text: String,
    /// The field name under which the node hangs in its parent, if any.
    pub field: Option<String>,
    /// How many ancestors the node has.
    pub depth: u32,
    /// Whether the node stands for text that the grammar could not place.
    pub is_error: bool,
    /// Whether the parser made the node up to get over a syntax error.
    pub is_missing: bool,
}

pub struct FlatModel {
    pub kind: Seq<char>,
    pub text: Seq<char>,
    pub field: Option<Seq<char>>,
    pub depth: u32,
    pub is_error: bool,
    pub is_missing: bool,
}

impl DeepView for FlatNode {
    type V = FlatModel;

    open spec fn deep_view(&self) -> FlatModel {
        FlatModel {
            kind: self.kind@,
            text: self.text@,
            field: self.field.deep_view(),
            depth: self.depth,
            is_error: self.is_error,
            is_missing: self.is_missing,
        }
    }
}

/// A node of a syntax tree with its children.
#[derive(Debug)]
pub struct SyntaxNode {
    pub kind: String,
    pub text: String,
    pub field: Option<String>,
    pub children: Vec<SyntaxNode>,
}

/// The mathematical content of a [`SyntaxNode`].
pub struct TreeModel {
    pub kind: Seq<char>,
    pub text: Seq<char>,
    pub field: Option<Seq<char>>,
    pub children: Seq<TreeModel>,
}

/// The models of a sequence of nodes, in order.
pub open spec fn models(nodes: Seq<SyntaxNode>) -> Seq<TreeModel>
    decreases nodes, 0nat,
{
    if nodes.len() == 0 {
        Seq::empty()
    } else {
        models(nodes.drop_last()).push(nodes.last().deep_view())
    }
}

impl DeepView for SyntaxNode {
    type V = TreeModel;

    open spec fn deep_view(&self) -> TreeModel
        decreases self, 1nat,
    {
        TreeModel {
            kind: self.kind@,
            text: self.text@,
            field: self.field.deep_view(),
            children: models(self.children@),
        }
    }
}

pub proof fn lemma_models(nodes: Seq<SyntaxNode>)
    ensures
        models(nodes).len() == nodes.len(),
        forall|i: int| 0 <= i < nodes.len() ==> #[trigger] models(nodes)[i] == nodes[i].deep_view(),
    decreases nodes.len(),
{
    if nodes.len() > 0 {
        lemma_models(nodes.drop_last());
        assert(models(nodes) == models(nodes.drop_last()).push(nodes.last().deep_view()));
        assert forall|i: int| 0 <= i < nodes.len() implies #[trigger] models(nodes)[i]
            == nodes[i].deep_view() by {
            if i < nodes.len() - 1 {
                assert(nodes.drop_last()[i] == nodes[i]);
            }
        }
    } else {
        assert(models(nodes).len() == 0);
    }
}

pub proof fn lemma_models_push(nodes: Seq<SyntaxNode>, node: SyntaxNode)
    ensures
        models(nodes.push(node)) == models(nodes).push(node.deep_view()),
{
    assert(nodes.push(node).drop_last() =~= nodes);
}

/// The nodes that the JavaScript grammar finds in `source`, in document
/// order, or `None` when the parser produces no tree.
pub uninterp spec fn javascript_nodes(source: Seq<char>) -> Option<Seq<FlatModel>>;

/// Parses `source` with `tree_sitter::Parser::parse` under the JavaScript
/// grammar and lists the nodes of the tree in document order: the tree
/// cursor is moved to each descendant of the root in turn with
/// `TreeCursor::goto_descendant`, and the kind, the covered text, the field
/// name and the depth of the node under it are recorded, with what
/// `Node::is_error` and `Node::is_missing` say of it. The list is a function
/// of the source text alone.
#[verifier::external_body]
pub(crate) fn parse_javascript_nodes(source: &str) -> (r: Option<Vec<FlatNode>>)
    ensures
        r.deep_view() == javascript_nodes(source@),
{
    let mut parser = tree_sitter::Parser::new();
    parser.set_language(&tree_sitter_javascript::LANGUAGE.into()).ok()?;
    let tree = parser.parse(source, None)?;
    let mut cursor = tree.walk();
    let mut out = Vec::new();
    for index in 0..tree.root_node().descendant_count() {
        cursor.goto_descendant(index);
        let (node, field, depth) = (cursor.node(), cursor.field_name().map(String::from), cursor.depth());
        let text = node.utf8_text(source.as_bytes()).unwrap_or_default().to_string();
        let (is_error, is_missing) = (node.is_error(), node.is_missing());
        out.push(FlatNode { kind: node.kind().to_string(), text, field, depth, is_error, is_missing });
    }
    Some(out)
}

/// The subtree whose root is record `i`, with the index of the first
/// record after it. The children of a node are the records that follow it
/// with a greater depth, each taken with its own subtree.
pub open spec fn subtree(flat: Seq<FlatModel>, i: int) -> (TreeModel, int)
    decreases flat.len() - i, 1nat,
{
    if 0 <= i < flat.len() {
        let (kids, next) = children_from(flat, flat[i].depth, i + 1);
        (TreeModel { kind: flat[i].kind, text: flat[i].text, field: flat[i].field, children: kids }, next)
    } else {
        (TreeModel { kind: Seq::empty(), text: Seq::empty(), field: None, children: Seq::empty() }, i)
    }
}

/// The subtrees that start at record `j` and lie deeper than `depth`.
pub open spec fn children_from(flat: Seq<FlatModel>, depth: u32, j: int) -> (Seq<TreeModel>, int)
    decreases flat.len() - j, 2nat,
{
    if 0 <= j < flat.len() && flat[j].depth > depth {
        let (kid, next) = subtree(flat, j);
        if j < next <= flat.len() {
            let (rest, end) = children_from(flat, depth, next);
            (seq![kid] + rest, end)
        } else {
            (seq![kid], next)
        }
    } else {
        (Seq::empty(), j)
    }
}

/// The tree that a document-order list of records stands for.
pub open spec fn tree_of(flat: Seq<FlatModel>) -> Option<TreeModel> {
    if flat.len() == 0 {
        None
    } else {
        Some(subtree(flat, 0).0)
    }
}

/// Whether a record from index `i` on shows a syntax error: a node for
/// text that the grammar could not place, or a node that the parser made
/// up.
pub open spec fn rejected_from(flat: Seq<FlatModel>, i: int) -> bool
    decreases flat.len() - i,
{
    if i < 0 || i >= flat.len() {
        false
    } else {
        flat[i].is_error || flat[i].is_missing || flat[i].kind == "ERROR"@ || rejected_from(flat, i + 1)
    }
}

/// Whether the grammar accepts `source`: the parser gives a tree, and no
/// node of it shows a syntax error.
pub open spec fn grammar_accepts(source: Seq<char>) -> bool {
    match javascript_nodes(source) {
        None => false,
        Some(flat) => flat.len() > 0 && !rejected_from(flat, 0),
    }
}

/// The syntax tree of `source`, when the grammar accepts it.
pub open spec fn javascript_tree(source: Seq<char>) -> Option<TreeModel> {
    match javascript_nodes(source) {
        None => None,
        Some(flat) => if rejected_from(flat, 0) {
            None
        } else {
            tree_of(flat)
        },
    }
}

pub proof fn lemma_subtree_advances(flat: Seq<FlatModel>, i: int)
    requires
        0 <= i < flat.len(),
    ensures
        i < subtree(flat, i).1 <= flat.len(),
    decreases flat.len() - i, 1nat,
{
    lemma_children_advance(flat, flat[i].depth, i + 1);
}

pub proof fn lemma_children_advance(flat: Seq<FlatModel>, depth: u32, j: int)
    requires
        0 <= j <= flat.len(),
    ensures
        j <= children_from(flat, depth, j).1 <= flat.len(),
    decreases flat.len() - j, 2nat,
{
    if j < flat.len() && flat[j].depth > depth {
        lemma_subtree_advances(flat, j);
        let next = subtree(flat, j).1;
        lemma_children_advance(flat, depth, next);
    }
}

/// Builds the subtree rooted at record `i`.
pub fn build_subtree(flat: &Vec<FlatNode>, i: usize) -> (r: (SyntaxNode, usize))
    requires
        i < flat.len(),
    ensures
        r.0.deep_view() == subtree(flat.deep_view(), i as int).0,
        r.1 == subtree(flat.deep_view(), i as int).1,
        i < r.1 <= flat.len(),
    decreases flat.len() - i,
{
    let depth = flat[i].depth;
    let ghost fm = flat.deep_view();
    let mut children: Vec<SyntaxNode> = Vec::new();
    let mut j: usize = i + 1;
    proof {
        lemma_children_advance(fm, depth, i + 1);
    }
    while j < flat.len() && flat[j].depth > depth
        invariant
            i < j <= flat.len(),
            fm == flat.deep_view(),
            depth == fm[i as int].depth,
            children_from(fm, depth, i + 1) == ({
                let (rest, end) = children_from(fm, depth, j as int);
                (models(children@) + rest, end)
            }),
        decreases flat.len() - j,
    {
        let (kid, next) = build_subtree(flat, j);
        proof {
            lemma_models_push(children@, kid);
            lemma_children_advance(fm, depth, next as int);
            let (rest, end) = children_from(fm, depth, next as int);
            assert(models(children@.push(kid)) + rest =~= models(children@) + (seq![kid.deep_view()] + rest));
        }
        children.push(kid);
        j = next;
    }
    proof {
        assert(models(children@) + Seq::<TreeModel>::empty() =~= models(children@));
    }
    let node = SyntaxNode {
        kind: flat[i].kind.clone(),
        text: flat[i].text.clone(),
        field: clone_field(&flat[i].field),
        children,
    };
    (node, j)
}

fn clone_field(field: &Option<String>) -> (r: Option<String>)
    ensures
        r.deep_view() == field.deep_view(),
{
    match field {
        None => None,
        Some(f) => Some(f.clone()),
    }
}

/// Tells whether a record shows a syntax error.
pub fn is_rejected(flat: &Vec<FlatNode>) -> (r: bool)
    ensures
        r == rejected_from(flat.deep_view(), 0),
{
    let ghost all = flat.deep_view();
    let mut i: usize = 0;
    while i < flat.len()
        invariant
            i <= flat.len(),
            all == flat.deep_view(),
            rejected_from(all, 0) == rejected_from(all, i as int),
        decreases flat.len() - i,
    {
        assert(all[i as int] == flat@[i as int].deep_view());
        if flat[i].is_error || flat[i].is_missing || str_eq(flat[i].kind.as_str(), "ERROR") {
            return true;
        }
        i += 1;
    }
    false
}

/// Parses JavaScript source into a syntax tree. There is a tree exactly
/// when the grammar accepts the source.
pub fn parse_javascript(source: &str) -> (r: Option<SyntaxNode>)
    ensures
        r.deep_view() == javascript_tree(source@),
        r is Some <==> grammar_accepts(source@),
{
    match parse_javascript_nodes(source) {
        None => None,
        Some(flat) => {
            if flat.len() == 0 || is_rejected(&flat) {
                None
            } else {
                let (root, _) = build_subtree(&flat, 0);
                Some(root)
            }
        },
    }
}

impl SyntaxNode {
    /// Whether the node's kind is `kind`.
    pub fn is_kind(&self, kind: &str) -> (r: bool)
        ensures
            r == (self.deep_view().kind == kind@),
    {
        str_eq(self.kind.as_str(), kind)
    }

    pub fn child_count(&self) -> (n: usize)
        ensures
            n == self.deep_view().children.len(),
    {
        proof {
            lemma_models(self.children@);
        }
        self.children.len()
    }

    /// The child at index `i`.
    pub fn child(&self, i: usize) -> (r: &SyntaxNode)
        requires
            i < self.deep_view().children.len(),
        ensures
            r.deep_view() == self.deep_view().children[i as int],
            decreases_to!(self => r),
    {
        proof {
            lemma_models(self.children@);
        }
        &self.children[i]
    }

    /// The first child that hangs under the field `name`.
    pub fn child_by_field_name(&self, name: &str) -> (r: Option<&SyntaxNode>)
        ensures
            r.deep_view() == child_by_field(self.deep_view(), name@),
            r matches Some(c) ==> decreases_to!(self => c),
    {
        proof {
            lemma_models(self.children@);
        }
        let mut i: usize = 0;
        while i < self.children.len()
            invariant
                i <= self.children.len(),
                self.deep_view().children.len() == self.children.len(),
                forall|k: int|
                    0 <= k < self.children.len() ==> #[trigger] self.deep_view().children[k]
                        == self.children[k].deep_view(),
                child_by_field(self.deep_view(), name@) == child_by_field_from(
                    self.deep_view().children,
                    name@,
                    i as int,
                ),
            decreases self.children.len() - i,
        {
            let hit = match &self.children[i].field {
                Some(f) => str_eq(f.as_str(), name),
                None => false,
            };
            if hit {
                return Some(&self.children[i]);
            }
            i += 1;
        }
        None
    }
}

/// The first of `children` from index `i` on whose field is `name`.
pub open spec fn child_by_field_from(children: Seq<TreeModel>, name: Seq<char>, i: int) -> Option<
    TreeModel,
>
    decreases children.len() - i,
{
    if i < 0 || i >= children.len() {
        None
    } else if children[i].field == Some(name) {
        Some(children[i])
    } else {
        child_by_field_from(children, name, i + 1)
    }
}

/// The first child of `node` that hangs under the field `name`.
pub open spec fn child_by_field(node: TreeModel, name: Seq<char>) -> Option<TreeModel> {
    child_by_field_from(node.children, name, 0)
}

} // verus!
