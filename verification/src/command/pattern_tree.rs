//! The expression tree of a composite pattern, built with `bet::BeTree`.
//!
//! `BeTree` is opaque here. Its fields are read as plain values by
//! `pattern_tree_state`: the atoms (their views, in the order they were
//! pushed), the nodes with their operators, parents and children, the head
//! and tail nodes, the kind of the last pushed token, the count of
//! operators and the count of opened and not yet closed parenthesis. The
//! wrappers state how each call of `bet` changes them.

use vstd::prelude::*;
use bet::BeTree;
use crate::command::pattern_parts::{
    PatternOperator,
    PatternParts,
    default_parts_view,
};

verus! {

#[verifier::external_type_specification]
#[verifier::external_body]
#[verifier::reject_recursive_types(Op)]
#[verifier::reject_recursive_types(Atom)]
pub struct ExBeTree<Op, Atom>(BeTree<Op, Atom>)
where
    Op: std::fmt::Debug + Clone + PartialEq,
    Atom: std::fmt::Debug + Clone;

/// The tree of a pattern: pattern atoms combined with operators.
pub type PatternTree = BeTree<PatternOperator, PatternParts>;

/// Kind of the last pushed token: nothing pushed yet.
pub open spec fn token_nothing() -> int { 0 }
/// Kind of the last pushed token: an atom.
pub open spec fn token_atom() -> int { 1 }
/// Kind of the last pushed token: an operator.
pub open spec fn token_operator() -> int { 2 }
/// Kind of the last pushed token: an opening parenthesis.
pub open spec fn token_opening_par() -> int { 3 }
/// Kind of the last pushed token: a closing parenthesis.
pub open spec fn token_closing_par() -> int { 4 }

/// A child of a node of the tree: none, an atom (by its index among the
/// atoms) or a node (by its index among the nodes).
pub enum ChildModel {
    Empty,
    Atom(nat),
    Node(nat),
}

/// A node of the tree, as `bet::Node` holds it.
#[verifier::ext_equal]
pub struct NodeModel {
    pub operator: Option<PatternOperator>,
    pub parent: Option<nat>,
    pub left: ChildModel,
    pub right: ChildModel,
    /// whether the operator is in a unary position
    pub unary: bool,
}

/// The state of a pattern tree: the fields of the `BeTree`.
#[verifier::ext_equal]
pub struct TreeState {
    /// the views of the atoms, in push order
    pub atoms: Seq<Seq<Seq<char>>>,
    pub nodes: Seq<NodeModel>,
    /// the node where an iteration starts
    pub head: nat,
    /// the node where new nodes are added
    pub tail: nat,
    /// the kind of the last pushed token (see the `token_*` functions)
    pub last: int,
    pub op_count: nat,
    /// the count of opening parenthesis minus the one of closing ones
    pub openness: nat,
}

/// The state of a pattern tree: its fields read as plain values, nodes
/// and atoms by their index (`NodeId` and `AtomId`), `last_pushed` coded
/// by the `token_*` functions.
pub uninterp spec fn pattern_tree_state(tree: PatternTree) -> TreeState;

/// A node without operator nor child, as `Node::empty` makes it.
pub open spec fn empty_node() -> NodeModel {
    NodeModel { operator: None, parent: None, left: ChildModel::Empty, right: ChildModel::Empty, unary: false }
}

/// The state of a tree with nothing pushed: a single empty node, which is
/// the head and the tail.
pub open spec fn empty_tree_state() -> TreeState {
    TreeState {
        atoms: Seq::empty(),
        nodes: seq![empty_node()],
        head: 0,
        tail: 0,
        last: token_nothing(),
        op_count: 0,
        openness: 0,
    }
}

/// Whether a node can't take another child (`Node::is_full`).
pub open spec fn node_full(n: NodeModel) -> bool {
    if n.unary { !(n.left is Empty) } else { !(n.right is Empty) }
}

/// The nodes once the child was added to the node at `at`, in its left
/// slot when it's free, else in its right one (`BeTree::add_child`).
pub open spec fn with_child(nodes: Seq<NodeModel>, at: nat, child: ChildModel) -> Seq<NodeModel> {
    let n = nodes[at as int];
    if n.left is Empty {
        nodes.update(at as int, NodeModel { left: child, ..n })
    } else {
        nodes.update(at as int, NodeModel { right: child, ..n })
    }
}

/// The first node, going up from `current` through the parents, whose
/// right slot is free, looking at `fuel` nodes at most.
pub open spec fn free_right_slot(nodes: Seq<NodeModel>, current: nat, fuel: nat) -> Option<nat>
    decreases fuel,
{
    if fuel == 0 {
        None
    } else if nodes[current as int].right is Empty {
        Some(current)
    } else {
        match nodes[current as int].parent {
            Some(p) => free_right_slot(nodes, p, (fuel - 1) as nat),
            None => None,
        }
    }
}

/// The nodes once the atom at index `atom` was pushed (`BeTree::push_atom`):
/// in the tail's left slot when it's free, else in the right slot of the
/// tail or of its nearest ancestor whose right slot is free, else nowhere.
pub open spec fn nodes_after_atom(nodes: Seq<NodeModel>, tail: nat, atom: nat) -> Seq<NodeModel> {
    let t = nodes[tail as int];
    if t.left is Empty {
        nodes.update(tail as int, NodeModel { left: ChildModel::Atom(atom), ..t })
    } else {
        match free_right_slot(nodes, tail, nodes.len()) {
            Some(c) => nodes.update(c as int, NodeModel { right: ChildModel::Atom(atom), ..nodes[c as int] }),
            None => nodes,
        }
    }
}

/// The state once an opening parenthesis was pushed (`BeTree::open_par`):
/// a new empty node, child of the tail, becomes the tail.
pub open spec fn state_after_open_par(st: TreeState) -> TreeState {
    let idx = st.nodes.len();
    let nodes = st.nodes.push(NodeModel { parent: Some(st.tail), ..empty_node() });
    TreeState {
        nodes: with_child(nodes, st.tail, ChildModel::Node(idx)),
        tail: idx,
        last: token_opening_par(),
        openness: st.openness + 1,
        ..st
    }
}

/// The state once a closing parenthesis was pushed (`BeTree::close_par`):
/// the parent of the tail, if any, becomes the tail.
pub open spec fn state_after_close_par(st: TreeState) -> TreeState {
    match st.nodes[st.tail as int].parent {
        Some(p) => TreeState { tail: p, last: token_closing_par(), openness: (st.openness - 1) as nat, ..st },
        None => TreeState { last: token_closing_par(), ..st },
    }
}

/// The nodes, head and tail once a unary operator was pushed
/// (`BeTree::push_unary_operator`): a new unary node with the operator,
/// child of the tail, becomes the tail.
pub open spec fn state_after_unary(st: TreeState, op: PatternOperator) -> TreeState {
    let idx = st.nodes.len();
    let nodes = st.nodes.push(NodeModel {
        operator: Some(op),
        parent: Some(st.tail),
        left: ChildModel::Empty,
        right: ChildModel::Empty,
        unary: true,
    });
    TreeState { nodes: with_child(nodes, st.tail, ChildModel::Node(idx)), tail: idx, ..st }
}

/// The nodes, head and tail once a binary operator was pushed
/// (`BeTree::push_binary_operator`): a tail which isn't full takes the
/// operator; else a new node with the operator and the tail as left child
/// takes the tail's place under its parent (or becomes the head) and
/// becomes the tail.
pub open spec fn state_after_binary(st: TreeState, op: PatternOperator) -> TreeState {
    let t = st.nodes[st.tail as int];
    if !node_full(t) {
        TreeState { nodes: st.nodes.update(st.tail as int, NodeModel { operator: Some(op), ..t }), ..st }
    } else {
        let idx = st.nodes.len();
        let nodes = st.nodes.push(NodeModel {
            operator: Some(op),
            parent: t.parent,
            left: ChildModel::Node(st.tail),
            right: ChildModel::Empty,
            unary: false,
        });
        match t.parent {
            None => TreeState { nodes, head: idx, tail: idx, ..st },
            Some(p) => {
                let pn = nodes[p as int];
                let nodes = if pn.left == ChildModel::Node(st.tail) {
                    nodes.update(p as int, NodeModel { left: ChildModel::Node(idx), ..pn })
                } else {
                    nodes.update(p as int, NodeModel { right: ChildModel::Node(idx), ..pn })
                };
                let tn = nodes[st.tail as int];
                TreeState {
                    nodes: nodes.update(st.tail as int, NodeModel { parent: Some(idx), ..tn }),
                    tail: idx,
                    ..st
                }
            },
        }
    }
}

/// The state once an operator was pushed (`BeTree::push_operator`): binary
/// after an atom or a closing parenthesis, unary otherwise.
pub open spec fn state_after_operator(st: TreeState, op: PatternOperator) -> TreeState {
    let st2 = if st.last == token_atom() || st.last == token_closing_par() {
        state_after_binary(st, op)
    } else {
        state_after_unary(st, op)
    };
    TreeState { last: token_operator(), op_count: st.op_count + 1, ..st2 }
}

/// A new, empty tree.
///
/// Trusted: `BeTree::new` (its `Default`) has no atom, a single empty node
/// which is the head and the tail, `last_pushed` at `Nothing`, no operator
/// and an openness of 0.
#[verifier::external_body]
pub(crate) fn tree_new() -> (tree: PatternTree)
    ensures
        pattern_tree_state(tree) == empty_tree_state(),
{
    BeTree::new()
}

/// The last atom, when it's the last pushed token.
///
/// Trusted: `BeTree::current_atom` returns `atoms.last()` when
/// `last_pushed` is `Atom` and `None` otherwise; an atom was pushed when
/// `last_pushed` is `Atom`, so there's one.
#[verifier::external_body]
pub(crate) fn tree_current_atom(tree: &PatternTree) -> (res: Option<&PatternParts>)
    ensures
        res is Some <==> pattern_tree_state(*tree).last == token_atom(),
        res matches Some(a) ==> pattern_tree_state(*tree).atoms.len() > 0
            && a@ == pattern_tree_state(*tree).atoms.last(),
{
    tree.current_atom()
}

/// The atoms of the tree once `mutate_or_create_atom` made its choice:
/// a new default atom is pushed unless the last pushed token is an atom.
pub open spec fn atoms_for_mutation(state: TreeState) -> Seq<Seq<Seq<char>>> {
    if state.last == token_atom() {
        state.atoms
    } else {
        state.atoms.push(default_parts_view())
    }
}

/// The nodes of the tree once `mutate_or_create_atom` made its choice: the
/// new atom, if one is pushed, is put in a free slot.
pub open spec fn nodes_for_mutation(state: TreeState) -> Seq<NodeModel> {
    if state.last == token_atom() {
        state.nodes
    } else {
        nodes_after_atom(state.nodes, state.tail, state.atoms.len())
    }
}

/// A mutable reference to the last atom, created (with
/// `PatternParts::default`) when the last pushed token isn't an atom.
///
/// Trusted: `BeTree::mutate_or_create_atom` calls `push_atom(create())`
/// unless `last_pushed` is `Atom`, then returns `atoms.last_mut()`, so the
/// atom the caller changes is the last one. `push_atom` sets `last_pushed`
/// to `Atom`, stores the atom at the index `atoms.len()` and puts
/// `Child::Atom` of that index in the tail's left slot when it's free,
/// else in the right slot of the first node with a free one going up from
/// the tail through the parents (the walk follows parent links, which have
/// no cycle in a tree `bet` builds, so it meets at most as many nodes as
/// there are), else nowhere. Neither the head, the tail, `op_count` nor the
/// openness change.
#[verifier::external_body]
pub(crate) fn tree_mutate_or_create_atom(tree: &mut PatternTree) -> (atom: &mut PatternParts)
    ensures
        ({
            let before = pattern_tree_state(*old(tree));
            let atoms = atoms_for_mutation(before);
            &&& atom@ == atoms.last()
            &&& pattern_tree_state(*final(tree)) == TreeState {
                atoms: atoms.update(atoms.len() - 1, final(atom)@),
                nodes: nodes_for_mutation(before),
                last: token_atom(),
                ..before
            }
        }),
{
    tree.mutate_or_create_atom(PatternParts::default)
}

/// Push an operator; the tree decides whether it's unary or binary.
///
/// Trusted: `BeTree::push_operator` calls `push_binary_operator` when
/// `last_pushed` is `Atom` or `ClosingPar`, else `push_unary_operator`,
/// then sets `last_pushed` to `Operator` and increments `op_count`; what
/// these two do to the nodes, the head and the tail is what
/// `state_after_binary` and `state_after_unary` state, line for line. A
/// unary operator is added with `add_child`, which `debug_assert!`s that
/// the tail isn't full: after `new` the tail is the empty root, after
/// `push_operator` the operator's node with its operand slot still free,
/// after `open_par` a new empty node, so it isn't full then. In
/// `push_binary_operator`, a parent of the tail has it as a child, as its
/// `debug_assert_eq!` checks, in any tree `bet` builds.
#[verifier::external_body]
pub(crate) fn tree_push_operator(tree: &mut PatternTree, op: PatternOperator)
    requires
        pattern_tree_state(*old(tree)).op_count < usize::MAX,
    ensures
        pattern_tree_state(*final(tree)) == state_after_operator(pattern_tree_state(*old(tree)), op),
{
    tree.push_operator(op)
}

/// Open a parenthesis, when the last pushed token is nothing, an operator
/// or an opening parenthesis (what `accept_opening_par` tests).
///
/// Trusted: `BeTree::open_par` sets `last_pushed` to `OpeningPar`, stores
/// a new empty node at the index `nodes.len()`, makes the tail its parent,
/// adds it as a child of the tail with `add_child`, makes it the tail and
/// increments the openness. `add_child` `debug_assert!`s that the tail
/// isn't full: after `new` the tail is the empty root, after
/// `push_operator` it is the operator's node with its operand slot still
/// free, after `open_par` it is the new empty node, so with the last pushed
/// token among these three the tail isn't full.
#[verifier::external_body]
pub(crate) fn tree_open_par(tree: &mut PatternTree)
    requires
        pattern_tree_state(*old(tree)).last == token_nothing()
            || pattern_tree_state(*old(tree)).last == token_operator()
            || pattern_tree_state(*old(tree)).last == token_opening_par(),
        pattern_tree_state(*old(tree)).openness < usize::MAX,
    ensures
        pattern_tree_state(*final(tree)) == state_after_open_par(pattern_tree_state(*old(tree))),
{
    tree.open_par()
}

/// Close a parenthesis, when one is open.
///
/// Trusted: `BeTree::close_par` sets `last_pushed` to `ClosingPar` and,
/// when the tail node has a parent, makes it the tail and decrements the
/// openness (which doesn't underflow: every call that raises the openness
/// also moves the tail one node down, and `push_operator` keeps the tail's
/// depth, so the tail is at least `openness` nodes deep).
#[verifier::external_body]
pub(crate) fn tree_close_par(tree: &mut PatternTree)
    requires
        pattern_tree_state(*old(tree)).openness > 0,
    ensures
        pattern_tree_state(*final(tree)) == state_after_close_par(pattern_tree_state(*old(tree))),
{
    tree.close_par()
}

/// Whether a binary operator would make sense now.
///
/// Trusted: `BeTree::accept_binary_operator` is true exactly when
/// `last_pushed` is `Atom` or `ClosingPar`.
#[verifier::external_body]
pub(crate) fn tree_accept_binary_operator(tree: &PatternTree) -> (res: bool)
    ensures
        res == (pattern_tree_state(*tree).last == token_atom()
            || pattern_tree_state(*tree).last == token_closing_par()),
{
    tree.accept_binary_operator()
}

/// Whether a unary operator would make sense now.
///
/// Trusted: `BeTree::accept_unary_operator` is true exactly when
/// `last_pushed` is `Nothing`, `Operator` or `OpeningPar`.
#[verifier::external_body]
pub(crate) fn tree_accept_unary_operator(tree: &PatternTree) -> (res: bool)
    ensures
        res == (pattern_tree_state(*tree).last == token_nothing()
            || pattern_tree_state(*tree).last == token_operator()
            || pattern_tree_state(*tree).last == token_opening_par()),
{
    tree.accept_unary_operator()
}

/// Whether an opening parenthesis would make sense now.
///
/// Trusted: `BeTree::accept_opening_par` is true exactly when
/// `last_pushed` is `Nothing`, `Operator` or `OpeningPar`.
#[verifier::external_body]
pub(crate) fn tree_accept_opening_par(tree: &PatternTree) -> (res: bool)
    ensures
        res == (pattern_tree_state(*tree).last == token_nothing()
            || pattern_tree_state(*tree).last == token_operator()
            || pattern_tree_state(*tree).last == token_opening_par()),
{
    tree.accept_opening_par()
}

/// Whether a closing parenthesis would make sense now.
///
/// Trusted: `BeTree::accept_closing_par` is true exactly when
/// `last_pushed` is `Atom` or `ClosingPar` and the openness is above 0.
#[verifier::external_body]
pub(crate) fn tree_accept_closing_par(tree: &PatternTree) -> (res: bool)
    ensures
        res == ((pattern_tree_state(*tree).last == token_atom()
            || pattern_tree_state(*tree).last == token_closing_par())
            && pattern_tree_state(*tree).openness > 0),
{
    tree.accept_closing_par()
}

} // verus!
