//! Splitting the raw input into a pattern and a verb invocation.

use vstd::prelude::*;
use crate::text::{chars_of, string_of, string_of_range, skip_whitespace, trim_start};
use crate::command::pattern_parts::{
    PatternOperator,
    PatternParts,
    parts_push_char,
};
use crate::command::pattern_tree::{
    PatternTree, TreeState, NodeModel, ChildModel, empty_node, pattern_tree_state, empty_tree_state, atoms_for_mutation, nodes_for_mutation,
    state_after_operator, state_after_open_par, state_after_close_par,
    token_nothing, token_atom, token_operator, token_opening_par, token_closing_par,
    tree_new, tree_current_atom, tree_mutate_or_create_atom, tree_push_operator,
    tree_open_par, tree_close_par, tree_accept_binary_operator, tree_accept_unary_operator,
    tree_accept_opening_par, tree_accept_closing_par,
};
use crate::command::verb_invocation::{
    VerbInvocation,
    VerbInvocationView,
    parse_invocation,
    invocation_text,
};

verus! {

/// An intermediate parsed representation of the raw string
#[derive(Debug, PartialEq)]
pub struct CommandParts {
    /// may be empty
    pub raw_pattern: String,
    pub pattern: PatternTree,
    /// may be empty if the user typed the separator but no char after
    pub verb_invocation: Option<VerbInvocation>,
}


/// The mathematical value of command parts.
pub struct CommandPartsView {
    pub raw_pattern: Seq<char>,
    pub tree: TreeState,
    pub verb_invocation: Option<VerbInvocationView>,
}

/// The view of an optional invocation.
pub open spec fn opt_invocation_view(o: Option<VerbInvocation>) -> Option<VerbInvocationView> {
    match o {
        Some(vi) => Some(vi@),
        None => None,
    }
}

impl View for CommandParts {
    type V = CommandPartsView;

    open spec fn view(&self) -> CommandPartsView {
        CommandPartsView {
            raw_pattern: self.raw_pattern@,
            tree: pattern_tree_state(self.pattern),
            verb_invocation: opt_invocation_view(self.verb_invocation),
        }
    }
}

/// What the parser knows while reading the pattern part of the input.
pub struct ParseState {
    pub tree: TreeState,
    /// whether the current char is escaped
    pub escape: bool,
}

/// Whether the last token is an atom with exactly two parts: a slash was
/// typed but not a second one, we're in the core of a regex-like atom.
pub open spec fn between_slashes(tree: TreeState) -> bool {
    tree.last == token_atom() && tree.atoms.last().len() == 2
}

/// The tree after a char was added to the current atom (created if needed).
pub open spec fn tree_push_char(tree: TreeState, c: char) -> TreeState {
    let atoms = atoms_for_mutation(tree);
    TreeState {
        atoms: atoms.update(atoms.len() - 1, parts_push_char(atoms.last(), c)),
        nodes: nodes_for_mutation(tree),
        last: token_atom(),
        ..tree
    }
}

/// The tree after a part was added to the current atom (created if needed).
pub open spec fn tree_add_part(tree: TreeState) -> TreeState {
    let atoms = atoms_for_mutation(tree);
    TreeState {
        atoms: atoms.update(atoms.len() - 1, atoms.last().push(Seq::<char>::empty())),
        nodes: nodes_for_mutation(tree),
        last: token_atom(),
        ..tree
    }
}

/// The tree after the operator `op` was pushed.
pub open spec fn tree_with_operator(tree: TreeState, op: PatternOperator) -> TreeState {
    state_after_operator(tree, op)
}

/// Whether a binary operator is accepted by the tree.
pub open spec fn accepts_binary(tree: TreeState) -> bool {
    tree.last == token_atom() || tree.last == token_closing_par()
}

/// Whether a unary operator or an opening parenthesis is accepted.
pub open spec fn accepts_unary(tree: TreeState) -> bool {
    tree.last == token_nothing() || tree.last == token_operator() || tree.last == token_opening_par()
}

/// Whether a closing parenthesis is accepted.
pub open spec fn accepts_closing(tree: TreeState) -> bool {
    accepts_binary(tree) && tree.openness > 0
}

/// Whether a `\` followed by `next` escapes it. After a slash, only ` `,
/// `:`, `/` and `\` need escaping; elsewhere `&`, `|`, `!`, `(` and `)` are
/// escaped too.
pub open spec fn escapes(next: Option<char>, between_slashes: bool) -> bool {
    match next {
        None => false,
        Some(n) => n == ' ' || n == ':' || n == '/' || n == '\\'
            || (!between_slashes && (n == '&' || n == '|' || n == '!' || n == '(' || n == ')')),
    }
}

/// One step of the pattern parsing: the char `c`, followed by `next`, is
/// read. `None` when `c` ends the pattern (an unescaped space, or an
/// unescaped colon not followed by another colon).
pub open spec fn parse_step(st: ParseState, c: char, next: Option<char>) -> Option<ParseState> {
    let tree = st.tree;
    let bs = between_slashes(tree);
    if st.escape {
        Some(ParseState { tree: tree_push_char(tree, c), escape: false })
    } else if c == '\\' {
        let esc = escapes(next, bs);
        Some(ParseState {
            tree: if esc { tree } else { tree_push_char(tree, '\\') },
            escape: esc,
        })
    } else if c == ':' {
        if next == Some(':') {
            Some(ParseState { tree: tree_push_char(tree, ':'), escape: true })
        } else {
            None
        }
    } else if c == ' ' {
        None
    } else if c == '/' {
        Some(ParseState { tree: tree_add_part(tree), escape: false })
    } else if c == '|' && !bs && accepts_binary(tree) {
        Some(ParseState { tree: tree_with_operator(tree, PatternOperator::Or), escape: false })
    } else if c == '&' && !bs && accepts_binary(tree) {
        Some(ParseState { tree: tree_with_operator(tree, PatternOperator::And), escape: false })
    } else if c == '!' && !bs && accepts_unary(tree) {
        Some(ParseState { tree: tree_with_operator(tree, PatternOperator::Not), escape: false })
    } else if c == '(' && !bs && accepts_unary(tree) {
        Some(ParseState { tree: state_after_open_par(tree), escape: false })
    } else if c == ')' && !bs && accepts_closing(tree) {
        Some(ParseState { tree: state_after_close_par(tree), escape: false })
    } else {
        Some(ParseState { tree: tree_push_char(tree, c), escape: false })
    }
}

/// The char after position `i`, if any.
pub open spec fn next_char(chars: Seq<char>, i: int) -> Option<char> {
    if i + 1 < chars.len() { Some(chars[i + 1]) } else { None }
}

/// Parse the pattern part of `chars` from position `i` in state `st`:
/// the final state, and the position of the char which ended the pattern
/// part, if any.
pub open spec fn parse_from(chars: Seq<char>, i: int, st: ParseState) -> (ParseState, Option<int>)
    decreases chars.len() - i,
{
    if i < 0 || i >= chars.len() {
        (st, None)
    } else {
        match parse_step(st, chars[i], next_char(chars, i)) {
            None => (st, Some(i)),
            Some(st2) => parse_from(chars, i + 1, st2),
        }
    }
}

/// The state before any char is read.
pub open spec fn initial_parse_state() -> ParseState {
    ParseState { tree: empty_tree_state(), escape: false }
}

/// What `CommandParts::from` makes of a raw input: the pattern goes up
/// to the first unescaped space or single colon, the verb invocation is
/// what follows, without its leading white spaces.
pub open spec fn parse_command_parts(raw: Seq<char>) -> CommandPartsView {
    let (st, stop) = parse_from(raw, 0, initial_parse_state());
    match stop {
        None => CommandPartsView { raw_pattern: raw, tree: st.tree, verb_invocation: None },
        Some(k) => CommandPartsView {
            raw_pattern: raw.take(k),
            tree: st.tree,
            verb_invocation: Some(parse_invocation(trim_start(raw.skip(k + 1)))),
        },
    }
}

/// Every atom of the tree has at least one part.
pub open spec fn atoms_have_parts(tree: TreeState) -> bool {
    forall|j: int| 0 <= j < tree.atoms.len() ==> #[trigger] tree.atoms[j].len() > 0
}

/// The steps keep the atoms non empty and the tree well built, and grow
/// the counters by one at most.
proof fn lemma_step_wf(st: ParseState, c: char, next: Option<char>)
    requires
        atoms_have_parts(st.tree),
        st.tree.last == token_atom() ==> st.tree.atoms.len() > 0,
    ensures
        parse_step(st, c, next) matches Some(st2) ==> {
            &&& atoms_have_parts(st2.tree)
            &&& st2.tree.last == token_atom() ==> st2.tree.atoms.len() > 0
            &&& st2.tree.openness <= st.tree.openness + 1
            &&& st2.tree.op_count <= st.tree.op_count + 1
        },
{
    let tree = st.tree;
    let atoms = atoms_for_mutation(tree);
    assert(atoms.len() > 0);
    assert forall|j: int| 0 <= j < atoms.len() implies #[trigger] atoms[j].len() > 0 by {
        if j < tree.atoms.len() {
            assert(atoms[j] == tree.atoms[j]);
        }
    }
}

/// Whether the char ends or changes the regex-like core of an atom (a
/// separator, an escape or a slash).
pub open spec fn special_in_regex(c: char) -> bool {
    c == '/' || c == ' ' || c == ':' || c == '\\'
}

/// The tree while reading the core of `/core/`: its single atom holds an
/// empty mode and the first `k` chars of the core, under the root node.
spec fn regex_tree(core: Seq<char>, k: int) -> TreeState {
    TreeState {
        atoms: seq![seq![Seq::<char>::empty(), core.take(k)]],
        nodes: seq![NodeModel { left: ChildModel::Atom(0), ..empty_node() }],
        head: 0,
        tail: 0,
        last: token_atom(),
        op_count: 0,
        openness: 0,
    }
}

proof fn lemma_regex_core_from(raw: Seq<char>, core: Seq<char>, k: int)
    requires
        raw == seq!['/'] + core + seq!['/'],
        forall|j: int| 0 <= j < core.len() ==> !special_in_regex(#[trigger] core[j]),
        0 <= k <= core.len(),
    ensures
        parse_from(raw, k + 1, ParseState { tree: regex_tree(core, k), escape: false }) == (
            ParseState {
                tree: TreeState {
                    atoms: seq![seq![Seq::<char>::empty(), core, Seq::<char>::empty()]],
                    ..regex_tree(core, k)
                },
                escape: false,
            },
            None::<int>,
        ),
    decreases core.len() - k,
{
    let st = ParseState { tree: regex_tree(core, k), escape: false };
    let n = core.len() as int;
    if k == n {
        assert(raw[k + 1] == '/');
        let fin = ParseState {
            tree: TreeState {
                atoms: seq![seq![Seq::<char>::empty(), core, Seq::<char>::empty()]],
                ..regex_tree(core, k)
            },
            escape: false,
        };
        assert(core.take(k) =~= core);
        assert(tree_add_part(st.tree).atoms =~~= fin.tree.atoms);
        assert(parse_step(st, raw[k + 1], next_char(raw, k + 1)) == Some(fin));
        assert(parse_from(raw, k + 2, fin) == (fin, None::<int>));
    } else {
        let c = core[k];
        assert(raw[k + 1] == c);
        assert(!special_in_regex(c));
        let st2 = ParseState { tree: regex_tree(core, k + 1), escape: false };
        assert(core.take(k + 1) =~= core.take(k).push(c));
        assert(between_slashes(st.tree));
        assert(tree_push_char(st.tree, c).atoms =~~= st2.tree.atoms);
        assert(parse_step(st, c, next_char(raw, k + 1)) == Some(st2));
        lemma_regex_core_from(raw, core, k + 1);
        assert(regex_tree(core, k + 1).nodes == regex_tree(core, k).nodes);
    }
}

/// Between slashes no operator is read: in `/core/`, where the core holds
/// no slash, space, colon nor backslash, `|`, `&`, `!` and parenthesis are
/// chars of the regex-like core. The pattern is the whole input, made of a
/// single atom (empty mode, the core, empty flags) in the root node, with
/// no operator, and there's no verb invocation.
pub proof fn lemma_regex_core_has_no_operator(core: Seq<char>)
    requires
        forall|j: int| 0 <= j < core.len() ==> !special_in_regex(#[trigger] core[j]),
    ensures
        ({
            let raw = seq!['/'] + core + seq!['/'];
            let p = parse_command_parts(raw);
            &&& p.raw_pattern == raw
            &&& p.verb_invocation is None
            &&& p.tree.atoms == seq![seq![Seq::<char>::empty(), core, Seq::<char>::empty()]]
            &&& p.tree.op_count == 0
            &&& p.tree.nodes.len() == 1
            &&& p.tree.nodes[0].operator is None
            &&& p.tree.nodes[0].left == ChildModel::Atom(0)
        }),
{
    let raw = seq!['/'] + core + seq!['/'];
    let st0 = initial_parse_state();
    assert(raw[0] == '/');
    let st1 = ParseState { tree: regex_tree(core, 0), escape: false };
    assert(core.take(0) =~= Seq::<char>::empty());
    assert(tree_add_part(st0.tree).atoms =~~= st1.tree.atoms);
    assert(tree_add_part(st0.tree).nodes =~= st1.tree.nodes);
    assert(parse_step(st0, raw[0], next_char(raw, 0)) == Some(st1));
    lemma_regex_core_from(raw, core, 0);
}

/// Whether the char is read as a char of a fuzzy atom wherever it stands
/// (it's neither a separator, an escape, a slash, an operator nor a
/// parenthesis).
pub open spec fn plain_char(c: char) -> bool {
    !special_in_regex(c) && c != '&' && c != '|' && c != '!' && c != '(' && c != ')'
}

/// The operator a binary operator char stands for.
pub open spec fn binary_operator_of(c: char) -> PatternOperator {
    if c == '|' { PatternOperator::Or } else { PatternOperator::And }
}

/// The tree while reading `left`, the first atom of `left op right`.
spec fn left_atom_tree(left: Seq<char>, k: int) -> TreeState {
    TreeState {
        atoms: seq![seq![left.take(k)]],
        nodes: seq![NodeModel { left: ChildModel::Atom(0), ..empty_node() }],
        head: 0,
        tail: 0,
        last: token_atom(),
        op_count: 0,
        openness: 0,
    }
}

/// The tree while reading `right`, the second atom of `left op right`.
spec fn right_atom_tree(left: Seq<char>, op: PatternOperator, right: Seq<char>, k: int) -> TreeState {
    TreeState {
        atoms: seq![seq![left], seq![right.take(k)]],
        nodes: seq![NodeModel {
            operator: Some(op),
            left: ChildModel::Atom(0),
            right: ChildModel::Atom(1),
            ..empty_node()
        }],
        head: 0,
        tail: 0,
        last: token_atom(),
        op_count: 1,
        openness: 0,
    }
}

proof fn lemma_right_atom_from(raw: Seq<char>, left: Seq<char>, c: char, right: Seq<char>, k: int)
    requires
        raw == left + seq![c] + right,
        c == '|' || c == '&',
        forall|j: int| 0 <= j < right.len() ==> plain_char(#[trigger] right[j]),
        1 <= k <= right.len(),
    ensures
        parse_from(raw, left.len() + 1 + k, ParseState {
            tree: right_atom_tree(left, binary_operator_of(c), right, k),
            escape: false,
        }) == (
            ParseState { tree: right_atom_tree(left, binary_operator_of(c), right, right.len() as int), escape: false },
            None::<int>,
        ),
    decreases right.len() - k,
{
    let op = binary_operator_of(c);
    if k < right.len() {
        let i = left.len() + 1 + k;
        let d = right[k];
        assert(raw[i] == d);
        assert(plain_char(d));
        let st = ParseState { tree: right_atom_tree(left, op, right, k), escape: false };
        let st2 = ParseState { tree: right_atom_tree(left, op, right, k + 1), escape: false };
        assert(right.take(k + 1) =~= right.take(k).push(d));
        assert(tree_push_char(st.tree, d).atoms =~~= st2.tree.atoms);
        assert(parse_step(st, d, next_char(raw, i)) == Some(st2));
        lemma_right_atom_from(raw, left, c, right, k + 1);
    } else {
        assert(left.len() + 1 + k == raw.len());
    }
}

proof fn lemma_left_atom_from(raw: Seq<char>, left: Seq<char>, c: char, right: Seq<char>, k: int)
    requires
        raw == left + seq![c] + right,
        c == '|' || c == '&',
        forall|j: int| 0 <= j < left.len() ==> plain_char(#[trigger] left[j]),
        forall|j: int| 0 <= j < right.len() ==> plain_char(#[trigger] right[j]),
        right.len() > 0,
        1 <= k <= left.len(),
    ensures
        parse_from(raw, k, ParseState { tree: left_atom_tree(left, k), escape: false }) == (
            ParseState { tree: right_atom_tree(left, binary_operator_of(c), right, right.len() as int), escape: false },
            None::<int>,
        ),
    decreases left.len() - k,
{
    let op = binary_operator_of(c);
    let st = ParseState { tree: left_atom_tree(left, k), escape: false };
    if k < left.len() {
        let d = left[k];
        assert(raw[k] == d);
        assert(plain_char(d));
        let st2 = ParseState { tree: left_atom_tree(left, k + 1), escape: false };
        assert(left.take(k + 1) =~= left.take(k).push(d));
        assert(tree_push_char(st.tree, d).atoms =~~= st2.tree.atoms);
        assert(parse_step(st, d, next_char(raw, k)) == Some(st2));
        lemma_left_atom_from(raw, left, c, right, k + 1);
    } else {
        assert(raw[k] == c);
        assert(left.take(k) =~= left);
        let st_op = ParseState {
            tree: TreeState {
                nodes: seq![NodeModel { operator: Some(op), left: ChildModel::Atom(0), ..empty_node() }],
                last: token_operator(),
                op_count: 1,
                ..left_atom_tree(left, k)
            },
            escape: false,
        };
        assert(tree_with_operator(st.tree, op).nodes =~= st_op.tree.nodes);
        assert(parse_step(st, c, next_char(raw, k)) == Some(st_op));
        let d = right[0];
        assert(raw[k + 1] == d);
        assert(plain_char(d));
        let st1 = ParseState { tree: right_atom_tree(left, op, right, 1), escape: false };
        assert(right.take(1) =~= seq![d]);
        assert(tree_push_char(st_op.tree, d).atoms =~~= st1.tree.atoms);
        assert(tree_push_char(st_op.tree, d).nodes =~= st1.tree.nodes);
        assert(parse_step(st_op, d, next_char(raw, k + 1)) == Some(st1));
        lemma_right_atom_from(raw, left, c, right, 1);
        assert(parse_from(raw, k + 1, st_op) == parse_from(raw, k + 2, st1));
        assert(parse_from(raw, k, st) == parse_from(raw, k + 1, st_op));
    }
}

/// A binary operator between two fuzzy atoms combines them: `left|right`
/// (or `left&right`), where both sides are non empty and made of plain
/// chars, gives a tree whose two atoms are `left` and `right`, in a single
/// node holding the operator (`Or` for `|`, `And` for `&`), the first atom
/// at its left and the second at its right; the whole input is the pattern.
pub proof fn lemma_binary_operator_combines_atoms(left: Seq<char>, c: char, right: Seq<char>)
    requires
        c == '|' || c == '&',
        left.len() > 0,
        right.len() > 0,
        forall|j: int| 0 <= j < left.len() ==> plain_char(#[trigger] left[j]),
        forall|j: int| 0 <= j < right.len() ==> plain_char(#[trigger] right[j]),
    ensures
        ({
            let raw = left + seq![c] + right;
            let p = parse_command_parts(raw);
            &&& p.raw_pattern == raw
            &&& p.verb_invocation is None
            &&& p.tree.atoms == seq![seq![left], seq![right]]
            &&& p.tree.op_count == 1
            &&& p.tree.nodes == seq![NodeModel {
                operator: Some(if c == '|' { PatternOperator::Or } else { PatternOperator::And }),
                parent: None,
                left: ChildModel::Atom(0),
                right: ChildModel::Atom(1),
                unary: false,
            }]
        }),
{
    let raw = left + seq![c] + right;
    let st0 = initial_parse_state();
    let d = left[0];
    assert(raw[0] == d);
    assert(plain_char(d));
    let st1 = ParseState { tree: left_atom_tree(left, 1), escape: false };
    assert(left.take(1) =~= seq![d]);
    assert(tree_push_char(st0.tree, d).atoms =~~= st1.tree.atoms);
    assert(tree_push_char(st0.tree, d).nodes =~= st1.tree.nodes);
    assert(parse_step(st0, d, next_char(raw, 0)) == Some(st1));
    lemma_left_atom_from(raw, left, c, right, 1);
    assert(right.take(right.len() as int) =~= right);
}

/// The text of command parts: the raw pattern followed by the text of
/// the invocation, if any.
pub open spec fn command_parts_text(cp: CommandPartsView) -> Seq<char> {
    cp.raw_pattern + match cp.verb_invocation {
        Some(vi) => invocation_text(vi),
        None => Seq::empty(),
    }
}

impl CommandParts {
    /// The input which would make those parts: the raw pattern then, if
    /// there's an invocation, a `:` and the invocation.
    pub fn to_text(&self) -> (s: String)
        ensures
            s@ == command_parts_text(self@),
    {
        let mut chars = chars_of(self.raw_pattern.as_str());
        if let Some(vi) = &self.verb_invocation {
            let text = vi.to_text();
            let more = chars_of(text.as_str());
            let ghost before = chars@;
            let mut j: usize = 0;
            while j < more.len()
                invariant
                    j <= more@.len(),
                    chars@ == before + more@.take(j as int),
                decreases more@.len() - j,
            {
                chars.push(more[j]);
                j += 1;
                assert(more@.take(j as int) =~= more@.take(j - 1).push(more@[j - 1]));
            }
            assert(more@.take(j as int) =~= more@);
        } else {
            assert(chars@ =~= command_parts_text(self@));
        }
        string_of(&chars)
    }

    /// Split an input into its two possible parts, the pattern and the
    /// verb invocation. Each part, when defined, is suitable to create a
    /// command on its own.
    pub fn split(self) -> (res: (Option<CommandParts>, Option<CommandParts>))
        ensures
            match res.0 {
                Some(p) => self@.raw_pattern.len() > 0 && p@ == CommandPartsView {
                    verb_invocation: None,
                    ..self@
                },
                None => self@.raw_pattern.len() == 0,
            },
            match res.1 {
                Some(v) => self@.verb_invocation is Some && v@ == CommandPartsView {
                    raw_pattern: Seq::empty(),
                    tree: empty_tree_state(),
                    verb_invocation: self@.verb_invocation,
                },
                None => self@.verb_invocation is None,
            },
    {
        let CommandParts { raw_pattern, pattern, verb_invocation } = self;
        let first = if raw_pattern.as_str().is_empty() {
            None
        } else {
            Some(CommandParts { raw_pattern, pattern, verb_invocation: None })
        };
        let second = match verb_invocation {
            Some(vi) => Some(CommandParts {
                raw_pattern: String::new(),
                pattern: tree_new(),
                verb_invocation: Some(vi),
            }),
            None => None,
        };
        (first, second)
    }

    /// whether there's a verb invocation with a name
    pub fn has_not_empty_verb_invocation(&self) -> (res: bool)
        ensures
            res == (self@.verb_invocation matches Some(vi) && vi.name.len() > 0),
    {
        match &self.verb_invocation {
            Some(vi) => !vi.is_empty(),
            None => false,
        }
    }

    /// Parse a raw input: the pattern (a tree of atoms and operators) goes
    /// up to the first unescaped space or single colon; what follows,
    /// without its leading spaces, is the verb invocation.
    #[verifier::rlimit(50)]
    #[verifier::spinoff_prover]
    pub fn from(raw: &str) -> (parts: CommandParts)
        ensures
            parts@ == parse_command_parts(raw@),
    {
        let chars = chars_of(raw);
        let n = chars.len();
        let mut pt = tree_new();
        let mut escape_cur_char = false;
        let mut invocation_start_pos: Option<usize> = None;
        let mut i: usize = 0;
        while i < n
            invariant_except_break
                invocation_start_pos is None,
            invariant
                n == chars@.len(),
                chars@ == raw@,
                i <= n,
                parse_from(chars@, 0, initial_parse_state())
                    == parse_from(chars@, i as int, ParseState { tree: pattern_tree_state(pt), escape: escape_cur_char }),
                atoms_have_parts(pattern_tree_state(pt)),
                pattern_tree_state(pt).last == token_atom() ==> pattern_tree_state(pt).atoms.len() > 0,
                pattern_tree_state(pt).openness <= i,
                pattern_tree_state(pt).op_count <= i,
            ensures
                invocation_start_pos matches Some(p) ==> p == i && i < n && parse_step(
                    ParseState { tree: pattern_tree_state(pt), escape: escape_cur_char },
                    chars@[i as int],
                    next_char(chars@, i as int),
                ) is None,
                invocation_start_pos is None ==> i == n,
            decreases n - i,
        {
            let cur_char = chars[i];
            let next: Option<char> = if i + 1 < n { Some(chars[i + 1]) } else { None };
            let ghost st = ParseState { tree: pattern_tree_state(pt), escape: escape_cur_char };
            proof {
                lemma_step_wf(st, cur_char, next);
            }
            let between_slashes = match tree_current_atom(&pt) {
                Some(pp) => pp.is_between_slashes(),
                None => false,
            };
            let mut escape_next_char = false;
            if escape_cur_char {
                let atom = tree_mutate_or_create_atom(&mut pt);
                atom.push(cur_char);
            } else if cur_char == '\\' {
                escape_next_char = match next {
                    None => false,
                    Some(nc) => {
                        nc == ' ' || nc == ':' || nc == '/' || nc == '\\'
                        || (!between_slashes && (nc == '&' || nc == '|' || nc == '!' || nc == '(' || nc == ')'))
                    }
                };
                if !escape_next_char {
                    let atom = tree_mutate_or_create_atom(&mut pt);
                    atom.push('\\');
                }
            } else if cur_char == ':' {
                if next == Some(':') {
                    let atom = tree_mutate_or_create_atom(&mut pt);
                    atom.push(':');
                    escape_next_char = true;
                } else {
                    invocation_start_pos = Some(i);
                    break;
                }
            } else if cur_char == ' ' {
                invocation_start_pos = Some(i);
                break;
            } else if cur_char == '/' {
                let atom = tree_mutate_or_create_atom(&mut pt);
                atom.add_part();
            } else if cur_char == '|' && !between_slashes && tree_accept_binary_operator(&pt) {
                tree_push_operator(&mut pt, PatternOperator::Or);
            } else if cur_char == '&' && !between_slashes && tree_accept_binary_operator(&pt) {
                tree_push_operator(&mut pt, PatternOperator::And);
            } else if cur_char == '!' && !between_slashes && tree_accept_unary_operator(&pt) {
                tree_push_operator(&mut pt, PatternOperator::Not);
            } else if cur_char == '(' && !between_slashes && tree_accept_opening_par(&pt) {
                tree_open_par(&mut pt);
            } else if cur_char == ')' && !between_slashes && tree_accept_closing_par(&pt) {
                tree_close_par(&mut pt);
            } else {
                let atom = tree_mutate_or_create_atom(&mut pt);
                atom.push(cur_char);
            }
            assert(parse_step(st, cur_char, next) == Some(
                ParseState { tree: pattern_tree_state(pt), escape: escape_next_char },
            ));
            escape_cur_char = escape_next_char;
            i += 1;
        }
        let ghost fin = parse_from(chars@, 0, initial_parse_state());
        match invocation_start_pos {
            Some(pos) => {
                let start = skip_whitespace(&chars, pos + 1);
                let rest = string_of_range(&chars, start, n);
                let verb_invocation = VerbInvocation::from(rest.as_str());
                let raw_pattern = string_of_range(&chars, 0, pos);
                assert(chars@.subrange(0, pos as int) =~= chars@.take(pos as int));
                assert(chars@.subrange(pos + 1, n as int) =~= chars@.skip(pos + 1));
                CommandParts { raw_pattern, pattern: pt, verb_invocation: Some(verb_invocation) }
            }
            None => {
                let raw_pattern = string_of_range(&chars, 0, n);
                assert(chars@.subrange(0, n as int) =~= chars@);
                CommandParts { raw_pattern, pattern: pt, verb_invocation: None }
            }
        }
    }
}

} // verus!
