//! Bookkeeping of the panels of the application: their order, their
//! ids, which one is active, which ones can be created or closed.

use vstd::prelude::*;
use crate::app::app_context::AppContext;
use crate::app::cmd_context::AppCmdContext;
use crate::app::cmd_result::HDir;
use crate::app::panel_id::PanelId;
use crate::app::panel_purpose::PanelPurpose;
use crate::app::panel_reference::PanelReference;
use crate::app::state_type::PanelStateType;
use crate::text::strings_view;

verus! {

/// A column on screen containing a stack of states, the top one being
/// visible, and an input. Only what the panel management needs is held
/// here: the types of the stacked states and their starting inputs, the
/// content of the input, the purpose and the horizontal extent.
#[derive(Debug, Clone)]
pub struct Panel {
    pub id: PanelId,
    /// the types of the stacked states, the last one being current
    states: Vec<PanelStateType>,
    /// what the input holds when each stacked state becomes current
    starting_inputs: Vec<String>,
    /// the content of the panel's input
    input: String,
    pub purpose: PanelPurpose,
    /// left of the panel's area on screen
    pub left: u16,
    /// width of the panel's area on screen
    pub width: u16,
}

/// The mathematical value of a panel.
pub struct PanelView {
    pub id: PanelId,
    pub states: Seq<PanelStateType>,
    pub starting_inputs: Seq<Seq<char>>,
    pub input: Seq<char>,
    pub purpose: PanelPurpose,
    pub left: u16,
    pub width: u16,
}

impl View for Panel {
    type V = PanelView;

    closed spec fn view(&self) -> PanelView {
        PanelView {
            id: self.id,
            states: self.states@,
            starting_inputs: strings_view(self.starting_inputs@),
            input: self.input@,
            purpose: self.purpose,
            left: self.left,
            width: self.width,
        }
    }
}

/// The type of the current state of a panel.
pub open spec fn panel_type(p: PanelView) -> PanelStateType {
    p.states.last()
}

impl Panel {
    /// a panel with one state, its input holding the state's starting input
    pub fn new(id: PanelId, state_type: PanelStateType, starting_input: String, purpose: PanelPurpose) -> (p: Panel)
        ensures
            p@ == (PanelView {
                id,
                states: seq![state_type],
                starting_inputs: seq![starting_input@],
                input: starting_input@,
                purpose,
                left: 0,
                width: 0,
            }),
    {
        let mut states = Vec::new();
        states.push(state_type);
        let input = starting_input.clone();
        let mut starting_inputs = Vec::new();
        starting_inputs.push(starting_input);
        let p = Panel { id, states, starting_inputs, input, purpose, left: 0, width: 0 };
        assert(p@.states =~= seq![state_type]);
        assert(p@.starting_inputs =~= seq![p@.input]);
        p
    }

    /// the content of the input
    pub fn input(&self) -> (s: &str)
        ensures
            s@ == self@.input,
    {
        self.input.as_str()
    }

    /// replace the content of the input
    pub fn set_input(&mut self, content: String)
        ensures
            final(self)@ == (PanelView { input: content@, ..old(self)@ }),
    {
        self.input = content;
    }

    /// the type of the current state
    pub fn state_type(&self) -> (t: PanelStateType)
        requires
            self@.states.len() > 0,
        ensures
            t == panel_type(self@),
    {
        self.states[self.states.len() - 1]
    }

    /// the number of stacked states
    pub fn states_count(&self) -> (n: usize)
        ensures
            n == self@.states.len(),
    {
        self.states.len()
    }

    /// stack a state, the input getting its starting input
    pub fn push_state(&mut self, state_type: PanelStateType, starting_input: String)
        ensures
            final(self)@ == (PanelView {
                states: old(self)@.states.push(state_type),
                starting_inputs: old(self)@.starting_inputs.push(starting_input@),
                input: starting_input@,
                ..old(self)@
            }),
    {
        let ghost before = strings_view(self.starting_inputs@);
        self.states.push(state_type);
        self.input = starting_input.clone();
        self.starting_inputs.push(starting_input);
        assert(strings_view(self.starting_inputs@) =~= before.push(self.input@));
    }

    /// remove the current state, unless it's the only one; the input then
    /// gets the starting input of the state which becomes current.
    /// Return true when the state has been removed
    pub fn remove_state(&mut self) -> (removed: bool)
        requires
            old(self)@.starting_inputs.len() == old(self)@.states.len(),
        ensures
            removed == (old(self)@.states.len() > 1),
            final(self)@ == (if removed {
                PanelView {
                    states: old(self)@.states.drop_last(),
                    starting_inputs: old(self)@.starting_inputs.drop_last(),
                    input: old(self)@.starting_inputs[old(self)@.starting_inputs.len() - 2],
                    ..old(self)@
                }
            } else {
                old(self)@
            }),
    {
        if self.states.len() > 1 {
            let ghost before = strings_view(self.starting_inputs@);
            self.states.pop();
            self.starting_inputs.pop();
            let n = self.starting_inputs.len();
            self.input = self.starting_inputs[n - 1].clone();
            assert(self@.states =~= old(self)@.states.drop_last());
            assert(strings_view(self.starting_inputs@) =~= before.drop_last());
            true
        } else {
            false
        }
    }
}

/// Stores panels of the application, from left to right, and which one
/// is active.
pub struct AppPanelsAndInputs {
    /// a count of all panels created
    created_panels_count: usize,
    /// width of the screen
    screen_width: u16,
    /// guaranteed to be < panels.len()
    active_panel_idx: usize,
    /// panels from left to right, never empty
    panels: Vec<Panel>,
}

/// The mathematical value of the panels.
pub struct AppPanelsView {
    pub created_panels_count: nat,
    pub screen_width: u16,
    pub active_panel_idx: nat,
    pub panels: Seq<PanelView>,
}

impl View for AppPanelsAndInputs {
    type V = AppPanelsView;

    closed spec fn view(&self) -> AppPanelsView {
        AppPanelsView {
            created_panels_count: self.created_panels_count as nat,
            screen_width: self.screen_width,
            active_panel_idx: self.active_panel_idx as nat,
            panels: Seq::new(self.panels@.len(), |i: int| self.panels@[i]@),
        }
    }
}

/// A panel is consistent: it has a current state, and a starting input
/// for each of its states.
pub open spec fn panel_wf(p: PanelView) -> bool {
    p.states.len() > 0 && p.starting_inputs.len() == p.states.len()
}

/// The panels are consistent: there's at least one, the active index is
/// in range and every panel is consistent.
pub open spec fn panels_wf(v: AppPanelsView) -> bool {
    &&& v.panels.len() > 0
    &&& v.active_panel_idx < v.panels.len()
    &&& forall|i: int| 0 <= i < v.panels.len() ==> #[trigger] v.panels[i].states.len() > 0
    &&& forall|i: int| 0 <= i < v.panels.len()
        ==> #[trigger] v.panels[i].starting_inputs.len() == v.panels[i].states.len()
}

/// An optional index, as an integer.
pub open spec fn opt_idx(o: Option<usize>) -> Option<int> {
    match o {
        Some(i) => Some(i as int),
        None => None,
    }
}

/// The index of the first panel satisfying `p`, if any.
#[verifier::opaque]
pub open spec fn first_index(s: Seq<PanelView>, p: spec_fn(PanelView) -> bool) -> Option<int> {
    if exists|i: int| 0 <= i < s.len() && p(s[i]) {
        Some(choose|i: int| 0 <= i < s.len() && p(s[i]) && forall|j: int| 0 <= j < i ==> !p(s[j]))
    } else {
        None
    }
}

/// Whether the current state of a panel has the given type.
pub open spec fn is_of_type(t: PanelStateType) -> spec_fn(PanelView) -> bool {
    |q: PanelView| panel_type(q) == t
}

/// Whether a panel has the given id.
pub open spec fn has_id(id: PanelId) -> spec_fn(PanelView) -> bool {
    |q: PanelView| q.id == id
}

/// Whether the current state of a panel isn't a tree.
pub open spec fn is_not_tree() -> spec_fn(PanelView) -> bool {
    |q: PanelView| panel_type(q) != PanelStateType::Tree
}

/// Whether the area of a panel contains the column `x`.
pub open spec fn covers(x: u16) -> spec_fn(PanelView) -> bool {
    |q: PanelView| q.left <= x < q.left + q.width
}

/// The index of the first panel whose current state has the given type.
pub open spec fn first_of_type(v: AppPanelsView, t: PanelStateType) -> Option<int> {
    first_index(v.panels, is_of_type(t))
}

/// The index of the first panel with the given id.
pub open spec fn index_of_id(v: AppPanelsView, id: PanelId) -> Option<int> {
    first_index(v.panels, has_id(id))
}

/// The index of the first panel whose current state isn't a tree.
pub open spec fn first_non_tree(v: AppPanelsView) -> Option<int> {
    first_index(v.panels, is_not_tree())
}

/// The index of the first panel whose area contains the column `x`.
pub open spec fn panel_at(v: AppPanelsView, x: u16) -> Option<int> {
    first_index(v.panels, covers(x))
}

/// The index of the rightest panel, other than the active one, whose
/// current state is a tree.
#[verifier::opaque]
pub open spec fn rightest_inactive_tree(v: AppPanelsView) -> Option<int> {
    if exists|i: int| 0 <= i < v.panels.len() && i != v.active_panel_idx
        && panel_type(v.panels[i]) == PanelStateType::Tree {
        Some(choose|i: int| 0 <= i < v.panels.len() && i != v.active_panel_idx
            && panel_type(v.panels[i]) == PanelStateType::Tree
            && forall|j: int| i < j < v.panels.len() && j != v.active_panel_idx
                ==> panel_type(v.panels[j]) != PanelStateType::Tree)
    } else {
        None
    }
}

/// The index of the panel a reference designates.
pub open spec fn index_of_ref(v: AppPanelsView, r: PanelReference) -> Option<int> {
    match r {
        PanelReference::Active => Some(v.active_panel_idx as int),
        PanelReference::Leftest => Some(0),
        PanelReference::Rightest => Some(v.panels.len() - 1),
        PanelReference::Idx(idx) => if idx < v.panels.len() { Some(idx as int) } else { None },
        PanelReference::Id(id) => index_of_id(v, id),
        PanelReference::Preview => first_of_type(v, PanelStateType::Preview),
    }
}

/// How many panels have a current state of the given type.
pub open spec fn count_of(panels: Seq<PanelView>, t: PanelStateType) -> nat
    decreases panels.len(),
{
    if panels.len() == 0 {
        0
    } else {
        count_of(panels.drop_last(), t) + if panel_type(panels.last()) == t { 1nat } else { 0nat }
    }
}

/// Where a new panel is inserted: at the end for a preview, right or left
/// of the active panel otherwise.
pub open spec fn insertion_index(v: AppPanelsView, purpose: PanelPurpose, direction: HDir) -> int {
    if purpose is Preview {
        v.panels.len() as int
    } else if direction == HDir::Right {
        (v.active_panel_idx + 1) as int
    } else {
        v.active_panel_idx as int
    }
}

/// Whether a panel can't be created because there's already a panel of
/// the same type, which can only be single (preview, stage).
pub open spec fn new_panel_refused(v: AppPanelsView, state_type: PanelStateType) -> bool {
    (state_type == PanelStateType::Preview || state_type == PanelStateType::Stage)
        && first_of_type(v, state_type) is Some
}

/// Why a panel with a state of the given type can't be added.
pub open spec fn new_panel_error(state_type: PanelStateType) -> Seq<char> {
    if state_type == PanelStateType::Preview {
        "There can be only one preview panel"@
    } else {
        "There can be only one stage panel"@
    }
}

/// The panels once a panel with a state of the given type (and starting
/// input) was added.
pub open spec fn added_panel(
    v: AppPanelsView,
    state_type: PanelStateType,
    starting_input: Seq<char>,
    purpose: PanelPurpose,
    direction: HDir,
    activate: bool,
) -> AppPanelsView {
    let idx = insertion_index(v, purpose, direction);
    AppPanelsView {
        created_panels_count: v.created_panels_count + 1,
        active_panel_idx: if activate { idx as nat } else { v.active_panel_idx },
        panels: v.panels.insert(idx, PanelView {
            id: PanelId(v.created_panels_count as usize),
            states: seq![state_type],
            starting_inputs: seq![starting_input],
            input: starting_input,
            purpose,
            left: 0,
            width: 0,
        }),
        ..v
    }
}

/// Whether closing the panel at `idx` is refused: it doesn't exist, it's
/// the only panel, or only a preview or stage panel would remain.
pub open spec fn close_refused(v: AppPanelsView, idx: int) -> bool {
    ||| idx >= v.panels.len()
    ||| v.panels.len() < 2
    ||| (v.panels.len() == 2 && {
        let other = if idx == 0 { 1int } else { 0int };
        panel_type(v.panels[other]) == PanelStateType::Preview
            || panel_type(v.panels[other]) == PanelStateType::Stage
    })
}

/// The active index once the panel at `idx` was removed: the index of the
/// first remaining panel with the id of the panel which was active, or the
/// last index when there's none.
pub open spec fn active_after_close(v: AppPanelsView, idx: int) -> nat {
    let w = v.panels.remove(idx);
    match first_index(w, has_id(v.panels[v.active_panel_idx as int].id)) {
        Some(i) => i as nat,
        None => (w.len() - 1) as nat,
    }
}

/// The panels after the closing of the panel at `idx` (when accepted).
pub open spec fn closed_panels(v: AppPanelsView, idx: int) -> AppPanelsView {
    AppPanelsView {
        panels: v.panels.remove(idx),
        active_panel_idx: active_after_close(v, idx),
        ..v
    }
}

/// The panels once the current state of the active panel was replaced
/// by the given panel value.
pub open spec fn with_active_panel(v: AppPanelsView, p: PanelView) -> AppPanelsView {
    AppPanelsView { panels: v.panels.update(v.active_panel_idx as int, p), ..v }
}

/// The panels once the active panel lost its current state (its input
/// getting the starting input of the state which becomes current), or was
/// closed when it had only one.
pub open spec fn removed_state(v: AppPanelsView) -> AppPanelsView {
    let p = v.panels[v.active_panel_idx as int];
    if p.states.len() > 1 {
        with_active_panel(v, PanelView {
            states: p.states.drop_last(),
            starting_inputs: p.starting_inputs.drop_last(),
            input: p.starting_inputs[p.starting_inputs.len() - 2],
            ..p
        })
    } else if !close_refused(v, v.active_panel_idx as int) {
        closed_panels(v, v.active_panel_idx as int)
    } else {
        v
    }
}

proof fn lemma_first_index(s: Seq<PanelView>, p: spec_fn(PanelView) -> bool, k: int)
    requires
        0 <= k <= s.len(),
        forall|j: int| 0 <= j < k ==> !p(s[j]),
        k == s.len() || p(s[k]),
    ensures
        first_index(s, p) == (if k < s.len() { Some(k) } else { None::<int> }),
{
    reveal(first_index);
    if k < s.len() {
        assert(0 <= k < s.len() && p(s[k]) && forall|j: int| 0 <= j < k ==> !p(s[j]));
        let i = choose|i: int| 0 <= i < s.len() && p(s[i]) && forall|j: int| 0 <= j < i ==> !p(s[j]);
        if i < k {
            assert(!p(s[i]));
        } else if i > k {
            assert(!p(s[k]));
        }
    }
}

proof fn lemma_first_index_found(s: Seq<PanelView>, p: spec_fn(PanelView) -> bool, k: int)
    requires
        0 <= k < s.len(),
        p(s[k]),
    ensures
        first_index(s, p) matches Some(q) && 0 <= q <= k && p(s[q]),
    decreases k,
{
    if exists|j: int| 0 <= j < k && p(s[j]) {
        let j = choose|j: int| 0 <= j < k && p(s[j]);
        lemma_first_index_found(s, p, j);
    } else {
        lemma_first_index(s, p, k);
    }
}

/// Inserting a consistent panel keeps each panel consistent.
proof fn lemma_insert_keeps_states(v: AppPanelsView, idx: int, p: PanelView)
    requires
        panels_wf(v),
        0 <= idx <= v.panels.len(),
        panel_wf(p),
    ensures
        forall|i: int| 0 <= i < v.panels.insert(idx, p).len()
            ==> #[trigger] v.panels.insert(idx, p)[i].states.len() > 0,
        forall|i: int| 0 <= i < v.panels.insert(idx, p).len()
            ==> #[trigger] v.panels.insert(idx, p)[i].starting_inputs.len() == v.panels.insert(idx, p)[i].states.len(),
{
    let w = v.panels.insert(idx, p);
    assert forall|i: int| 0 <= i < w.len() implies panel_wf(#[trigger] w[i]) by {
        if i < idx {
            assert(w[i] == v.panels[i]);
            assert(v.panels[i].states.len() > 0);
        } else if i > idx {
            assert(w[i] == v.panels[i - 1]);
            assert(v.panels[i - 1].states.len() > 0);
        } else {
            assert(w[i] == p);
        }
    }
}

/// Removing a panel keeps each panel consistent.
proof fn lemma_remove_keeps_states(v: AppPanelsView, idx: int)
    requires
        panels_wf(v),
        0 <= idx < v.panels.len(),
    ensures
        forall|i: int| 0 <= i < v.panels.remove(idx).len()
            ==> #[trigger] v.panels.remove(idx)[i].states.len() > 0,
        forall|i: int| 0 <= i < v.panels.remove(idx).len()
            ==> #[trigger] v.panels.remove(idx)[i].starting_inputs.len() == v.panels.remove(idx)[i].states.len(),
{
    let w = v.panels.remove(idx);
    assert forall|i: int| 0 <= i < w.len() implies panel_wf(#[trigger] w[i]) by {
        if i < idx {
            assert(w[i] == v.panels[i]);
        } else {
            assert(w[i] == v.panels[i + 1]);
        }
    }
}

/// Closing a panel which isn't the active one keeps the active panel
/// active: the panel which is active after the closing has the id of the
/// one which was active before. When panel ids are distinct, it's the same
/// panel, at its new index.
pub proof fn lemma_close_keeps_active_panel(v: AppPanelsView, idx: int)
    requires
        panels_wf(v),
        0 <= idx < v.panels.len(),
        idx != v.active_panel_idx,
    ensures
        ({
            let c = closed_panels(v, idx);
            &&& c.active_panel_idx < c.panels.len()
            &&& c.panels[c.active_panel_idx as int].id == v.panels[v.active_panel_idx as int].id
            &&& (forall|i: int, j: int| 0 <= i < j < v.panels.len()
                    ==> (#[trigger] v.panels[i]).id != (#[trigger] v.panels[j]).id)
                ==> c.active_panel_idx == if idx < v.active_panel_idx {
                    v.active_panel_idx - 1
                } else {
                    v.active_panel_idx as int
                }
        }),
{
    let w = v.panels.remove(idx);
    let a = v.active_panel_idx as int;
    let id = v.panels[a].id;
    let na = if idx < a { a - 1 } else { a };
    assert(w[na] == v.panels[a]);
    assert(has_id(id)(w[na]));
    lemma_first_index_found(w, has_id(id), na);
    let q = first_index(w, has_id(id))->0;
    if forall|i: int, j: int| 0 <= i < j < v.panels.len()
        ==> (#[trigger] v.panels[i]).id != (#[trigger] v.panels[j]).id {
        let oq = if q < idx { q } else { q + 1 };
        assert(w[q] == v.panels[oq]);
        if oq < a {
            assert(v.panels[oq].id != v.panels[a].id);
        } else if oq > a {
            assert(v.panels[a].id != v.panels[oq].id);
        }
    }
}

/// Panel ids are distinct and below the count of created panels (as they
/// are once a panel has been created after the first one).
pub open spec fn ids_fresh(v: AppPanelsView) -> bool {
    &&& forall|i: int| 0 <= i < v.panels.len() ==> (#[trigger] v.panels[i]).id.0 < v.created_panels_count
    &&& forall|i: int, j: int| 0 <= i < j < v.panels.len()
        ==> (#[trigger] v.panels[i]).id != (#[trigger] v.panels[j]).id
}

/// Adding a panel without activating it, at the right of the active one
/// (or at the end, for a preview), then closing it, gives back the panels
/// as they were, the count of created panels aside.
pub proof fn lemma_add_then_close_panel(
    v: AppPanelsView,
    state_type: PanelStateType,
    starting_input: Seq<char>,
    purpose: PanelPurpose,
    direction: HDir,
)
    requires
        panels_wf(v),
        ids_fresh(v),
        !new_panel_refused(v, state_type),
        insertion_index(v, purpose, direction) > v.active_panel_idx,
        !close_refused(
            added_panel(v, state_type, starting_input, purpose, direction, false),
            insertion_index(v, purpose, direction),
        ),
    ensures
        closed_panels(
            added_panel(v, state_type, starting_input, purpose, direction, false),
            insertion_index(v, purpose, direction),
        ) == (AppPanelsView { created_panels_count: v.created_panels_count + 1, ..v }),
{
    let idx = insertion_index(v, purpose, direction);
    let w = added_panel(v, state_type, starting_input, purpose, direction, false);
    let a = v.active_panel_idx as int;
    assert(w.panels.remove(idx) =~= v.panels);
    assert(w.panels[a] == v.panels[a]);
    let id = v.panels[a].id;
    lemma_first_index_found(v.panels, has_id(id), a);
    let q = first_index(v.panels, has_id(id))->0;
    if q != a {
        if q < a {
            assert(v.panels[q].id != v.panels[a].id);
        } else {
            assert(v.panels[a].id != v.panels[q].id);
        }
    }
    let c = closed_panels(w, idx);
    assert(c.panels =~= v.panels);
}

impl AppPanelsAndInputs {
    /// The panels, starting with a single one, a tree with the given
    /// starting input (they can't be empty)
    pub fn new(screen_width: u16, starting_input: String) -> (ap: AppPanelsAndInputs)
        ensures
            panels_wf(ap@),
            ap@.created_panels_count == 0,
            ap@.screen_width == screen_width,
            ap@.active_panel_idx == 0,
            ap@.panels == seq![PanelView {
                id: PanelId(0),
                states: seq![PanelStateType::Tree],
                starting_inputs: seq![starting_input@],
                input: starting_input@,
                purpose: PanelPurpose::NoPurpose,
                left: 0,
                width: screen_width,
            }],
    {
        let mut panel = Panel::new(PanelId::from(0), PanelStateType::Tree, starting_input, PanelPurpose::NoPurpose);
        panel.width = screen_width;
        let mut panels = Vec::new();
        panels.push(panel);
        let ap = AppPanelsAndInputs {
            created_panels_count: 0,
            screen_width,
            active_panel_idx: 0,
            panels,
        };
        assert(ap@.panels =~= seq![panel@]);
        ap
    }

    pub fn len(&self) -> (n: usize)
        ensures
            n == self@.panels.len(),
    {
        self.panels.len()
    }

    pub fn active_panel_idx(&self) -> (idx: usize)
        ensures
            idx == self@.active_panel_idx,
    {
        self.active_panel_idx
    }

    /// change the width of the screen
    pub fn set_screen_width(&mut self, width: u16)
        ensures
            final(self)@ == (AppPanelsView { screen_width: width, ..old(self)@ }),
    {
        self.screen_width = width;
    }

    pub fn screen_width(&self) -> (w: u16)
        ensures
            w == self@.screen_width,
    {
        self.screen_width
    }

    /// the panel at the given index
    pub fn panel_by_idx_unchecked(&self, idx: usize) -> (p: &Panel)
        requires
            idx < self@.panels.len(),
        ensures
            p@ == self@.panels[idx as int],
    {
        &self.panels[idx]
    }

    /// the active panel
    pub fn panel(&self) -> (p: &Panel)
        requires
            panels_wf(self@),
        ensures
            p@ == self@.panels[self@.active_panel_idx as int],
    {
        &self.panels[self.active_panel_idx]
    }

    /// the active panel, to be modified
    pub fn mut_panel(&mut self) -> (p: &mut Panel)
        requires
            panels_wf(old(self)@),
        ensures
            p@ == old(self)@.panels[old(self)@.active_panel_idx as int],
            final(self)@.panels =~= old(self)@.panels.update(old(self)@.active_panel_idx as int, final(p)@),
            final(self)@.active_panel_idx == old(self)@.active_panel_idx,
            final(self)@.created_panels_count == old(self)@.created_panels_count,
            final(self)@.screen_width == old(self)@.screen_width,
    {
        let idx = self.active_panel_idx;
        &mut self.panels[idx]
    }

    /// the type of the current state of the active panel
    pub fn state_type(&self) -> (t: PanelStateType)
        requires
            panels_wf(self@),
        ensures
            t == panel_type(self@.panels[self@.active_panel_idx as int]),
    {
        assert(self.panels@[self.active_panel_idx as int]@ == self@.panels[self@.active_panel_idx as int]);
        self.panels[self.active_panel_idx].state_type()
    }

    /// index of the first panel whose current state is of the given type
    pub fn idx_by_type(&self, state_type: PanelStateType) -> (res: Option<usize>)
        requires
            panels_wf(self@),
        ensures
            opt_idx(res) == first_of_type(self@, state_type),
            res matches Some(i) ==> i < self@.panels.len() && panel_type(self@.panels[i as int]) == state_type,
    {
        let len = self.panels.len();
        let mut i: usize = 0;
        while i < len
            invariant
                panels_wf(self@),
                len == self@.panels.len(),
                i <= len,
                forall|j: int| 0 <= j < i ==> !is_of_type(state_type)(self@.panels[j]),
            decreases len - i,
        {
            assert(self.panels@[i as int]@ == self@.panels[i as int]);
            if self.panels[i].state_type() == state_type {
                proof {
                    lemma_first_index(self@.panels, is_of_type(state_type), i as int);
                }
                return Some(i);
            }
            i += 1;
        }
        proof {
            lemma_first_index(self@.panels, is_of_type(state_type), i as int);
        }
        None
    }

    /// index of the first panel with the given id
    fn idx_by_id(&self, id: PanelId) -> (res: Option<usize>)
        ensures
            opt_idx(res) == index_of_id(self@, id),
            res matches Some(i) ==> i < self@.panels.len(),
    {
        let len = self.panels.len();
        let mut i: usize = 0;
        while i < len
            invariant
                len == self@.panels.len(),
                i <= len,
                forall|j: int| 0 <= j < i ==> !has_id(id)(self@.panels[j]),
            decreases len - i,
        {
            assert(self.panels@[i as int]@ == self@.panels[i as int]);
            if self.panels[i].id == id {
                proof {
                    lemma_first_index(self@.panels, has_id(id), i as int);
                }
                return Some(i);
            }
            i += 1;
        }
        proof {
            lemma_first_index(self@.panels, has_id(id), i as int);
        }
        None
    }

    pub fn has_type(&self, state_type: PanelStateType) -> (res: bool)
        requires
            panels_wf(self@),
        ensures
            res == (first_of_type(self@, state_type) is Some),
    {
        self.idx_by_type(state_type).is_some()
    }

    pub fn has_preview_panel(&self) -> (res: bool)
        requires
            panels_wf(self@),
        ensures
            res == (first_of_type(self@, PanelStateType::Preview) is Some),
    {
        self.has_type(PanelStateType::Preview)
    }

    pub fn has_stage_panel(&self) -> (res: bool)
        requires
            panels_wf(self@),
        ensures
            res == (first_of_type(self@, PanelStateType::Stage) is Some),
    {
        self.has_type(PanelStateType::Stage)
    }

    pub fn preview_panel_idx(&self) -> (res: Option<usize>)
        requires
            panels_wf(self@),
        ensures
            opt_idx(res) == first_of_type(self@, PanelStateType::Preview),
            res matches Some(i) ==> i < self@.panels.len(),
    {
        self.idx_by_type(PanelStateType::Preview)
    }

    /// id of the first panel whose current state is a preview
    pub fn preview_panel_id(&self) -> (res: Option<PanelId>)
        requires
            panels_wf(self@),
        ensures
            match first_of_type(self@, PanelStateType::Preview) {
                Some(i) => res == Some(self@.panels[i].id),
                None => res is None,
            },
    {
        match self.idx_by_type(PanelStateType::Preview) {
            Some(i) => {
                assert(self.panels@[i as int]@ == self@.panels[i as int]);
                Some(self.panels[i].id)
            }
            None => None,
        }
    }

    /// id of the first panel whose current state is a stage
    pub fn stage_panel_id(&self) -> (res: Option<PanelId>)
        requires
            panels_wf(self@),
        ensures
            match first_of_type(self@, PanelStateType::Stage) {
                Some(i) => res == Some(self@.panels[i].id),
                None => res is None,
            },
    {
        match self.idx_by_type(PanelStateType::Stage) {
            Some(i) => {
                assert(self.panels@[i as int]@ == self@.panels[i as int]);
                Some(self.panels[i].id)
            }
            None => None,
        }
    }

    /// index of the panel a reference designates, if any
    pub fn idx_by_ref(&self, panel_ref: PanelReference) -> (res: Option<usize>)
        requires
            panels_wf(self@),
        ensures
            opt_idx(res) == index_of_ref(self@, panel_ref),
            res matches Some(i) ==> i < self@.panels.len(),
    {
        match panel_ref {
            PanelReference::Active => Some(self.active_panel_idx),
            PanelReference::Leftest => Some(0),
            PanelReference::Rightest => Some(self.panels.len() - 1),
            PanelReference::Idx(idx) => {
                if idx < self.panels.len() {
                    Some(idx)
                } else {
                    None
                }
            }
            PanelReference::Id(id) => self.idx_by_id(id),
            PanelReference::Preview => self.idx_by_type(PanelStateType::Preview),
        }
    }

    /// how many panels have a current state of the given type
    pub fn count_of_type(&self, state_type: PanelStateType) -> (n: usize)
        requires
            panels_wf(self@),
        ensures
            n == count_of(self@.panels, state_type),
    {
        let len = self.panels.len();
        let mut n: usize = 0;
        let mut i: usize = 0;
        while i < len
            invariant
                panels_wf(self@),
                len == self@.panels.len(),
                i <= len,
                n <= i,
                n == count_of(self@.panels.take(i as int), state_type),
            decreases len - i,
        {
            assert(self.panels@[i as int]@ == self@.panels[i as int]);
            assert(self@.panels.take(i + 1).drop_last() =~= self@.panels.take(i as int));
            if self.panels[i].state_type() == state_type {
                n += 1;
            }
            i += 1;
        }
        assert(self@.panels.take(i as int) =~= self@.panels);
        n
    }

    /// make the panel at the given index the active one, if it exists
    pub fn activate(&mut self, panel_idx: usize)
        requires
            panels_wf(old(self)@),
        ensures
            panels_wf(final(self)@),
            final(self)@ == (AppPanelsView {
                active_panel_idx: if panel_idx < old(self)@.panels.len() {
                    panel_idx as nat
                } else {
                    old(self)@.active_panel_idx
                },
                ..old(self)@
            }),
    {
        if panel_idx < self.panels.len() {
            self.active_panel_idx = panel_idx;
        }
    }

    /// make the first panel of the given type the active one.
    /// Return false when there's no such panel
    pub fn focus_by_type(&mut self, state_type: PanelStateType) -> (res: bool)
        requires
            panels_wf(old(self)@),
        ensures
            panels_wf(final(self)@),
            res == (first_of_type(old(self)@, state_type) is Some),
            final(self)@ == (match first_of_type(old(self)@, state_type) {
                Some(i) => AppPanelsView { active_panel_idx: i as nat, ..old(self)@ },
                None => old(self)@,
            }),
    {
        if let Some(idx) = self.idx_by_type(state_type) {
            self.active_panel_idx = idx;
            true
        } else {
            false
        }
    }

    /// add a panel with a state of the given type, its input holding the
    /// state's starting input, unless it's a preview or a stage and there's
    /// already one
    pub fn new_panel(
        &mut self,
        state_type: PanelStateType,
        starting_input: String,
        purpose: PanelPurpose,
        direction: HDir,
        activate: bool,
    ) -> (res: Result<(), String>)
        requires
            panels_wf(old(self)@),
            old(self)@.created_panels_count < usize::MAX,
        ensures
            panels_wf(final(self)@),
            res is Err <==> new_panel_refused(old(self)@, state_type),
            res matches Err(e) ==> e@ == new_panel_error(state_type),
            final(self)@ == (if res is Err {
                old(self)@
            } else {
                added_panel(old(self)@, state_type, starting_input@, purpose, direction, activate)
            }),
    {
        let ghost v = self@;
        if state_type == PanelStateType::Preview && self.has_type(PanelStateType::Preview) {
            return Err("There can be only one preview panel".to_owned());
        }
        if state_type == PanelStateType::Stage && self.has_type(PanelStateType::Stage) {
            return Err("There can be only one stage panel".to_owned());
        }
        let len = self.panels.len();
        let insertion_idx = if purpose.is_preview() {
            len
        } else if direction == HDir::Right {
            self.active_panel_idx + 1
        } else {
            self.active_panel_idx
        };
        let panel_id = PanelId::from(self.created_panels_count);
        let panel = Panel::new(panel_id, state_type, starting_input, purpose);
        if activate {
            self.active_panel_idx = insertion_idx;
        }
        self.created_panels_count += 1;
        self.panels.insert(insertion_idx, panel);
        assert(self@.panels =~= v.panels.insert(insertion_idx as int, panel@));
        proof {
            lemma_insert_keeps_states(v, insertion_idx as int, panel@);
        }
        Ok(())
    }

    /// close the panel at the given index, unless it's the last one or
    /// only a preview or stage panel would remain.
    ///
    /// Return true when the panel has been removed. The panel which was
    /// active stays active, unless it's the removed one: then the last
    /// panel becomes active.
    pub fn close(&mut self, panel_idx: usize) -> (closed: bool)
        requires
            panels_wf(old(self)@),
        ensures
            panels_wf(final(self)@),
            closed == !close_refused(old(self)@, panel_idx as int),
            final(self)@ == (if closed { closed_panels(old(self)@, panel_idx as int) } else { old(self)@ }),
    {
        let ghost v = self@;
        let len = self.panels.len();
        if panel_idx >= len {
            return false;
        }
        if len < 2 {
            return false;
        }
        if len == 2 {
            let non_removed_idx: usize = if panel_idx == 0 { 1 } else { 0 };
            assert(self.panels@[non_removed_idx as int]@ == v.panels[non_removed_idx as int]);
            assert(v.panels[non_removed_idx as int].states.len() > 0);
            let t = self.panels[non_removed_idx].state_type();
            if t == PanelStateType::Preview || t == PanelStateType::Stage {
                return false;
            }
        }
        assert(self.panels@[self.active_panel_idx as int]@ == v.panels[v.active_panel_idx as int]);
        let active_panel_id = self.panels[self.active_panel_idx].id;
        self.panels.remove(panel_idx);
        assert(self@.panels =~= v.panels.remove(panel_idx as int));
        let new_len = self.panels.len();
        let found = self.idx_by_id(active_panel_id);
        self.active_panel_idx = match found {
            Some(k) => k,
            None => new_len - 1,
        };
        proof {
            lemma_remove_keeps_states(v, panel_idx as int);
        }
        true
    }

    /// index of the first panel whose state isn't a tree
    fn first_non_tree_idx(&self) -> (res: Option<usize>)
        requires
            panels_wf(self@),
        ensures
            opt_idx(res) == first_non_tree(self@),
            res matches Some(i) ==> i < self@.panels.len(),
    {
        let len = self.panels.len();
        let mut i: usize = 0;
        while i < len
            invariant
                panels_wf(self@),
                len == self@.panels.len(),
                i <= len,
                forall|j: int| 0 <= j < i ==> !is_not_tree()(self@.panels[j]),
            decreases len - i,
        {
            assert(self.panels@[i as int]@ == self@.panels[i as int]);
            if self.panels[i].state_type() != PanelStateType::Tree {
                proof {
                    lemma_first_index(self@.panels, is_not_tree(), i as int);
                }
                return Some(i);
            }
            i += 1;
        }
        proof {
            lemma_first_index(self@.panels, is_not_tree(), i as int);
        }
        None
    }

    /// close the first panel whose state isn't a tree, if any (and if it
    /// can be closed)
    pub fn close_first_non_tree(&mut self) -> (closed: bool)
        requires
            panels_wf(old(self)@),
        ensures
            panels_wf(final(self)@),
            closed == (first_non_tree(old(self)@) matches Some(i) && !close_refused(old(self)@, i)),
            final(self)@ == (if closed {
                closed_panels(old(self)@, first_non_tree(old(self)@)->0)
            } else {
                old(self)@
            }),
    {
        match self.first_non_tree_idx() {
            Some(idx) => self.close(idx),
            None => false,
        }
    }

    /// index of the rightest panel, other than the active one, whose state
    /// is a tree
    fn rightest_inactive_tree_idx(&self) -> (res: Option<usize>)
        requires
            panels_wf(self@),
        ensures
            opt_idx(res) == rightest_inactive_tree(self@),
            res matches Some(i) ==> i < self@.panels.len(),
    {
        let ghost v = self@;
        let mut i: usize = self.panels.len();
        while i > 0
            invariant
                self@ == v,
                panels_wf(v),
                i <= v.panels.len(),
                forall|j: int| i <= j < v.panels.len() && j != v.active_panel_idx
                    ==> panel_type(v.panels[j]) != PanelStateType::Tree,
            decreases i,
        {
            let k = i - 1;
            assert(self.panels@[k as int]@ == v.panels[k as int]);
            if k != self.active_panel_idx && self.panels[k].state_type() == PanelStateType::Tree {
                proof {
                    reveal(rightest_inactive_tree);
                    let c = choose|c: int| 0 <= c < v.panels.len() && c != v.active_panel_idx
                        && panel_type(v.panels[c]) == PanelStateType::Tree
                        && forall|j: int| c < j < v.panels.len() && j != v.active_panel_idx
                            ==> panel_type(v.panels[j]) != PanelStateType::Tree;
                    if c < k {
                        assert(panel_type(v.panels[k as int]) != PanelStateType::Tree);
                    } else if c > k {
                        assert(panel_type(v.panels[c]) != PanelStateType::Tree);
                    }
                }
                return Some(k);
            }
            i = k;
        }
        proof {
            reveal(rightest_inactive_tree);
        }
        None
    }

    /// close the rightest panel, other than the active one, whose state is
    /// a tree, if any (and if it can be closed)
    pub fn close_rightest_inactive_tree(&mut self) -> (closed: bool)
        requires
            panels_wf(old(self)@),
        ensures
            panels_wf(final(self)@),
            closed == (rightest_inactive_tree(old(self)@) matches Some(i) && !close_refused(old(self)@, i)),
            final(self)@ == (if closed {
                closed_panels(old(self)@, rightest_inactive_tree(old(self)@)->0)
            } else {
                old(self)@
            }),
    {
        match self.rightest_inactive_tree_idx() {
            Some(idx) => self.close(idx),
            None => false,
        }
    }

    /// get the index of the panel at column x: the panel whose area contains
    /// it or, if none does, an estimate assuming panels of equal widths
    pub fn clicked_panel_index(&self, x: u16, _y: u16) -> (idx: usize)
        requires
            forall|i: int| 0 <= i < self@.panels.len() ==>
                (#[trigger] self@.panels[i]).left + self@.panels[i].width <= u16::MAX,
            self@.panels.len() * (x as int) <= usize::MAX,
        ensures
            idx == match panel_at(self@, x) {
                Some(i) => i,
                None => (self@.panels.len() * (x as int)) / (self@.screen_width as int + 1),
            },
    {
        let len = self.panels.len();
        let mut i: usize = 0;
        while i < len
            invariant
                len == self@.panels.len(),
                i <= len,
                forall|j: int| 0 <= j < self@.panels.len() ==>
                    (#[trigger] self@.panels[j]).left + self@.panels[j].width <= u16::MAX,
                forall|j: int| 0 <= j < i ==> !covers(x)(self@.panels[j]),
            decreases len - i,
        {
            assert(self.panels@[i as int]@ == self@.panels[i as int]);
            let panel = &self.panels[i];
            if panel.left <= x && x < panel.left + panel.width {
                proof {
                    lemma_first_index(self@.panels, covers(x), i as int);
                }
                return i;
            }
            i += 1;
        }
        proof {
            lemma_first_index(self@.panels, covers(x), i as int);
        }
        (len * x as usize) / (self.screen_width as usize + 1)
    }

    /// push a state of the given type on the active panel, whose input
    /// gets the state's starting input
    pub fn push_state(&mut self, state_type: PanelStateType, starting_input: String)
        requires
            panels_wf(old(self)@),
        ensures
            panels_wf(final(self)@),
            final(self)@ == with_active_panel(old(self)@, PanelView {
                states: old(self)@.panels[old(self)@.active_panel_idx as int].states.push(state_type),
                starting_inputs: old(self)@.panels[old(self)@.active_panel_idx as int].starting_inputs.push(
                    starting_input@,
                ),
                input: starting_input@,
                ..old(self)@.panels[old(self)@.active_panel_idx as int]
            }),
    {
        let ghost v = self@;
        let idx = self.active_panel_idx;
        assert(self.panels@[idx as int]@ == v.panels[idx as int]);
        self.panels[idx].push_state(state_type, starting_input);
        assert(self@.panels =~= v.panels.update(idx as int, self.panels@[idx as int]@));
    }

    /// remove the current state of the active panel, or close the panel
    /// when it was its only state. Return false when nothing could be
    /// removed.
    pub fn remove_state(&mut self) -> (removed: bool)
        requires
            panels_wf(old(self)@),
        ensures
            panels_wf(final(self)@),
            removed == (old(self)@.panels[old(self)@.active_panel_idx as int].states.len() > 1
                || !close_refused(old(self)@, old(self)@.active_panel_idx as int)),
            final(self)@ == removed_state(old(self)@),
    {
        let ghost v = self@;
        let idx = self.active_panel_idx;
        assert(self.panels@[idx as int]@ == v.panels[idx as int]);
        assert(panel_wf(v.panels[idx as int]));
        let removed = self.panels[idx].remove_state();
        assert(self@.panels =~= v.panels.update(idx as int, self.panels@[idx as int]@));
        if removed {
            true
        } else {
            assert(self@.panels =~= v.panels);
            self.close(idx)
        }
    }

    /// the part of the command execution context which comes from the
    /// panels
    pub fn app_cmd_context<'c>(&self, con: &'c AppContext) -> (acc: AppCmdContext<'c>)
        requires
            panels_wf(self@),
        ensures
            acc.preview_panel == match first_of_type(self@, PanelStateType::Preview) {
                Some(i) => Some(self@.panels[i].id),
                None => None::<PanelId>,
            },
            acc.stage_panel == match first_of_type(self@, PanelStateType::Stage) {
                Some(i) => Some(self@.panels[i].id),
                None => None::<PanelId>,
            },
            acc.screen_width == self@.screen_width,
            acc.con == con,
    {
        AppCmdContext {
            preview_panel: self.preview_panel_id(),
            stage_panel: self.stage_panel_id(),
            screen_width: self.screen_width,
            con,
        }
    }
}

} // verus!
