//! Completion of verb names and arguments.

use vstd::prelude::*;
use crate::text::{chars_of, string_of, string_of_range, lowercase, to_lowercase, strings_view};

verus! {

/// The index of the first position where `a` and `b` differ, if they
/// differ before one of them ends.
pub open spec fn first_difference(a: Seq<char>, b: Seq<char>) -> Option<int> {
    if exists|i: int| 0 <= i < a.len() && i < b.len() && a[i] != b[i] {
        Some(choose|i: int| 0 <= i < a.len() && i < b.len() && a[i] != b[i]
            && forall|j: int| 0 <= j < i ==> a[j] == b[j])
    } else {
        None
    }
}

/// The length of the longest common start of `a` and `b`, counted in
/// chars: their first difference, or the length of the shorter one.
pub open spec fn common_start_len(a: Seq<char>, b: Seq<char>) -> int {
    match first_difference(a, b) {
        Some(i) => i,
        None => if a.len() <= b.len() { a.len() as int } else { b.len() as int },
    }
}

/// The longest common start of `a` and `b`.
pub open spec fn common_start_of(a: Seq<char>, b: Seq<char>) -> Seq<char> {
    a.take(common_start_len(a, b))
}

proof fn lemma_first_difference(a: Seq<char>, b: Seq<char>, k: int)
    requires
        0 <= k <= a.len(),
        k <= b.len(),
        forall|j: int| 0 <= j < k ==> a[j] == b[j],
        k == a.len() || k == b.len() || a[k] != b[k],
    ensures
        first_difference(a, b) == (if k < a.len() && k < b.len() { Some(k) } else { None::<int> }),
{
    if k < a.len() && k < b.len() {
        assert(a[k] != b[k]);
        let i = choose|i: int| 0 <= i < a.len() && i < b.len() && a[i] != b[i]
            && forall|j: int| 0 <= j < i ==> a[j] == b[j];
        assert(0 <= k < a.len() && k < b.len() && a[k] != b[k] && forall|j: int| 0 <= j < k ==> a[j] == b[j]);
        if i < k {
            assert(a[i] == b[i]);
        } else if i > k {
            assert(a[k] == b[k]);
        }
    } else {
        assert forall|i: int| 0 <= i < a.len() && i < b.len() implies a[i] == b[i] by {}
    }
}

/// The common start of two texts starts both of them, and no longer start
/// does: when it's shorter than both, they differ just after it.
pub proof fn lemma_common_start_is_longest(a: Seq<char>, b: Seq<char>)
    ensures
        common_start_of(a, b).len() <= a.len(),
        common_start_of(a, b).len() <= b.len(),
        common_start_of(a, b) == a.take(common_start_of(a, b).len() as int),
        common_start_of(a, b) == b.take(common_start_of(a, b).len() as int),
        common_start_of(a, b).len() < a.len() && common_start_of(a, b).len() < b.len()
            ==> a[common_start_of(a, b).len() as int] != b[common_start_of(a, b).len() as int],
{
    let k = common_start_len(a, b);
    if exists|i: int| 0 <= i < a.len() && i < b.len() && a[i] != b[i] {
        let j = choose|i: int| 0 <= i < a.len() && i < b.len() && a[i] != b[i];
        lemma_first_witness(a, b, j);
    }
    assert(a.take(k) =~= b.take(k));
}

/// When the texts differ somewhere, their first difference is the first
/// position where they differ.
proof fn lemma_first_witness(a: Seq<char>, b: Seq<char>, j: int)
    requires
        0 <= j < a.len(),
        j < b.len(),
        a[j] != b[j],
    ensures
        first_difference(a, b) matches Some(i) && 0 <= i <= j && i < a.len() && i < b.len()
            && a[i] != b[i] && forall|m: int| 0 <= m < i ==> a[m] == b[m],
    decreases j,
{
    if exists|m: int| 0 <= m < j && a[m] != b[m] {
        let m = choose|m: int| 0 <= m < j && a[m] != b[m];
        lemma_first_witness(a, b, m);
    } else {
        lemma_first_difference(a, b, j);
    }
}

/// find the longest common start of a and b
pub fn common_start(a: &str, b: &str) -> (res: String)
    ensures
        res@ == common_start_of(a@, b@),
{
    let ac = chars_of(a);
    let bc = chars_of(b);
    let mut i: usize = 0;
    while i < ac.len() && i < bc.len() && ac[i] == bc[i]
        invariant
            ac@ == a@,
            bc@ == b@,
            i <= ac@.len(),
            i <= bc@.len(),
            forall|j: int| 0 <= j < i ==> ac@[j] == bc@[j],
        decreases ac@.len() - i,
    {
        i += 1;
    }
    proof {
        lemma_first_difference(ac@, bc@, i as int);
    }
    let r = string_of_range(&ac, 0, i);
    assert(ac@.subrange(0, i as int) =~= ac@.take(i as int));
    r
}

/// how an input can be completed
#[derive(Debug)]
pub enum Completions {
    /// no completion found
    NoCompletion,

    /// all possible completions have this common root
    Common(String),

    /// a list of possible completions
    List(Vec<String>),
}

/// The mathematical value of completions.
pub enum CompletionsView {
    NoCompletion,
    Common(Seq<char>),
    List(Seq<Seq<char>>),
}

impl View for Completions {
    type V = CompletionsView;

    open spec fn view(&self) -> CompletionsView {
        match self {
            Completions::NoCompletion => CompletionsView::NoCompletion,
            Completions::Common(s) => CompletionsView::Common(s@),
            Completions::List(l) => CompletionsView::List(strings_view(l@)),
        }
    }
}

/// The common start of the first `n` items of the list, folding from the
/// first one.
pub open spec fn common_of_first(list: Seq<Seq<char>>, n: int) -> Seq<char>
    decreases n,
{
    if n <= 1 {
        list[0]
    } else {
        common_start_of(common_of_first(list, n - 1), list[n - 1])
    }
}

/// The completions for a list of possible ones: none for an empty list,
/// their common start when it isn't empty, the list itself otherwise.
pub open spec fn completions_of_list(list: Seq<Seq<char>>) -> CompletionsView {
    if list.len() == 0 {
        CompletionsView::NoCompletion
    } else if common_of_first(list, list.len() as int).len() == 0 {
        CompletionsView::List(list)
    } else {
        CompletionsView::Common(common_of_first(list, list.len() as int))
    }
}

/// The end of `w` after `start` when it starts with it, else `w`.
pub open spec fn strip_start(w: Seq<char>, start: Seq<char>) -> Seq<char> {
    if start.len() <= w.len() && w.take(start.len() as int) == start {
        w.skip(start.len() as int)
    } else {
        w
    }
}

/// Every whole, stripped of `start` when it starts with it.
pub open spec fn stripped_wholes(start: Seq<char>, wholes: Seq<Seq<char>>) -> Seq<Seq<char>> {
    Seq::new(wholes.len(), |i: int| strip_start(wholes[i], start))
}

/// `w` stripped of `start`, when it starts with it.
pub fn strip_prefix(w: &str, start: &str) -> (res: Option<String>)
    ensures
        match res {
            Some(r) => start@.len() <= w@.len() && w@.take(start@.len() as int) == start@
                && r@ == w@.skip(start@.len() as int),
            None => !(start@.len() <= w@.len() && w@.take(start@.len() as int) == start@),
        },
{
    let wc = chars_of(w);
    let sc = chars_of(start);
    if sc.len() > wc.len() {
        return None;
    }
    let mut i: usize = 0;
    while i < sc.len()
        invariant
            wc@ == w@,
            sc@ == start@,
            sc@.len() <= wc@.len(),
            i <= sc@.len(),
            forall|j: int| 0 <= j < i ==> wc@[j] == sc@[j],
        decreases sc@.len() - i,
    {
        if wc[i] != sc[i] {
            assert(wc@.take(sc@.len() as int)[i as int] != sc@[i as int]);
            assert(wc@.take(sc@.len() as int) != sc@);
            return None;
        }
        i += 1;
    }
    assert(wc@.take(sc@.len() as int) =~= sc@);
    let r = string_of_range(&wc, sc.len(), wc.len());
    assert(wc@.subrange(sc@.len() as int, wc@.len() as int) =~= wc@.skip(sc@.len() as int));
    Some(r)
}

/// Whether `w` starts with `start`.
pub open spec fn starts_with(w: Seq<char>, start: Seq<char>) -> bool {
    start.len() <= w.len() && w.take(start.len() as int) == start
}

/// The completions of `arg` among the first `n` theme names: the end of
/// each lowercased name which starts with the lowercased argument.
pub open spec fn theme_completions(names: Seq<Seq<char>>, arg: Seq<char>, n: int) -> Seq<Seq<char>>
    decreases n,
{
    if n <= 0 {
        Seq::empty()
    } else {
        let before = theme_completions(names, arg, n - 1);
        let name = lowercase(names[n - 1]);
        let a = lowercase(arg);
        if starts_with(name, a) {
            before.push(name.skip(a.len() as int))
        } else {
            before
        }
    }
}

/// The common start of the first `n` items of a list starts each of them.
proof fn lemma_common_of_first_starts(list: Seq<Seq<char>>, n: int, j: int)
    requires
        1 <= n <= list.len(),
        0 <= j < n,
    ensures
        starts_with(list[j], common_of_first(list, n)),
    decreases n,
{
    if n == 1 {
        assert(list[0].take(list[0].len() as int) =~= list[0]);
    } else {
        let prev = common_of_first(list, n - 1);
        let c = common_of_first(list, n);
        lemma_common_start_is_longest(prev, list[n - 1]);
        if j < n - 1 {
            lemma_common_of_first_starts(list, n - 1, j);
            assert(list[j].take(c.len() as int) =~= prev.take(c.len() as int));
        }
    }
}

/// When a list of possible completions has a common root, each of them
/// starts with it.
pub proof fn lemma_completions_common_root(list: Seq<Seq<char>>)
    ensures
        completions_of_list(list) matches CompletionsView::Common(c)
            ==> forall|j: int| 0 <= j < list.len() ==> #[trigger] starts_with(list[j], c),
{
    if list.len() > 0 {
        assert forall|j: int| 0 <= j < list.len() implies #[trigger] starts_with(
            list[j],
            common_of_first(list, list.len() as int),
        ) by {
            lemma_common_of_first_starts(list, list.len() as int, j);
        }
    }
}

impl Completions {
    /// The completions for a list of possible ones: their common start
    /// when it's not empty, else the list (nothing for an empty list)
    pub fn from_list(completions: Vec<String>) -> (c: Completions)
        ensures
            c@ == completions_of_list(strings_view(completions@)),
    {
        let ghost list = strings_view(completions@);
        if completions.len() == 0 {
            return Self::NoCompletion;
        }
        let mut common = completions[0].clone();
        let mut i: usize = 1;
        while i < completions.len()
            invariant
                list == strings_view(completions@),
                1 <= i <= completions@.len(),
                common@ == common_of_first(list, i as int),
            decreases completions@.len() - i,
        {
            assert(list[i as int] == completions@[i as int]@);
            common = common_start(common.as_str(), completions[i].as_str());
            i += 1;
        }
        if common.as_str().is_empty() {
            assert(strings_view(completions@) =~= list);
            Self::List(completions)
        } else {
            Self::Common(common)
        }
    }

    /// we have a verb and it asks for a theme: the completions are the ends
    /// of the theme names (in lowercase) which start with the argument
    /// (in lowercase)
    pub fn for_theme_arg(arg: &str, theme_names: &Vec<String>) -> (c: Completions)
        ensures
            c@ == completions_of_list(theme_completions(strings_view(theme_names@), arg@, theme_names@.len() as int)),
    {
        let ghost names = strings_view(theme_names@);
        let lower_arg = to_lowercase(arg);
        let mut completions: Vec<String> = Vec::new();
        let mut i: usize = 0;
        while i < theme_names.len()
            invariant
                names == strings_view(theme_names@),
                lower_arg@ == lowercase(arg@),
                i <= theme_names@.len(),
                strings_view(completions@) == theme_completions(names, arg@, i as int),
            decreases theme_names@.len() - i,
        {
            let name = to_lowercase(theme_names[i].as_str());
            assert(name@ == lowercase(names[i as int]));
            let ghost before = completions@;
            if let Some(stripped) = strip_prefix(name.as_str(), lower_arg.as_str()) {
                completions.push(stripped);
                assert(strings_view(completions@) =~= strings_view(before).push(stripped@));
            }
            i += 1;
        }
        Self::from_list(completions)
    }

    /// the completions for wholes which are assumed to all start with
    /// `start`: what remains of them after `start`
    pub fn for_wholes(start: &str, wholes: Vec<&str>) -> (c: Completions)
        ensures
            c@ == completions_of_list(stripped_wholes(start@, Seq::new(wholes@.len(), |i: int| wholes@[i]@))),
    {
        let ghost ws = Seq::new(wholes@.len(), |i: int| wholes@[i]@);
        let mut completions: Vec<String> = Vec::new();
        let mut i: usize = 0;
        while i < wholes.len()
            invariant
                ws == Seq::new(wholes@.len(), |i: int| wholes@[i]@),
                i <= wholes@.len(),
                completions@.len() == i,
                forall|j: int| 0 <= j < i ==> #[trigger] completions@[j]@ == strip_start(ws[j], start@),
            decreases wholes@.len() - i,
        {
            let w = wholes[i];
            let c = match strip_prefix(w, start) {
                Some(stripped) => stripped,
                None => w.to_owned(),
            };
            completions.push(c);
            i += 1;
        }
        assert(strings_view(completions@) =~= stripped_wholes(start@, ws));
        Self::from_list(completions)
    }
}

} // verus!
