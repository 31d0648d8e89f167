//! Transformation of a string containing one or several commands into a
//! list of parsed commands.

use vstd::prelude::*;
use crate::errors::ProgramError;
use crate::text::{chars_of, string_of_range, strings_view};
use crate::command::command::{Command, CommandView, command_from_parts};
use crate::command::parts::{CommandParts, parse_command_parts};
use crate::command::pattern_tree::empty_tree_state;

verus! {

/// Whether `sep` occurs in `s` at position `i`.
pub open spec fn occurs_at(s: Seq<char>, sep: Seq<char>, i: int) -> bool {
    0 <= i && i + sep.len() <= s.len() && s.subrange(i, i + sep.len()) == sep
}

/// The pieces of `s`, from position `start`, between the successive
/// occurrences of `sep` (searched from left to right, not overlapping),
/// as `str::split` gives them.
#[verifier::opaque]
pub open spec fn split_from(s: Seq<char>, sep: Seq<char>, start: int) -> Seq<Seq<char>>
    decreases s.len() - start,
{
    if sep.len() == 0 || start < 0 || start > s.len() {
        Seq::empty()
    } else if exists|i: int| start <= i && occurs_at(s, sep, i) {
        let i = choose|i: int| start <= i && occurs_at(s, sep, i)
            && forall|j: int| start <= j < i ==> !occurs_at(s, sep, j);
        if start <= i && i + sep.len() <= s.len() {
            seq![s.subrange(start, i)] + split_from(s, sep, i + sep.len())
        } else {
            Seq::empty()
        }
    } else {
        seq![s.subrange(start, s.len() as int)]
    }
}

/// The pieces of `s` separated by `sep`.
pub open spec fn split_by(s: Seq<char>, sep: Seq<char>) -> Seq<Seq<char>> {
    split_from(s, sep, 0)
}

proof fn lemma_first_occurrence(s: Seq<char>, sep: Seq<char>, start: int, k: int)
    requires
        sep.len() > 0,
        0 <= start <= k,
        occurs_at(s, sep, k),
        forall|j: int| start <= j < k ==> !occurs_at(s, sep, j),
    ensures
        split_from(s, sep, start) == seq![s.subrange(start, k)] + split_from(s, sep, k + sep.len()),
{
    reveal(split_from);
    let i = choose|i: int| start <= i && occurs_at(s, sep, i)
        && forall|j: int| start <= j < i ==> !occurs_at(s, sep, j);
    assert(start <= k && occurs_at(s, sep, k) && forall|j: int| start <= j < k ==> !occurs_at(s, sep, j));
    if i < k {
        assert(!occurs_at(s, sep, i));
    } else if i > k {
        assert(!occurs_at(s, sep, k));
    }
}

proof fn lemma_no_occurrence(s: Seq<char>, sep: Seq<char>, start: int)
    requires
        sep.len() > 0,
        0 <= start <= s.len(),
        forall|j: int| start <= j ==> !occurs_at(s, sep, j),
    ensures
        split_from(s, sep, start) == seq![s.subrange(start, s.len() as int)],
{
    reveal(split_from);
}

/// Whether `sep` occurs in `s` at position `i`.
fn occurs_at_exec(s: &Vec<char>, sep: &Vec<char>, i: usize) -> (res: bool)
    ensures
        res == occurs_at(s@, sep@, i as int),
{
    let n = s.len();
    if i > n || sep.len() > n - i {
        return false;
    }
    let mut j: usize = 0;
    while j < sep.len()
        invariant
            n == s@.len(),
            i + sep@.len() <= s@.len(),
            j <= sep@.len(),
            forall|k: int| 0 <= k < j ==> s@[i + k] == sep@[k],
        decreases sep@.len() - j,
    {
        assert(i + j < n);
        let k: usize = i + j;
        if s[k] != sep[j] {
            assert(s@.subrange(i as int, i + sep@.len())[j as int] != sep@[j as int]);
            return false;
        }
        j += 1;
    }
    assert(s@.subrange(i as int, i + sep@.len()) =~= sep@);
    true
}

/// Split a string on a non empty separator (as `str::split`).
pub fn split_on(s: &str, sep: &str) -> (pieces: Vec<String>)
    requires
        sep@.len() > 0,
    ensures
        strings_view(pieces@) == split_by(s@, sep@),
{
    let sc = chars_of(s);
    let pc = chars_of(sep);
    let n = sc.len();
    let m = pc.len();
    let mut pieces: Vec<String> = Vec::new();
    let mut start: usize = 0;
    let mut i: usize = 0;
    while i <= n && m <= n - i
        invariant
            sc@ == s@,
            pc@ == sep@,
            n == sc@.len(),
            m == pc@.len(),
            m > 0,
            start <= i,
            start <= n,
            forall|j: int| start <= j < i ==> !occurs_at(sc@, pc@, j),
            split_by(sc@, pc@) == strings_view(pieces@) + split_from(sc@, pc@, start as int),
        decreases n + 1 - i,
    {
        if occurs_at_exec(&sc, &pc, i) {
            proof {
                lemma_first_occurrence(sc@, pc@, start as int, i as int);
            }
            let ghost before = strings_view(pieces@);
            let piece = string_of_range(&sc, start, i);
            pieces.push(piece);
            assert(strings_view(pieces@) =~= before.push(piece@));
            assert(before.push(piece@) + split_from(sc@, pc@, i + m)
                =~= before + (seq![sc@.subrange(start as int, i as int)] + split_from(sc@, pc@, i + m)));
            start = i + m;
            i = start;
        } else {
            i += 1;
        }
    }
    assert forall|j: int| start <= j implies !occurs_at(sc@, pc@, j) by {
        if j >= i {
            assert(!(j + pc@.len() <= sc@.len()));
        }
    }
    proof {
        lemma_no_occurrence(sc@, pc@, start as int);
    }
    let ghost before = strings_view(pieces@);
    let piece = string_of_range(&sc, start, n);
    pieces.push(piece);
    assert(strings_view(pieces@) =~= before.push(piece@));
    assert(split_by(sc@, pc@) =~= strings_view(pieces@));
    pieces
}

/// How a verb name relates to the names of the known verbs.
#[derive(Debug, Clone, Copy, PartialEq, Eq, Structural)]
pub enum VerbNameMatch {
    /// no verb has a name starting with the given one
    NoMatch,
    /// a verb has this name, or only one verb has a name starting with it
    Match,
    /// several verbs have a name starting with it, none is exactly it
    Ambiguous,
}

/// How many of the first `n` names start with `name`.
pub open spec fn count_starting_with(names: Seq<Seq<char>>, name: Seq<char>, n: int) -> nat
    decreases n,
{
    if n <= 0 {
        0
    } else {
        count_starting_with(names, name, n - 1) + if name.len() <= names[n - 1].len()
            && names[n - 1].take(name.len() as int) == name { 1nat } else { 0nat }
    }
}

/// How a verb name relates to the known names: a known name, or the
/// start of exactly one known name, is a match; the start of no known
/// name is no match; else it's ambiguous.
pub open spec fn verb_name_match(names: Seq<Seq<char>>, name: Seq<char>) -> VerbNameMatch {
    if names.contains(name) {
        VerbNameMatch::Match
    } else {
        let count = count_starting_with(names, name, names.len() as int);
        if count == 0 {
            VerbNameMatch::NoMatch
        } else if count == 1 {
            VerbNameMatch::Match
        } else {
            VerbNameMatch::Ambiguous
        }
    }
}

/// Search a verb name among the names of the known verbs.
pub fn search_verb_name(names: &Vec<String>, name: &str) -> (res: VerbNameMatch)
    ensures
        res == verb_name_match(Seq::new(names@.len(), |i: int| names@[i]@), name@),
{
    let ghost ns = Seq::new(names@.len(), |i: int| names@[i]@);
    let nc = chars_of(name);
    let mut exact = false;
    let mut count: usize = 0;
    let mut i: usize = 0;
    while i < names.len()
        invariant
            ns == Seq::new(names@.len(), |i: int| names@[i]@),
            nc@ == name@,
            i <= names@.len(),
            count == count_starting_with(ns, name@, i as int),
            count <= i,
            exact == exists|j: int| 0 <= j < i && ns[j] == name@,
        decreases names@.len() - i,
    {
        let wc = chars_of(names[i].as_str());
        assert(wc@ == ns[i as int]);
        let mut starts = nc.len() <= wc.len();
        let mut equal = nc.len() == wc.len();
        let mut k: usize = 0;
        while starts && k < nc.len()
            invariant
                wc@ == ns[i as int],
                nc@ == name@,
                k <= nc@.len(),
                starts ==> nc@.len() <= wc@.len(),
                starts ==> forall|m: int| 0 <= m < k ==> wc@[m] == nc@[m],
                !starts ==> !(nc@.len() <= wc@.len() && wc@.take(nc@.len() as int) == nc@),
                equal == (nc@.len() == wc@.len()),
            decreases nc@.len() - k,
        {
            if wc[k] != nc[k] {
                assert(wc@.take(nc@.len() as int)[k as int] != nc@[k as int]);
                assert(wc@.take(nc@.len() as int) != nc@);
                starts = false;
            }
            k += 1;
        }
        if starts {
            assert(wc@.take(nc@.len() as int) =~= nc@);
        }
        let is_exact = starts && equal;
        if is_exact {
            assert(wc@ =~= nc@);
        }
        if !starts || !equal {
            assert(wc@ != nc@) by {
                if wc@ == nc@ {
                    assert(wc@.take(nc@.len() as int) =~= nc@);
                }
            }
        }
        if starts {
            count = count + 1;
        }
        if is_exact {
            exact = true;
        }
        i += 1;
    }
    assert(exact == ns.contains(name@));
    if exact {
        VerbNameMatch::Match
    } else if count == 0 {
        VerbNameMatch::NoMatch
    } else if count == 1 {
        VerbNameMatch::Match
    } else {
        VerbNameMatch::Ambiguous
    }
}

/// The mathematical value of a program error.
pub enum ProgramErrorView {
    UnknownVerb { name: Seq<char> },
    AmbiguousVerbName { name: Seq<char> },
}

pub open spec fn program_error_view(e: ProgramError) -> ProgramErrorView {
    match e {
        ProgramError::UnknownVerb { name } => ProgramErrorView::UnknownVerb { name: name@ },
        ProgramError::AmbiguousVerbName { name } => ProgramErrorView::AmbiguousVerbName { name: name@ },
    }
}

/// The commands of the first `n` inputs: for each input, the command
/// editing its pattern if there's one, then the command invoking its verb
/// if there's one; the first verb which isn't known, or whose name is
/// ambiguous, makes an error.
pub open spec fn sequence_commands(
    inputs: Seq<Seq<char>>,
    names: Seq<Seq<char>>,
    n: int,
) -> Result<Seq<(Seq<char>, CommandView)>, ProgramErrorView>
    decreases n,
{
    if n <= 0 {
        Ok(Seq::empty())
    } else {
        match sequence_commands(inputs, names, n - 1) {
            Err(e) => Err(e),
            Ok(cmds) => {
                let input = inputs[n - 1];
                let cp = parse_command_parts(input);
                let with_pattern = if cp.raw_pattern.len() > 0 {
                    cmds.push((input, command_from_parts(cp.raw_pattern, cp.tree, None, false)))
                } else {
                    cmds
                };
                match cp.verb_invocation {
                    None => Ok(with_pattern),
                    Some(vi) => match verb_name_match(names, vi.name) {
                        VerbNameMatch::NoMatch => Err(ProgramErrorView::UnknownVerb { name: vi.name }),
                        VerbNameMatch::Ambiguous => Err(ProgramErrorView::AmbiguousVerbName { name: vi.name }),
                        VerbNameMatch::Match => Ok(with_pattern.push((
                            input,
                            command_from_parts(Seq::empty(), empty_tree_state(), Some(vi), true),
                        ))),
                    },
                }
            },
        }
    }
}

/// Once an input made an error, the following ones don't change it.
proof fn lemma_error_stays(inputs: Seq<Seq<char>>, names: Seq<Seq<char>>, n: int, m: int)
    requires
        n <= m,
        sequence_commands(inputs, names, n) is Err,
    ensures
        sequence_commands(inputs, names, m) == sequence_commands(inputs, names, n),
    decreases m - n,
{
    if n < m {
        lemma_error_stays(inputs, names, n, m - 1);
    }
}

/// The views of a list of (input, command).
pub open spec fn commands_view(v: Seq<(String, Command)>) -> Seq<(Seq<char>, CommandView)> {
    Seq::new(v.len(), |i: int| (v[i].0@, v[i].1@))
}

/// parse a string which is meant as a sequence of commands, separated
/// by `separator`.
///
/// An input may be made of two parts: a search pattern, and a verb
/// followed by its arguments. A command is built for each part, so
/// that the search is done before the verb invocation.
/// Verbs are verified against the names of the known verbs, to ensure
/// the command sequence has no unexpected holes.
pub fn parse_command_sequence(
    sequence: &str,
    separator: &str,
    verb_names: &Vec<String>,
) -> (res: Result<Vec<(String, Command)>, ProgramError>)
    requires
        separator@.len() > 0,
    ensures
        match res {
            Ok(cmds) => sequence_commands(
                split_by(sequence@, separator@),
                Seq::new(verb_names@.len(), |i: int| verb_names@[i]@),
                split_by(sequence@, separator@).len() as int,
            ) == Ok::<Seq<(Seq<char>, CommandView)>, ProgramErrorView>(commands_view(cmds@)),
            Err(e) => sequence_commands(
                split_by(sequence@, separator@),
                Seq::new(verb_names@.len(), |i: int| verb_names@[i]@),
                split_by(sequence@, separator@).len() as int,
            ) == Err::<Seq<(Seq<char>, CommandView)>, ProgramErrorView>(program_error_view(e)),
        },
{
    let inputs = split_on(sequence, separator);
    let ghost ins = split_by(sequence@, separator@);
    assert(inputs@.len() == strings_view(inputs@).len());
    let ghost names = Seq::new(verb_names@.len(), |i: int| verb_names@[i]@);
    let mut commands: Vec<(String, Command)> = Vec::new();
    assert(commands_view(commands@) =~= Seq::empty());
    let mut i: usize = 0;
    while i < inputs.len()
        invariant
            ins == split_by(sequence@, separator@),
            names == Seq::new(verb_names@.len(), |i: int| verb_names@[i]@),
            inputs@.len() == ins.len(),
            strings_view(inputs@) == ins,
            i <= inputs@.len(),
            sequence_commands(ins, names, i as int) == Ok::<Seq<(Seq<char>, CommandView)>, ProgramErrorView>(commands_view(commands@)),
        decreases inputs@.len() - i,
    {
        let input = &inputs[i];
        assert(input@ == strings_view(inputs@)[i as int]);
        let raw_parts = CommandParts::from(input.as_str());
        let ghost cp = raw_parts@;
        let (pattern, verb_invocation) = raw_parts.split();
        let ghost before = commands_view(commands@);
        if let Some(pattern) = pattern {
            let cmd = Command::from_parts(pattern, false);
            commands.push((input.clone(), cmd));
            assert(commands_view(commands@) =~= before.push((input@, command_from_parts(cp.raw_pattern, cp.tree, None, false))));
        } else {
            assert(commands_view(commands@) =~= before);
        }
        let ghost with_pattern = commands_view(commands@);
        if let Some(verb_invocation) = verb_invocation {
            let vi = verb_invocation.verb_invocation.as_ref().unwrap();
            let name = vi.name.clone();
            match search_verb_name(verb_names, name.as_str()) {
                VerbNameMatch::NoMatch => {
                    proof {
                        lemma_error_stays(ins, names, i + 1, ins.len() as int);
                    }
                    return Err(ProgramError::UnknownVerb { name });
                }
                VerbNameMatch::Ambiguous => {
                    proof {
                        lemma_error_stays(ins, names, i + 1, ins.len() as int);
                    }
                    return Err(ProgramError::AmbiguousVerbName { name });
                }
                VerbNameMatch::Match => {}
            }
            let command = Command::from_parts(verb_invocation, true);
            commands.push((input.clone(), command));
            assert(commands_view(commands@) =~= with_pattern.push((input@, command.view())));
        }
        i += 1;
    }
    Ok(commands)
}

} // verus!
