//! The invocation of a verb, as typed after the pattern in the input.

use vstd::prelude::*;
use crate::text::{chars_of, string_push};

verus! {

/// The verb and its arguments, making the invocation.
///
/// `args` is `Some` as soon as there's a space after the name, even when
/// nothing follows (it's `Some("")` in `"cp "`).
#[derive(Debug, Clone, PartialEq, Eq)]
pub struct VerbInvocation {
    pub name: String,
    pub args: Option<String>,
    pub bang: bool,
}

/// The mathematical value of a verb invocation.
pub struct VerbInvocationView {
    pub name: Seq<char>,
    pub args: Option<Seq<char>>,
    pub bang: bool,
}

/// The view of optional arguments.
pub open spec fn opt_string_view(o: Option<String>) -> Option<Seq<char>> {
    match o {
        Some(s) => Some(s@),
        None => None,
    }
}

impl View for VerbInvocation {
    type V = VerbInvocationView;

    open spec fn view(&self) -> VerbInvocationView {
        VerbInvocationView {
            name: self.name@,
            args: opt_string_view(self.args),
            bang: self.bang,
        }
    }
}

/// The invocation with nothing read yet.
pub open spec fn empty_invocation() -> VerbInvocationView {
    VerbInvocationView { name: Seq::empty(), args: None, bang: false }
}

/// Reading one more char of an invocation: once a space was read, every
/// char goes to the arguments; the first space starts the arguments; the
/// first `!` before the arguments is the bang; other chars make the name.
pub open spec fn invocation_step(vi: VerbInvocationView, c: char) -> VerbInvocationView {
    match vi.args {
        Some(a) => VerbInvocationView { args: Some(a.push(c)), ..vi },
        None => if c == ' ' {
            VerbInvocationView { args: Some(Seq::empty()), ..vi }
        } else if c == '!' && !vi.bang {
            VerbInvocationView { bang: true, ..vi }
        } else {
            VerbInvocationView { name: vi.name.push(c), ..vi }
        },
    }
}

/// The invocation made of the first `n` chars of `s`.
pub open spec fn invocation_prefix(s: Seq<char>, n: int) -> VerbInvocationView
    decreases n,
{
    if n <= 0 {
        empty_invocation()
    } else {
        invocation_step(invocation_prefix(s, n - 1), s[n - 1])
    }
}

/// The invocation described by a string.
pub open spec fn parse_invocation(s: Seq<char>) -> VerbInvocationView {
    invocation_prefix(s, s.len() as int)
}

/// The text of an invocation as it would be typed: a `:`, the bang if any,
/// the name, then a space and the arguments if any.
pub open spec fn invocation_text(vi: VerbInvocationView) -> Seq<char> {
    seq![':'] + (if vi.bang { seq!['!'] } else { Seq::empty() }) + vi.name + match vi.args {
        Some(a) => seq![' '] + a,
        None => Seq::empty(),
    }
}

impl VerbInvocation {
    /// Parse a string being the invocation of a verb, with its arguments
    /// and optional bang. The leading space or colon must have been
    /// stripped before.
    pub fn from(invocation: &str) -> (vi: VerbInvocation)
        ensures
            vi@ == parse_invocation(invocation@),
    {
        let chars = chars_of(invocation);
        let mut name = String::new();
        let mut args: Option<String> = None;
        let mut bang = false;
        let mut i: usize = 0;
        while i < chars.len()
            invariant
                i <= chars@.len(),
                chars@ == invocation@,
                (VerbInvocationView { name: name@, args: opt_string_view(args), bang })
                    == invocation_prefix(chars@, i as int),
            decreases chars@.len() - i,
        {
            let c = chars[i];
            match args {
                Some(mut a) => {
                    string_push(&mut a, c);
                    args = Some(a);
                }
                None => {
                    if c == ' ' {
                        args = Some(String::new());
                    } else if c == '!' && !bang {
                        bang = true;
                    } else {
                        string_push(&mut name, c);
                    }
                }
            }
            i += 1;
        }
        VerbInvocation { name, args, bang }
    }

    /// An invocation is empty when it has no name
    pub fn is_empty(&self) -> (res: bool)
        ensures
            res == (self.name@.len() == 0),
    {
        self.name.as_str().is_empty()
    }

    /// The invocation as it would be typed, starting with a `:`
    pub fn to_text(&self) -> (s: String)
        ensures
            s@ == invocation_text(self@),
    {
        let mut s = String::new();
        string_push(&mut s, ':');
        if self.bang {
            string_push(&mut s, '!');
        }
        let name = chars_of(self.name.as_str());
        let mut i: usize = 0;
        while i < name.len()
            invariant
                i <= name@.len(),
                name@ == self.name@,
                s@ == seq![':'] + (if self.bang { seq!['!'] } else { Seq::<char>::empty() })
                    + name@.take(i as int),
            decreases name@.len() - i,
        {
            string_push(&mut s, name[i]);
            i += 1;
            assert(name@.take(i as int) =~= name@.take(i - 1).push(name@[i - 1]));
        }
        assert(name@.take(i as int) =~= name@);
        if let Some(args) = &self.args {
            string_push(&mut s, ' ');
            let a = chars_of(args.as_str());
            let ghost before = s@;
            let mut j: usize = 0;
            while j < a.len()
                invariant
                    j <= a@.len(),
                    a@ == args@,
                    s@ == before + a@.take(j as int),
                decreases a@.len() - j,
            {
                string_push(&mut s, a[j]);
                j += 1;
                assert(a@.take(j as int) =~= a@.take(j - 1).push(a@[j - 1]));
            }
            assert(a@.take(j as int) =~= a@);
        }
        assert(s@ =~= invocation_text(self@));
        s
    }
}

} // verus!
