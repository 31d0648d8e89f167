//! The answer of the user when asked for an authorization.

use vstd::prelude::*;
use crate::text::{chars_of, is_white_space, is_whitespace, str_eq, string_of_range};

verus! {

/// The sequence without its leading and trailing white spaces (as
/// `str::trim`).
pub open spec fn trim(s: Seq<char>) -> Seq<char>
    decreases s.len(),
{
    if s.len() > 0 && is_white_space(s[0]) {
        trim(s.drop_first())
    } else if s.len() > 0 && is_white_space(s.last()) {
        trim(s.drop_last())
    } else {
        s
    }
}

/// The answer without its leading and trailing white spaces.
fn trimmed(s: &str) -> (res: String)
    ensures
        res@ == trim(s@),
{
    let chars = chars_of(s);
    let n = chars.len();
    let mut start: usize = 0;
    assert(chars@.subrange(0, n as int) =~= chars@);
    while start < n && is_whitespace(chars[start])
        invariant
            start <= n,
            n == chars@.len(),
            chars@ == s@,
            trim(s@) == trim(chars@.subrange(start as int, n as int)),
        decreases n - start,
    {
        assert(chars@.subrange(start as int, n as int).drop_first() =~= chars@.subrange(start + 1, n as int));
        start += 1;
    }
    let mut end: usize = n;
    while end > start && is_whitespace(chars[end - 1])
        invariant
            start <= end <= n,
            n == chars@.len(),
            chars@ == s@,
            start < n ==> !is_white_space(chars@[start as int]),
            trim(s@) == trim(chars@.subrange(start as int, end as int)),
        decreases end - start,
    {
        let ghost x = chars@.subrange(start as int, end as int);
        assert(x[0] == chars@[start as int]);
        assert(x.drop_last() =~= chars@.subrange(start as int, end - 1));
        end -= 1;
    }
    proof {
        let x = chars@.subrange(start as int, end as int);
        if x.len() > 0 {
            assert(x[0] == chars@[start as int]);
            assert(x.last() == chars@[end - 1]);
        }
    }
    string_of_range(&chars, start, end)
}

/// Whether the answer (a line typed by the user) authorizes: anything but
/// `n` or `N`, once trimmed.
pub fn is_authorization(answer: &str) -> (res: bool)
    ensures
        res == (trim(answer@) != "n"@ && trim(answer@) != "N"@),
{
    let answer = trimmed(answer);
    !(str_eq(answer.as_str(), "n") || str_eq(answer.as_str(), "N"))
}

} // verus!
