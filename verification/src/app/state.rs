//! Helpers shared by the states of the panels.

use vstd::prelude::*;
use crate::app::app_context::AppContext;
use crate::app::mode::Mode;
use crate::app::panel_reference::digits_value;
use crate::command::internal::InternalExecution;
use crate::command::verb_invocation::{VerbInvocation, opt_string_view};
use crate::text::chars_of;

verus! {

/// Whether all the chars are ASCII digits, and there's at least one.
pub open spec fn is_ascii_number(s: Seq<char>) -> bool {
    s.len() > 0 && forall|i: int| 0 <= i < s.len() ==> '0' <= #[trigger] s[i] <= '9'
}

/// The integer written in decimal, with an optional sign (as `i32::from_str`
/// reads it), whatever its size.
pub open spec fn parsed_int(s: Seq<char>) -> Option<int> {
    if s.len() > 0 && s[0] == '-' && is_ascii_number(s.drop_first()) {
        Some(-(digits_value(s.drop_first()) as int))
    } else if s.len() > 0 && s[0] == '+' && is_ascii_number(s.drop_first()) {
        Some(digits_value(s.drop_first()) as int)
    } else if is_ascii_number(s) {
        Some(digits_value(s) as int)
    } else {
        None
    }
}

/// The `i32` written in decimal, with an optional sign, as `i32::from_str`
/// reads it: `None` when it isn't such a writing or the value doesn't fit.
pub open spec fn parsed_i32(s: Seq<char>) -> Option<i32> {
    match parsed_int(s) {
        Some(v) => if i32::MIN <= v <= i32::MAX { Some(v as i32) } else { None },
        None => None,
    }
}

proof fn lemma_digits_value_grows(s: Seq<char>, k: int)
    requires
        0 <= k <= s.len(),
        forall|i: int| 0 <= i < s.len() ==> '0' <= #[trigger] s[i] <= '9',
    ensures
        digits_value(s.take(k)) <= digits_value(s),
    decreases s.len(),
{
    if k < s.len() {
        assert(s.drop_last().take(k) =~= s.take(k));
        lemma_digits_value_grows(s.drop_last(), k);
    } else {
        assert(s.take(k) =~= s);
    }
}

/// The `i32` written in decimal in the string, with an optional sign.
pub fn parse_i32(s: &str) -> (res: Option<i32>)
    ensures
        res == parsed_i32(s@),
{
    let chars = chars_of(s);
    let n = chars.len();
    let mut start: usize = 0;
    let mut neg = false;
    if n > 0 && chars[0] == '-' {
        neg = true;
        start = 1;
    } else if n > 0 && chars[0] == '+' {
        start = 1;
    }
    let ghost digits = chars@.subrange(start as int, n as int);
    assert(start == 1 ==> digits =~= s@.drop_first());
    assert(start == 0 ==> digits =~= s@);
    assert(start == 1 ==> !is_ascii_number(s@) && !('0' <= s@[0] <= '9'));
    if start == n {
        assert(!is_ascii_number(digits));
        return None;
    }
    let mut acc: u64 = 0;
    let mut i: usize = start;
    while i < n
        invariant
            chars@ == s@,
            n == chars@.len(),
            start <= i <= n,
            start <= 1,
            digits == chars@.subrange(start as int, n as int),
            forall|k: int| start <= k < i ==> '0' <= #[trigger] chars@[k] <= '9',
            start == 1 ==> !is_ascii_number(s@),
            start == 1 ==> (neg <==> s@[0] == '-') && (s@[0] == '-' || s@[0] == '+'),
            start == 0 ==> !neg,
            start == 0 ==> digits == s@ && s@[0] != '-' && s@[0] != '+',
            start == 1 ==> digits == s@.drop_first(),
            acc == digits_value(chars@.subrange(start as int, i as int)),
            acc <= 2147483648,
        decreases n - i,
    {
        let c = chars[i];
        if !('0' <= c && c <= '9') {
            assert(digits[i - start] == c);
            assert(!is_ascii_number(digits));
            if start == 0 {
                assert(!is_ascii_number(s@));
                assert(s@[0] != '-');
                assert(s@[0] != '+');
            } else {
                assert(s@.drop_first()[i - 1] == c);
                assert(!is_ascii_number(s@.drop_first()));
                assert(!is_ascii_number(s@));
            }
            assert(parsed_int(s@) is None);
            assert(parsed_i32(s@) is None);
            return None;
        }
        let d = (c as u32 - 48) as u64;
        assert(chars@.subrange(start as int, i + 1).drop_last() =~= chars@.subrange(start as int, i as int));
        acc = acc * 10 + d;
        i += 1;
        if acc > 2147483648 {
            proof {
                if is_ascii_number(digits) {
                    assert(digits.take(i - start) =~= chars@.subrange(start as int, i as int));
                    lemma_digits_value_grows(digits, i - start);
                    assert(digits_value(digits) > 2147483648);
                    if start == 1 {
                        assert(is_ascii_number(s@.drop_first()));
                    } else {
                        assert(is_ascii_number(s@));
                    }
                } else if start == 1 {
                    assert(!is_ascii_number(s@.drop_first()));
                } else {
                    assert(!is_ascii_number(s@));
                }
                assert(parsed_i32(s@) is None);
            }
            return None;
        }
    }
    assert(chars@.subrange(start as int, i as int) =~= digits);
    if neg {
        Some((-(acc as i64)) as i32)
    } else if acc <= 2147483647 {
        Some(acc as i32)
    } else {
        None
    }
}

/// The argument given to an internal: the one of the invocation when it
/// has one, else the one of the internal execution.
pub open spec fn arg_of(invocation_args: Option<Seq<char>>, exec_arg: Option<Seq<char>>) -> Option<Seq<char>> {
    match invocation_args {
        Some(a) => Some(a),
        None => exec_arg,
    }
}

/// The numeric argument given to an internal, or the default when there's
/// none or it isn't an `i32`.
pub open spec fn numeric_arg(invocation_args: Option<Seq<char>>, exec_arg: Option<Seq<char>>, default: i32) -> i32 {
    match arg_of(invocation_args, exec_arg) {
        Some(a) => match parsed_i32(a) {
            Some(v) => v,
            None => default,
        },
        None => default,
    }
}

/// The arguments of an optional invocation.
pub open spec fn invocation_args(verb_invocation: Option<&VerbInvocation>) -> Option<Seq<char>> {
    match verb_invocation {
        Some(vi) => opt_string_view(vi.args),
        None => None,
    }
}

/// The numeric argument of an internal (a count of lines, for example):
/// the one typed in the invocation, else the one of the verb
/// configuration, else the default.
pub fn get_arg(
    verb_invocation: Option<&VerbInvocation>,
    internal_exec: &InternalExecution,
    default: i32,
) -> (v: i32)
    ensures
        v == numeric_arg(invocation_args(verb_invocation), opt_string_view(internal_exec.arg), default),
{
    let arg: Option<&String> = match verb_invocation {
        Some(vi) => match &vi.args {
            Some(a) => Some(a),
            None => None,
        },
        None => None,
    };
    let arg = match arg {
        Some(a) => Some(a),
        None => match &internal_exec.arg {
            Some(a) => Some(a),
            None => None,
        },
    };
    match arg {
        Some(a) => match parse_i32(a.as_str()) {
            Some(v) => v,
            None => default,
        },
        None => default,
    }
}

/// The mode a state starts in: `Command` when the application is modal.
pub fn initial_mode(con: &AppContext) -> (mode: Mode)
    ensures
        mode == if con.modal { Mode::Command } else { Mode::Input },
{
    if con.modal {
        Mode::Command
    } else {
        Mode::Input
    }
}

} // verus!
