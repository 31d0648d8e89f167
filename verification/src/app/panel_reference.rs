//! Symbolic references to panels, as written in the configuration.

use vstd::prelude::*;
use crate::app::panel_id::PanelId;
use crate::errors::ConfError;
use crate::text::{chars_of, string_push, string_of};

verus! {

/// the symbolic reference to the panel to close
#[derive(Debug, Clone, Copy, PartialEq, Eq, Structural)]
pub enum PanelReference {
    Active,
    Leftest,
    Rightest,
    Id(PanelId),
    Idx(usize),
    Preview,
}

/// The ASCII digit of a number below 10.
pub open spec fn digit_char(d: nat) -> char {
    (48 + d) as char
}

/// The decimal writing of a number, without leading zero.
pub open spec fn decimal(n: nat) -> Seq<char>
    decreases n,
{
    if n < 10 {
        seq![digit_char(n)]
    } else {
        decimal(n / 10).push(digit_char(n % 10))
    }
}

/// Whether the char is an ASCII digit.
pub open spec fn is_ascii_digit(c: char) -> bool {
    '0' <= c <= '9'
}

/// The value of a sequence of ASCII digits.
pub open spec fn digits_value(s: Seq<char>) -> nat
    decreases s.len(),
{
    if s.len() == 0 {
        0
    } else {
        digits_value(s.drop_last()) * 10 + ((s.last() as u32) - 48) as nat
    }
}

/// Whether the char is a decimal digit of any script (Unicode general
/// category Nd, as of Unicode 14): each such script has ten digits with
/// consecutive code points, starting at the ones listed here.
pub open spec fn is_unicode_decimal_digit(c: char) -> bool {
    let u = c as u32;
        (0x30 <= u < 0x30 + 10) || (0x660 <= u < 0x660 + 10) || (0x6f0 <= u < 0x6f0 + 10) || (0x7c0 <= u < 0x7c0 + 10) || (0x966 <= u < 0x966 + 10) || (0x9e6 <= u < 0x9e6 + 10) ||
        (0xa66 <= u < 0xa66 + 10) || (0xae6 <= u < 0xae6 + 10) || (0xb66 <= u < 0xb66 + 10) || (0xbe6 <= u < 0xbe6 + 10) || (0xc66 <= u < 0xc66 + 10) || (0xce6 <= u < 0xce6 + 10) ||
        (0xd66 <= u < 0xd66 + 10) || (0xde6 <= u < 0xde6 + 10) || (0xe50 <= u < 0xe50 + 10) || (0xed0 <= u < 0xed0 + 10) || (0xf20 <= u < 0xf20 + 10) || (0x1040 <= u < 0x1040 + 10) ||
        (0x1090 <= u < 0x1090 + 10) || (0x17e0 <= u < 0x17e0 + 10) || (0x1810 <= u < 0x1810 + 10) || (0x1946 <= u < 0x1946 + 10) || (0x19d0 <= u < 0x19d0 + 10) || (0x1a80 <= u < 0x1a80 + 10) ||
        (0x1a90 <= u < 0x1a90 + 10) || (0x1b50 <= u < 0x1b50 + 10) || (0x1bb0 <= u < 0x1bb0 + 10) || (0x1c40 <= u < 0x1c40 + 10) || (0x1c50 <= u < 0x1c50 + 10) || (0xa620 <= u < 0xa620 + 10) ||
        (0xa8d0 <= u < 0xa8d0 + 10) || (0xa900 <= u < 0xa900 + 10) || (0xa9d0 <= u < 0xa9d0 + 10) || (0xa9f0 <= u < 0xa9f0 + 10) || (0xaa50 <= u < 0xaa50 + 10) || (0xabf0 <= u < 0xabf0 + 10) ||
        (0xff10 <= u < 0xff10 + 10) || (0x104a0 <= u < 0x104a0 + 10) || (0x10d30 <= u < 0x10d30 + 10) || (0x11066 <= u < 0x11066 + 10) || (0x110f0 <= u < 0x110f0 + 10) || (0x11136 <= u < 0x11136 + 10) ||
        (0x111d0 <= u < 0x111d0 + 10) || (0x112f0 <= u < 0x112f0 + 10) || (0x11450 <= u < 0x11450 + 10) || (0x114d0 <= u < 0x114d0 + 10) || (0x11650 <= u < 0x11650 + 10) || (0x116c0 <= u < 0x116c0 + 10) ||
        (0x11730 <= u < 0x11730 + 10) || (0x118e0 <= u < 0x118e0 + 10) || (0x11950 <= u < 0x11950 + 10) || (0x11c50 <= u < 0x11c50 + 10) || (0x11d50 <= u < 0x11d50 + 10) || (0x11da0 <= u < 0x11da0 + 10) ||
        (0x16a60 <= u < 0x16a60 + 10) || (0x16ac0 <= u < 0x16ac0 + 10) || (0x16b50 <= u < 0x16b50 + 10) || (0x1d7ce <= u < 0x1d7ce + 10) || (0x1d7d8 <= u < 0x1d7d8 + 10) || (0x1d7e2 <= u < 0x1d7e2 + 10) ||
        (0x1d7ec <= u < 0x1d7ec + 10) || (0x1d7f6 <= u < 0x1d7f6 + 10) || (0x1e140 <= u < 0x1e140 + 10) || (0x1e2f0 <= u < 0x1e2f0 + 10) || (0x1e950 <= u < 0x1e950 + 10) || (0x1fbf0 <= u < 0x1fbf0 + 10)
}

/// Whether `c` matches the lowercase ASCII char `w` when case is ignored
/// (Unicode simple case folding: the long s `ſ` matches `s`).
pub open spec fn ci_char_eq(c: char, w: char) -> bool {
    c == w || ('a' <= w <= 'z' && c as u32 == w as u32 - 32) || (w == 's' && c == 'ſ')
}

/// Whether `s` is the word `w` (made of lowercase ASCII chars) when case is
/// ignored.
pub open spec fn ci_matches(s: Seq<char>, w: Seq<char>) -> bool {
    s.len() == w.len() && forall|i: int| 0 <= i < s.len() ==> ci_char_eq(#[trigger] s[i], w[i])
}

pub open spec fn word_active() -> Seq<char> { seq!['a', 'c', 't', 'i', 'v', 'e'] }
pub open spec fn word_left() -> Seq<char> { seq!['l', 'e', 'f', 't'] }
pub open spec fn word_leftest() -> Seq<char> { seq!['l', 'e', 'f', 't', 'e', 's', 't'] }
pub open spec fn word_right() -> Seq<char> { seq!['r', 'i', 'g', 'h', 't'] }
pub open spec fn word_rightest() -> Seq<char> { seq!['r', 'i', 'g', 'h', 't', 'e', 's', 't'] }
pub open spec fn word_preview() -> Seq<char> { seq!['p', 'r', 'e', 'v', 'i', 'e', 'w'] }
pub open spec fn word_id() -> Seq<char> { seq!['i', 'd', ':'] }
pub open spec fn word_idx() -> Seq<char> { seq!['i', 'd', 'x', ':'] }

/// Whether `s` is `prefix` (ignoring case) followed by one or two chars
/// all satisfying `digit`.
pub open spec fn is_prefixed_number(s: Seq<char>, prefix: Seq<char>, digit: spec_fn(char) -> bool) -> bool {
    &&& prefix.len() + 1 <= s.len() <= prefix.len() + 2
    &&& ci_matches(s.take(prefix.len() as int), prefix)
    &&& forall|i: int| prefix.len() <= i < s.len() ==> digit(#[trigger] s[i])
}

/// The reference described by a string (case being ignored): `active`,
/// `left` or `leftest`, `right` or `rightest`, `preview`, `id:` or `idx:`
/// followed by one or two digits. `None` for any other string.
pub open spec fn parse_panel_reference(s: Seq<char>) -> Option<PanelReference> {
    if ci_matches(s, word_active()) {
        Some(PanelReference::Active)
    } else if ci_matches(s, word_left()) || ci_matches(s, word_leftest()) {
        Some(PanelReference::Leftest)
    } else if ci_matches(s, word_right()) || ci_matches(s, word_rightest()) {
        Some(PanelReference::Rightest)
    } else if ci_matches(s, word_preview()) {
        Some(PanelReference::Preview)
    } else if is_prefixed_number(s, word_id(), |c: char| is_ascii_digit(c)) {
        Some(PanelReference::Id(PanelId(digits_value(s.skip(3)) as usize)))
    } else if is_prefixed_number(s, word_idx(), |c: char| is_ascii_digit(c)) {
        Some(PanelReference::Idx(digits_value(s.skip(4)) as usize))
    } else {
        None
    }
}

/// The strings on which reading a reference fails on a digit which isn't
/// an ASCII one: `id:` or `idx:` followed by one or two decimal digits of
/// any script, not all of them ASCII.
pub open spec fn has_foreign_digits(s: Seq<char>) -> bool {
    ||| is_prefixed_number(s, word_id(), |c: char| is_unicode_decimal_digit(c))
        && !is_prefixed_number(s, word_id(), |c: char| is_ascii_digit(c))
    ||| is_prefixed_number(s, word_idx(), |c: char| is_unicode_decimal_digit(c))
        && !is_prefixed_number(s, word_idx(), |c: char| is_ascii_digit(c))
}

/// The text of a reference: `active`, `leftest`, `rightest`, `id:` or
/// `idx:` followed by the number, `preview`.
pub open spec fn panel_reference_text(r: PanelReference) -> Seq<char> {
    match r {
        PanelReference::Active => word_active(),
        PanelReference::Leftest => word_leftest(),
        PanelReference::Rightest => word_rightest(),
        PanelReference::Id(id) => word_id() + decimal(id.0 as nat),
        PanelReference::Idx(idx) => word_idx() + decimal(idx as nat),
        PanelReference::Preview => word_preview(),
    }
}

fn ci_char_eq_exec(c: char, w: char) -> (res: bool)
    requires
        'a' <= w <= 'z' || w == ':',
    ensures
        res == ci_char_eq(c, w),
{
    c == w || ('a' <= w && w <= 'z' && (c as u32) == (w as u32) - 32) || (w == 's' && c == 'ſ')
}

/// Whether the chars of `s` from `start` to `start + w.len()` are `w`,
/// ignoring case.
fn ci_matches_at(s: &Vec<char>, start: usize, w: &[char]) -> (res: bool)
    requires
        start + w@.len() <= s@.len(),
        forall|i: int| 0 <= i < w@.len() ==> ('a' <= #[trigger] w@[i] <= 'z' || w@[i] == ':'),
    ensures
        res == ci_matches(s@.subrange(start as int, start + w@.len()), w@),
{
    let n = s.len();
    let mut i: usize = 0;
    while i < w.len()
        invariant
            n == s@.len(),
            i <= w@.len(),
            start + w@.len() <= s@.len(),
            forall|j: int| 0 <= j < w@.len() ==> ('a' <= #[trigger] w@[j] <= 'z' || w@[j] == ':'),
            forall|j: int| 0 <= j < i ==> ci_char_eq(#[trigger] s@[start + j], w@[j]),
        decreases w@.len() - i,
    {
        assert(start + i < n);
        let k: usize = start + i;
        if !ci_char_eq_exec(s[k], w[i]) {
            assert(!ci_char_eq(s@.subrange(start as int, start + w@.len())[i as int], w@[i as int]));
            return false;
        }
        i += 1;
    }
    assert forall|j: int| 0 <= j < w@.len() implies ci_char_eq(
        #[trigger] s@.subrange(start as int, start + w@.len())[j], w@[j]) by {
        assert(s@.subrange(start as int, start + w@.len())[j] == s@[start + j]);
    }
    true
}

/// Whether the whole `s` is `w`, ignoring case.
fn ci_matches_all(s: &Vec<char>, w: &[char]) -> (res: bool)
    requires
        forall|i: int| 0 <= i < w@.len() ==> ('a' <= #[trigger] w@[i] <= 'z' || w@[i] == ':'),
    ensures
        res == ci_matches(s@, w@),
{
    if s.len() != w.len() {
        return false;
    }
    let r = ci_matches_at(s, 0, w);
    assert(s@.subrange(0, w@.len() as int) =~= s@);
    r
}

/// Reads `prefix` then one or two ASCII digits, giving their value.
fn read_prefixed_number(s: &Vec<char>, prefix: &[char]) -> (res: Option<usize>)
    requires
        forall|i: int| 0 <= i < prefix@.len() ==> ('a' <= #[trigger] prefix@[i] <= 'z' || prefix@[i] == ':'),
        prefix@.len() < 10,
    ensures
        res is Some <==> is_prefixed_number(s@, prefix@, |c: char| is_ascii_digit(c)),
        res matches Some(v) ==> v == digits_value(s@.skip(prefix@.len() as int)),
{
    let p = prefix.len();
    if s.len() < p + 1 || s.len() > p + 2 {
        return None;
    }
    if !ci_matches_at(s, 0, prefix) {
        assert(s@.subrange(0, p as int) =~= s@.take(p as int));
        return None;
    }
    assert(s@.subrange(0, p as int) =~= s@.take(p as int));
    let mut value: usize = 0;
    let mut i: usize = p;
    while i < s.len()
        invariant
            p == prefix@.len(),
            p < 10,
            p + 1 <= s@.len() <= p + 2,
            p <= i <= s@.len(),
            forall|j: int| p <= j < i ==> is_ascii_digit(#[trigger] s@[j]),
            value == digits_value(s@.subrange(p as int, i as int)),
            value < 100,
            i <= p + 1 ==> value < 10,
        decreases s@.len() - i,
    {
        let c = s[i];
        if !('0' <= c && c <= '9') {
            assert(!(|c: char| is_ascii_digit(c))(s@[i as int]));
            return None;
        }
        let d = (c as u32 - 48) as usize;
        assert(s@.subrange(p as int, i + 1).drop_last() =~= s@.subrange(p as int, i as int));
        value = value * 10 + d;
        i += 1;
    }
    assert(s@.subrange(p as int, s@.len() as int) =~= s@.skip(p as int));
    Some(value)
}

impl PanelReference {
    /// the reference used when none is given
    pub fn default() -> (r: PanelReference)
        ensures
            r == PanelReference::Active,
    {
        PanelReference::Active
    }

    /// whether this reference is the default one
    pub fn is_default(&self) -> (res: bool)
        ensures
            res == (*self == PanelReference::Active),
    {
        matches!(self, PanelReference::Active)
    }

    /// Read a reference from its textual form (case is ignored)
    pub fn from_str(s: &str) -> (res: Result<PanelReference, ConfError>)
        requires
            !has_foreign_digits(s@),
        ensures
            match res {
                Ok(r) => parse_panel_reference(s@) == Some(r),
                Err(e) => parse_panel_reference(s@) is None
                    && (e matches ConfError::InvalidPanelReference { raw } && raw@ == s@),
            },
    {
        let chars = chars_of(s);
        let active = ['a', 'c', 't', 'i', 'v', 'e'];
        let left = ['l', 'e', 'f', 't'];
        let leftest = ['l', 'e', 'f', 't', 'e', 's', 't'];
        let right = ['r', 'i', 'g', 'h', 't'];
        let rightest = ['r', 'i', 'g', 'h', 't', 'e', 's', 't'];
        let preview = ['p', 'r', 'e', 'v', 'i', 'e', 'w'];
        let id = ['i', 'd', ':'];
        let idx = ['i', 'd', 'x', ':'];
        assert(active@ == word_active());
        assert(left@ == word_left());
        assert(leftest@ == word_leftest());
        assert(right@ == word_right());
        assert(rightest@ == word_rightest());
        assert(preview@ == word_preview());
        assert(id@ == word_id());
        assert(idx@ == word_idx());
        if ci_matches_all(&chars, &active) {
            Ok(PanelReference::Active)
        } else if ci_matches_all(&chars, &left) || ci_matches_all(&chars, &leftest) {
            Ok(PanelReference::Leftest)
        } else if ci_matches_all(&chars, &right) || ci_matches_all(&chars, &rightest) {
            Ok(PanelReference::Rightest)
        } else if ci_matches_all(&chars, &preview) {
            Ok(PanelReference::Preview)
        } else if let Some(v) = read_prefixed_number(&chars, &id) {
            Ok(PanelReference::Id(PanelId(v)))
        } else if let Some(v) = read_prefixed_number(&chars, &idx) {
            Ok(PanelReference::Idx(v))
        } else {
            Err(ConfError::InvalidPanelReference { raw: string_of(&chars) })
        }
    }

    /// The textual form of the reference, which `from_str` reads back
    pub fn to_text(&self) -> (s: String)
        ensures
            s@ == panel_reference_text(*self),
    {
        let mut chars: Vec<char> = match self {
            PanelReference::Active => vec!['a', 'c', 't', 'i', 'v', 'e'],
            PanelReference::Leftest => vec!['l', 'e', 'f', 't', 'e', 's', 't'],
            PanelReference::Rightest => vec!['r', 'i', 'g', 'h', 't', 'e', 's', 't'],
            PanelReference::Id(_) => vec!['i', 'd', ':'],
            PanelReference::Idx(_) => vec!['i', 'd', 'x', ':'],
            PanelReference::Preview => vec!['p', 'r', 'e', 'v', 'i', 'e', 'w'],
        };
        match self {
            PanelReference::Id(id) => push_decimal(&mut chars, id.0),
            PanelReference::Idx(idx) => push_decimal(&mut chars, *idx),
            _ => {},
        }
        assert(chars@ =~= panel_reference_text(*self));
        string_of(&chars)
    }
}

/// Appends the decimal writing of `n`.
pub fn push_decimal(chars: &mut Vec<char>, n: usize)
    ensures
        final(chars)@ == old(chars)@ + decimal(n as nat),
    decreases n,
{
    if n >= 10 {
        push_decimal(chars, n / 10);
    }
    let d = n % 10;
    chars.push(((48 + d) as u8) as char);
    assert(((48 + d) as u8) as char == digit_char(d as nat));
    assert(decimal(n as nat) == if n < 10 { seq![digit_char(n as nat)] } else {
        decimal((n / 10) as nat).push(digit_char((n % 10) as nat))
    });
}

/// The decimal writing of a number below 100 is one or two ASCII digits
/// whose value is the number.
proof fn lemma_small_decimal(n: nat)
    requires
        n < 100,
    ensures
        1 <= decimal(n).len() <= 2,
        forall|i: int| 0 <= i < decimal(n).len() ==> is_ascii_digit(#[trigger] decimal(n)[i]),
        forall|i: int| 0 <= i < decimal(n).len() ==> is_unicode_decimal_digit(#[trigger] decimal(n)[i]),
        digits_value(decimal(n)) == n,
{
    assert forall|k: nat| k < 10 implies (digit_char(k) as u32) == 48 + k by {}
    reveal_with_fuel(digits_value, 3);
    if n < 10 {
        let d = decimal(n);
        assert(d == seq![digit_char(n)]);
        assert(d.drop_last() =~= Seq::<char>::empty());
    } else {
        let hi = n / 10;
        let lo = n % 10;
        assert(decimal(hi) == seq![digit_char(hi)]);
        let d = decimal(n);
        assert(d == seq![digit_char(hi), digit_char(lo)]);
        assert(d.drop_last() =~= seq![digit_char(hi)]);
        assert(seq![digit_char(hi)].drop_last() =~= Seq::<char>::empty());
    }
}

proof fn lemma_ci_matches_refl(w: Seq<char>)
    ensures
        ci_matches(w, w),
{
}

/// Writing a reference then reading it back gives the same reference
/// (and reading it never fails on a digit), provided ids and indexes are
/// below 100: only one or two digits are read.
pub proof fn lemma_panel_reference_round_trip(r: PanelReference)
    requires
        r matches PanelReference::Id(id) ==> id.0 < 100,
        r matches PanelReference::Idx(i) ==> i < 100,
    ensures
        parse_panel_reference(panel_reference_text(r)) == Some(r),
        !has_foreign_digits(panel_reference_text(r)),
{
    let t = panel_reference_text(r);
    match r {
        PanelReference::Active => {
            lemma_ci_matches_refl(word_active());
        },
        PanelReference::Leftest => {
            lemma_ci_matches_refl(word_leftest());
        },
        PanelReference::Rightest => {
            lemma_ci_matches_refl(word_rightest());
        },
        PanelReference::Preview => {
            lemma_ci_matches_refl(word_preview());
            assert(!ci_char_eq(t[0], word_leftest()[0]));
        },
        PanelReference::Id(id) => {
            let n = id.0 as nat;
            lemma_small_decimal(n);
            assert(t[0] == 'i');
            assert(t[1] == 'd');
            assert(t[2] == ':');
            assert(!ci_char_eq(t[0], word_left()[0]));
            assert(!ci_char_eq(t[0], word_right()[0]));
            assert(!ci_char_eq(t[0], word_active()[0]));
            assert(t.take(3) =~= word_id());
            lemma_ci_matches_refl(word_id());
            assert(t.skip(3) =~= decimal(n));
            assert forall|i: int| 3 <= i < t.len() implies (|c: char| is_ascii_digit(c))(#[trigger] t[i]) by {
                assert(t[i] == decimal(n)[i - 3]);
            }
            assert(t.len() < 4 || !ci_char_eq(t.take(4)[2], word_idx()[2]));
        },
        PanelReference::Idx(idx) => {
            let n = idx as nat;
            lemma_small_decimal(n);
            assert(t[0] == 'i');
            assert(t[1] == 'd');
            assert(t[2] == 'x');
            assert(t[3] == ':');
            assert(!ci_char_eq(t[0], word_right()[0]));
            assert(!ci_char_eq(t[0], word_active()[0]));
            assert(!ci_char_eq(t.take(3)[2], word_id()[2]));
            assert(t.take(4) =~= word_idx());
            lemma_ci_matches_refl(word_idx());
            assert(t.skip(4) =~= decimal(n));
            assert forall|i: int| 4 <= i < t.len() implies (|c: char| is_ascii_digit(c))(#[trigger] t[i]) by {
                assert(t[i] == decimal(n)[i - 4]);
            }
        },
    }
}

} // verus!
