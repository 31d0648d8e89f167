//! Small string helpers over character sequences.

use vstd::prelude::*;

verus! {

/// Appends one char to a string.
///
/// Trusted: `String::push` appends the char at the end of the string, as
/// std documents it.
#[verifier::external_body]
pub(crate) fn string_push(s: &mut String, c: char)
    ensures
        final(s)@ == old(s)@.push(c),
{
    s.push(c);
}

/// The chars of a string, in order.
pub fn chars_of(s: &str) -> (res: Vec<char>)
    ensures
        res@ == s@,
{
    let mut res: Vec<char> = Vec::new();
    for c in it: s.chars()
        invariant
            res@ == it.seq().take(it.index() as int),
            it.seq() == s@,
    {
        res.push(c);
    }
    res
}

/// A string made of the given chars.
pub fn string_of(chars: &Vec<char>) -> (res: String)
    ensures
        res@ == chars@,
{
    let mut res = String::new();
    let mut i: usize = 0;
    while i < chars.len()
        invariant
            i <= chars.len(),
            res@ == chars@.take(i as int),
        decreases chars.len() - i,
    {
        string_push(&mut res, chars[i]);
        i += 1;
        assert(res@ =~= chars@.take(i as int));
    }
    assert(chars@.take(i as int) =~= chars@);
    res
}

/// A string made of the chars of `chars` from `start` (included) to `end`
/// (excluded).
pub fn string_of_range(chars: &Vec<char>, start: usize, end: usize) -> (res: String)
    requires
        start <= end <= chars@.len(),
    ensures
        res@ == chars@.subrange(start as int, end as int),
{
    let mut res = String::new();
    let mut i: usize = start;
    while i < end
        invariant
            start <= i <= end <= chars@.len(),
            res@ == chars@.subrange(start as int, i as int),
        decreases end - i,
    {
        string_push(&mut res, chars[i]);
        i += 1;
        assert(res@ =~= chars@.subrange(start as int, i as int));
    }
    res
}

/// Whether the char has the Unicode `White_Space` property, which is
/// what `char::is_whitespace` tests.
pub open spec fn is_white_space(c: char) -> bool {
    let u = c as u32;
    (0x09 <= u <= 0x0D) || u == 0x20 || u == 0x85 || u == 0xA0 || u == 0x1680
        || (0x2000 <= u <= 0x200A) || u == 0x2028 || u == 0x2029 || u == 0x202F
        || u == 0x205F || u == 0x3000
}

/// Whether the char is a white space (Unicode `White_Space` property).
pub fn is_whitespace(c: char) -> (res: bool)
    ensures
        res == is_white_space(c),
{
    let u = c as u32;
    (0x09 <= u && u <= 0x0D) || u == 0x20 || u == 0x85 || u == 0xA0 || u == 0x1680
        || (0x2000 <= u && u <= 0x200A) || u == 0x2028 || u == 0x2029 || u == 0x202F
        || u == 0x205F || u == 0x3000
}

/// The sequence without its leading white spaces (as `str::trim_start`).
pub open spec fn trim_start(s: Seq<char>) -> Seq<char>
    decreases s.len(),
{
    if s.len() > 0 && is_white_space(s[0]) {
        trim_start(s.drop_first())
    } else {
        s
    }
}

/// The index of the first char at or after `start` which isn't a white
/// space (`chars.len()` if there's none).
pub fn skip_whitespace(chars: &Vec<char>, start: usize) -> (idx: usize)
    requires
        start <= chars@.len(),
    ensures
        start <= idx <= chars@.len(),
        chars@.subrange(idx as int, chars@.len() as int)
            == trim_start(chars@.subrange(start as int, chars@.len() as int)),
{
    let mut i = start;
    while i < chars.len() && is_whitespace(chars[i])
        invariant
            start <= i <= chars@.len(),
            trim_start(chars@.subrange(i as int, chars@.len() as int))
                == trim_start(chars@.subrange(start as int, chars@.len() as int)),
        decreases chars@.len() - i,
    {
        assert(chars@.subrange(i as int, chars@.len() as int).drop_first()
            =~= chars@.subrange(i + 1, chars@.len() as int));
        i += 1;
    }
    i
}

/// The lowercase version of a string, as given by `str::to_lowercase`
/// (Unicode lowercase mapping of each char, in context).
pub uninterp spec fn lowercase(s: Seq<char>) -> Seq<char>;

/// The lowercase version of a string.
///
/// Trusted: `str::to_lowercase`, whose result depends on the string only.
#[verifier::external_body]
pub(crate) fn to_lowercase(s: &str) -> (res: String)
    ensures
        res@ == lowercase(s@),
{
    s.to_lowercase()
}

/// The views of a sequence of strings.
pub open spec fn strings_view(v: Seq<String>) -> Seq<Seq<char>> {
    Seq::new(v.len(), |i: int| v[i]@)
}

/// Appends the chars of `t` to a string.
pub fn push_str(s: &mut String, t: &str)
    ensures
        final(s)@ == old(s)@ + t@,
{
    let chars = chars_of(t);
    let ghost before = s@;
    let mut i: usize = 0;
    while i < chars.len()
        invariant
            i <= chars@.len(),
            chars@ == t@,
            s@ == before + chars@.take(i as int),
        decreases chars@.len() - i,
    {
        string_push(s, chars[i]);
        i += 1;
        assert(chars@.take(i as int) =~= chars@.take(i - 1).push(chars@[i - 1]));
    }
    assert(chars@.take(i as int) =~= chars@);
}

/// Whether two strings have the same chars.
pub fn str_eq(a: &str, b: &str) -> (res: bool)
    ensures
        res == (a@ == b@),
{
    let ca = chars_of(a);
    let cb = chars_of(b);
    if ca.len() != cb.len() {
        return false;
    }
    let mut i: usize = 0;
    while i < ca.len()
        invariant
            ca@ == a@,
            cb@ == b@,
            ca@.len() == cb@.len(),
            i <= ca@.len(),
            forall|k: int| 0 <= k < i ==> ca@[k] == cb@[k],
        decreases ca@.len() - i,
    {
        if ca[i] != cb[i] {
            return false;
        }
        i += 1;
    }
    assert(ca@ =~= cb@);
    true
}

} // verus!
