//! The few `str` operations the config logic needs, with what their
//! documentation promises stated over the character sequences.

use vstd::prelude::*;

verus! {

/// Whether `needle` occurs as a contiguous run inside `hay`
pub open spec fn seq_has_infix(hay: Seq<char>, needle: Seq<char>) -> bool {
    exists|i: int|
        0 <= i && i + needle.len() <= hay.len() && #[trigger] hay.subrange(i, i + needle.len())
            == needle
}

/// `str::strip_prefix`: the rest of `s` after `prefix`, if `s` starts with it.
#[verifier::external_body]
pub(crate) fn str_strip_prefix<'a>(s: &'a str, prefix: &str) -> (r: Option<&'a str>)
    ensures
        match r {
            Some(rest) => s@ == prefix@ + rest@,
            None => !prefix@.is_prefix_of(s@),
        },
{
    s.strip_prefix(prefix)
}

/// `str::strip_suffix`: what precedes `suffix` in `s`, if `s` ends with it.
#[verifier::external_body]
pub(crate) fn str_strip_suffix<'a>(s: &'a str, suffix: &str) -> (r: Option<&'a str>)
    ensures
        match r {
            Some(rest) => s@ == rest@ + suffix@,
            None => !suffix@.is_suffix_of(s@),
        },
{
    s.strip_suffix(suffix)
}

/// `str::split_once` on a single character: split at its first occurrence.
#[verifier::external_body]
pub(crate) fn str_split_once<'a>(s: &'a str, delim: char) -> (r: Option<(&'a str, &'a str)>)
    ensures
        match r {
            Some((before, after)) => s@ == before@ + seq![delim] + after@ && !before@.contains(
                delim,
            ),
            None => !s@.contains(delim),
        },
{
    s.split_once(delim)
}

/// `str::split_once` on a string pattern: split at its first occurrence.
#[verifier::external_body]
pub(crate) fn str_split_once_str<'a>(s: &'a str, delim: &str) -> (r: Option<(&'a str, &'a str)>)
    requires
        delim@.len() > 0,
    ensures
        match r {
            Some((before, after)) => s@ == before@ + delim@ + after@ && !seq_has_infix(
                before@ + delim@.drop_last(),
                delim@,
            ),
            None => !seq_has_infix(s@, delim@),
        },
{
    s.split_once(delim)
}

/// Whether `c` has the Unicode `White_Space` property
pub open spec fn is_white_space(c: char) -> bool {
    let n = c as int;
    (0x9 <= n <= 0xD) || n == 0x20 || n == 0x85 || n == 0xA0 || n == 0x1680 || (0x2000 <= n
        <= 0x200A) || n == 0x2028 || n == 0x2029 || n == 0x202F || n == 0x205F || n == 0x3000
}

/// `s` without leading whitespace
pub open spec fn trimmed_start(s: Seq<char>) -> Seq<char>
    decreases s.len(),
{
    if s.len() > 0 && is_white_space(s[0]) {
        trimmed_start(s.skip(1))
    } else {
        s
    }
}

/// `s` without trailing whitespace
pub open spec fn trimmed_end(s: Seq<char>) -> Seq<char>
    decreases s.len(),
{
    if s.len() > 0 && is_white_space(s.last()) {
        trimmed_end(s.drop_last())
    } else {
        s
    }
}

/// `s` without leading and trailing whitespace
pub open spec fn trimmed(s: Seq<char>) -> Seq<char> {
    trimmed_end(trimmed_start(s))
}

/// `str::trim`: `s` without leading and trailing whitespace (characters
/// with the Unicode `White_Space` property).
#[verifier::external_body]
pub(crate) fn str_trim(s: &str) -> (r: &str)
    ensures
        r@ == trimmed(s@),
{
    s.trim()
}

/// `str::trim_end`: `s` without trailing whitespace (characters with the
/// Unicode `White_Space` property).
#[verifier::external_body]
pub(crate) fn str_trim_end(s: &str) -> (r: &str)
    ensures
        r@ == trimmed_end(s@),
{
    s.trim_end()
}

/// `a` comes before `b` in the order of text: lexicographically, character
/// by character, a proper prefix coming first
pub open spec fn text_lt(a: Seq<char>, b: Seq<char>) -> bool
    decreases a.len(),
{
    if a.len() == 0 {
        b.len() > 0
    } else if b.len() == 0 {
        false
    } else if a[0] != b[0] {
        (a[0] as int) < (b[0] as int)
    } else {
        text_lt(a.skip(1), b.skip(1))
    }
}

/// `str < str`: strings are ordered lexicographically by their bytes, which
/// orders their characters by code point.
#[verifier::external_body]
pub(crate) fn str_lt(a: &str, b: &str) -> (r: bool)
    ensures
        r == text_lt(a@, b@),
{
    a < b
}

/// `str == str`
#[verifier::external_body]
pub(crate) fn str_eq(a: &str, b: &str) -> (r: bool)
    ensures
        r == (a@ == b@),
{
    a == b
}

/// `str::contains` with a string pattern
#[verifier::external_body]
pub(crate) fn str_contains(s: &str, pat: &str) -> (r: bool)
    ensures
        r == seq_has_infix(s@, pat@),
{
    s.contains(pat)
}

/// `str::ends_with` with a string pattern
#[verifier::external_body]
pub(crate) fn str_ends_with(s: &str, pat: &str) -> (r: bool)
    ensures
        r == pat@.is_suffix_of(s@),
{
    s.ends_with(pat)
}

/// The concatenation of the two
pub(crate) fn string_concat(a: String, b: &str) -> (r: String)
    ensures
        r@ == a@ + b@,
{
    a.concat(b)
}

/// A fresh `String` holding the characters of `s`
pub fn owned(s: &str) -> (r: String)
    ensures
        r@ == s@,
{
    s.to_owned()
}

/// The concatenation of the pieces, as a new `String`
pub fn concat2(a: &str, b: &str) -> (r: String)
    ensures
        r@ == a@ + b@,
{
    string_concat(owned(a), b)
}

/// The concatenation of the pieces, as a new `String`
pub fn concat3(a: &str, b: &str, c: &str) -> (r: String)
    ensures
        r@ == a@ + b@ + c@,
{
    string_concat(string_concat(owned(a), b), c)
}

/// The concatenation of the pieces, as a new `String`
pub fn concat4(a: &str, b: &str, c: &str, d: &str) -> (r: String)
    ensures
        r@ == a@ + b@ + c@ + d@,
{
    string_concat(string_concat(string_concat(owned(a), b), c), d)
}

/// A copy of a `String`
pub fn clone_string(s: &String) -> (r: String)
    ensures
        r == *s,
        r@ == s@,
{
    s.clone()
}

/// A copy of an optional `String`
pub fn clone_opt_string(s: &Option<String>) -> (r: Option<String>)
    ensures
        r == *s,
{
    match s {
        Some(v) => Some(v.clone()),
        None => None,
    }
}

/// A copy of a list of `String`s
pub fn clone_strings(v: &Vec<String>) -> (r: Vec<String>)
    ensures
        r@ == v@,
{
    let mut out: Vec<String> = Vec::new();
    let mut i: usize = 0;
    while i < v.len()
        invariant
            i <= v.len(),
            out@ == v@.take(i as int),
        decreases v.len() - i,
    {
        out.push(v[i].clone());
        i = i + 1;
    }
    assert(v@.take(v.len() as int) == v@);
    out
}

} // verus!
