//! Text primitives: splitting on a delimiter, trimming and uppercasing.
use vstd::prelude::*;

verus! {

/// What `str::to_uppercase` returns for a string that is not all ASCII.
pub uninterp spec fn upper_of(s: Seq<char>) -> Seq<char>;

/// What `str::trim` returns.
pub uninterp spec fn trim_of(s: Seq<char>) -> Seq<char>;

pub open spec fn is_ascii_char(c: char) -> bool {
    (c as u32) < 128
}

pub open spec fn is_ascii_seq(s: Seq<char>) -> bool {
    forall|i: int| 0 <= i < s.len() ==> is_ascii_char(#[trigger] s[i])
}

/// Uppercase of one ASCII character: `a`..=`z` move to `A`..=`Z`.
pub open spec fn ascii_upper_char(c: char) -> char {
    if 'a' <= c && c <= 'z' {
        ((c as u32 - 32) as u8) as char
    } else {
        c
    }
}

pub open spec fn ascii_upper(s: Seq<char>) -> Seq<char> {
    s.map_values(|c: char| ascii_upper_char(c))
}

/// The key a string is normalised to: its uppercase form.
pub open spec fn normalize(s: Seq<char>) -> Seq<char> {
    if is_ascii_seq(s) {
        ascii_upper(s)
    } else {
        upper_of(s)
    }
}

/// Relies on `str::to_uppercase`: Unicode uppercasing, which on ASCII text
/// maps `a`..=`z` to `A`..=`Z` and keeps every other character.
#[verifier::external_body]
pub(crate) fn to_upper(s: &str) -> (r: String)
    ensures
        r@ == (if is_ascii_seq(s@) {
            ascii_upper(s@)
        } else {
            upper_of(s@)
        }),
{
    s.to_uppercase()
}

/// Relies on `str::trim`: the string without leading and trailing white space.
#[verifier::external_body]
pub(crate) fn trim(s: &str) -> (r: &str)
    ensures
        r@ == trim_of(s@),
{
    s.trim()
}

/// The pieces of `s` between occurrences of `sep`, as `str::split` gives
/// them: one more piece than there are separators, empty pieces kept.
pub open spec fn split_on(s: Seq<char>, sep: char) -> Seq<Seq<char>>
    decreases s.len(),
{
    if s.len() == 0 {
        seq![Seq::<char>::empty()]
    } else {
        let p = split_on(s.drop_last(), sep);
        if s.last() == sep {
            p.push(Seq::<char>::empty())
        } else {
            p.update(p.len() - 1, p.last().push(s.last()))
        }
    }
}

pub open spec fn views(v: Seq<String>) -> Seq<Seq<char>> {
    v.map_values(|x: String| x@)
}

/// Relies on `str::split` with a `char` pattern, each piece copied.
#[verifier::external_body]
pub(crate) fn split(s: &str, sep: char) -> (r: Vec<String>)
    ensures
        views(r@) == split_on(s@, sep),
{
    s.split(sep).map(|p| p.to_string()).collect()
}

} // verus!
