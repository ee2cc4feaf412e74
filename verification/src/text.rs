//! Text primitives of the standard library that the console relies on.

use vstd::prelude::*;
use vstd::string::StringExecFns;

verus! {

/// The text that `str::trim` returns for `s`: `s` without its leading and
/// trailing white space, as the standard library defines white space.
pub uninterp spec fn trimmed(s: Seq<char>) -> Seq<char>;

/// `String::push` appends one character to the end of the string.
pub assume_specification[ String::push ](s: &mut String, ch: char)
    ensures
        final(s)@ == old(s)@.push(ch),
;

/// `String::pop` removes the last character and returns it; on an empty
/// string it returns `None` and changes nothing.
pub assume_specification[ String::pop ](s: &mut String) -> (last: Option<char>)
    ensures
        old(s)@.len() == 0 ==> last is None && final(s)@ == old(s)@,
        old(s)@.len() > 0 ==> last == Some(old(s)@.last()) && final(s)@ == old(s)@.drop_last(),
;

/// `str::trim` returns the slice of `s` named by [`trimmed`].
pub assume_specification<'a>[ str::trim ](s: &'a str) -> (inner: &'a str)
    ensures
        inner@ == trimmed(s@),
;

/// The views of a sequence of strings, line by line.
pub open spec fn lines(v: Seq<String>) -> Seq<Seq<char>> {
    v.map_values(|s: String| s@)
}

/// Tells whether two string slices hold the same characters.
pub fn same_text(a: &str, b: &str) -> (same: bool)
    ensures
        same == (a@ == b@),
{
    let left = a.to_owned();
    let right = b.to_owned();
    left == right
}

/// Builds the string that holds `head` followed by `tail`.
pub fn appended(head: &str, tail: &str) -> (joined: String)
    ensures
        joined@ == head@ + tail@,
{
    let mut joined = String::from_str(head);
    joined.append(tail);
    joined
}

} // verus!
