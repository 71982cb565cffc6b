//! Small verified helpers on strings and character sequences.

use vstd::prelude::*;

verus! {

/// The characters of `s`, in order.
#[verifier::external_body]
pub(crate) fn chars_of(s: &str) -> (v: Vec<char>)
    ensures
        v@ == s@,
{
    s.chars().collect()
}

/// A `String` holding exactly the characters of `v`.
#[verifier::external_body]
pub(crate) fn string_of(v: &[char]) -> (s: String)
    ensures
        s@ == v@,
{
    v.iter().collect()
}

/// Appends one character to `s` (`String::push`).
#[verifier::external_body]
pub(crate) fn push_char(s: &mut String, c: char)
    ensures
        final(s)@ == old(s)@.push(c),
{
    s.push(c)
}

/// Whether two string slices hold the same characters (`str == str`).
#[verifier::external_body]
pub(crate) fn str_equal(a: &str, b: &str) -> (r: bool)
    ensures
        r == (a@ == b@),
{
    a == b
}

/// The concatenation of three strings separated by dots.
pub fn dotted3(a: &str, b: &str, c: &str) -> (r: String)
    ensures
        r@ == a@ + seq!['.'] + b@ + seq!['.'] + c@,
{
    let mut r = String::from_str(a);
    push_char(&mut r, '.');
    r.append(b);
    push_char(&mut r, '.');
    r.append(c);
    r
}

} // verus!
