//! Values that are moved, borrowed and given back.

use crate::text::byte_length;
use vstd::prelude::*;
use vstd::string::StringExecFns;

verus! {

/// One more than `x`.
pub fn plus_one(x: i32) -> (y: i32)
    requires
        x < i32::MAX,
    ensures
        y == x + 1,
{
    x + 1
}

/// A new string, which the caller then owns.
pub fn gives_ownership() -> (some_string: String)
    ensures
        some_string@ == "hello"@,
{
    let some_string = String::from_str("hello");
    some_string
}

/// The string it was given.
pub fn takes_and_gives_back(a_string: String) -> (same: String)
    ensures
        same == a_string,
{
    a_string
}

/// The length of `s` in bytes; `s` stays with the caller.
pub fn calculate_length(s: &String) -> (length: usize)
    ensures
        length == byte_length(s@),
{
    s.as_str().as_bytes().len()
}

/// Appends `, world!` to the string of the caller.
pub fn change(s: &mut String)
    ensures
        final(s)@ == old(s)@ + ", world!"@,
{
    s.append(", world!");
}

/// Borrows a greeting so as to change it. Returns the greeting before and
/// after.
pub fn mutable_reference() -> (greetings: (String, String))
    ensures
        greetings.0@ == "hello"@,
        greetings.1@ == "hello"@ + ", world!"@,
{
    let mut s = String::from_str("hello");
    let before = s.clone();
    change(&mut s);
    (before, s)
}

/// Borrows a greeting so as to measure it. Returns the greeting and its
/// length in bytes.
pub fn example() -> (measured: (String, usize))
    ensures
        measured.0@ == "hello"@,
        measured.1 == byte_length("hello"@),
{
    let s1 = String::from_str("hello");
    let len = calculate_length(&s1);
    (s1, len)
}

} // verus!
