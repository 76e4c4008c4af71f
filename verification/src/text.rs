//! Comparing and making strings.
use vstd::prelude::*;

verus! {

/// Whether `s` is exactly `text`.
pub fn is_text(s: &String, text: &str) -> (r: bool)
    ensures
        r == (s@ == text@),
{
    *s == String::from_str(text)
}

/// A new `String` holding `text`.
pub fn owned(text: &str) -> (r: String)
    ensures
        r@ == text@,
{
    String::from_str(text)
}

} // verus!
