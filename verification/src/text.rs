//! Optional text, as the server sends names and descriptions.

use vstd::prelude::*;

verus! {

/// The characters of an optional string.
pub open spec fn text_of(text: Option<String>) -> Option<Seq<char>> {
    match text {
        Some(text) => Some(text@),
        None => None,
    }
}

/// The characters of optional text, where missing text reads as empty.
pub open spec fn or_empty(text: Option<Seq<char>>) -> Seq<char> {
    match text {
        Some(text) => text,
        None => Seq::empty(),
    }
}

/// A copy of `text`, or the empty string where there is none.
pub fn owned_or_empty(text: &Option<String>) -> (owned: String)
    ensures
        owned@ == or_empty(text_of(*text)),
{
    match text {
        Some(text) => text.clone(),
        None => String::new(),
    }
}

} // verus!
