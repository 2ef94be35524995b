//! Small helpers on texts.

use vstd::prelude::*;

verus! {

/// Whether two texts hold the same characters.
pub fn same_text(left: &str, right: &str) -> (same: bool)
    ensures
        same == (left@ == right@),
{
    let a = String::from_str(left);
    let b = String::from_str(right);
    a == b
}

/// Copies an optional text.
pub fn clone_text(text: &Option<String>) -> (copy: Option<String>)
    ensures
        copy.deep_view() == text.deep_view(),
{
    match text {
        Some(s) => Some(s.clone()),
        None => None,
    }
}

/// A text, or the stand-in where it is absent.
pub open spec fn text_or(text: Option<Seq<char>>, stand_in: Seq<char>) -> Seq<char> {
    match text {
        Some(t) => t,
        None => stand_in,
    }
}

/// A text, or a copy of the stand-in where it is absent.
pub fn text_or_else(text: Option<String>, stand_in: &str) -> (chosen: String)
    ensures
        chosen@ == text_or(text.deep_view(), stand_in@),
{
    match text {
        Some(t) => t,
        None => String::from_str(stand_in),
    }
}

} // verus!
