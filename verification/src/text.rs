//! Small helpers for building and comparing text.

use vstd::prelude::*;

verus! {

/// `head` followed by `tail`.
pub(crate) fn join2(head: &str, tail: &str) -> (text: String)
    ensures
        text@ == head@ + tail@,
{
    let mut text = head.to_owned();
    text.append(tail);
    text
}

/// `head`, `middle` and `tail`, one after the other.
pub(crate) fn join3(head: &str, middle: &str, tail: &str) -> (text: String)
    ensures
        text@ == head@ + middle@ + tail@,
{
    let mut text = head.to_owned();
    text.append(middle);
    text.append(tail);
    text
}

/// Whether the two strings hold the same characters.
pub(crate) fn same_text(left: &str, right: &str) -> (same: bool)
    ensures
        same == (left@ == right@),
{
    let left_owned = left.to_owned();
    let right_owned = right.to_owned();
    left_owned == right_owned
}

} // verus!
