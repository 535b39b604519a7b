//! Sequences of strings.

use vstd::prelude::*;

verus! {

/// A copy of `texts`, string by string.
pub(crate) fn copy_texts(texts: &Vec<String>) -> (copy: Vec<String>)
    ensures
        copy.deep_view() == texts.deep_view(),
{
    let copy = texts.clone();
    assert(copy.deep_view() =~= texts.deep_view());
    copy
}

/// The strings of `first` followed by those of `second`.
pub(crate) fn join_texts(first: &Vec<String>, second: &Vec<String>) -> (joined: Vec<String>)
    ensures
        joined.deep_view() == first.deep_view() + second.deep_view(),
{
    let mut joined = copy_texts(first);
    let mut rest = copy_texts(second);
    let ghost head = joined;
    let ghost tail = rest;
    joined.append(&mut rest);
    assert(joined.deep_view() =~= head.deep_view() + tail.deep_view());
    joined
}

} // verus!
