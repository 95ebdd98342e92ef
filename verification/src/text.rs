//! Views of the owned strings that configuration values are made of, and
//! copies of them that are known to read the same.

use vstd::prelude::*;
use vstd::string::*;

verus! {

/// An optional string as an optional sequence of characters.
pub open spec fn optional(value: Option<String>) -> Option<Seq<char>> {
    match value {
        Some(text) => Some(text@),
        None => None,
    }
}

/// A list of strings as a sequence of sequences of characters.
pub open spec fn each(values: Seq<String>) -> Seq<Seq<char>> {
    Seq::new(values.len(), |i: int| values[i]@)
}

/// A copy of an optional string.
pub(crate) fn copy_optional(value: &Option<String>) -> (copy: Option<String>)
    ensures
        optional(copy) == optional(*value),
{
    match value {
        Some(text) => Some(text.clone()),
        None => None,
    }
}

/// A copy of a list of strings.
pub(crate) fn copy_each(values: &Vec<String>) -> (copy: Vec<String>)
    ensures
        each(copy@) == each(values@),
{
    let mut copy: Vec<String> = Vec::new();
    let mut i: usize = 0;
    while i < values.len()
        invariant
            i <= values.len(),
            copy.len() == i,
            forall|k: int| 0 <= k < i ==> copy[k]@ == values[k]@,
        decreases values.len() - i,
    {
        copy.push(values[i].clone());
        i += 1;
    }
    assert(each(copy@) =~= each(values@));
    copy
}

} // verus!
