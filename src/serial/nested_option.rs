//! A present field keeps its null: absent is `None`, null is `Some(None)`.
use vstd::prelude::*;

verus! {

/// Wraps a present field's value, null or not, so that it is told apart from
/// an absent field (which a caller leaves as `None`).
pub fn deserialize<T>(value: Option<T>) -> (r: Option<Option<T>>)
    ensures
        r == Some(value),
{
    Some(value)
}

} // verus!
