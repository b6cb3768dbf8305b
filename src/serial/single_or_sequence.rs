//! A list that travels as a single value when it has exactly one element.
use vstd::prelude::*;

verus! {

/// The two shapes a list may take on the wire.
pub enum SingleOrSequence<T> {
    Single(T),
    Sequence(Vec<T>),
}

impl<T> SingleOrSequence<T> {
    /// The list this shape stands for.
    pub open spec fn items(&self) -> Seq<T> {
        match self {
            SingleOrSequence::Single(t) => seq![*t],
            SingleOrSequence::Sequence(v) => v@,
        }
    }
}

/// The compact shape of `entries`: a single value for one element, a
/// sequence otherwise.
pub fn serialize<T>(entries: Vec<T>) -> (r: SingleOrSequence<T>)
    ensures
        r.items() == entries@,
        r is Single <==> entries@.len() == 1,
{
    let mut entries = entries;
    if entries.len() == 1 {
        let single = entries.pop().unwrap();
        SingleOrSequence::Single(single)
    } else {
        SingleOrSequence::Sequence(entries)
    }
}

/// Accepts either shape and gives the list.
pub fn deserialize<T>(value: SingleOrSequence<T>) -> (r: Vec<T>)
    ensures
        r@ == value.items(),
{
    match value {
        SingleOrSequence::Single(single) => vec![single],
        SingleOrSequence::Sequence(sequence) => sequence,
    }
}

} // verus!
