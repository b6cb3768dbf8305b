//! Field encodings used on the wire: numbers as strings, absent values as
//! empty strings, one-or-many lists and explicit nulls.
use vstd::prelude::*;

pub mod as_string;
pub mod nested_option;
pub mod none_as_empty_string;
pub mod single_or_sequence;

verus! {

} // verus!
