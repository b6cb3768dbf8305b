//! An optional number carried as a string, absence as the empty string.
use vstd::prelude::*;

use crate::text::{all_digits, decimal, digits_value, decimal_text, parse_decimal};

verus! {

/// The string form of an optional value.
pub open spec fn text_of(value: Option<u64>) -> Seq<char> {
    match value {
        Some(v) => decimal(v as nat),
        None => Seq::empty(),
    }
}

/// The string form: the empty string for `None`, the decimal text otherwise.
pub fn serialize(value: &Option<u64>) -> (r: String)
    ensures
        r@ == text_of(*value),
{
    match value {
        Some(v) => decimal_text(*v),
        None => String::new(),
    }
}

/// Reads the string form back: the empty string is `Some(None)`, a run of
/// digits whose value fits is `Some(Some(v))`, anything else `None`.
pub fn deserialize(s: &str) -> (r: Option<Option<u64>>)
    ensures
        s@.len() == 0 ==> r == Some(None::<u64>),
        s@.len() > 0 ==> (r is Some <==> (all_digits(s@) && digits_value(s@) <= u64::MAX)),
        s@.len() > 0 && r is Some ==> r.unwrap() is Some,
        r matches Some(Some(v)) ==> s@.len() > 0 && v as nat == digits_value(s@),
{
    if s.unicode_len() == 0 {
        return Some(None);
    }
    match parse_decimal(s) {
        Some(v) => Some(Some(v)),
        None => None,
    }
}

/// Reading back the string form of an optional value gives that value.
pub proof fn lemma_round_trip(value: Option<u64>)
    ensures
        text_of(value).len() == 0 <==> value is None,
        value matches Some(v) ==> all_digits(text_of(value)) && digits_value(text_of(value))
            == v as nat,
{
    if let Some(v) = value {
        crate::text::lemma_decimal_round_trip(v);
    }
}

} // verus!
