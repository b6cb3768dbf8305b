//! A number carried as its decimal string.
use vstd::prelude::*;

use crate::text::{all_digits, decimal, digits_value, lemma_decimal_round_trip, decimal_text, parse_decimal};

verus! {

/// The string form of `value`.
pub fn serialize(value: u64) -> (r: String)
    ensures
        r@ == decimal(value as nat),
{
    decimal_text(value)
}

/// Reads the string form back; `None` unless `s` is a nonempty run of digits
/// whose value fits.
pub fn deserialize(s: &str) -> (r: Option<u64>)
    ensures
        r is Some <==> (s@.len() > 0 && all_digits(s@) && digits_value(s@) <= u64::MAX),
        r matches Some(v) ==> v as nat == digits_value(s@),
{
    parse_decimal(s)
}

/// Reading back the string form of a number gives that number.
pub proof fn lemma_round_trip(value: u64, s: Seq<char>)
    requires
        s == decimal(value as nat),
    ensures
        s.len() > 0,
        all_digits(s),
        digits_value(s) == value as nat,
{
    lemma_decimal_round_trip(value);
}

} // verus!
