use gotcha::serial::single_or_sequence::SingleOrSequence;
use gotcha::serial::{as_string, nested_option, none_as_empty_string, single_or_sequence};

fn field_s(json: &str) -> Option<Option<Option<String>>> {
    let v: serde_json::Value = serde_json::from_str(json).unwrap();
    v.get("s").map(|x| nested_option::deserialize(x.as_str().map(|s| s.to_owned())))
}

#[test]
fn nested_option_string() {
    // An absent field stays `None` (the caller's default); null and a string are kept apart.
    let empty_value = field_s("{}").flatten();
    assert_eq!(empty_value, None);
    let null_value = field_s("{\"s\":null}").unwrap();
    assert_eq!(null_value, Some(None));
    let some_value = field_s("{\"s\":\"wtv\"}").unwrap();
    assert_eq!(some_value, Some(Some("wtv".to_owned())));
}

#[test]
fn as_string_round_trip() {
    assert_eq!(as_string::serialize(0), "0");
    assert_eq!(as_string::serialize(1234567890), "1234567890");
    assert_eq!(as_string::serialize(u64::MAX), "18446744073709551615");
    for v in [0u64, 7, 10, 99, 100, 65535, u64::MAX] {
        assert_eq!(as_string::deserialize(&as_string::serialize(v)), Some(v));
    }
}

#[test]
fn as_string_rejects() {
    assert_eq!(as_string::deserialize(""), None);
    assert_eq!(as_string::deserialize("12a"), None);
    assert_eq!(as_string::deserialize("-1"), None);
    assert_eq!(as_string::deserialize("18446744073709551616"), None);
    assert_eq!(as_string::deserialize("007"), Some(7));
}

#[test]
fn none_as_empty_string_forms() {
    assert_eq!(none_as_empty_string::serialize(&None), "");
    assert_eq!(none_as_empty_string::serialize(&Some(42)), "42");
    assert_eq!(none_as_empty_string::deserialize(""), Some(None));
    assert_eq!(none_as_empty_string::deserialize("42"), Some(Some(42)));
    assert_eq!(none_as_empty_string::deserialize("x"), None);
    for v in [None, Some(0u64), Some(907), Some(u64::MAX)] {
        assert_eq!(none_as_empty_string::deserialize(&none_as_empty_string::serialize(&v)), Some(v));
    }
}

#[test]
fn single_or_sequence_shapes() {
    match single_or_sequence::serialize(vec!["a".to_owned()]) {
        SingleOrSequence::Single(s) => assert_eq!(s, "a"),
        SingleOrSequence::Sequence(_) => panic!("one element travels as a single value"),
    }
    match single_or_sequence::serialize(vec![1, 2]) {
        SingleOrSequence::Sequence(v) => assert_eq!(v, vec![1, 2]),
        SingleOrSequence::Single(_) => panic!("two elements travel as a sequence"),
    }
    match single_or_sequence::serialize(Vec::<u8>::new()) {
        SingleOrSequence::Sequence(v) => assert!(v.is_empty()),
        SingleOrSequence::Single(_) => panic!("no element travels as a sequence"),
    }
    assert_eq!(single_or_sequence::deserialize(SingleOrSequence::Single(5)), vec![5]);
    assert_eq!(single_or_sequence::deserialize(SingleOrSequence::Sequence(vec![5, 6])), vec![5, 6]);
    let back = single_or_sequence::deserialize(single_or_sequence::serialize(vec![9]));
    assert_eq!(back, vec![9]);
}
