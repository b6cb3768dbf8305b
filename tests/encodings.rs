use gotcha::encodings::{Base64, DecodeError, Standard, UrlSafe, KEY_SIZE};

#[test]
fn random_standard_round_trip() {
    for _ in 0..20 {
        let v = Base64::<Standard>::random::<KEY_SIZE>();
        assert_eq!(v.as_str().len(), 64);
        let back = Base64::<Standard>::try_from(v.as_str().to_owned());
        assert!(back.is_ok());
        assert_eq!(back.ok().unwrap().as_str(), v.as_str());
    }
}

#[test]
fn random_url_safe_round_trip() {
    for _ in 0..20 {
        let v = Base64::<UrlSafe>::random::<KEY_SIZE>();
        let back = Base64::<UrlSafe>::try_from(v.as_str().to_owned());
        assert_eq!(back.ok().unwrap().as_str(), v.as_str());
    }
}

#[test]
fn random_with_encodes_given_bytes() {
    let v = Base64::<Standard>::random_with([0xfbu8, 0xff, 0x00]);
    assert_eq!(v.as_str(), "+/8A");
    let u = Base64::<UrlSafe>::random_with([0xfbu8, 0xff, 0x00]);
    assert_eq!(u.as_str(), "-_8A");
}

#[test]
fn try_from_rejects_wrong_length() {
    // Valid URL-safe base64 of 15 bytes, not 48.
    let wrong = Base64::<UrlSafe>::random_with(*b"my-wrong-secret");
    let r = Base64::<UrlSafe>::try_from(wrong.as_str().to_owned());
    assert!(matches!(r, Err(DecodeError::InvalidLength { len: 15 })));
    let short = Base64::<Standard>::random::<32>();
    let r = Base64::<Standard>::try_from(short.as_str().to_owned());
    assert!(matches!(r, Err(DecodeError::InvalidLength { len: 32 })));
    let long = Base64::<Standard>::random::<49>();
    assert!(Base64::<Standard>::try_from(long.as_str().to_owned()).is_err());
}

#[test]
fn try_from_rejects_other_alphabet_and_garbage() {
    assert!(matches!(Base64::<Standard>::try_from("not base64!".to_owned()), Err(DecodeError::InvalidEncoding)));
    assert!(matches!(Base64::<Standard>::try_from("".to_owned()), Err(DecodeError::InvalidLength { len: 0 })));
    let url = Base64::<UrlSafe>::random_with([0xfbu8; 48]);
    assert!(url.as_str().contains('-'));
    assert!(matches!(Base64::<Standard>::try_from(url.as_str().to_owned()), Err(DecodeError::InvalidEncoding)));
    let std = Base64::<Standard>::random_with([0xfbu8; 48]);
    assert!(matches!(Base64::<UrlSafe>::try_from(std.as_str().to_owned()), Err(DecodeError::InvalidEncoding)));
}

#[test]
fn zeroize_empties_material() {
    let mut v = Base64::<Standard>::random::<KEY_SIZE>();
    v.zeroize();
    assert_eq!(v.as_str(), "");
}
