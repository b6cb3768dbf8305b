//! Authentication tokens: RS256-signed by the service's identity provider,
//! carrying audience, issuer, subject and expiry.
use vstd::prelude::*;

use crate::serial::single_or_sequence::{self, SingleOrSequence};
use crate::tokens::{
    auth_validation, is_auth_validation, now_unix, texts, validate, validation_outcome, AuthClaims,
    ClaimsView, RegisteredClaims, TokenError, Validation,
};

verus! {

/// The claims text of `jwt` when its RS256 signature checks out under the
/// PEM public key.
pub uninterp spec fn rs256_payload(jwt: Seq<char>, public_key_pem: Seq<char>) -> Option<Seq<char>>;

/// The unsigned integer member `key` of the JSON object `json`.
pub uninterp spec fn json_u64_member(json: Seq<char>, key: Seq<char>) -> Option<u64>;

/// The string member `key` of the JSON object `json`.
pub uninterp spec fn json_string_member(json: Seq<char>, key: Seq<char>) -> Option<Seq<char>>;

/// The member `key` of the JSON object `json` when it is a string or an
/// array of strings, as the list of those strings.
pub uninterp spec fn json_strings_member(json: Seq<char>, key: Seq<char>) -> Option<Seq<Seq<char>>>;

/// Whether `text` parses as an absolute URL.
pub uninterp spec fn parses_as_url(text: Seq<char>) -> bool;

/// Relies on `url::Url::parse`: whether the text is an absolute URL.
#[verifier::external_body]
fn is_url(text: &str) -> (r: bool)
    ensures
        r == parses_as_url(text@),
{
    url::Url::parse(text).is_ok()
}

/// Every audience in `aud` is a URL.
pub open spec fn all_urls(aud: Seq<Seq<char>>) -> bool {
    forall|i: int| 0 <= i < aud.len() ==> parses_as_url(#[trigger] aud[i])
}

fn audiences_are_urls(aud: &Vec<String>) -> (r: bool)
    ensures
        r == all_urls(texts(aud@)),
{
    let mut i: usize = 0;
    while i < aud.len()
        invariant
            i <= aud@.len(),
            forall|j: int| 0 <= j < i ==> parses_as_url(#[trigger] texts(aud@)[j]),
        decreases aud@.len() - i,
    {
        if !is_url(aud[i].as_str()) {
            assert(!parses_as_url(texts(aud@)[i as int]));
            return false;
        }
        i = i + 1;
    }
    true
}

/// Relies on `jsonwebtoken::DecodingKey::from_rsa_pem` and
/// `jsonwebtoken::decode` with RS256, with claim checks switched off so
/// that only the header's algorithm and the signature are checked; gives
/// the claims as JSON text.
#[verifier::external_body]
fn verified_payload(jwt: &str, public_key_pem: &str) -> (r: Option<String>)
    ensures
        r.is_some() == rs256_payload(jwt@, public_key_pem@).is_some(),
        r matches Some(p) ==> rs256_payload(jwt@, public_key_pem@) == Some(p@),
{
    let key = jsonwebtoken::DecodingKey::from_rsa_pem(public_key_pem.as_bytes()).ok()?;
    let mut v = jsonwebtoken::Validation::new(jsonwebtoken::Algorithm::RS256);
    v.required_spec_claims.clear();
    v.validate_exp = false;
    v.validate_aud = false;
    let data = jsonwebtoken::decode::<serde_json::Value>(jwt, &key, &v).ok()?;
    Some(data.claims.to_string())
}

/// Relies on `serde_json::from_str`, `Value::get` and `Value::as_u64`.
#[verifier::external_body]
fn u64_member(json: &str, key: &str) -> (r: Option<u64>)
    ensures
        r == json_u64_member(json@, key@),
{
    serde_json::from_str::<serde_json::Value>(json).ok()?.get(key)?.as_u64()
}

/// Relies on `serde_json::from_str`, `Value::get` and `Value::as_str`.
#[verifier::external_body]
fn string_member(json: &str, key: &str) -> (r: Option<String>)
    ensures
        r.is_some() == json_string_member(json@, key@).is_some(),
        r matches Some(s) ==> json_string_member(json@, key@) == Some(s@),
{
    serde_json::from_str::<serde_json::Value>(json).ok()?.get(key)?.as_str().map(|s| s.to_owned())
}

/// Relies on `serde_json::from_str` and `Value::get`: a string member is
/// handed out as a single value, an array of strings as a sequence.
#[verifier::external_body]
fn strings_member(json: &str, key: &str) -> (r: Option<SingleOrSequence<String>>)
    ensures
        r.is_some() == json_strings_member(json@, key@).is_some(),
        r matches Some(v) ==> json_strings_member(json@, key@) == Some(texts(v.items())),
{
    match serde_json::from_str::<serde_json::Value>(json).ok()?.get(key)? {
        serde_json::Value::String(s) => Some(SingleOrSequence::Single(s.clone())),
        serde_json::Value::Array(a) => a.iter().map(|x| x.as_str().map(|s| s.to_owned())).collect::<
            Option<Vec<String>>,
        >().map(SingleOrSequence::Sequence),
        _ => None,
    }
}

/// What validation reads of the claims text `payload`.
pub open spec fn claims_of(payload: Seq<char>) -> ClaimsView {
    ClaimsView {
        exp: json_u64_member(payload, "exp"@),
        iss: json_string_member(payload, "iss"@),
        sub: json_string_member(payload, "sub"@),
        aud: json_strings_member(payload, "aud"@),
    }
}

/// Decodes an authentication token at time `now`: the signature must check
/// out under the public key, then the claims must pass the rules of
/// authentication tokens, and every audience must be a URL.
pub fn decode_at(jwt: &str, public_key_pem: &str, now: u64) -> (r: Result<AuthClaims<()>, TokenError>)
    ensures
        rs256_payload(jwt@, public_key_pem@) is None ==> r == Err::<AuthClaims<()>, TokenError>(
            TokenError::InvalidSignature,
        ),
        rs256_payload(jwt@, public_key_pem@) matches Some(p) ==> forall|v: Validation| #[trigger]
            is_auth_validation(v) ==> match validation_outcome(claims_of(p), v, now) {
                Err(e) => r == Err::<AuthClaims<()>, TokenError>(e),
                Ok(()) => if all_urls(claims_of(p).aud.unwrap()) {
                    r matches Ok(c) && Some(c.subject()) == claims_of(p).sub && Some(c.issuer())
                        == claims_of(p).iss && Some(texts(c.audiences())) == claims_of(p).aud
                } else {
                    r == Err::<AuthClaims<()>, TokenError>(TokenError::Malformed)
                },
            },
        r matches Ok(c) ==> rs256_payload(jwt@, public_key_pem@) matches Some(p) && Some(c.subject())
            == claims_of(p).sub && Some(c.issuer()) == claims_of(p).iss && Some(
            texts(c.audiences()),
        ) == claims_of(p).aud,
{
    let payload = match verified_payload(jwt, public_key_pem) {
        Some(p) => p,
        None => return Err(TokenError::InvalidSignature),
    };
    let aud = match strings_member(payload.as_str(), "aud") {
        Some(shape) => Some(single_or_sequence::deserialize(shape)),
        None => None,
    };
    let registered = RegisteredClaims {
        exp: u64_member(payload.as_str(), "exp"),
        iss: string_member(payload.as_str(), "iss"),
        sub: string_member(payload.as_str(), "sub"),
        aud,
    };
    let rules = auth_validation();
    proof {
        assert(registered@ == claims_of(payload@));
        assert forall|v: Validation| #[trigger] is_auth_validation(v) implies validation_outcome(
            claims_of(payload@),
            v,
            now,
        ) == validation_outcome(registered@, rules, now) by {
            crate::tokens::lemma_auth_rules_agree(registered@, v, rules, now);
        }
    }
    match validate(&registered, &rules, now) {
        Err(e) => Err(e),
        Ok(()) => {
            let RegisteredClaims { exp: _, iss, sub, aud } = registered;
            match (aud, sub, iss) {
                (Some(aud), Some(sub), Some(iss)) => if audiences_are_urls(&aud) {
                    Ok(AuthClaims::from_parts(aud, sub, iss, ()))
                } else {
                    Err(TokenError::Malformed)
                },
                _ => Err(TokenError::Malformed),
            }
        },
    }
}

/// Decodes an authentication token now.
pub fn decode(jwt: &str, public_key_pem: &str) -> (r: Result<AuthClaims<()>, TokenError>)
    ensures
        rs256_payload(jwt@, public_key_pem@) is None ==> r == Err::<AuthClaims<()>, TokenError>(
            TokenError::InvalidSignature,
        ),
        r matches Ok(c) ==> rs256_payload(jwt@, public_key_pem@) matches Some(p) && Some(c.subject())
            == claims_of(p).sub && Some(c.issuer()) == claims_of(p).iss && Some(
            texts(c.audiences()),
        ) == claims_of(p).aud,
{
    decode_at(jwt, public_key_pem, now_unix())
}

} // verus!
