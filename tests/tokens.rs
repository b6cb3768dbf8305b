use base64::Engine as _;
use gotcha::challenge::{self, TenantRecord};
use gotcha::encodings::{Base64, Standard, KEY_SIZE};
use gotcha::errors::ChallengeError;
use gotcha::pow::PowChallenge;
use gotcha::tokens::pow_challenge;
use gotcha::tokens::response::{self, ResponseClaims};
use gotcha::tokens::{
    auth_validation, validate, AuthClaims, RegisteredClaims, TimeClaims, TokenError, Validation,
    Algorithm,
};

const NOW: u64 = 1_700_000_000;

fn secret() -> Base64<Standard> {
    Base64::<Standard>::random::<KEY_SIZE>()
}

fn real_now() -> u64 {
    std::time::SystemTime::now().duration_since(std::time::UNIX_EPOCH).unwrap().as_secs()
}

fn payload_of(token: &str) -> serde_json::Value {
    let part = token.split('.').nth(1).unwrap();
    let bytes = base64::engine::general_purpose::URL_SAFE_NO_PAD.decode(part).unwrap();
    serde_json::from_slice(&bytes).unwrap()
}

#[test]
fn pow_token_round_trip() {
    let key = secret();
    let c = PowChallenge::new(0x1234_5678_9abc_def0, 12);
    let token = pow_challenge::encode_at(c, key.as_str(), NOW, 300).unwrap();
    assert_eq!(token.matches('.').count(), 2);
    assert_eq!(pow_challenge::decode_at(&token, key.as_str(), NOW), Ok(c));
    assert_eq!(pow_challenge::decode_at(&token, key.as_str(), NOW + 300), Ok(c));
    let p = payload_of(&token);
    assert_eq!(p["exp"].as_u64(), Some(NOW + 300));
    assert_eq!(p["iat"].as_u64(), Some(NOW));
    assert_eq!(p["seed"].as_u64(), Some(0x1234_5678_9abc_def0));
    assert_eq!(p["difficulty"].as_u64(), Some(12));
}

#[test]
fn pow_token_now_round_trip() {
    let key = secret();
    let c = PowChallenge::new(7, 3);
    let token = pow_challenge::encode(c, &key).unwrap();
    assert_eq!(pow_challenge::decode(&token, key.as_str()), Ok(c));
    let token = pow_challenge::encode_with_timeout(c, key.as_str(), 60).unwrap();
    assert_eq!(pow_challenge::decode(&token, key.as_str()), Ok(c));
}

#[test]
fn pow_token_checks_with_jsonwebtoken() {
    let key = secret();
    let c = PowChallenge::new(99, 4);
    let token = pow_challenge::encode(c, &key).unwrap();
    let dk = jsonwebtoken::DecodingKey::from_base64_secret(key.as_str()).unwrap();
    let data = jsonwebtoken::decode::<serde_json::Value>(
        &token,
        &dk,
        &jsonwebtoken::Validation::new(jsonwebtoken::Algorithm::HS256),
    )
    .unwrap();
    assert_eq!(data.header.alg, jsonwebtoken::Algorithm::HS256);
    assert_eq!(data.claims["seed"].as_u64(), Some(99));
}

#[test]
fn pow_token_expired() {
    let key = secret();
    let c = PowChallenge::new(1, 1);
    let token = pow_challenge::encode_at(c, key.as_str(), NOW, 300).unwrap();
    assert_eq!(pow_challenge::decode_at(&token, key.as_str(), NOW + 301), Err(TokenError::ExpiredSignature));
    // Expiry is reported whatever the signature.
    let other = secret();
    assert_eq!(pow_challenge::decode_at(&token, other.as_str(), NOW + 301), Err(TokenError::ExpiredSignature));
}

#[test]
fn pow_token_other_tenant() {
    let k1 = secret();
    let k2 = secret();
    let token = pow_challenge::encode_at(PowChallenge::new(5, 5), k1.as_str(), NOW, 300).unwrap();
    assert_eq!(pow_challenge::decode_at(&token, k2.as_str(), NOW), Err(TokenError::InvalidSignature));
}

#[test]
fn pow_token_tampered_and_malformed() {
    let key = secret();
    let token = pow_challenge::encode_at(PowChallenge::new(5, 5), key.as_str(), NOW, 300).unwrap();
    let mut parts: Vec<String> = token.split('.').map(|s| s.to_owned()).collect();
    let forged = pow_challenge::encode_at(PowChallenge::new(6, 0), key.as_str(), NOW, 300).unwrap();
    parts[1] = forged.split('.').nth(1).unwrap().to_owned();
    let tampered = parts.join(".");
    assert_eq!(pow_challenge::decode_at(&tampered, key.as_str(), NOW), Err(TokenError::InvalidSignature));
    assert_eq!(pow_challenge::decode_at("abc", key.as_str(), NOW), Err(TokenError::Malformed));
    assert_eq!(pow_challenge::decode_at("a.b", key.as_str(), NOW), Err(TokenError::Malformed));
    assert_eq!(pow_challenge::decode_at(&token, "not a key!", NOW), Err(TokenError::InvalidKey));
    let header = base64::engine::general_purpose::URL_SAFE_NO_PAD.encode("{\"alg\":\"RS256\",\"typ\":\"JWT\"}");
    let rs = format!("{header}.e30.c2ln");
    assert_eq!(pow_challenge::decode_at(&rs, key.as_str(), NOW), Err(TokenError::InvalidAlgorithm));
}

#[test]
fn encode_refuses_bad_key() {
    assert_eq!(
        pow_challenge::encode_at(PowChallenge::new(1, 1), "%%%", NOW, 300),
        Err(TokenError::InvalidKey)
    );
}

#[test]
fn pow_solution_verdicts() {
    let key = secret();
    let c = PowChallenge::new(0xdead_beef, 10);
    let token = pow_challenge::encode_at(c, key.as_str(), NOW, 300).unwrap();
    let good = c.solve().unwrap();
    assert!(c.is_valid_solution(good));
    assert!(challenge::verify_pow_at(&token, good, key.as_str(), NOW).is_ok());
    let bad = (0..).find(|n| !c.is_valid_solution(*n)).unwrap();
    assert!(matches!(
        challenge::verify_pow_at(&token, bad, key.as_str(), NOW),
        Err(ChallengeError::FailedProofOfWork)
    ));
    assert!(matches!(
        challenge::verify_pow_at(&token, good, key.as_str(), NOW + 301),
        Err(ChallengeError::InvalidProofOfWork(TokenError::ExpiredSignature))
    ));
    let other = secret();
    assert!(matches!(
        challenge::verify_pow_at(&token, good, other.as_str(), NOW),
        Err(ChallengeError::InvalidProofOfWork(TokenError::InvalidSignature))
    ));
}

fn tenant(key: &Base64<Standard>) -> TenantRecord {
    TenantRecord {
        secret: Base64::<Standard>::try_from(key.as_str().to_owned()).ok().unwrap(),
        hostnames: vec!["website-integration.test.com".to_owned()],
    }
}

#[test]
fn pow_end_to_end() {
    let key = secret();
    let t = tenant(&key);
    let token = challenge::issue_pow(&t.secret, 8).unwrap();
    let c = pow_challenge::decode(&token, key.as_str()).unwrap();
    assert_eq!(c.difficulty, 8);
    let solution = c.solve().unwrap();
    let now = real_now();
    let origin = Some("http://website-integration.test.com".to_owned());
    let outcome = challenge::process_pow_at(&origin, &t, &token, solution, now).unwrap();
    let dk = jsonwebtoken::DecodingKey::from_base64_secret(key.as_str()).unwrap();
    let data = jsonwebtoken::decode::<serde_json::Value>(
        &outcome,
        &dk,
        &jsonwebtoken::Validation::new(jsonwebtoken::Algorithm::HS256),
    )
    .unwrap();
    assert_eq!(data.claims["score"].as_u64(), Some(100));
    assert_eq!(data.claims["exp"].as_u64(), Some(now + 30));
    assert!(data.claims["exp"].as_u64().unwrap() > real_now() - 1);
}

#[test]
fn pow_zero_solution_fails() {
    let key = secret();
    let t = tenant(&key);
    let c = PowChallenge::new(0x0123_4567_89ab_cdef, 16);
    assert!(!c.is_valid_solution(0));
    let token = pow_challenge::encode_at(c, key.as_str(), NOW, 300).unwrap();
    let origin = Some("https://website-integration.test.com".to_owned());
    let r = challenge::process_pow_at(&origin, &t, &token, 0, NOW + 1);
    assert!(matches!(r, Err(ChallengeError::FailedProofOfWork)));
}

#[test]
fn pow_wrong_origin_forbidden() {
    let key = secret();
    let t = tenant(&key);
    let c = PowChallenge::new(42, 6);
    let token = pow_challenge::encode_at(c, key.as_str(), NOW, 300).unwrap();
    let solution = c.solve().unwrap();
    let origin = Some("http://evil.test.com".to_owned());
    let r = challenge::process_pow_at(&origin, &t, &token, solution, NOW + 1);
    assert!(matches!(r, Err(ChallengeError::DomainNotAllowed)));
    assert_eq!(ChallengeError::DomainNotAllowed.into_response().status, 403);
    let r = challenge::process_pow_at(&origin, &t, "garbage", 0, NOW + 1);
    assert!(matches!(r, Err(ChallengeError::DomainNotAllowed)));
    let r = challenge::process_pow_at(&None, &t, &token, solution, NOW + 1);
    assert!(matches!(r, Err(ChallengeError::InvalidOrigin)));
    let r = challenge::process_pow_at(&Some("not a url".to_owned()), &t, &token, solution, NOW + 1);
    assert!(matches!(r, Err(ChallengeError::InvalidOrigin)));
}

#[test]
fn outcome_token_payload() {
    let key = secret();
    let token = response::encode_at(ResponseClaims { score: 0 }, key.as_str(), NOW, 30).unwrap();
    let p = payload_of(&token);
    assert_eq!(p["score"].as_u64(), Some(0));
    assert_eq!(p["exp"].as_u64(), Some(NOW + 30));
    let fresh = response::encode(ResponseClaims { score: 55 }, key.as_str()).unwrap();
    assert_eq!(payload_of(&fresh)["score"].as_u64(), Some(55));
}

fn auth_claims(aud: Vec<&str>, exp: u64) -> RegisteredClaims {
    RegisteredClaims {
        exp: Some(exp),
        iss: Some("https://issuer.test/".to_owned()),
        sub: Some("user-1".to_owned()),
        aud: Some(aud.into_iter().map(|a| a.to_owned()).collect()),
    }
}

#[test]
fn audience_must_name_service() {
    let rules = auth_validation();
    assert_eq!(validate(&auth_claims(vec!["https://other.test/"], NOW + 10), &rules, NOW), Err(TokenError::InvalidAudience));
    assert_eq!(validate(&auth_claims(vec!["https://other.test/", "https://gotcha.land/"], NOW + 10), &rules, NOW), Ok(()));
    assert_eq!(validate(&auth_claims(vec![], NOW + 10), &rules, NOW), Err(TokenError::InvalidAudience));
    assert_eq!(validate(&auth_claims(vec!["https://gotcha.land/"], NOW - 1), &rules, NOW), Err(TokenError::ExpiredSignature));
    let mut missing = auth_claims(vec!["https://gotcha.land/"], NOW + 10);
    missing.sub = None;
    assert_eq!(validate(&missing, &rules, NOW), Err(TokenError::MissingRequiredClaim(gotcha::tokens::Claim::Sub)));
}

#[test]
fn validation_rules() {
    let mut v = Validation::new(Algorithm::HS256);
    assert_eq!(v.leeway, 60);
    TimeClaims::<()>::build_validation(&mut v);
    assert_eq!(v.leeway, 0);
    assert!(v.require_exp && v.validate_exp);
    AuthClaims::<()>::build_validation(&mut v);
    assert_eq!(v.aud, vec!["https://gotcha.land/".to_owned()]);
    assert!(v.require_aud && v.require_iss && v.require_sub && v.validate_aud);
    let late = RegisteredClaims { exp: Some(NOW), iss: None, sub: None, aud: None };
    let lax = Validation::new(Algorithm::HS256);
    assert_eq!(validate(&late, &lax, NOW + 60), Ok(()));
    assert_eq!(validate(&late, &lax, NOW + 61), Err(TokenError::ExpiredSignature));
    let none = RegisteredClaims { exp: None, iss: None, sub: None, aud: None };
    assert_eq!(validate(&none, &lax, NOW), Err(TokenError::MissingRequiredClaim(gotcha::tokens::Claim::Exp)));
}

#[test]
fn time_claims_constructors() {
    let c = TimeClaims::issued_at(NOW, 300, 5u8);
    assert_eq!((c.iat(), c.exp(), c.other), (NOW, NOW + 300, 5));
    let c = TimeClaims::issued_at(u64::MAX - 1, 300, ());
    assert_eq!(c.exp(), u64::MAX);
    let c = TimeClaims::new(());
    assert_eq!(c.exp() - c.iat(), 30);
    let a = AuthClaims::from_parts(vec!["https://gotcha.land/".to_owned()], "s".to_owned(), "i".to_owned(), ());
    assert_eq!((a.sub(), a.iss(), a.aud().len()), ("s", "i", 1));
}

#[test]
fn pow_token_without_expiry() {
    let key = secret();
    let claims: serde_json::Value = serde_json::from_str("{\"iat\":1700000000,\"seed\":5,\"difficulty\":5}").unwrap();
    let ek = jsonwebtoken::EncodingKey::from_base64_secret(key.as_str()).unwrap();
    let jwt = jsonwebtoken::encode(&jsonwebtoken::Header::new(jsonwebtoken::Algorithm::HS256), &claims, &ek).unwrap();
    assert_eq!(
        pow_challenge::decode_at(&jwt, key.as_str(), NOW),
        Err(TokenError::MissingRequiredClaim(gotcha::tokens::Claim::Exp))
    );
    let signed = gotcha::tokens::jwt::sign_hs256("{\"seed\":5}", key.as_str()).unwrap();
    assert_eq!(
        pow_challenge::decode_at(&signed, key.as_str(), NOW),
        Err(TokenError::MissingRequiredClaim(gotcha::tokens::Claim::Exp))
    );
}

#[test]
fn empty_pow_token_is_invalid() {
    let key = secret();
    let t = tenant(&key);
    let origin = Some("http://website-integration.test.com".to_owned());
    let r = challenge::process_pow_at(&origin, &t, "", 0, NOW);
    assert!(matches!(r, Err(ChallengeError::InvalidProofOfWork(TokenError::Malformed))));
    let r = challenge::verify_pow_at("", 0, key.as_str(), NOW);
    assert!(matches!(r, Err(ChallengeError::InvalidProofOfWork(_))));
    let resp = ChallengeError::InvalidProofOfWork(TokenError::Malformed).into_response();
    assert_eq!(resp.status, 400);
}
