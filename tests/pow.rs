use gotcha::challenge::{check_origin, check_pool_owner, is_allowed_host, authorize, XSiteKey, TenantRecord};
use gotcha::encodings::{Base64, UrlSafe, Standard, KEY_SIZE};
use gotcha::errors::{ChallengeError, ConstraintKind, DbError};
use gotcha::pow::PowChallenge;

#[test]
fn solve_finds_least_solution() {
    let c = PowChallenge::new(12345, 8);
    let s = c.solve().unwrap();
    assert!(c.is_valid_solution(s));
    assert!((0..s).all(|n| !c.is_valid_solution(n)));
    let easy = PowChallenge::new(12345, 0);
    assert_eq!(easy.solve(), Some(0));
}

#[test]
fn difficulty_narrows_solutions() {
    let c = PowChallenge::new(777, 64);
    assert!((0..1000).all(|n| !c.is_valid_solution(n)));
    let hard = PowChallenge::new(777, 12);
    let count = (0..1u64 << 16).filter(|n| hard.is_valid_solution(*n)).count();
    assert!(count > 0 && count < 64);
}

#[test]
fn generated_puzzles_differ() {
    let a = PowChallenge::generate(10);
    let b = PowChallenge::generate(10);
    assert_eq!(a.difficulty, 10);
    assert_ne!(a.seed, b.seed);
}

#[test]
fn site_key_header() {
    assert_eq!(XSiteKey::name(), "x-site-key");
    let k = Base64::<UrlSafe>::random::<KEY_SIZE>();
    let h = XSiteKey::decode(vec![k.as_str().to_owned(), "ignored".to_owned()]).ok().unwrap();
    assert_eq!(h.encode(), k.as_str());
    assert!(XSiteKey::decode(vec![]).is_err());
    let short = Base64::<UrlSafe>::random_with(*b"my-wrong-secret");
    assert!(XSiteKey::decode(vec![short.as_str().to_owned()]).is_err());
}

#[test]
fn origins_and_hosts() {
    let allowed = vec!["a.test".to_owned(), "b.test".to_owned()];
    assert!(is_allowed_host("b.test", &allowed));
    assert!(!is_allowed_host("c.test", &allowed));
    assert_eq!(check_origin(&Some("https://a.test:8443".to_owned()), &allowed).is_ok(), true);
    assert!(matches!(check_origin(&Some("https://c.test".to_owned()), &allowed), Err(ChallengeError::DomainNotAllowed)));
    assert!(matches!(check_origin(&None, &allowed), Err(ChallengeError::InvalidOrigin)));
    assert!(check_pool_owner("console-1", "console-1").is_ok());
    assert!(check_pool_owner("console-1", "console-2").is_err());
}

#[test]
fn tenant_lookup_outcomes() {
    let rec = TenantRecord { secret: Base64::<Standard>::random::<KEY_SIZE>(), hostnames: vec![] };
    assert!(authorize(Ok(Some(rec))).is_ok());
    assert!(matches!(authorize(Ok(None)), Err(ChallengeError::InvalidKey)));
    let broken = DbError::Constraint { constraint: Some("api_key_console_id_fkey".to_owned()), kind: ConstraintKind::ForeignKey };
    assert!(matches!(authorize(Err(broken)), Err(ChallengeError::InvalidKey)));
    let down = DbError::Other { message: "down".to_owned() };
    assert!(matches!(authorize(Err(down)), Err(ChallengeError::Unexpected(_))));
}

#[test]
fn seed_from_bytes() {
    let c = PowChallenge::from_seed_bytes([1, 2, 3, 4, 5, 6, 7, 8], 9);
    assert_eq!(c.seed, 0x0102_0304_0506_0708);
    assert_eq!(c.difficulty, 9);
}
