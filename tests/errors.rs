use gotcha::errors::{
    AdminError, ChallengeError, ConsoleError, ConstraintKind, DbError, ErrorCode, ResponseBody,
    Unexpected, VerificationError, VerificationResponse,
};
use gotcha::tokens::TokenError;

fn constraint(name: Option<&str>, kind: ConstraintKind) -> DbError {
    DbError::Constraint { constraint: name.map(|n| n.to_owned()), kind }
}

fn text(body: &ResponseBody) -> Option<&str> {
    match body {
        ResponseBody::Text(t) => Some(t.as_str()),
        _ => None,
    }
}

#[test]
fn console_reclassifies_constraints() {
    let e = ConsoleError::from(constraint(Some("api_key_console_id_fkey"), ConstraintKind::ForeignKey));
    assert!(matches!(e, ConsoleError::Forbidden));
    let e = ConsoleError::from(constraint(Some("api_key_secret_unique"), ConstraintKind::UniqueKey));
    assert!(matches!(e, ConsoleError::Duplicate));
    let e = ConsoleError::from(constraint(Some("api_key_pkey"), ConstraintKind::PrimaryKey));
    assert!(matches!(e, ConsoleError::Duplicate));
    let e = ConsoleError::from(constraint(Some("api_key_pkey"), ConstraintKind::ForeignKey));
    assert!(matches!(e, ConsoleError::Unexpected(_)));
    let e = ConsoleError::from(constraint(None, ConstraintKind::ForeignKey));
    assert!(matches!(e, ConsoleError::Unexpected(_)));
    let e = ConsoleError::from(DbError::Other { message: "connection reset".to_owned() });
    assert!(matches!(e, ConsoleError::Unexpected(_)));
}

#[test]
fn console_responses() {
    let r = ConsoleError::NotFound { what: "console".to_owned() }.into_response();
    assert_eq!(r.status, 404);
    assert_eq!(text(&r.body), Some("Not found: console"));
    let r = ConsoleError::InvalidInput { what: "label".to_owned() }.into_response();
    assert_eq!(r.status, 422);
    assert_eq!(text(&r.body), Some("Invalid input: label"));
    assert_eq!(ConsoleError::Forbidden.into_response().status, 403);
    assert_eq!(ConsoleError::Duplicate.into_response().status, 500);
    let wrapped = ConsoleError::Unexpected(Unexpected::Database(constraint(
        Some("api_key_console_id_fkey"),
        ConstraintKind::ForeignKey,
    )));
    assert_eq!(wrapped.into_response().status, 403);
    let r = ConsoleError::Unexpected(Unexpected::Other("io".to_owned())).into_response();
    assert_eq!(r.status, 500);
    assert!(matches!(r.body, ResponseBody::Empty));
}

#[test]
fn admin_reclassifies_and_responds() {
    assert!(matches!(
        AdminError::from_db(constraint(Some("challenge_width_check"), ConstraintKind::ValueRange)),
        AdminError::InvalidDimensions
    ));
    match AdminError::from_db(constraint(Some("challenge_pkey"), ConstraintKind::PrimaryKey)) {
        AdminError::NotUnique { what } => assert_eq!(what, "Challenge url"),
        _ => panic!("a taken challenge key is not unique"),
    }
    assert!(matches!(
        AdminError::from_db(constraint(Some("other_pkey"), ConstraintKind::PrimaryKey)),
        AdminError::Unexpected(_)
    ));
    let r = AdminError::Unexpected(Unexpected::Database(constraint(Some("challenge_pkey"), ConstraintKind::PrimaryKey)))
        .into_response();
    assert_eq!(r.status, 409);
    assert_eq!(text(&r.body), Some("Challenge url resource already exists"));
    let r = AdminError::NotFound("https://x.test/".to_owned()).into_response();
    assert_eq!(r.status, 404);
    assert_eq!(text(&r.body), Some("Challenge not found: url('https://x.test/')"));
    assert_eq!(AdminError::InvalidUrl.into_response().status, 400);
    assert_eq!(AdminError::InvalidDimensions.into_response().status, 422);
    assert_eq!(AdminError::Unauthorized("missing header".to_owned()).into_response().status, 401);
    assert_eq!(AdminError::Unexpected(Unexpected::Other("x".to_owned())).into_response().status, 500);
}

#[test]
fn challenge_responses() {
    let r = ChallengeError::InvalidKey.into_response();
    assert_eq!((r.status, text(&r.body)), (403, Some("Invalid key")));
    assert_eq!(ChallengeError::InvalidOrigin.into_response().status, 422);
    let r = ChallengeError::InvalidProofOfWork(TokenError::ExpiredSignature).into_response();
    assert_eq!((r.status, text(&r.body)), (400, Some("Invalid proof of work challenge")));
    let r = ChallengeError::FailedProofOfWork.into_response();
    assert_eq!((r.status, text(&r.body)), (400, Some("Failed proof of work challenge")));
    assert_eq!(ChallengeError::NoMatchingChallenge.into_response().status, 404);
    assert_eq!(ChallengeError::DomainNotAllowed.into_response().status, 403);
    let db = constraint(Some("api_key_console_id_fkey"), ConstraintKind::ForeignKey);
    let r = ChallengeError::from_db(db).into_response();
    assert_eq!(r.status, 500);
    assert!(matches!(r.body, ResponseBody::Empty));
}

#[test]
fn verification_responses() {
    let r = VerificationError::BadRequest("bad form".to_owned()).into_response();
    assert_eq!(r.status, 200);
    match r.body {
        ResponseBody::Verification(v) => {
            assert!(!v.success);
            assert_eq!(v.error_codes, vec![ErrorCode::BadRequest]);
        },
        _ => panic!("a bad form is answered with a verification failure"),
    }
    let user = VerificationResponse::failure(vec![ErrorCode::InvalidInputResponse]);
    match VerificationError::UserError(user).into_response().body {
        ResponseBody::Verification(v) => assert_eq!(v.error_codes, vec![ErrorCode::InvalidInputResponse]),
        _ => panic!("a user error is answered as is"),
    }
    let r = VerificationError::from_db(DbError::Other { message: "x".to_owned() }).into_response();
    assert_eq!(r.status, 500);
}
