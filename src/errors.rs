//! Per-context error enumerations, the reclassification of storage
//! constraint failures, and the status and body each error is answered with.
use vstd::prelude::*;

use crate::text::text_eq;
use crate::tokens::TokenError;

verus! {

pub const STATUS_OK: u16 = 200;
pub const STATUS_BAD_REQUEST: u16 = 400;
pub const STATUS_UNAUTHORIZED: u16 = 401;
pub const STATUS_FORBIDDEN: u16 = 403;
pub const STATUS_NOT_FOUND: u16 = 404;
pub const STATUS_CONFLICT: u16 = 409;
pub const STATUS_UNPROCESSABLE_ENTITY: u16 = 422;
pub const STATUS_INTERNAL_SERVER_ERROR: u16 = 500;

/// The kind of storage constraint that a write violated.
#[derive(PartialEq, Eq, Structural, Debug, Clone, Copy)]
pub enum ConstraintKind {
    PrimaryKey,
    UniqueKey,
    ForeignKey,
    ValueRange,
}

/// A storage failure as it reaches the protocol layer.
#[derive(Debug, Clone)]
pub enum DbError {
    /// A constraint was violated; `constraint` is its name where storage gave one.
    Constraint { constraint: Option<String>, kind: ConstraintKind },
    /// Any other storage failure.
    Other { message: String },
}

/// A lower-layer failure carried by the catch-all variants.
#[derive(Debug, Clone)]
pub enum Unexpected {
    Database(DbError),
    Other(String),
}

/// Whether storage named the violated constraint `name`.
pub open spec fn names(constraint: Option<String>, name: Seq<char>) -> bool {
    constraint matches Some(c) && c@ == name
}

fn is_named(constraint: &Option<String>, name: &str) -> (r: bool)
    ensures
        r == names(*constraint, name@),
{
    match constraint {
        Some(c) => text_eq(c.as_str(), name),
        None => false,
    }
}

/// What a failed request is answered with.
#[derive(Debug, Clone)]
pub struct ErrorResponse {
    pub status: u16,
    pub body: ResponseBody,
}

#[derive(Debug, Clone)]
pub enum ResponseBody {
    Empty,
    Text(String),
    Verification(VerificationResponse),
}

impl ResponseBody {
    /// The text of a plain-text body.
    pub open spec fn text(&self) -> Option<Seq<char>> {
        match self {
            ResponseBody::Text(t) => Some(t@),
            _ => None,
        }
    }
}

/// Machine-readable reasons in a verification answer.
#[derive(PartialEq, Eq, Structural, Debug, Clone, Copy)]
pub enum ErrorCode {
    MissingInputSecret,
    InvalidInputSecret,
    MissingInputResponse,
    InvalidInputResponse,
    BadRequest,
    TimeoutOrDuplicate,
}

impl ErrorCode {
    pub open spec fn code_spec(&self) -> Seq<char> {
        match self {
            ErrorCode::MissingInputSecret => "missing-input-secret"@,
            ErrorCode::InvalidInputSecret => "invalid-input-secret"@,
            ErrorCode::MissingInputResponse => "missing-input-response"@,
            ErrorCode::InvalidInputResponse => "invalid-input-response"@,
            ErrorCode::BadRequest => "bad-request"@,
            ErrorCode::TimeoutOrDuplicate => "timeout-or-duplicate"@,
        }
    }

    /// The reason's name on the wire.
    pub fn code(&self) -> (r: &'static str)
        ensures
            r@ == self.code_spec(),
    {
        match self {
            ErrorCode::MissingInputSecret => "missing-input-secret",
            ErrorCode::InvalidInputSecret => "invalid-input-secret",
            ErrorCode::MissingInputResponse => "missing-input-response",
            ErrorCode::InvalidInputResponse => "invalid-input-response",
            ErrorCode::BadRequest => "bad-request",
            ErrorCode::TimeoutOrDuplicate => "timeout-or-duplicate",
        }
    }
}

/// The structured answer of the verification endpoint.
#[derive(Debug, Clone)]
pub struct VerificationResponse {
    pub success: bool,
    pub error_codes: Vec<ErrorCode>,
}

impl VerificationResponse {
    /// A failed verification with the given reasons.
    pub fn failure(error_codes: Vec<ErrorCode>) -> (r: Self)
        ensures
            !r.success,
            r.error_codes@ == error_codes@,
    {
        VerificationResponse { success: false, error_codes }
    }
}

fn text_response(status: u16, text: &str) -> (r: ErrorResponse)
    ensures
        r.status == status,
        r.body.text() == Some(text@),
{
    ErrorResponse { status, body: ResponseBody::Text(text.to_owned()) }
}

fn empty_response(status: u16) -> (r: ErrorResponse)
    ensures
        r.status == status,
        r.body is Empty,
{
    ErrorResponse { status, body: ResponseBody::Empty }
}

fn server_fault() -> (r: ErrorResponse)
    ensures
        r.status == STATUS_INTERNAL_SERVER_ERROR,
        r.body is Empty,
{
    empty_response(STATUS_INTERNAL_SERVER_ERROR)
}

// ---------------------------------------------------------------- challenge

/// Errors regarding challenge operations.
#[derive(Debug, Clone)]
pub enum ChallengeError {
    InvalidKey,
    InvalidOrigin,
    InvalidProofOfWork(TokenError),
    FailedProofOfWork,
    NoMatchingChallenge,
    DomainNotAllowed,
    Unexpected(Unexpected),
}

impl ChallengeError {
    pub open spec fn message_spec(&self) -> Seq<char> {
        match self {
            ChallengeError::InvalidKey => "Invalid key"@,
            ChallengeError::InvalidOrigin => "Invalid origin header"@,
            ChallengeError::InvalidProofOfWork(_) => "Invalid proof of work challenge"@,
            ChallengeError::FailedProofOfWork => "Failed proof of work challenge"@,
            ChallengeError::NoMatchingChallenge => "No matching challenge"@,
            ChallengeError::DomainNotAllowed =>
                "Domain not allowed, add this domain to the list of allowed domains"@,
            ChallengeError::Unexpected(_) => "Unexpected error"@,
        }
    }

    /// The human-readable, non-leaking message.
    pub fn message(&self) -> (r: String)
        ensures
            r@ == self.message_spec(),
    {
        match self {
            ChallengeError::InvalidKey => "Invalid key".to_owned(),
            ChallengeError::InvalidOrigin => "Invalid origin header".to_owned(),
            ChallengeError::InvalidProofOfWork(_) => "Invalid proof of work challenge".to_owned(),
            ChallengeError::FailedProofOfWork => "Failed proof of work challenge".to_owned(),
            ChallengeError::NoMatchingChallenge => "No matching challenge".to_owned(),
            ChallengeError::DomainNotAllowed =>
                "Domain not allowed, add this domain to the list of allowed domains".to_owned(),
            ChallengeError::Unexpected(_) => "Unexpected error".to_owned(),
        }
    }

    /// The status the error is answered with.
    pub open spec fn status_spec(&self) -> u16 {
        match self {
            ChallengeError::InvalidKey => STATUS_FORBIDDEN,
            ChallengeError::InvalidOrigin => STATUS_UNPROCESSABLE_ENTITY,
            ChallengeError::InvalidProofOfWork(_) => STATUS_BAD_REQUEST,
            ChallengeError::FailedProofOfWork => STATUS_BAD_REQUEST,
            ChallengeError::NoMatchingChallenge => STATUS_NOT_FOUND,
            ChallengeError::DomainNotAllowed => STATUS_FORBIDDEN,
            ChallengeError::Unexpected(_) => STATUS_INTERNAL_SERVER_ERROR,
        }
    }

    /// Storage failures stay unexpected in this context.
    pub fn from_db(db_err: DbError) -> (r: Self)
        ensures
            r == ChallengeError::Unexpected(Unexpected::Database(db_err)),
    {
        ChallengeError::Unexpected(Unexpected::Database(db_err))
    }

    /// The answer: a status with the message, or a bare server fault for
    /// anything unexpected.
    pub fn into_response(self) -> (r: ErrorResponse)
        ensures
            r.status == self.status_spec(),
            self is Unexpected ==> r.body is Empty,
            !(self is Unexpected) ==> r.body.text() == Some(self.message_spec()),
    {
        match self {
            ChallengeError::Unexpected(_) => server_fault(),
            other => {
                let m = other.message();
                text_response(other.status(), m.as_str())
            }
        }
    }

    fn status(&self) -> (r: u16)
        ensures
            r == self.status_spec(),
    {
        match self {
            ChallengeError::InvalidKey => STATUS_FORBIDDEN,
            ChallengeError::InvalidOrigin => STATUS_UNPROCESSABLE_ENTITY,
            ChallengeError::InvalidProofOfWork(_) => STATUS_BAD_REQUEST,
            ChallengeError::FailedProofOfWork => STATUS_BAD_REQUEST,
            ChallengeError::NoMatchingChallenge => STATUS_NOT_FOUND,
            ChallengeError::DomainNotAllowed => STATUS_FORBIDDEN,
            ChallengeError::Unexpected(_) => STATUS_INTERNAL_SERVER_ERROR,
        }
    }
}

// ------------------------------------------------------------------ console

/// Errors regarding console operations.
#[derive(Debug, Clone)]
pub enum ConsoleError {
    NotFound { what: String },
    Forbidden,
    Duplicate,
    InvalidInput { what: String },
    Unexpected(Unexpected),
}

impl ConsoleError {
    /// How a storage failure is classified in this context: a broken
    /// console reference is forbidden, a colliding key is a duplicate, the
    /// rest stays unexpected.
    pub open spec fn from_db_spec(db_err: DbError) -> ConsoleError {
        match db_err {
            DbError::Constraint { constraint, kind } =>
                if kind == ConstraintKind::ForeignKey && names(constraint, "api_key_console_id_fkey"@) {
                    ConsoleError::Forbidden
                } else if (kind == ConstraintKind::PrimaryKey || kind == ConstraintKind::UniqueKey)
                    && (names(constraint, "api_key_secret_unique"@) || names(constraint, "api_key_pkey"@)) {
                    ConsoleError::Duplicate
                } else {
                    ConsoleError::Unexpected(Unexpected::Database(db_err))
                },
            DbError::Other { .. } => ConsoleError::Unexpected(Unexpected::Database(db_err)),
        }
    }

    pub open spec fn message_spec(&self) -> Seq<char> {
        match self {
            ConsoleError::NotFound { what } => "Not found: "@ + what@,
            ConsoleError::Forbidden => "Access forbidden"@,
            ConsoleError::Duplicate => "Duplicate"@,
            ConsoleError::InvalidInput { what } => "Invalid input: "@ + what@,
            ConsoleError::Unexpected(_) => "Unexpected error"@,
        }
    }

    /// The human-readable, non-leaking message.
    pub fn message(&self) -> (r: String)
        ensures
            r@ == self.message_spec(),
    {
        match self {
            ConsoleError::NotFound { what } => "Not found: ".to_owned().concat(what.as_str()),
            ConsoleError::Forbidden => "Access forbidden".to_owned(),
            ConsoleError::Duplicate => "Duplicate".to_owned(),
            ConsoleError::InvalidInput { what } => "Invalid input: ".to_owned().concat(what.as_str()),
            ConsoleError::Unexpected(_) => "Unexpected error".to_owned(),
        }
    }

    /// The answer of an error that is not a catch-all.
    pub open spec fn direct_status(&self) -> u16 {
        match self {
            ConsoleError::NotFound { .. } => STATUS_NOT_FOUND,
            ConsoleError::Forbidden => STATUS_FORBIDDEN,
            ConsoleError::InvalidInput { .. } => STATUS_UNPROCESSABLE_ENTITY,
            _ => STATUS_INTERNAL_SERVER_ERROR,
        }
    }

    pub open spec fn direct_text(&self) -> Option<Seq<char>> {
        match self {
            ConsoleError::NotFound { .. } => Some(self.message_spec()),
            ConsoleError::InvalidInput { .. } => Some(self.message_spec()),
            _ => None,
        }
    }

    /// The error a response is made from: a storage failure is classified
    /// first.
    pub open spec fn classified(&self) -> ConsoleError {
        match self {
            ConsoleError::Unexpected(Unexpected::Database(db)) => ConsoleError::from_db_spec(*db),
            _ => *self,
        }
    }

    fn direct_response(&self) -> (r: ErrorResponse)
        ensures
            r.status == self.direct_status(),
            r.body.text() == self.direct_text(),
            self.direct_text() is None ==> r.body is Empty,
    {
        match self {
            ConsoleError::NotFound { .. } => {
                let m = self.message();
                text_response(STATUS_NOT_FOUND, m.as_str())
            },
            ConsoleError::Forbidden => empty_response(STATUS_FORBIDDEN),
            ConsoleError::InvalidInput { .. } => {
                let m = self.message();
                text_response(STATUS_UNPROCESSABLE_ENTITY, m.as_str())
            },
            _ => server_fault(),
        }
    }

    /// The answer: storage failures are classified first; what stays
    /// unexpected, and a duplicate, is a bare server fault.
    pub fn into_response(self) -> (r: ErrorResponse)
        ensures
            r.status == self.classified().direct_status(),
            r.body.text() == self.classified().direct_text(),
            self.classified().direct_text() is None ==> r.body is Empty,
    {
        match self {
            ConsoleError::Unexpected(Unexpected::Database(db)) => {
                let e = ConsoleError::from(db);
                e.direct_response()
            },
            other => other.direct_response(),
        }
    }
}

impl From<DbError> for ConsoleError {
    fn from(db_err: DbError) -> (r: ConsoleError) {
        let forbidden = match &db_err {
            DbError::Constraint { constraint, kind } => *kind == ConstraintKind::ForeignKey
                && is_named(constraint, "api_key_console_id_fkey"),
            DbError::Other { .. } => false,
        };
        if forbidden {
            return ConsoleError::Forbidden;
        }
        let duplicate = match &db_err {
            DbError::Constraint { constraint, kind } => (*kind == ConstraintKind::PrimaryKey
                || *kind == ConstraintKind::UniqueKey) && (is_named(constraint, "api_key_secret_unique")
                || is_named(constraint, "api_key_pkey")),
            DbError::Other { .. } => false,
        };
        if duplicate {
            return ConsoleError::Duplicate;
        }
        ConsoleError::Unexpected(Unexpected::Database(db_err))
    }
}

impl vstd::std_specs::convert::FromSpecImpl<DbError> for ConsoleError {
    open spec fn obeys_from_spec() -> bool {
        true
    }

    open spec fn from_spec(v: DbError) -> ConsoleError {
        ConsoleError::from_db_spec(v)
    }
}

// -------------------------------------------------------------------- admin

/// Errors regarding admin operations.
#[derive(Debug, Clone)]
pub enum AdminError {
    NotUnique { what: String },
    InvalidDimensions,
    InvalidUrl,
    NotFound(String),
    /// The credentials header was missing or refused; carries its message.
    Unauthorized(String),
    Unexpected(Unexpected),
}

impl AdminError {
    /// How a storage failure is classified in this context: a range
    /// violation is bad dimensions, a taken challenge key is not unique, the
    /// rest stays unexpected.
    pub open spec fn classifies(db_err: DbError, r: AdminError) -> bool {
        match db_err {
            DbError::Constraint { constraint, kind } =>
                if kind == ConstraintKind::ValueRange {
                    r == AdminError::InvalidDimensions
                } else if kind == ConstraintKind::PrimaryKey && names(constraint, "challenge_pkey"@) {
                    r matches AdminError::NotUnique { what } && what@ == "Challenge url"@
                } else {
                    r == AdminError::Unexpected(Unexpected::Database(db_err))
                },
            DbError::Other { .. } => r == AdminError::Unexpected(Unexpected::Database(db_err)),
        }
    }

    pub fn from_db(db_err: DbError) -> (r: AdminError)
        ensures
            AdminError::classifies(db_err, r),
    {
        let range = match &db_err {
            DbError::Constraint { kind, .. } => *kind == ConstraintKind::ValueRange,
            DbError::Other { .. } => false,
        };
        if range {
            return AdminError::InvalidDimensions;
        }
        let taken = match &db_err {
            DbError::Constraint { constraint, kind } => *kind == ConstraintKind::PrimaryKey
                && is_named(constraint, "challenge_pkey"),
            DbError::Other { .. } => false,
        };
        if taken {
            return AdminError::NotUnique { what: "Challenge url".to_owned() };
        }
        AdminError::Unexpected(Unexpected::Database(db_err))
    }

    pub open spec fn message_spec(&self) -> Seq<char> {
        match self {
            AdminError::NotUnique { what } => what@ + " resource already exists"@,
            AdminError::InvalidDimensions =>
                "Dimensions out of range: width and height must be greater than 0"@,
            AdminError::InvalidUrl => "Could not parse URL"@,
            AdminError::NotFound(url) => "Challenge not found: url('"@ + url@ + "')"@,
            AdminError::Unauthorized(message) => message@,
            AdminError::Unexpected(_) => "Unexpected error"@,
        }
    }

    /// The human-readable, non-leaking message.
    pub fn message(&self) -> (r: String)
        ensures
            r@ == self.message_spec(),
    {
        match self {
            AdminError::NotUnique { what } => what.clone().concat(" resource already exists"),
            AdminError::InvalidDimensions =>
                "Dimensions out of range: width and height must be greater than 0".to_owned(),
            AdminError::InvalidUrl => "Could not parse URL".to_owned(),
            AdminError::NotFound(url) =>
                "Challenge not found: url('".to_owned().concat(url.as_str()).concat("')"),
            AdminError::Unauthorized(message) => message.clone(),
            AdminError::Unexpected(_) => "Unexpected error".to_owned(),
        }
    }

    /// The status of an error that is not a catch-all.
    pub open spec fn direct_status(&self) -> u16 {
        match self {
            AdminError::NotUnique { .. } => STATUS_CONFLICT,
            AdminError::InvalidDimensions => STATUS_UNPROCESSABLE_ENTITY,
            AdminError::InvalidUrl => STATUS_BAD_REQUEST,
            AdminError::NotFound(_) => STATUS_NOT_FOUND,
            AdminError::Unauthorized(_) => STATUS_UNAUTHORIZED,
            AdminError::Unexpected(_) => STATUS_INTERNAL_SERVER_ERROR,
        }
    }

    fn direct_response(&self) -> (r: ErrorResponse)
        ensures
            r.status == self.direct_status(),
            self is Unexpected ==> r.body is Empty,
            !(self is Unexpected) ==> r.body.text() == Some(self.message_spec()),
    {
        match self {
            AdminError::Unexpected(_) => server_fault(),
            AdminError::NotUnique { .. } => {
                let m = self.message();
                text_response(STATUS_CONFLICT, m.as_str())
            },
            AdminError::InvalidDimensions => {
                let m = self.message();
                text_response(STATUS_UNPROCESSABLE_ENTITY, m.as_str())
            },
            AdminError::InvalidUrl => {
                let m = self.message();
                text_response(STATUS_BAD_REQUEST, m.as_str())
            },
            AdminError::NotFound(_) => {
                let m = self.message();
                text_response(STATUS_NOT_FOUND, m.as_str())
            },
            AdminError::Unauthorized(_) => {
                let m = self.message();
                text_response(STATUS_UNAUTHORIZED, m.as_str())
            },
        }
    }

    /// The answer: a storage failure is classified first and answered as
    /// what it was classified to; what stays unexpected is a bare server
    /// fault.
    pub fn into_response(self) -> (r: ErrorResponse)
        ensures
            !(self is Unexpected) ==> r.status == self.direct_status() && r.body.text() == Some(
                self.message_spec(),
            ),
            self matches AdminError::Unexpected(Unexpected::Other(_)) ==> r.status
                == STATUS_INTERNAL_SERVER_ERROR && r.body is Empty,
            self matches AdminError::Unexpected(Unexpected::Database(db)) ==> exists|e: AdminError|
                #[trigger] AdminError::classifies(db, e) && r.status == e.direct_status() && (
                e is Unexpected ==> r.body is Empty) && (!(e is Unexpected) ==> r.body.text()
                == Some(e.message_spec())),
    {
        match self {
            AdminError::Unexpected(Unexpected::Database(db)) => {
                let e = AdminError::from_db(db);
                e.direct_response()
            },
            other => other.direct_response(),
        }
    }
}

// ------------------------------------------------------------- verification

/// Errors regarding verification operations.
#[derive(Debug, Clone)]
pub enum VerificationError {
    /// A verification that failed for a reason the caller is told.
    UserError(VerificationResponse),
    /// The request form could not be read; carries the rejection's message.
    BadRequest(String),
    Unexpected(Unexpected),
}

impl VerificationError {
    /// Storage failures stay unexpected in this context.
    pub fn from_db(db_err: DbError) -> (r: Self)
        ensures
            r == VerificationError::Unexpected(Unexpected::Database(db_err)),
    {
        VerificationError::Unexpected(Unexpected::Database(db_err))
    }

    /// The answer: a structured failure for the caller's own errors (a bad
    /// form as the reason `BadRequest`), a bare server fault otherwise.
    pub fn into_response(self) -> (r: ErrorResponse)
        ensures
            self matches VerificationError::UserError(v) ==> r.status == STATUS_OK && (
            r.body matches ResponseBody::Verification(b) && b.success == v.success
                && b.error_codes@ == v.error_codes@),
            self is BadRequest ==> r.status == STATUS_OK && (r.body matches
                ResponseBody::Verification(b) && !b.success && b.error_codes@ == seq![
                ErrorCode::BadRequest]),
            self is Unexpected ==> r.status == STATUS_INTERNAL_SERVER_ERROR && r.body is Empty,
    {
        match self {
            VerificationError::UserError(v) => ErrorResponse {
                status: STATUS_OK,
                body: ResponseBody::Verification(v),
            },
            VerificationError::BadRequest(_) => {
                let codes = vec![ErrorCode::BadRequest];
                ErrorResponse {
                    status: STATUS_OK,
                    body: ResponseBody::Verification(VerificationResponse::failure(codes)),
                }
            },
            VerificationError::Unexpected(_) => server_fault(),
        }
    }
}

} // verus!
