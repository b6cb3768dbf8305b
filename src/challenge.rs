//! Tenant authorization and the proof-of-work exchange: resolve the tenant
//! of a site key, check the request's origin against its hostnames, issue a
//! puzzle token, and verify a submitted solution.
use vstd::prelude::*;

use crate::encodings::{is_encoding, Base64, DecodeError, Standard, UrlSafe};
use crate::errors::{ChallengeError, ConstraintKind, DbError, Unexpected};
use crate::pow::PowChallenge;
use crate::text::text_eq;
use crate::tokens::jwt::{frames, hs256_signature, signing_input};
use crate::tokens::pow_challenge::{self, is_pow_token, pow_payload, signed_and_current, POW_TIMEOUT_SECS};
use crate::tokens::response::{self, is_response_token, ResponseClaims};
use crate::tokens::pow_challenge::expiry;
use crate::tokens::{TokenError, TIMEOUT_SECS};

verus! {

/// The host of `origin` read as a URL, when it parses and has one.
pub uninterp spec fn url_host(origin: Seq<char>) -> Option<Seq<char>>;

/// Relies on `url::Url::parse` and `Url::host_str`: the host part of the
/// URL, when the text parses and has one.
#[verifier::external_body]
fn host_of(origin: &str) -> (r: Option<String>)
    ensures
        r.is_some() == url_host(origin@).is_some(),
        r matches Some(h) ==> url_host(origin@) == Some(h@),
{
    url::Url::parse(origin).ok().and_then(|u| u.host_str().map(|h| h.to_owned()))
}

/// The origin the service itself answers on.
#[derive(Debug, Clone)]
pub struct ThisOrigin(pub String);

/// An authenticated console user.
#[derive(Debug, Clone)]
pub struct User {
    pub user_id: String,
}

/// The tenant site key a request presented.
pub struct SiteKey(pub Base64<UrlSafe>);

/// The site key header.
pub struct XSiteKey(pub Base64<UrlSafe>);

/// Why a header could not be read.
#[derive(Debug, Clone, Copy, PartialEq, Eq, Structural)]
pub enum HeaderError {
    Missing,
    Invalid(DecodeError),
}

impl XSiteKey {
    /// The header's name.
    pub fn name() -> (r: &'static str)
        ensures
            r@ == "x-site-key"@,
    {
        "x-site-key"
    }

    /// Reads the first value of the header as URL-safe key material.
    pub fn decode(values: Vec<String>) -> (r: Result<XSiteKey, HeaderError>)
        ensures
            values@.len() == 0 ==> r == Err::<XSiteKey, HeaderError>(HeaderError::Missing),
            values@.len() > 0 ==> (r is Ok <==> crate::encodings::is_key_text::<UrlSafe>(values@[0]@)),
            r is Err && values@.len() > 0 ==> r matches Err(HeaderError::Invalid(_)),
            r matches Ok(k) ==> k.0@ == values@[0]@,
    {
        let mut values = values;
        if values.len() == 0 {
            return Err(HeaderError::Missing);
        }
        let first = values.swap_remove(0);
        match Base64::<UrlSafe>::try_from(first) {
            Ok(k) => Ok(XSiteKey(k)),
            Err(e) => Err(HeaderError::Invalid(e)),
        }
    }

    /// The header's value.
    pub fn encode(&self) -> (r: String)
        ensures
            r@ == self.0@,
    {
        self.0.as_str().to_owned()
    }
}

/// What storage holds for a tenant: its signing secret and the hostnames it
/// registered.
pub struct TenantRecord {
    pub secret: Base64<Standard>,
    pub hostnames: Vec<String>,
}

/// How a tenant lookup turns into an authorization outcome: an unknown or
/// revoked key, and a broken console reference, are forbidden; other
/// storage failures stay unexpected.
pub open spec fn lookup_outcome(lookup: Result<Option<TenantRecord>, DbError>) -> Result<
    TenantRecord,
    ChallengeError,
> {
    match lookup {
        Ok(Some(t)) => Ok(t),
        Ok(None) => Err(ChallengeError::InvalidKey),
        Err(DbError::Constraint { kind: ConstraintKind::ForeignKey, .. }) => Err(
            ChallengeError::InvalidKey,
        ),
        Err(e) => Err(ChallengeError::Unexpected(Unexpected::Database(e))),
    }
}

/// Resolves the tenant that a site key's lookup found.
pub fn authorize(lookup: Result<Option<TenantRecord>, DbError>) -> (r: Result<
    TenantRecord,
    ChallengeError,
>)
    ensures
        r == lookup_outcome(lookup),
{
    match lookup {
        Ok(Some(t)) => Ok(t),
        Ok(None) => Err(ChallengeError::InvalidKey),
        Err(e) => match e {
            DbError::Constraint { kind: ConstraintKind::ForeignKey, .. } => Err(
                ChallengeError::InvalidKey,
            ),
            other => Err(ChallengeError::Unexpected(Unexpected::Database(other))),
        },
    }
}

/// Whether `host` is one of `allowed`.
pub open spec fn host_allowed(host: Seq<char>, allowed: Seq<String>) -> bool {
    exists|i: int| 0 <= i < allowed.len() && #[trigger] allowed[i]@ == host
}

/// The outcome of the origin check: a missing or unreadable origin is
/// invalid, a host that the tenant did not register is not allowed.
pub open spec fn origin_outcome(origin: Option<Seq<char>>, allowed: Seq<String>) -> Result<
    (),
    ChallengeError,
> {
    match origin {
        None => Err(ChallengeError::InvalidOrigin),
        Some(o) => match url_host(o) {
            None => Err(ChallengeError::InvalidOrigin),
            Some(h) => if host_allowed(h, allowed) {
                Ok(())
            } else {
                Err(ChallengeError::DomainNotAllowed)
            },
        },
    }
}

pub open spec fn opt_view(o: Option<String>) -> Option<Seq<char>> {
    match o {
        Some(s) => Some(s@),
        None => None,
    }
}

/// Tells whether `host` is one of `allowed`.
pub fn is_allowed_host(host: &str, allowed: &Vec<String>) -> (r: bool)
    ensures
        r == host_allowed(host@, allowed@),
{
    let mut i: usize = 0;
    while i < allowed.len()
        invariant
            i <= allowed@.len(),
            forall|j: int| 0 <= j < i ==> #[trigger] allowed@[j]@ != host@,
        decreases allowed@.len() - i,
    {
        if text_eq(allowed[i].as_str(), host) {
            return true;
        }
        i = i + 1;
    }
    false
}

/// Checks the request's `Origin` header against the tenant's hostnames.
pub fn check_origin(origin: &Option<String>, allowed: &Vec<String>) -> (r: Result<(), ChallengeError>)
    ensures
        r == origin_outcome(opt_view(*origin), allowed@),
{
    match origin {
        None => Err(ChallengeError::InvalidOrigin),
        Some(o) => match host_of(o.as_str()) {
            None => Err(ChallengeError::InvalidOrigin),
            Some(h) => if is_allowed_host(h.as_str(), allowed) {
                Ok(())
            } else {
                Err(ChallengeError::DomainNotAllowed)
            },
        },
    }
}

/// Checks that a challenge-pool entry belongs to the API key's own console.
pub fn check_pool_owner(key_console: &str, entry_console: &str) -> (r: Result<(), crate::errors::ConsoleError>)
    ensures
        r is Ok <==> key_console@ == entry_console@,
        r is Err ==> r == Err::<(), crate::errors::ConsoleError>(crate::errors::ConsoleError::Forbidden),
{
    if text_eq(key_console, entry_console) {
        Ok(())
    } else {
        Err(crate::errors::ConsoleError::Forbidden)
    }
}

/// `t` is a token, issued at some time for five minutes, for a puzzle of
/// `difficulty` under `secret`.
pub open spec fn issued_pow_token(t: Seq<char>, difficulty: u8, secret: Seq<char>) -> bool {
    exists|now: u64, c: PowChallenge| #[trigger] is_pow_token(
        t,
        expiry(now, POW_TIMEOUT_SECS),
        now,
        c,
        secret,
    ) && c.difficulty == difficulty
}

/// Issues a proof-of-work token for a fresh puzzle of `difficulty`, signed
/// under the tenant's secret and valid for five minutes.
pub fn issue_pow(secret: &Base64<Standard>, difficulty: u8) -> (r: Result<String, ChallengeError>)
    ensures
        secret.wf() ==> r is Ok,
        r matches Ok(t) ==> issued_pow_token(t@, difficulty, secret@),
{
    let challenge = PowChallenge::generate(difficulty);
    match pow_challenge::encode(challenge, secret) {
        Ok(t) => {
            proof {
                let now = choose|now: u64| #[trigger] is_pow_token(
                    t@,
                    expiry(now, POW_TIMEOUT_SECS),
                    now,
                    challenge,
                    secret@,
                );
                assert(is_pow_token(t@, expiry(now, POW_TIMEOUT_SECS), now, challenge, secret@));
            }
            Ok(t)
        },
        Err(_) => Err(ChallengeError::Unexpected(Unexpected::Other("invalid tenant secret".to_owned()))),
    }
}

/// `token` decodes under `secret` at `now` to a puzzle that `solution` does
/// not solve.
pub open spec fn unsolved(token: Seq<char>, secret: Seq<char>, now: u64, solution: u64) -> bool {
    exists|c: PowChallenge| #[trigger] signed_and_current(token, c, secret, now) && !c.accepts(solution)
}

/// Verifies a submitted solution at time `now`. Any failure to decode the
/// token makes the proof of work invalid; a decoded puzzle that the solution
/// does not solve makes it failed.
pub fn verify_pow_at(token: &str, solution: u64, secret: &str, now: u64) -> (r: Result<(), ChallengeError>)
    ensures
        r is Ok ==> exists|c: PowChallenge| #[trigger] signed_and_current(token@, c, secret@, now)
            && c.accepts(solution),
        r is Ok ==> is_encoding::<Standard>(secret@),
        r matches Err(e) ==> (e is InvalidProofOfWork || e is FailedProofOfWork),
        r == Err::<(), ChallengeError>(ChallengeError::FailedProofOfWork) ==> unsolved(
            token@,
            secret@,
            now,
            solution,
        ),
        forall|exp: u64, iat: u64, c: PowChallenge| #[trigger]
            is_pow_token(token@, exp, iat, c, secret@) && is_encoding::<Standard>(secret@)
                && now <= exp ==> (if c.accepts(solution) {
                r is Ok
            } else {
                r == Err::<(), ChallengeError>(ChallengeError::FailedProofOfWork)
            }),
        forall|exp: u64, iat: u64, c: PowChallenge, sig: Seq<char>| #[trigger]
            frames(token@, pow_payload(exp, iat, c), sig) && is_encoding::<Standard>(secret@)
                && now > exp ==> r == Err::<(), ChallengeError>(
                ChallengeError::InvalidProofOfWork(TokenError::ExpiredSignature),
            ),
        forall|exp: u64, iat: u64, c: PowChallenge, sig: Seq<char>| #[trigger]
            frames(token@, pow_payload(exp, iat, c), sig) && is_encoding::<Standard>(secret@)
                && now <= exp && sig != hs256_signature(secret@, signing_input(pow_payload(exp, iat, c)))
                ==> r == Err::<(), ChallengeError>(
                ChallengeError::InvalidProofOfWork(TokenError::InvalidSignature),
            ),
{
    match pow_challenge::decode_at(token, secret, now) {
        Err(e) => Err(ChallengeError::InvalidProofOfWork(e)),
        Ok(c) => {
            if c.is_valid_solution(solution) {
                Ok(())
            } else {
                assert(signed_and_current(token@, c, secret@, now) && !c.accepts(solution));
                Err(ChallengeError::FailedProofOfWork)
            }
        },
    }
}

/// Score given to a request that solved its puzzle.
pub const POW_PASS_SCORE: u8 = 100;

/// Handles a proof-of-work submission at time `now`: the origin is checked
/// first, whatever the solution; then the solution; on success an outcome
/// token with the passing score is signed under the tenant's secret.
pub fn process_pow_at(
    origin: &Option<String>,
    tenant: &TenantRecord,
    token: &str,
    solution: u64,
    now: u64,
) -> (r: Result<String, ChallengeError>)
    ensures
        origin_outcome(opt_view(*origin), tenant.hostnames@) matches Err(e) ==> r == Err::<
            String,
            ChallengeError,
        >(e),
        origin_outcome(opt_view(*origin), tenant.hostnames@) is Ok ==> (r matches Err(e) ==> (
        e is InvalidProofOfWork || e is FailedProofOfWork)),
        r == Err::<String, ChallengeError>(ChallengeError::FailedProofOfWork) ==> origin_outcome(
            opt_view(*origin),
            tenant.hostnames@,
        ) is Ok && unsolved(token@, tenant.secret@, now, solution),
        r matches Ok(t) ==> origin_outcome(opt_view(*origin), tenant.hostnames@) is Ok && (exists|
            c: PowChallenge,
        | #[trigger] signed_and_current(token@, c, tenant.secret@, now) && c.accepts(solution))
            && is_response_token(
            t@,
            expiry(now, TIMEOUT_SECS),
            now,
            (ResponseClaims { score: POW_PASS_SCORE }),
            tenant.secret@,
        ),
        origin_outcome(opt_view(*origin), tenant.hostnames@) is Ok && tenant.secret.wf() ==> forall|
            exp: u64,
            iat: u64,
            c: PowChallenge,
        | #[trigger] is_pow_token(token@, exp, iat, c, tenant.secret@) && now <= exp ==> (if c.accepts(
            solution,
        ) {
            r is Ok
        } else {
            r == Err::<String, ChallengeError>(ChallengeError::FailedProofOfWork)
        }),
        origin_outcome(opt_view(*origin), tenant.hostnames@) is Ok && tenant.secret.wf() ==> forall|
            exp: u64,
            iat: u64,
            c: PowChallenge,
            sig: Seq<char>,
        | #[trigger] frames(token@, pow_payload(exp, iat, c), sig) && now > exp ==> r == Err::<
            String,
            ChallengeError,
        >(ChallengeError::InvalidProofOfWork(TokenError::ExpiredSignature)),
{
    match check_origin(origin, &tenant.hostnames) {
        Err(e) => return Err(e),
        Ok(()) => {},
    }
    match verify_pow_at(token, solution, tenant.secret.as_str(), now) {
        Err(e) => return Err(e),
        Ok(()) => {},
    }
    let claims = ResponseClaims { score: POW_PASS_SCORE };
    match response::encode_at(claims, tenant.secret.as_str(), now, TIMEOUT_SECS) {
        Ok(t) => Ok(t),
        Err(_) => Err(ChallengeError::Unexpected(Unexpected::Other("invalid tenant secret".to_owned()))),
    }
}

} // verus!
