//! Claims, validation rules and the signed-token codec.
use vstd::prelude::*;

pub mod auth;
pub mod jwt;
pub mod pow_challenge;
pub mod response;


verus! {

/// Why a token was refused.
#[derive(PartialEq, Eq, Structural, Debug, Clone, Copy)]
pub enum TokenError {
    /// The token is not three dot-separated segments of valid encoded text,
    /// or its payload is not the expected claims shape.
    Malformed,
    /// The header names another algorithm than the one expected.
    InvalidAlgorithm,
    /// The key material could not be turned into a key.
    InvalidKey,
    /// The signature does not match header and payload under the key.
    InvalidSignature,
    /// A claim that the validation rules require is absent.
    MissingRequiredClaim(Claim),
    /// The token's expiry lies in the past.
    ExpiredSignature,
    /// None of the token's audiences is an accepted one.
    InvalidAudience,
}

/// The registered claims that validation rules may require.
#[derive(PartialEq, Eq, Structural, Debug, Clone, Copy)]
pub enum Claim {
    Exp,
    Aud,
    Iss,
    Sub,
}

/// Signing algorithms in use: RSA for service authentication tokens, HMAC
/// for tenant-keyed tokens.
#[derive(PartialEq, Eq, Structural, Debug, Clone, Copy)]
pub enum Algorithm {
    HS256,
    RS256,
}

/// Default lifetime of time-bound claims, in seconds.
pub const TIMEOUT_SECS: u64 = 30;

/// The audience that authentication tokens must name.
pub open spec fn service_audience() -> Seq<char> {
    "https://gotcha.land/"@
}

/// Relies on `time::OffsetDateTime::now_utc` and `unix_timestamp`: the
/// current time in whole seconds since the Unix epoch (a time before the
/// epoch reads as zero). Nothing is known of its value.
#[verifier::external_body]
pub(crate) fn now_unix() -> (r: u64) {
    u64::try_from(time::OffsetDateTime::now_utc().unix_timestamp()).unwrap_or(0)
}

/// The rules a token's registered claims are checked against.
#[derive(Debug, Clone)]
pub struct Validation {
    pub algorithm: Algorithm,
    pub require_exp: bool,
    pub require_iss: bool,
    pub require_sub: bool,
    pub require_aud: bool,
    pub validate_exp: bool,
    /// Seconds of tolerance past the expiry.
    pub leeway: u64,
    pub validate_aud: bool,
    /// Accepted audiences; a token must name one of them when audience
    /// validation is on and the list is not empty.
    pub aud: Vec<String>,
}

impl Validation {
    /// The default rules for `algorithm`: an expiry is required and checked
    /// with a minute of leeway, audiences are checked once some are set.
    pub fn new(algorithm: Algorithm) -> (r: Validation)
        ensures
            r.algorithm == algorithm,
            r.require_exp,
            !r.require_iss && !r.require_sub && !r.require_aud,
            r.validate_exp,
            r.leeway == 60,
            r.validate_aud,
            r.aud@.len() == 0,
    {
        Validation {
            algorithm,
            require_exp: true,
            require_iss: false,
            require_sub: false,
            require_aud: false,
            validate_exp: true,
            leeway: 60,
            validate_aud: true,
            aud: Vec::new(),
        }
    }
}

/// The registered claims of a token, as far as validation reads them.
#[derive(Debug, Clone)]
pub struct RegisteredClaims {
    pub exp: Option<u64>,
    pub iss: Option<String>,
    pub sub: Option<String>,
    pub aud: Option<Vec<String>>,
}

/// What validation reads of a token's registered claims.
pub struct ClaimsView {
    pub exp: Option<u64>,
    pub iss: Option<Seq<char>>,
    pub sub: Option<Seq<char>>,
    pub aud: Option<Seq<Seq<char>>>,
}

pub open spec fn opt_text(o: Option<String>) -> Option<Seq<char>> {
    match o {
        Some(s) => Some(s@),
        None => None,
    }
}

pub open spec fn texts(v: Seq<String>) -> Seq<Seq<char>> {
    v.map_values(|s: String| s@)
}

impl View for RegisteredClaims {
    type V = ClaimsView;

    open spec fn view(&self) -> ClaimsView {
        ClaimsView {
            exp: self.exp,
            iss: opt_text(self.iss),
            sub: opt_text(self.sub),
            aud: match self.aud {
                Some(a) => Some(texts(a@)),
                None => None,
            },
        }
    }
}

/// Whether some audience of `token_aud` is among `accepted`.
pub open spec fn audience_overlaps(token_aud: Seq<Seq<char>>, accepted: Seq<String>) -> bool {
    exists|i: int, j: int|
        0 <= i < token_aud.len() && 0 <= j < accepted.len() && #[trigger] token_aud[i]
            == #[trigger] accepted[j]@
}

/// The outcome of checking `c` against `rules` at time `now`: the first
/// missing required claim (in the order exp, iss, sub, aud), then expiry,
/// then audience.
pub open spec fn validation_outcome(c: ClaimsView, rules: Validation, now: u64) -> Result<
    (),
    TokenError,
> {
    if rules.require_exp && c.exp is None {
        Err(TokenError::MissingRequiredClaim(Claim::Exp))
    } else if rules.require_iss && c.iss is None {
        Err(TokenError::MissingRequiredClaim(Claim::Iss))
    } else if rules.require_sub && c.sub is None {
        Err(TokenError::MissingRequiredClaim(Claim::Sub))
    } else if rules.require_aud && c.aud is None {
        Err(TokenError::MissingRequiredClaim(Claim::Aud))
    } else if rules.validate_exp && c.exp is Some && now > c.exp.unwrap() + rules.leeway {
        Err(TokenError::ExpiredSignature)
    } else if rules.validate_aud && rules.aud@.len() > 0 && !(c.aud is Some
        && audience_overlaps(c.aud.unwrap(), rules.aud@)) {
        Err(TokenError::InvalidAudience)
    } else {
        Ok(())
    }
}

fn overlaps(token_aud: &Vec<String>, accepted: &Vec<String>) -> (r: bool)
    ensures
        r == audience_overlaps(texts(token_aud@), accepted@),
{
    let mut i: usize = 0;
    while i < token_aud.len()
        invariant
            i <= token_aud@.len(),
            forall|a: int, b: int|
                0 <= a < i && 0 <= b < accepted@.len() ==> #[trigger] texts(token_aud@)[a]
                    != #[trigger] accepted@[b]@,
        decreases token_aud@.len() - i,
    {
        let mut j: usize = 0;
        while j < accepted.len()
            invariant
                i < token_aud@.len(),
                j <= accepted@.len(),
                forall|a: int, b: int|
                    0 <= a < i && 0 <= b < accepted@.len() ==> #[trigger] texts(token_aud@)[a]
                        != #[trigger] accepted@[b]@,
                forall|b: int| 0 <= b < j ==> texts(token_aud@)[i as int] != #[trigger] accepted@[b]@,
            decreases accepted@.len() - j,
        {
            if crate::text::text_eq(token_aud[i].as_str(), accepted[j].as_str()) {
                assert(texts(token_aud@)[i as int] == accepted@[j as int]@);
                return true;
            }
            j = j + 1;
        }
        i = i + 1;
    }
    false
}

/// Checks registered claims against validation rules at time `now`.
pub fn validate(c: &RegisteredClaims, rules: &Validation, now: u64) -> (r: Result<(), TokenError>)
    ensures
        r == validation_outcome(c@, *rules, now),
{
    if rules.require_exp && c.exp.is_none() {
        return Err(TokenError::MissingRequiredClaim(Claim::Exp));
    }
    if rules.require_iss && c.iss.is_none() {
        return Err(TokenError::MissingRequiredClaim(Claim::Iss));
    }
    if rules.require_sub && c.sub.is_none() {
        return Err(TokenError::MissingRequiredClaim(Claim::Sub));
    }
    if rules.require_aud && c.aud.is_none() {
        return Err(TokenError::MissingRequiredClaim(Claim::Aud));
    }
    if rules.validate_exp {
        if let Some(exp) = c.exp {
            if now as u128 > exp as u128 + rules.leeway as u128 {
                return Err(TokenError::ExpiredSignature);
            }
        }
    }
    if rules.validate_aud && rules.aud.len() > 0 {
        let ok = match &c.aud {
            Some(a) => overlaps(a, &rules.aud),
            None => false,
        };
        if !ok {
            return Err(TokenError::InvalidAudience);
        }
    }
    Ok(())
}

/// The rules that authentication tokens are checked against.
pub open spec fn is_auth_validation(v: Validation) -> bool {
    &&& v.algorithm == Algorithm::RS256
    &&& v.require_exp && v.require_iss && v.require_sub && v.require_aud
    &&& v.validate_exp && v.leeway == 0
    &&& v.validate_aud && v.aud@.len() == 1 && v.aud@[0]@ == service_audience()
}

/// The validation rules of authentication tokens: the defaults for RS256
/// with the rules of time-bound and of authentication claims added.
pub fn auth_validation() -> (r: Validation)
    ensures
        is_auth_validation(r),
{
    let mut v = Validation::new(Algorithm::RS256);
    AuthClaims::<()>::build_validation(&mut v);
    TimeClaims::<()>::build_validation(&mut v);
    v
}

/// Whether `aud` names the service's own audience.
pub open spec fn names_service(aud: Seq<Seq<char>>) -> bool {
    exists|i: int| 0 <= i < aud.len() && #[trigger] aud[i] == service_audience()
}

/// A token whose audiences do not include the service's own is refused
/// with an audience error, even when every other check passes.
pub proof fn lemma_foreign_audience_refused(c: ClaimsView, rules: Validation, now: u64)
    requires
        is_auth_validation(rules),
        c.exp matches Some(exp) && now <= exp,
        c.iss is Some && c.sub is Some,
        c.aud matches Some(aud) && !names_service(aud),
    ensures
        validation_outcome(c, rules, now) == Err::<(), TokenError>(TokenError::InvalidAudience),
{
    let aud = c.aud.unwrap();
    if audience_overlaps(aud, rules.aud@) {
        let (i, j) = choose|i: int, j: int|
            0 <= i < aud.len() && 0 <= j < rules.aud@.len() && #[trigger] aud[i]
                == #[trigger] rules.aud@[j]@;
        assert(aud[i] == service_audience());
    }
}

/// Every set of authentication rules judges claims alike.
pub proof fn lemma_auth_rules_agree(c: ClaimsView, v: Validation, w: Validation, now: u64)
    requires
        is_auth_validation(v),
        is_auth_validation(w),
    ensures
        validation_outcome(c, v, now) == validation_outcome(c, w, now),
{
    if c.aud is Some {
        let aud = c.aud.unwrap();
        if audience_overlaps(aud, v.aud@) {
            let (i, j) = choose|i: int, j: int|
                0 <= i < aud.len() && 0 <= j < v.aud@.len() && #[trigger] aud[i]
                    == #[trigger] v.aud@[j]@;
            assert(aud[i] == w.aud@[0]@);
        }
        if audience_overlaps(aud, w.aud@) {
            let (i, j) = choose|i: int, j: int|
                0 <= i < aud.len() && 0 <= j < w.aud@.len() && #[trigger] aud[i]
                    == #[trigger] w.aud@[j]@;
            assert(aud[i] == v.aud@[0]@);
        }
    }
}

/// Claims with expiration and issued-at times, in seconds since the Unix
/// epoch, around a payload.
#[derive(Debug, Clone)]
pub struct TimeClaims<T> {
    exp: u64,
    iat: u64,
    pub other: T,
}

impl<T> TimeClaims<T> {
    pub closed spec fn expires_at(&self) -> u64 {
        self.exp
    }

    pub closed spec fn issued_at_time(&self) -> u64 {
        self.iat
    }

    pub closed spec fn payload(&self) -> T {
        self.other
    }

    /// Claims issued at `now` that expire `timeout` seconds later (at the
    /// largest time when that would overflow).
    pub fn issued_at(now: u64, timeout: u64, other_claims: T) -> (r: Self)
        ensures
            r.issued_at_time() == now,
            r.expires_at() == if now + timeout <= u64::MAX {
                (now + timeout) as u64
            } else {
                u64::MAX
            },
            r.payload() == other_claims,
    {
        TimeClaims { exp: now.saturating_add(timeout), iat: now, other: other_claims }
    }

    /// Claims issued now with the default timeout.
    pub fn new(other_claims: T) -> (r: Self)
        ensures
            r.payload() == other_claims,
            r.expires_at() >= r.issued_at_time(),
            r.issued_at_time() + TIMEOUT_SECS <= u64::MAX ==> r.expires_at() == r.issued_at_time()
                + TIMEOUT_SECS,
    {
        Self::with_timeout(TIMEOUT_SECS, other_claims)
    }

    /// Claims issued now that expire `timeout` seconds later.
    pub fn with_timeout(timeout: u64, other_claims: T) -> (r: Self)
        ensures
            r.payload() == other_claims,
            r.expires_at() >= r.issued_at_time(),
            r.issued_at_time() + timeout <= u64::MAX ==> r.expires_at() == r.issued_at_time()
                + timeout,
    {
        Self::issued_at(now_unix(), timeout, other_claims)
    }

    /// Adds the rules of time-bound claims: an expiry is required and
    /// checked with no leeway.
    pub fn build_validation(validation: &mut Validation)
        ensures
            final(validation).require_exp,
            final(validation).validate_exp,
            final(validation).leeway == 0,
            final(validation).algorithm == old(validation).algorithm,
            final(validation).require_iss == old(validation).require_iss,
            final(validation).require_sub == old(validation).require_sub,
            final(validation).require_aud == old(validation).require_aud,
            final(validation).validate_aud == old(validation).validate_aud,
            final(validation).aud@ == old(validation).aud@,
    {
        validation.require_exp = true;
        validation.validate_exp = true;
        validation.leeway = 0;
    }

    /// The expiration time.
    pub fn exp(&self) -> (r: u64)
        ensures
            r == self.expires_at(),
    {
        self.exp
    }

    /// The issued-at time.
    pub fn iat(&self) -> (r: u64)
        ensures
            r == self.issued_at_time(),
    {
        self.iat
    }
}

/// Authentication claims: audiences, subject and issuer around a payload.
#[derive(Debug, Clone)]
pub struct AuthClaims<T> {
    aud: Vec<String>,
    sub: String,
    iss: String,
    pub other: T,
}

impl<T> AuthClaims<T> {
    pub closed spec fn audiences(&self) -> Seq<String> {
        self.aud@
    }

    pub closed spec fn subject(&self) -> Seq<char> {
        self.sub@
    }

    pub closed spec fn issuer(&self) -> Seq<char> {
        self.iss@
    }

    pub closed spec fn payload(&self) -> T {
        self.other
    }

    pub fn from_parts(aud: Vec<String>, sub: String, iss: String, other: T) -> (r: Self)
        ensures
            r.audiences() == aud@,
            r.subject() == sub@,
            r.issuer() == iss@,
            r.payload() == other,
    {
        AuthClaims { aud, sub, iss, other }
    }

    /// Adds the rules of authentication claims: audience, issuer and subject
    /// are required, and the audience must name this service.
    pub fn build_validation(validation: &mut Validation)
        ensures
            final(validation).require_aud,
            final(validation).require_iss,
            final(validation).require_sub,
            final(validation).validate_aud,
            final(validation).aud@.len() == old(validation).aud@.len() + 1,
            final(validation).aud@.drop_last() == old(validation).aud@,
            final(validation).aud@.last()@ == service_audience(),
            final(validation).algorithm == old(validation).algorithm,
            final(validation).require_exp == old(validation).require_exp,
            final(validation).validate_exp == old(validation).validate_exp,
            final(validation).leeway == old(validation).leeway,
    {
        validation.require_aud = true;
        validation.require_iss = true;
        validation.require_sub = true;
        validation.aud.push("https://gotcha.land/".to_owned());
        validation.validate_aud = true;
    }

    /// The subject claim.
    pub fn sub(&self) -> (r: &str)
        ensures
            r@ == self.subject(),
    {
        self.sub.as_str()
    }

    /// The issuer claim.
    pub fn iss(&self) -> (r: &str)
        ensures
            r@ == self.issuer(),
    {
        self.iss.as_str()
    }

    /// The audience claim.
    pub fn aud(&self) -> (r: &[String])
        ensures
            r@ == self.audiences(),
    {
        self.aud.as_slice()
    }
}

} // verus!
