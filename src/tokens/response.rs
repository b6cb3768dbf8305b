//! Outcome tokens: a score inside time-bound claims, signed with HS256 under
//! the tenant's secret, for the operator's backend to check.
use vstd::prelude::*;

use crate::encodings::{is_encoding, Standard};
use crate::text::{decimal, decimal_text};
use crate::tokens::jwt::{framable, hs256_token, sign_hs256};
use crate::tokens::pow_challenge::expiry;
use crate::tokens::{now_unix, TimeClaims, TokenError, TIMEOUT_SECS};

verus! {

/// The payload of an outcome token: a score from 0 (bot) to 100 (human).
#[derive(Debug, Clone, Copy, PartialEq, Eq, Structural)]
pub struct ResponseClaims {
    pub score: u8,
}

/// The claims text of an outcome token.
pub open spec fn response_payload(exp: u64, iat: u64, c: ResponseClaims) -> Seq<char> {
    "{\"exp\":"@ + decimal(exp as nat) + ",\"iat\":"@ + decimal(iat as nat) + ",\"score\":"@
        + decimal(c.score as nat) + "}"@
}

/// `token` is the outcome token for these claims under `secret`.
pub open spec fn is_response_token(
    token: Seq<char>,
    exp: u64,
    iat: u64,
    c: ResponseClaims,
    secret: Seq<char>,
) -> bool {
    token == hs256_token(response_payload(exp, iat, c), secret) && framable(
        response_payload(exp, iat, c),
    )
}

fn render_response_payload(exp: u64, iat: u64, c: ResponseClaims) -> (r: String)
    ensures
        r@ == response_payload(exp, iat, c),
{
    let mut s = "{\"exp\":".to_owned();
    s.append(decimal_text(exp).as_str());
    s.append(",\"iat\":");
    s.append(decimal_text(iat).as_str());
    s.append(",\"score\":");
    s.append(decimal_text(c.score as u64).as_str());
    s.append("}");
    s
}

/// Signs `claims` in time-bound claims issued at `now` that expire `timeout`
/// seconds later.
pub fn encode_at(claims: ResponseClaims, enc_key_b64: &str, now: u64, timeout: u64) -> (r: Result<
    String,
    TokenError,
>)
    ensures
        r is Ok <==> is_encoding::<Standard>(enc_key_b64@),
        r matches Ok(t) ==> is_response_token(t@, expiry(now, timeout), now, claims, enc_key_b64@),
        r is Err ==> r == Err::<String, TokenError>(TokenError::InvalidKey),
{
    let time = TimeClaims::issued_at(now, timeout, claims);
    let payload = render_response_payload(time.exp(), time.iat(), claims);
    sign_hs256(payload.as_str(), enc_key_b64)
}

/// Signs `claims` in time-bound claims issued now with the default timeout.
pub fn encode(claims: ResponseClaims, enc_key_b64: &str) -> (r: Result<String, TokenError>)
    ensures
        r is Ok <==> is_encoding::<Standard>(enc_key_b64@),
        r matches Ok(t) ==> exists|now: u64| #[trigger] is_response_token(
            t@,
            expiry(now, TIMEOUT_SECS),
            now,
            claims,
            enc_key_b64@,
        ),
{
    encode_at(claims, enc_key_b64, now_unix(), TIMEOUT_SECS)
}

} // verus!
