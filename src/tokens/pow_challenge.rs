//! Proof-of-work tokens: a puzzle inside time-bound claims, signed with
//! HS256 under the tenant's secret.
use vstd::prelude::*;

use crate::encodings::{is_encoding, Alphabet, Base64, Standard};
use crate::pow::PowChallenge;
use crate::text::{
    decimal, decimal_text, expect_at, holds_at, is_digit, lemma_decimal, number_at,
    number_follows, occurs, occurs_in, text_eq,
};
use crate::tokens::jwt::{
    framable, frames, hs256_signature, hs256_token, open_hs256, sign_hs256, signature_matches,
    signing_input,
};
use crate::tokens::{now_unix, validate, Claim, RegisteredClaims, TimeClaims, TokenError, Validation, Algorithm};

verus! {

/// Lifetime of a proof-of-work token, in seconds.
pub const POW_TIMEOUT_SECS: u64 = 300;

/// The claims text of a proof-of-work token.
pub open spec fn pow_payload(exp: u64, iat: u64, c: PowChallenge) -> Seq<char> {
    "{\"exp\":"@ + decimal(exp as nat) + ",\"iat\":"@ + decimal(iat as nat) + ",\"seed\":"@
        + decimal(c.seed as nat) + ",\"difficulty\":"@ + decimal(c.difficulty as nat) + "}"@
}

/// `token` is the proof-of-work token for these claims under `secret`, as
/// `encode_at` makes it.
pub open spec fn is_pow_token(
    token: Seq<char>,
    exp: u64,
    iat: u64,
    c: PowChallenge,
    secret: Seq<char>,
) -> bool {
    token == hs256_token(pow_payload(exp, iat, c), secret) && framable(pow_payload(exp, iat, c))
}

/// `token` is a proof-of-work token for `c` under `secret` that has not
/// expired at `now`.
pub open spec fn signed_and_current(token: Seq<char>, c: PowChallenge, secret: Seq<char>, now: u64) -> bool {
    exists|exp: u64, iat: u64| #[trigger] is_pow_token(token, exp, iat, c, secret) && now <= exp
}

/// The expiry of claims issued at `now` with `timeout`.
pub open spec fn expiry(now: u64, timeout: u64) -> u64 {
    if now + timeout <= u64::MAX {
        (now + timeout) as u64
    } else {
        u64::MAX
    }
}

/// The key of the expiry claim, quoted as in JSON.
pub open spec fn exp_key() -> Seq<char> {
    "\"exp\""@
}

/// Every proof-of-work payload names its expiry.
proof fn lemma_payload_has_exp(exp: u64, iat: u64, c: PowChallenge)
    ensures
        occurs(pow_payload(exp, iat, c), exp_key()),
{
    reveal_strlit("{\"exp\":");
    reveal_strlit("\"exp\"");
    let s = pow_payload(exp, iat, c);
    assert(s.subrange(1, 6) =~= exp_key());
    assert(holds_at(s, 1, exp_key()));
}

fn render_pow_payload(exp: u64, iat: u64, c: PowChallenge) -> (r: String)
    ensures
        r@ == pow_payload(exp, iat, c),
{
    let mut s = "{\"exp\":".to_owned();
    s.append(decimal_text(exp).as_str());
    s.append(",\"iat\":");
    s.append(decimal_text(iat).as_str());
    s.append(",\"seed\":");
    s.append(decimal_text(c.seed).as_str());
    s.append(",\"difficulty\":");
    s.append(decimal_text(c.difficulty as u64).as_str());
    s.append("}");
    s
}

proof fn lemma_member(s: Seq<char>, a: Seq<char>, lit: Seq<char>, k: nat, b: Seq<char>)
    requires
        s == a + lit + decimal(k) + b,
        b.len() > 0,
        !is_digit(b[0]),
        k <= u64::MAX,
    ensures
        holds_at(s, a.len() as int, lit),
        number_follows(s, (a.len() + lit.len()) as int, k),
{
    lemma_decimal(k);
    assert(s.subrange(a.len() as int, (a.len() + lit.len()) as int) =~= lit);
    let p: int = (a.len() + lit.len()) as int;
    assert(s.subrange(p, p + decimal(k).len() as int) =~= decimal(k));
    assert(s[p + decimal(k).len() as int] == b[0]);
}

fn member(s: &str, pos: usize, lit: &str) -> (r: Option<(u64, usize)>)
    requires
        pos <= s@.len(),
    ensures
        r matches Some((v, end)) ==> end <= s@.len(),
        forall|k: nat|
            holds_at(s@, pos as int, lit@) && #[trigger] number_follows(s@, (pos + lit@.len()) as int, k)
                ==> r == Some((k as u64, (pos + lit@.len() + decimal(k).len()) as usize)),
{
    if !expect_at(s, pos, lit) {
        return None;
    }
    let n = s.unicode_len();
    let m = lit.unicode_len();
    number_at(s, pos + m)
}

/// Reads the claims text of a proof-of-work token; only the exact text that
/// `pow_payload` gives is accepted.
fn parse_pow_payload(s: &str) -> (r: Option<(u64, u64, PowChallenge)>)
    ensures
        r matches Some((exp, iat, c)) ==> s@ == pow_payload(exp, iat, c),
        forall|exp: u64, iat: u64, c: PowChallenge| #[trigger] pow_payload(exp, iat, c) == s@
            ==> r == Some((exp, iat, c)),
{
    let n = s.unicode_len();
    let l1 = "{\"exp\":";
    let l2 = ",\"iat\":";
    let l3 = ",\"seed\":";
    let l4 = ",\"difficulty\":";
    let l5 = "}";
    proof {
        reveal_strlit(",\"iat\":");
        reveal_strlit(",\"seed\":");
        reveal_strlit(",\"difficulty\":");
        reveal_strlit("}");
        assert forall|exp: u64, iat: u64, c: PowChallenge| #[trigger] pow_payload(exp, iat, c) == s@
            implies {
            let d1 = decimal(exp as nat);
            let d2 = decimal(iat as nat);
            let d3 = decimal(c.seed as nat);
            let d4 = decimal(c.difficulty as nat);
            &&& holds_at(s@, 0, l1@) && number_follows(s@, l1@.len() as int, exp as nat)
            &&& holds_at(s@, (l1@ + d1).len() as int, l2@) && number_follows(
                s@,
                (l1@ + d1 + l2@).len() as int,
                iat as nat,
            )
            &&& holds_at(s@, (l1@ + d1 + l2@ + d2).len() as int, l3@) && number_follows(
                s@,
                (l1@ + d1 + l2@ + d2 + l3@).len() as int,
                c.seed as nat,
            )
            &&& holds_at(s@, (l1@ + d1 + l2@ + d2 + l3@ + d3).len() as int, l4@) && number_follows(
                s@,
                (l1@ + d1 + l2@ + d2 + l3@ + d3 + l4@).len() as int,
                c.difficulty as nat,
            )
        } by {
            let d1 = decimal(exp as nat);
            let d2 = decimal(iat as nat);
            let d3 = decimal(c.seed as nat);
            let d4 = decimal(c.difficulty as nat);
            let e = Seq::<char>::empty();
            let b1 = l2@ + d2 + l3@ + d3 + l4@ + d4 + l5@;
            assert(s@ =~= e + l1@ + d1 + b1);
            lemma_member(s@, e, l1@, exp as nat, b1);
            assert(e.len() == 0);
            let b2 = l3@ + d3 + l4@ + d4 + l5@;
            assert(s@ =~= (l1@ + d1) + l2@ + d2 + b2);
            lemma_member(s@, l1@ + d1, l2@, iat as nat, b2);
            let b3 = l4@ + d4 + l5@;
            assert(s@ =~= (l1@ + d1 + l2@ + d2) + l3@ + d3 + b3);
            lemma_member(s@, l1@ + d1 + l2@ + d2, l3@, c.seed as nat, b3);
            assert(s@ =~= (l1@ + d1 + l2@ + d2 + l3@ + d3) + l4@ + d4 + l5@);
            lemma_member(s@, l1@ + d1 + l2@ + d2 + l3@ + d3, l4@, c.difficulty as nat, l5@);
        }
    }
    let (exp, p) = match member(s, 0, l1) {
        Some(x) => x,
        None => {
            proof {
                assert forall|e: u64, i: u64, c: PowChallenge| #[trigger] pow_payload(e, i, c)
                    == s@ implies false by {
                    assert(number_follows(s@, (0 + l1@.len()) as int, e as nat));
                }
            }
            return None;
        },
    };
    proof {
        assert forall|e: u64, i: u64, c: PowChallenge| #[trigger] pow_payload(e, i, c) == s@ implies exp
            == e && p == (l1@ + decimal(e as nat)).len() by {
            assert(number_follows(s@, (0 + l1@.len()) as int, e as nat));
        }
    }
    let p1 = p;
    let (iat, p) = match member(s, p1, l2) {
        Some(x) => x,
        None => {
            proof {
                assert forall|e: u64, i: u64, c: PowChallenge| #[trigger] pow_payload(e, i, c)
                    == s@ implies false by {
                    assert(number_follows(s@, (p1 + l2@.len()) as int, i as nat));
                }
            }
            return None;
        },
    };
    proof {
        assert forall|e: u64, i: u64, c: PowChallenge| #[trigger] pow_payload(e, i, c) == s@ implies exp
            == e && iat == i && p == (l1@ + decimal(e as nat) + l2@ + decimal(i as nat)).len() by {
            assert(number_follows(s@, (p1 + l2@.len()) as int, i as nat));
        }
    }
    let p2 = p;
    let (seed, p) = match member(s, p2, l3) {
        Some(x) => x,
        None => {
            proof {
                assert forall|e: u64, i: u64, c: PowChallenge| #[trigger] pow_payload(e, i, c)
                    == s@ implies false by {
                    assert(number_follows(s@, (p2 + l3@.len()) as int, c.seed as nat));
                }
            }
            return None;
        },
    };
    proof {
        assert forall|e: u64, i: u64, c: PowChallenge| #[trigger] pow_payload(e, i, c) == s@ implies exp
            == e && iat == i && seed == c.seed && p == (l1@ + decimal(e as nat) + l2@ + decimal(
            i as nat,
        ) + l3@ + decimal(c.seed as nat)).len() by {
            assert(number_follows(s@, (p2 + l3@.len()) as int, c.seed as nat));
        }
    }
    let p3 = p;
    let (difficulty, p) = match member(s, p3, l4) {
        Some(x) => x,
        None => {
            proof {
                assert forall|e: u64, i: u64, c: PowChallenge| #[trigger] pow_payload(e, i, c)
                    == s@ implies false by {
                    assert(number_follows(s@, (p3 + l4@.len()) as int, c.difficulty as nat));
                }
            }
            return None;
        },
    };
    proof {
        assert forall|e: u64, i: u64, c: PowChallenge| #[trigger] pow_payload(e, i, c) == s@ implies exp
            == e && iat == i && seed == c.seed && difficulty == c.difficulty as u64 by {
            assert(number_follows(s@, (p3 + l4@.len()) as int, c.difficulty as nat));
        }
    }
    if difficulty > 255 {
        return None;
    }
    let c = PowChallenge { seed, difficulty: difficulty as u8 };
    let text = render_pow_payload(exp, iat, c);
    if !text_eq(text.as_str(), s) {
        return None;
    }
    Some((exp, iat, c))
}

/// Signs `pow_challenge` in claims issued at `now` that expire `timeout`
/// seconds later.
pub fn encode_at(pow_challenge: PowChallenge, enc_key_b64: &str, now: u64, timeout: u64) -> (r:
    Result<String, TokenError>)
    ensures
        r is Ok <==> is_encoding::<Standard>(enc_key_b64@),
        r matches Ok(t) ==> is_pow_token(t@, expiry(now, timeout), now, pow_challenge, enc_key_b64@),
        r is Err ==> r == Err::<String, TokenError>(TokenError::InvalidKey),
{
    let claims = TimeClaims::issued_at(now, timeout, pow_challenge);
    let payload = render_pow_payload(claims.exp(), claims.iat(), pow_challenge);
    sign_hs256(payload.as_str(), enc_key_b64)
}

/// Signs `pow_challenge` in claims issued now that expire in five minutes.
pub fn encode(pow_challenge: PowChallenge, enc_key: &Base64<Standard>) -> (r: Result<String, TokenError>)
    ensures
        r is Ok <==> is_encoding::<Standard>(enc_key@),
        enc_key.wf() ==> r is Ok,
        r matches Ok(t) ==> exists|now: u64| #[trigger] is_pow_token(
            t@,
            expiry(now, POW_TIMEOUT_SECS),
            now,
            pow_challenge,
            enc_key@,
        ),
{
    encode_with_timeout(pow_challenge, enc_key.as_str(), POW_TIMEOUT_SECS)
}

/// Signs `pow_challenge` in claims issued now that expire `timeout` seconds
/// later.
pub fn encode_with_timeout(pow_challenge: PowChallenge, enc_key_b64: &str, timeout: u64) -> (r:
    Result<String, TokenError>)
    ensures
        r is Ok <==> is_encoding::<Standard>(enc_key_b64@),
        r matches Ok(t) ==> exists|now: u64| #[trigger] is_pow_token(
            t@,
            expiry(now, timeout),
            now,
            pow_challenge,
            enc_key_b64@,
        ),
{
    let now = now_unix();
    encode_at(pow_challenge, enc_key_b64, now, timeout)
}

/// Decodes a proof-of-work token at time `now`. The header must be the HS256
/// header this library writes; claims without an expiry are refused as
/// missing it; the claims must have the layout this library writes; an
/// expired token is refused as such before its signature is looked at; then
/// the signature must match under `dec_key_b64`.
pub fn decode_at(jwt: &str, dec_key_b64: &str, now: u64) -> (r: Result<PowChallenge, TokenError>)
    ensures
        !is_encoding::<Standard>(dec_key_b64@) ==> r == Err::<PowChallenge, TokenError>(
            TokenError::InvalidKey,
        ),
        r matches Ok(c) ==> signed_and_current(jwt@, c, dec_key_b64@, now),
        forall|exp: u64, iat: u64, c: PowChallenge| #[trigger]
            is_pow_token(jwt@, exp, iat, c, dec_key_b64@) && is_encoding::<Standard>(dec_key_b64@)
                && now <= exp ==> r == Ok::<PowChallenge, TokenError>(c),
        forall|exp: u64, iat: u64, c: PowChallenge, sig: Seq<char>| #[trigger]
            frames(jwt@, pow_payload(exp, iat, c), sig) && is_encoding::<Standard>(dec_key_b64@)
                && now > exp ==> r == Err::<PowChallenge, TokenError>(TokenError::ExpiredSignature),
        forall|payload: Seq<char>, sig: Seq<char>| #[trigger] frames(jwt@, payload, sig)
            && is_encoding::<Standard>(dec_key_b64@) && !occurs(payload, exp_key()) ==> r == Err::<
            PowChallenge,
            TokenError,
        >(TokenError::MissingRequiredClaim(Claim::Exp)),
        forall|exp: u64, iat: u64, c: PowChallenge, sig: Seq<char>| #[trigger]
            frames(jwt@, pow_payload(exp, iat, c), sig) && is_encoding::<Standard>(dec_key_b64@)
                && now <= exp && sig != hs256_signature(
                dec_key_b64@,
                signing_input(pow_payload(exp, iat, c)),
            ) ==> r == Err::<PowChallenge, TokenError>(TokenError::InvalidSignature),
{
    if Standard::decode(dec_key_b64).is_none() {
        return Err(TokenError::InvalidKey);
    }
    proof {
        assert forall|exp: u64, iat: u64, c: PowChallenge| #[trigger]
            is_pow_token(jwt@, exp, iat, c, dec_key_b64@) implies frames(
            jwt@,
            pow_payload(exp, iat, c),
            hs256_signature(dec_key_b64@, signing_input(pow_payload(exp, iat, c))),
        ) by {}
    }
    let opened = match open_hs256(jwt) {
        Ok(o) => o,
        Err(e) => return Err(e),
    };
    proof {
        assert forall|e: u64, i: u64, w: PowChallenge| #[trigger] is_pow_token(jwt@, e, i, w, dec_key_b64@)
            implies occurs(pow_payload(e, i, w), exp_key()) by {
            lemma_payload_has_exp(e, i, w);
        }
        assert forall|e: u64, i: u64, w: PowChallenge, sig: Seq<char>| #[trigger]
            frames(jwt@, pow_payload(e, i, w), sig) implies occurs(pow_payload(e, i, w), exp_key()) by {
            lemma_payload_has_exp(e, i, w);
        }
    }
    if !occurs_in(opened.payload.as_str(), "\"exp\"") {
        return Err(TokenError::MissingRequiredClaim(Claim::Exp));
    }
    let (exp, iat, c) = match parse_pow_payload(opened.payload.as_str()) {
        Some(x) => x,
        None => return Err(TokenError::Malformed),
    };
    let mut rules = Validation::new(Algorithm::HS256);
    TimeClaims::<PowChallenge>::build_validation(&mut rules);
    let registered = RegisteredClaims { exp: Some(exp), iss: None, sub: None, aud: None };
    match validate(&registered, &rules, now) {
        Ok(()) => {},
        Err(e) => return Err(e),
    }
    proof {
        reveal_strlit(".");
        assert forall|e: u64, i: u64, w: PowChallenge, sig: Seq<char>| #[trigger]
            frames(jwt@, pow_payload(e, i, w), sig) implies jwt@.skip(opened.message_end + 1)
            == sig by {
            assert(jwt@.skip(opened.message_end + 1) =~= sig);
        }
    }
    if !signature_matches(jwt, &opened, dec_key_b64) {
        return Err(TokenError::InvalidSignature);
    }
    proof {
        let m = opened.message_end as int;
        assert(jwt@ =~= jwt@.take(m) + "."@ + jwt@.skip(m + 1)) by {
            reveal_strlit(".");
        }
        assert(is_pow_token(jwt@, exp, iat, c, dec_key_b64@));
        assert(now <= exp);
    }
    proof {
        assert(signed_and_current(jwt@, c, dec_key_b64@, now));
    }
    Ok(c)
}

/// Decodes a proof-of-work token now.
pub fn decode(jwt: &str, dec_key_b64: &str) -> (r: Result<PowChallenge, TokenError>)
    ensures
        !is_encoding::<Standard>(dec_key_b64@) ==> r == Err::<PowChallenge, TokenError>(
            TokenError::InvalidKey,
        ),
        r matches Ok(c) ==> exists|now: u64| #[trigger] signed_and_current(jwt@, c, dec_key_b64@, now),
{
    decode_at(jwt, dec_key_b64, now_unix())
}

} // verus!
