//! Compact signed tokens: `header.payload.signature`, each part base64url
//! text, signed with HMAC-SHA256 under a tenant's base64 secret.
use vstd::prelude::*;

use base64::Engine as _;

use crate::encodings::{is_encoding, Standard};
use crate::text::text_eq;
use crate::tokens::TokenError;

verus! {

/// The unpadded URL-safe base64 text of the UTF-8 bytes of `text`.
pub uninterp spec fn segment(text: Seq<char>) -> Seq<char>;

/// The base64url HMAC-SHA256 signature of `message` under the key that the
/// standard base64 text `secret` decodes to.
pub uninterp spec fn hs256_signature(secret: Seq<char>, message: Seq<char>) -> Seq<char>;

/// Relies on base64's `URL_SAFE_NO_PAD` engine, `Engine::encode`: the text
/// of the bytes of `text`, over an alphabet without `.`.
#[verifier::external_body]
fn encode_segment(text: &str) -> (r: String)
    ensures
        r@ == segment(text@),
        dot_free(r@),
{
    base64::engine::general_purpose::URL_SAFE_NO_PAD.encode(text.as_bytes())
}

/// Relies on base64's `URL_SAFE_NO_PAD` engine, `Engine::decode`, and on
/// `String::from_utf8`: canonical unpadded text of UTF-8 bytes gives those
/// bytes back as a string; anything else is refused.
#[verifier::external_body]
fn decode_segment(seg: &str) -> (r: Option<String>)
    ensures
        r matches Some(t) ==> seg@ == segment(t@),
        forall|t: Seq<char>| seg@ == #[trigger] segment(t) ==> r.is_some() && r.unwrap()@ == t,
{
    base64::engine::general_purpose::URL_SAFE_NO_PAD.decode(seg).ok().and_then(
        |b| String::from_utf8(b).ok(),
    )
}

/// Relies on `jsonwebtoken::EncodingKey::from_base64_secret`, which accepts
/// exactly standard base64 text, and `jsonwebtoken::crypto::sign` with
/// HS256, which accepts a key of any length and gives the base64url MAC.
#[verifier::external_body]
fn hs256_sign(message: &str, secret: &str) -> (r: Option<String>)
    ensures
        r.is_some() == is_encoding::<Standard>(secret@),
        r matches Some(sig) ==> sig@ == hs256_signature(secret@, message@),
{
    jsonwebtoken::EncodingKey::from_base64_secret(secret).ok().and_then(
        |k| jsonwebtoken::crypto::sign(message.as_bytes(), &k, jsonwebtoken::Algorithm::HS256).ok(),
    )
}

/// Relies on `jsonwebtoken::DecodingKey::from_base64_secret` and
/// `jsonwebtoken::crypto::verify` with HS256: the canonical base64url text
/// `signature` is accepted exactly when it is the MAC that `sign` gives.
#[verifier::external_body]
fn hs256_verify(signature: &str, message: &str, secret: &str) -> (r: bool)
    ensures
        r == (is_encoding::<Standard>(secret@) && signature@ == hs256_signature(secret@, message@)),
{
    match jsonwebtoken::DecodingKey::from_base64_secret(secret) {
        Ok(k) => jsonwebtoken::crypto::verify(
            signature,
            message.as_bytes(),
            &k,
            jsonwebtoken::Algorithm::HS256,
        ).unwrap_or(false),
        Err(_) => false,
    }
}

pub open spec fn dot_free(s: Seq<char>) -> bool {
    forall|i: int| 0 <= i < s.len() ==> s[i] != '.'
}

/// The header of every HS256 token this library signs.
pub open spec fn hs256_header() -> Seq<char> {
    "{\"typ\":\"JWT\",\"alg\":\"HS256\"}"@
}

/// What is signed: the header and payload parts joined by a dot.
pub open spec fn signing_input(payload: Seq<char>) -> Seq<char> {
    segment(hs256_header()) + "."@ + segment(payload)
}

/// The token that signs `payload` under `secret`.
pub open spec fn hs256_token(payload: Seq<char>, secret: Seq<char>) -> Seq<char> {
    signing_input(payload) + "."@ + hs256_signature(secret, signing_input(payload))
}

/// The header and payload parts of a token holding `payload` are free of
/// dots, so that the token splits back into them.
pub open spec fn framable(payload: Seq<char>) -> bool {
    dot_free(segment(hs256_header())) && dot_free(segment(payload))
}

/// `token` is the signing input of `payload` followed by a dot and `sig`.
pub open spec fn frames(token: Seq<char>, payload: Seq<char>, sig: Seq<char>) -> bool {
    token == signing_input(payload) + "."@ + sig && framable(payload)
}

fn header_text() -> (r: &'static str)
    ensures
        r@ == hs256_header(),
{
    "{\"typ\":\"JWT\",\"alg\":\"HS256\"}"
}

/// Signs `payload` under the standard base64 `secret`.
pub fn sign_hs256(payload: &str, secret: &str) -> (r: Result<String, TokenError>)
    ensures
        r is Ok <==> is_encoding::<Standard>(secret@),
        r matches Ok(t) ==> t@ == hs256_token(payload@, secret@) && framable(payload@),
        r is Err ==> r == Err::<String, TokenError>(TokenError::InvalidKey),
{
    let h = encode_segment(header_text());
    let p = encode_segment(payload);
    let mut message = h;
    message.append(".");
    message.append(p.as_str());
    match hs256_sign(message.as_str(), secret) {
        None => Err(TokenError::InvalidKey),
        Some(sig) => {
            let mut token = message;
            token.append(".");
            token.append(sig.as_str());
            Ok(token)
        },
    }
}

fn find_dot(s: &str, from: usize) -> (r: Option<usize>)
    requires
        from <= s@.len(),
    ensures
        r matches Some(i) ==> from <= i < s@.len() && s@[i as int] == '.' && forall|j: int|
            from <= j < i ==> s@[j] != '.',
        r is None ==> forall|j: int| from <= j < s@.len() ==> s@[j] != '.',
{
    let n = s.unicode_len();
    let mut i: usize = from;
    while i < n
        invariant
            n == s@.len(),
            from <= i <= n,
            forall|j: int| from <= j < i ==> s@[j] != '.',
        decreases n - i,
    {
        if s.get_char(i) == '.' {
            return Some(i);
        }
        i = i + 1;
    }
    None
}

/// A token split at its dots, with the header checked and the payload
/// decoded; the signature is not checked yet.
pub struct Opened {
    pub payload: String,
    /// Where the signing input ends and the dot before the signature stands.
    pub message_end: usize,
}

proof fn lemma_dot_literal()
    ensures
        "."@ == seq!['.'],
{
    reveal_strlit(".");
}

/// Splits `token`, checks that its header is the HS256 header and decodes
/// its payload.
pub fn open_hs256(token: &str) -> (r: Result<Opened, TokenError>)
    ensures
        r matches Ok(o) ==> o.message_end < token@.len() && token@.take(o.message_end as int)
            == signing_input(o.payload@) && token@[o.message_end as int] == '.' && framable(
            o.payload@,
        ),
        forall|pl: Seq<char>, sig: Seq<char>| #[trigger] frames(token@, pl, sig) ==> (r matches Ok(o)
            && o.payload@ == pl && o.message_end == signing_input(pl).len()),
{
    proof {
        lemma_dot_literal();
    }
    let n = token.unicode_len();
    let a = match find_dot(token, 0) {
        Some(a) => a,
        None => {
            proof {
                assert forall|pl: Seq<char>, sig: Seq<char>| #[trigger] frames(token@, pl, sig) implies false by {
                    assert(token@[segment(hs256_header()).len() as int] == '.');
                }
            }
            return Err(TokenError::Malformed);
        },
    };
    proof {
        assert forall|pl: Seq<char>, sig: Seq<char>| #[trigger] frames(token@, pl, sig) implies a
            == segment(hs256_header()).len() by {
            let hl = segment(hs256_header()).len();
            assert(token@[hl as int] == '.');
            if a < hl {
                assert(token@[a as int] == segment(hs256_header())[a as int]);
            }
        }
    }
    let b = match find_dot(token, a + 1) {
        Some(b) => b,
        None => {
            proof {
                assert forall|pl: Seq<char>, sig: Seq<char>| #[trigger] frames(token@, pl, sig) implies false by {
                    assert(token@[signing_input(pl).len() as int] == '.');
                }
            }
            return Err(TokenError::Malformed);
        },
    };
    proof {
        assert forall|pl: Seq<char>, sig: Seq<char>| #[trigger] frames(token@, pl, sig) implies b
            == signing_input(pl).len() by {
            let hl = segment(hs256_header()).len();
            let il = signing_input(pl).len();
            assert(token@[il as int] == '.');
            if b < il {
                assert(token@[b as int] == segment(pl)[b - hl - 1]);
            }
        }
    }
    let h = token.substring_char(0, a);
    let p = token.substring_char(a + 1, b);
    proof {
        assert forall|pl: Seq<char>, sig: Seq<char>| #[trigger] frames(token@, pl, sig) implies h@
            == segment(hs256_header()) && p@ == segment(pl) by {
            let hl = segment(hs256_header()).len();
            assert(h@ =~= segment(hs256_header()));
            assert(p@ =~= segment(pl));
        }
    }
    let header = match decode_segment(h) {
        Some(t) => t,
        None => return Err(TokenError::Malformed),
    };
    if !text_eq(header.as_str(), header_text()) {
        return Err(TokenError::InvalidAlgorithm);
    }
    let payload = match decode_segment(p) {
        Some(t) => t,
        None => return Err(TokenError::Malformed),
    };
    proof {
        assert(token@.take(b as int) =~= h@ + "."@ + p@);
        assert(h@ == segment(hs256_header()));
        assert(p@ == segment(payload@));
        assert forall|i: int| 0 <= i < h@.len() implies h@[i] != '.' by {
            assert(h@[i] == token@[i]);
        }
        assert forall|i: int| 0 <= i < p@.len() implies p@[i] != '.' by {
            assert(p@[i] == token@[a + 1 + i]);
        }
    }
    Ok(Opened { payload, message_end: b })
}

/// Checks the signature of an opened token under `secret`.
pub fn signature_matches(token: &str, o: &Opened, secret: &str) -> (r: bool)
    requires
        o.message_end < token@.len(),
        token@.take(o.message_end as int) == signing_input(o.payload@),
    ensures
        r == (is_encoding::<Standard>(secret@) && token@.skip(o.message_end + 1) == hs256_signature(
            secret@,
            signing_input(o.payload@),
        )),
{
    let n = token.unicode_len();
    let message = token.substring_char(0, o.message_end);
    let sig = token.substring_char(o.message_end + 1, n);
    assert(message@ =~= token@.take(o.message_end as int));
    assert(sig@ =~= token@.skip(o.message_end + 1));
    hs256_verify(sig, message, secret)
}

} // verus!
