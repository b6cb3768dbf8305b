//! Base64-encoded key material, typed by its alphabet.
use vstd::prelude::*;

use base64::Engine as _;
use core::marker::PhantomData;
use secrecy::Zeroize as _;

verus! {

/// Size in bytes of the key material that decoding accepts.
pub const KEY_SIZE: usize = 48;

/// The padded standard-alphabet base64 text of some bytes.
pub uninterp spec fn standard_base64(bytes: Seq<u8>) -> Seq<char>;

/// The padded URL-safe-alphabet base64 text of some bytes.
pub uninterp spec fn url_safe_base64(bytes: Seq<u8>) -> Seq<char>;

/// Relies on base64's `STANDARD` engine, `Engine::encode`: the padded
/// standard-alphabet text of the bytes, four characters for each started
/// group of three bytes.
#[verifier::external_body]
fn encode_standard(bytes: &[u8]) -> (r: String)
    ensures
        r@ == standard_base64(bytes@),
        r@.len() == 4 * ((bytes@.len() + 2) / 3),
{
    base64::engine::general_purpose::STANDARD.encode(bytes)
}

/// Relies on base64's `STANDARD` engine, `Engine::decode`: with canonical
/// padding and no trailing bits required, exactly the texts that `encode`
/// gives are accepted, and each gives back the bytes it was made from.
#[verifier::external_body]
fn decode_standard(text: &str) -> (r: Option<Vec<u8>>)
    ensures
        r matches Some(b) ==> text@ == standard_base64(b@),
        forall|b: Seq<u8>| text@ == #[trigger] standard_base64(b) ==> r.is_some() && r.unwrap()@ == b,
{
    base64::engine::general_purpose::STANDARD.decode(text).ok()
}

/// Relies on base64's `URL_SAFE` engine, `Engine::encode`: the padded
/// URL-safe-alphabet text of the bytes, four characters for each started
/// group of three bytes.
#[verifier::external_body]
fn encode_url_safe(bytes: &[u8]) -> (r: String)
    ensures
        r@ == url_safe_base64(bytes@),
        r@.len() == 4 * ((bytes@.len() + 2) / 3),
{
    base64::engine::general_purpose::URL_SAFE.encode(bytes)
}

/// Relies on base64's `URL_SAFE` engine, `Engine::decode`: with canonical
/// padding and no trailing bits required, exactly the texts that `encode`
/// gives are accepted, and each gives back the bytes it was made from.
#[verifier::external_body]
fn decode_url_safe(text: &str) -> (r: Option<Vec<u8>>)
    ensures
        r matches Some(b) ==> text@ == url_safe_base64(b@),
        forall|b: Seq<u8>| text@ == #[trigger] url_safe_base64(b) ==> r.is_some() && r.unwrap()@ == b,
{
    base64::engine::general_purpose::URL_SAFE.decode(text).ok()
}

/// Relies on `rand::random` for arrays: `N` bytes from the thread-local
/// cryptographically secure generator. Nothing is known of their values.
#[verifier::external_body]
pub(crate) fn random_array<const N: usize>() -> (r: [u8; N]) {
    rand::random::<[u8; N]>()
}

/// Relies on `zeroize::Zeroize` for `String` (re-exported by secrecy): the
/// bytes are overwritten with zeros and the string is left empty, without
/// allocating or panicking.
#[verifier::external_body]
fn wipe(text: &mut String)
    ensures
        final(text)@.len() == 0,
    opens_invariants none
    no_unwind
{
    text.zeroize()
}

/// A base64 alphabet, with its encoding and decoding.
pub trait Alphabet: Sized {
    spec fn encoding(bytes: Seq<u8>) -> Seq<char>;

    fn encode(bytes: &[u8]) -> (r: String)
        ensures
            r@ == Self::encoding(bytes@),
            r@.len() == 4 * ((bytes@.len() + 2) / 3),
    ;

    fn decode(text: &str) -> (r: Option<Vec<u8>>)
        ensures
            r matches Some(b) ==> text@ == Self::encoding(b@),
            forall|b: Seq<u8>| text@ == #[trigger] Self::encoding(b) ==> (r matches Some(v) && v@
                == b),
    ;
}

/// Standard base64 alphabet marker.
#[derive(Debug, Default, Clone, Copy, PartialEq, Eq, Structural, Hash)]
pub struct Standard;

/// URL-safe base64 alphabet marker.
#[derive(Debug, Default, Clone, Copy, PartialEq, Eq, Structural, Hash)]
pub struct UrlSafe;

impl Alphabet for Standard {
    open spec fn encoding(bytes: Seq<u8>) -> Seq<char> {
        standard_base64(bytes)
    }

    fn encode(bytes: &[u8]) -> (r: String) {
        encode_standard(bytes)
    }

    fn decode(text: &str) -> (r: Option<Vec<u8>>) {
        decode_standard(text)
    }
}

impl Alphabet for UrlSafe {
    open spec fn encoding(bytes: Seq<u8>) -> Seq<char> {
        url_safe_base64(bytes)
    }

    fn encode(bytes: &[u8]) -> (r: String) {
        encode_url_safe(bytes)
    }

    fn decode(text: &str) -> (r: Option<Vec<u8>>) {
        decode_url_safe(text)
    }
}

/// Why a string is not key material.
#[derive(Debug, Clone, Copy, PartialEq, Eq, Structural)]
pub enum DecodeError {
    /// The text is not base64 of this alphabet.
    InvalidEncoding,
    /// The text decodes to `len` bytes instead of `KEY_SIZE`.
    InvalidLength { len: usize },
}

/// Whether `text` is the alphabet's encoding of some bytes.
pub open spec fn is_encoding<A: Alphabet>(text: Seq<char>) -> bool {
    exists|b: Seq<u8>| text == #[trigger] A::encoding(b)
}

/// Whether `text` is the alphabet's encoding of exactly `KEY_SIZE` bytes.
pub open spec fn is_key_text<A: Alphabet>(text: Seq<char>) -> bool {
    exists|b: Seq<u8>| b.len() == KEY_SIZE && text == #[trigger] A::encoding(b)
}

/// Base64 text under the alphabet `A`; values of different alphabets are
/// different types.
pub struct Base64<A = Standard> {
    text: String,
    alphabet: PhantomData<A>,
}

impl<A: Alphabet> View for Base64<A> {
    type V = Seq<char>;

    closed spec fn view(&self) -> Seq<char> {
        self.text@
    }
}

impl<A: Alphabet> Base64<A> {
    /// The text is the alphabet's encoding of some bytes.
    pub open spec fn wf(&self) -> bool {
        is_encoding::<A>(self@)
    }

    fn new(text: String) -> (r: Self)
        ensures
            r@ == text@,
    {
        Base64 { text, alphabet: PhantomData }
    }

    /// The encoded text, for transport.
    pub fn as_str(&self) -> (r: &str)
        ensures
            r@ == self@,
    {
        self.text.as_str()
    }

    /// Encodes `N` bytes drawn from a cryptographically secure generator.
    pub fn random<const N: usize>() -> (r: Self)
        ensures
            r.wf(),
            exists|b: Seq<u8>| b.len() == N && r@ == #[trigger] A::encoding(b),
            r@.len() == 4 * ((N + 2) / 3),
            N == KEY_SIZE ==> is_key_text::<A>(r@),
    {
        Self::random_with(random_array::<N>())
    }

    /// Encodes the `N` bytes given, drawn by the caller's own generator.
    pub fn random_with<const N: usize>(bytes: [u8; N]) -> (r: Self)
        ensures
            r.wf(),
            r@ == A::encoding(bytes@),
            bytes@.len() == N,
            r@.len() == 4 * ((N + 2) / 3),
            N == KEY_SIZE ==> is_key_text::<A>(r@),
    {
        let text = A::encode(bytes.as_slice());
        proof {
            assert(is_encoding::<A>(A::encoding(bytes@)));
        }
        Self::new(text)
    }

    /// Accepts `value` exactly when it is the alphabet's encoding of
    /// `KEY_SIZE` bytes; never panics.
    pub fn try_from(value: String) -> (r: Result<Self, DecodeError>)
        ensures
            r is Ok <==> is_key_text::<A>(value@),
            r matches Ok(k) ==> k@ == value@ && k.wf(),
            r == Err::<Self, DecodeError>(DecodeError::InvalidEncoding) <==> !is_encoding::<A>(
                value@,
            ),
            forall|b: Seq<u8>| value@ == #[trigger] A::encoding(b) ==> if b.len() == KEY_SIZE {
                r is Ok
            } else {
                r == Err::<Self, DecodeError>(DecodeError::InvalidLength { len: b.len() as usize })
            },
    {
        match A::decode(value.as_str()) {
            None => Err(DecodeError::InvalidEncoding),
            Some(bytes) => {
                proof {
                    assert(is_encoding::<A>(value@));
                }
                if bytes.len() == KEY_SIZE {
                    proof {
                        assert(is_key_text::<A>(value@));
                    }
                    Ok(Self::new(value))
                } else {
                    proof {
                        if is_key_text::<A>(value@) {
                            let b = choose|b: Seq<u8>| b.len() == KEY_SIZE && value@ == #[trigger] A::encoding(b);
                            assert(bytes@ == b);
                        }
                    }
                    Err(DecodeError::InvalidLength { len: bytes.len() })
                }
            },
        }
    }

    /// Overwrites the text with zeros and leaves it empty.
    pub fn zeroize(&mut self)
        ensures
            final(self)@.len() == 0,
    {
        wipe(&mut self.text)
    }
}

impl<A> Drop for Base64<A> {
    /// Overwrites the text before its memory is released.
    fn drop(&mut self)
        opens_invariants none
        no_unwind
    {
        wipe(&mut self.text)
    }
}

} // verus!
