//! Reading the claims segment out of a bearer token.

use base64::Engine;
use vstd::prelude::*;
use vstd::string::*;
use vstd::utf8::encode_utf8;
use crate::text::{split, split_on};

verus! {

#[verifier::external_type_specification]
#[verifier::external_body]
pub struct ExDecodeError(base64::DecodeError);

/// What a token's claims say of its lifetime and its subject.
#[derive(Debug, Clone, PartialEq)]
pub struct Claims {
    /// When the token expires, in seconds since the epoch.
    pub exp: Option<i64>,
    pub sub: Option<String>,
    pub iat: Option<i64>,
}

/// Why a token's claims could not be taken out.
#[derive(Clone, Copy, Debug, PartialEq, Eq, Structural)]
pub enum JwtError {
    /// The token does not have three segments.
    Format,
    /// The claims segment is not base64.
    Encoding,
}

/// The bytes that the standard alphabet with padding decodes `input` to, and
/// `None` where `input` is not such an encoding.
pub uninterp spec fn base64_standard(input: Seq<char>) -> Option<Seq<u8>>;

/// A segment with the padding that its length in bytes calls for.
pub open spec fn padded(input: Seq<char>) -> Seq<char> {
    let n = encode_utf8(input).len();
    if n % 4 == 2 {
        input + "=="@
    } else if n % 4 == 3 {
        input + "="@
    } else {
        input
    }
}

/// What `decode_jwt` gives for a token.
pub open spec fn jwt_payload(token: Seq<char>) -> Result<Seq<u8>, JwtError> {
    let parts = split(token, '.');
    if parts.len() != 3 {
        Err(JwtError::Format)
    } else {
        match base64_standard(padded(parts[1])) {
            Some(bytes) => Ok(bytes),
            None => Err(JwtError::Encoding),
        }
    }
}

/// `Engine::decode` of `base64::engine::general_purpose::STANDARD`: the
/// decoded bytes, or the crate's error where the input is no valid encoding.
/// Which inputs are valid and what they decode to is the crate's to say.
#[verifier::external_body]
fn standard_decode(input: &str) -> (r: Result<Vec<u8>, base64::DecodeError>)
    ensures
        match r {
            Ok(bytes) => base64_standard(input@) == Some(bytes@),
            Err(_) => base64_standard(input@) is None,
        },
{
    base64::engine::general_purpose::STANDARD.decode(input)
}

/// A segment with the padding that its length in bytes calls for: two signs
/// where the length is two past a multiple of four, one where it is three
/// past, none otherwise.
pub fn pad_segment(input: &str) -> (r: String)
    ensures
        r@ == padded(input@),
{
    let mut text = String::from_str(input);
    let n = input.as_bytes().len();
    if n % 4 == 2 {
        text.append("==");
    } else if n % 4 == 3 {
        text.append("=");
    }
    assert(text@ =~= padded(input@));
    text
}

/// Decodes a segment that may have come without its padding.
pub fn base64_decode(input: &str) -> (r: Result<Vec<u8>, JwtError>)
    ensures
        match r {
            Ok(bytes) => base64_standard(padded(input@)) == Some(bytes@),
            Err(e) => e == JwtError::Encoding && base64_standard(padded(input@)) is None,
        },
{
    let text = pad_segment(input);
    match standard_decode(text.as_str()) {
        Ok(bytes) => Ok(bytes),
        Err(_) => Err(JwtError::Encoding),
    }
}

/// The decoded claims segment of a token: the second of its three segments
/// between dots.
pub fn decode_jwt(token: &str) -> (r: Result<Vec<u8>, JwtError>)
    ensures
        match r {
            Ok(bytes) => jwt_payload(token@) == Ok::<Seq<u8>, JwtError>(bytes@),
            Err(e) => jwt_payload(token@) == Err::<Seq<u8>, JwtError>(e),
        },
{
    let parts = split_on(token, '.');
    if parts.len() != 3 {
        return Err(JwtError::Format);
    }
    assert(parts.deep_view()[1] == parts[1]@);
    base64_decode(parts[1].as_str())
}

/// Whether a token with these claims has run out at `now`. A token whose
/// claims could not be read, or that names no expiry, counts as run out.
pub open spec fn expired(claims: Option<Claims>, now: i64) -> bool {
    match claims {
        Some(c) => match c.exp {
            Some(exp) => exp <= now,
            None => true,
        },
        None => true,
    }
}

/// Whether a token with these claims has run out at `now`, in seconds since
/// the epoch.
pub fn has_expired(claims: &Option<Claims>, now: i64) -> (r: bool)
    ensures
        r == expired(*claims, now),
{
    match claims {
        Some(c) => match c.exp {
            Some(exp) => exp <= now,
            None => true,
        },
        None => true,
    }
}

} // verus!
