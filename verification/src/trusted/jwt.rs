//! Contracts for the `jsonwebtoken` crate: signing a claim set into a compact
//! token and reading the claims back out of one.

use crate::middleware::auth::Claims;
use vstd::prelude::*;

verus! {

#[verifier::external_type_specification]
#[verifier::external_body]
pub struct ExJwtError(jsonwebtoken::errors::Error);

/// The compact token that `jsonwebtoken::encode` produces for the claims
/// `{"sub": subject, "exp": expiry}` under an HS512 header and `secret`.
pub uninterp spec fn signed_token(subject: Seq<char>, expiry: u64, secret: Seq<u8>) -> Seq<char>;

/// The subject and expiry that `jsonwebtoken::decode` reads from `token`
/// when its HS512 signature verifies under `secret`; `None` when the token
/// is rejected. The expiry is not compared with any clock.
pub uninterp spec fn verified_claims(token: Seq<char>, secret: Seq<u8>) -> Option<
    (Seq<char>, u64),
>;

/// `jsonwebtoken::encode` with an HS512 header, the claims `sub` and `exp`,
/// and `secret` as the HMAC key.
///
/// Trusted: the call succeeds (the key is an HMAC key as the header asks,
/// neither the header nor a map of a text and a number can fail to be
/// written as JSON, and HMAC signing has no error), the token is the named
/// one, and decoding that token under the same secret gives back the
/// subject and expiry it was made from (the decoder recomputes the
/// signature over the same two segments and parses the JSON that the
/// encoder wrote).
#[verifier::external_body]
pub(crate) fn encode_hs512(subject: &str, expiry: u64, secret: &[u8]) -> (token: Result<
    String,
    jsonwebtoken::errors::Error,
>)
    ensures
        token is Ok,
        token matches Ok(t) ==> t@ == signed_token(subject@, expiry, secret@),
        token matches Ok(t) ==> verified_claims(t@, secret@) == Some((subject@, expiry)),
{
    let mut claims = serde_json::Map::new();
    claims.insert("sub".to_string(), serde_json::Value::from(subject));
    claims.insert("exp".to_string(), serde_json::Value::from(expiry));
    let header = jsonwebtoken::Header::new(jsonwebtoken::Algorithm::HS512);
    jsonwebtoken::encode(&header, &claims, &jsonwebtoken::EncodingKey::from_secret(secret))
}

/// `jsonwebtoken::decode` for HS512 under `secret`, with the crate's expiry
/// test switched off so that the outcome depends on the arguments alone.
///
/// Trusted: the claims handed back are the named ones. A token is turned
/// down when the crate rejects it (shape, algorithm, signature, a missing
/// `exp`) or when `sub` is not a string or `exp` not an unsigned integer.
#[verifier::external_body]
pub(crate) fn decode_hs512(token: &str, secret: &[u8]) -> (claims: Option<Claims>)
    ensures
        claims is Some <==> verified_claims(token@, secret@) is Some,
        claims matches Some(c) ==> verified_claims(token@, secret@) == Some((c.sub@, c.exp)),
{
    let mut rules = jsonwebtoken::Validation::new(jsonwebtoken::Algorithm::HS512);
    rules.validate_exp = false;
    let key = jsonwebtoken::DecodingKey::from_secret(secret);
    let data = jsonwebtoken::decode::<serde_json::Value>(token, &key, &rules).ok()?;
    let sub = data.claims.get("sub")?.as_str()?.to_string();
    let exp = data.claims.get("exp")?.as_u64()?;
    Some(Claims { sub, exp })
}

} // verus!
