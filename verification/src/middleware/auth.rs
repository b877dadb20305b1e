//! Bearer-token authentication: issuing a signed, time-limited token and
//! checking the credential header of a protected request.
//!
//! Nothing here keeps state. The caller hands in the signing secret and the
//! time (seconds since the Unix epoch), and nothing else is consulted. A
//! token is valid when its signature verifies under the secret and the time
//! is strictly before its expiry.

use crate::middleware::mime_check::{begins_with, header_bytes};
use crate::trusted::jwt::{decode_hs512, encode_hs512, signed_token, verified_claims};
use crate::trusted::text::str_from_utf8;
use vstd::prelude::*;
use vstd::slice::slice_subrange;
use vstd::string::StringSliceAdditionalSpecFns;
use vstd::utf8::{
    decode_utf8, encode_utf8, encode_utf8_decode_utf8, encode_utf8_valid_utf8,
    is_ascii_chars_encode_utf8, valid_utf8,
};

verus! {

/// Lifetime of an issued token, in seconds (20 minutes).
pub const TOKEN_TTL_SECS: u64 = 1200;

/// Why a credential was turned down, or why none could be issued.
#[derive(Debug, Clone, Copy, PartialEq, Eq, Structural)]
pub enum MyError {
    /// The token's signature or format is invalid, or the token has expired.
    JWTTokenError,
    /// Signing failed while a token was being issued.
    JWTTokenCreationError,
    /// The request carries no credential header.
    NoAuthHeaderError,
    /// The credential header is present but does not start with the bearer
    /// scheme, or is not text after it.
    InvalidAuthHeaderError,
}

/// The claim set of a token: who it was issued to and until when it holds.
#[derive(Debug, PartialEq, Eq)]
pub struct Claims {
    pub sub: String,
    pub exp: u64,
}

/// What became of a token whose signature has been looked at.
#[derive(Debug, Clone, Copy, PartialEq, Eq, Structural)]
pub enum TokenFault {
    /// The signature did not verify, or the token is not well formed.
    Rejected,
    /// The signature verified, but the expiry has been reached.
    Expired,
}

/// The scheme prefix of a credential header, with its single trailing space.
pub open spec fn bearer_prefix() -> Seq<char> {
    "Bearer "@
}

/// The expiry of a token issued at `now`.
pub open spec fn expiry_for(now: u64) -> int {
    now + TOKEN_TTL_SECS
}

/// The bytes of the scheme prefix: `Bearer` and one space.
pub open spec fn bearer_bytes() -> Seq<u8> {
    seq![66u8, 101u8, 97u8, 114u8, 101u8, 114u8, 32u8]
}

/// The token material of a credential header.
///
/// Only a request without the header counts as carrying no credential. A
/// header that is present is malformed unless it begins with the scheme
/// prefix; the token is then all that follows that one prefix, whatever it
/// begins with. A header that has the prefix but is not UTF-8 after it is
/// malformed as well.
pub open spec fn bearer_token(header: Option<Seq<u8>>) -> Result<Seq<char>, MyError> {
    match header {
        None => Err(MyError::NoAuthHeaderError),
        Some(bytes) => if !bearer_bytes().is_prefix_of(bytes) {
            Err(MyError::InvalidAuthHeaderError)
        } else if !valid_utf8(bytes.skip(bearer_bytes().len() as int)) {
            Err(MyError::InvalidAuthHeaderError)
        } else {
            Ok(decode_utf8(bytes.skip(bearer_bytes().len() as int)))
        },
    }
}

/// The verdict on the claims of a token at time `now`: the subject when the
/// signature verified and `now` is before the expiry.
pub open spec fn claims_verdict(claims: Option<(Seq<char>, u64)>, now: u64) -> Result<
    Seq<char>,
    TokenFault,
> {
    match claims {
        None => Err(TokenFault::Rejected),
        Some((subject, expiry)) => if now < expiry {
            Ok(subject)
        } else {
            Err(TokenFault::Expired)
        },
    }
}

/// The subject that `token` stands for at time `now` under `secret`. Both
/// faults are reported as the one token error.
pub open spec fn token_subject(token: Seq<char>, now: u64, secret: Seq<u8>) -> Result<
    Seq<char>,
    MyError,
> {
    match claims_verdict(verified_claims(token, secret), now) {
        Ok(subject) => Ok(subject),
        Err(_) => Err(MyError::JWTTokenError),
    }
}

/// `token` stands for `subject` at every time before `expiry` and is turned
/// down from `expiry` on.
pub open spec fn holds_until(
    token: Seq<char>,
    subject: Seq<char>,
    expiry: int,
    secret: Seq<u8>,
) -> bool {
    forall|at: u64| #[trigger]
        token_subject(token, at, secret) == if at < expiry {
            Ok::<Seq<char>, MyError>(subject)
        } else {
            Err::<Seq<char>, MyError>(MyError::JWTTokenError)
        }
}

/// The identity that a request with this credential header acts as at time
/// `now`, or the reason it is turned away.
pub open spec fn authorized_subject(header: Option<Seq<u8>>, now: u64, secret: Seq<u8>) -> Result<
    Seq<char>,
    MyError,
> {
    match bearer_token(header) {
        Ok(token) => token_subject(token, now, secret),
        Err(e) => Err(e),
    }
}

/// The header that presents `token` as a credential: the scheme prefix and
/// the token, as bytes.
pub open spec fn bearer_header(token: Seq<char>) -> Seq<u8> {
    encode_utf8(bearer_prefix() + token)
}

/// A request that presents `token` is let through as `subject` at every
/// time before `expiry` and turned away with the token error from `expiry`
/// on.
pub open spec fn admits_until(
    token: Seq<char>,
    subject: Seq<char>,
    expiry: int,
    secret: Seq<u8>,
) -> bool {
    forall|at: u64| #[trigger]
        authorized_subject(Some(bearer_header(token)), at, secret) == if at < expiry {
            Ok::<Seq<char>, MyError>(subject)
        } else {
            Err::<Seq<char>, MyError>(MyError::JWTTokenError)
        }
}

/// The claims as plain values.
pub open spec fn claims_view(claims: Option<Claims>) -> Option<(Seq<char>, u64)> {
    match claims {
        Some(c) => Some((c.sub@, c.exp)),
        None => None,
    }
}

/// A text result as plain values.
pub open spec fn text_result<E>(result: Result<String, E>) -> Result<Seq<char>, E> {
    match result {
        Ok(text) => Ok(text@),
        Err(e) => Err(e),
    }
}

/// The encoding of two texts joined is the two encodings joined.
pub proof fn encode_utf8_of_joined(first: Seq<char>, second: Seq<char>)
    ensures
        encode_utf8(first + second) == encode_utf8(first) + encode_utf8(second),
    decreases first.len(),
{
    if first.len() == 0 {
        assert(first + second =~= second);
        assert(encode_utf8(first) + encode_utf8(second) =~= encode_utf8(second));
    } else {
        encode_utf8_of_joined(first.drop_first(), second);
        assert((first + second).drop_first() =~= first.drop_first() + second);
        assert((first + second)[0] == first[0]);
        assert(encode_utf8(first + second) =~= encode_utf8(first) + encode_utf8(second));
    }
}

/// The scheme prefix is written as its seven bytes.
pub proof fn bearer_prefix_bytes()
    ensures
        encode_utf8(bearer_prefix()) == bearer_bytes(),
{
    reveal_strlit("Bearer ");
    is_ascii_chars_encode_utf8(bearer_prefix());
    assert(encode_utf8(bearer_prefix()) =~= bearer_bytes());
}

/// A header made of the scheme prefix and a token yields that token,
/// whatever the token is.
pub proof fn bearer_header_yields_token(token: Seq<char>)
    ensures
        bearer_token(Some(bearer_header(token))) == Ok::<Seq<char>, MyError>(token),
{
    let bytes = bearer_header(token);
    encode_utf8_of_joined(bearer_prefix(), token);
    bearer_prefix_bytes();
    encode_utf8_valid_utf8(token);
    encode_utf8_decode_utf8(token);
    assert(bytes.subrange(0, bearer_bytes().len() as int) =~= bearer_bytes());
    assert(bytes.skip(bearer_bytes().len() as int) =~= encode_utf8(token));
}

/// A header that is present and does not begin with the scheme prefix is
/// malformed, whatever else it holds and whether or not it is text.
pub proof fn other_scheme_is_malformed(header: Seq<u8>)
    requires
        !bearer_bytes().is_prefix_of(header),
    ensures
        bearer_token(Some(header)) == Err::<Seq<char>, MyError>(MyError::InvalidAuthHeaderError),
{
}

/// A token that holds for `subject` until `expiry` lets a request through
/// as `subject` for just as long when it is presented after the scheme
/// prefix.
pub proof fn valid_token_is_admitted(
    token: Seq<char>,
    subject: Seq<char>,
    expiry: int,
    secret: Seq<u8>,
)
    requires
        holds_until(token, subject, expiry, secret),
    ensures
        admits_until(token, subject, expiry, secret),
{
    bearer_header_yields_token(token);
    assert forall|at: u64| #[trigger]
        authorized_subject(Some(bearer_header(token)), at, secret) == if at < expiry {
            Ok::<Seq<char>, MyError>(subject)
        } else {
            Err::<Seq<char>, MyError>(MyError::JWTTokenError)
        } by {
        assert(authorized_subject(Some(bearer_header(token)), at, secret) == token_subject(
            token,
            at,
            secret,
        ));
    }
}

/// Turns the outcome of signing into the token or the creation error.
pub fn issued_token(signed: Result<String, jsonwebtoken::errors::Error>) -> (token: Result<
    String,
    MyError,
>)
    ensures
        match signed {
            Ok(t) => token == Ok::<String, MyError>(t),
            Err(_) => token == Err::<String, MyError>(MyError::JWTTokenCreationError),
        },
{
    match signed {
        Ok(t) => Ok(t),
        Err(_) => Err(MyError::JWTTokenCreationError),
    }
}

/// Issues a token for `username` at time `now`, signed with `secret`.
///
/// A token is issued for every user name. It expires `TOKEN_TTL_SECS`
/// after `now`: under the same secret it yields `username` at every time
/// before the expiry and is turned down from the expiry on, and so is a
/// request that presents it.
pub fn create_jwt(username: &String, now: u64, secret: &[u8]) -> (token: Result<String, MyError>)
    requires
        now + TOKEN_TTL_SECS <= u64::MAX,
    ensures
        token is Ok,
        token matches Ok(t) ==> {
            &&& t@ == signed_token(username@, (now + TOKEN_TTL_SECS) as u64, secret@)
            &&& holds_until(t@, username@, expiry_for(now), secret@)
            &&& admits_until(t@, username@, expiry_for(now), secret@)
        },
{
    let expiration: u64 = now + TOKEN_TTL_SECS;
    let token = issued_token(encode_hs512(username.as_str(), expiration, secret));
    proof {
        if token is Ok {
            valid_token_is_admitted(token->Ok_0@, username@, expiry_for(now), secret@);
        }
    }
    token
}

/// Extracts the token material from the raw credential header.
pub fn jwt_from_header(header: Option<&[u8]>) -> (token: Result<String, MyError>)
    ensures
        text_result(token) == bearer_token(header_bytes(header)),
{
    let bytes = match header {
        Some(v) => v,
        None => {
            return Err(MyError::NoAuthHeaderError);
        },
    };
    let prefix: [u8; 7] = [66, 101, 97, 114, 101, 114, 32];
    proof {
        assert(prefix@ =~= bearer_bytes());
    }
    if !begins_with(bytes, prefix.as_slice()) {
        return Err(MyError::InvalidAuthHeaderError);
    }
    let rest = slice_subrange(bytes, 7, bytes.len());
    match str_from_utf8(rest) {
        Some(text) => {
            proof {
                encode_utf8_decode_utf8(text@);
            }
            Ok(text.to_owned())
        },
        None => Err(MyError::InvalidAuthHeaderError),
    }
}

/// Decides on the claims read from a token: the subject while the token
/// holds, and otherwise which of the two faults applies.
pub fn check_claims(claims: Option<Claims>, now: u64) -> (verdict: Result<String, TokenFault>)
    ensures
        text_result(verdict) == claims_verdict(claims_view(claims), now),
{
    match claims {
        None => Err(TokenFault::Rejected),
        Some(c) => if now < c.exp {
            Ok(c.sub)
        } else {
            Err(TokenFault::Expired)
        },
    }
}

/// Verifies `token` at time `now` under `secret` and returns its subject.
pub fn verify_jwt(token: &str, now: u64, secret: &[u8]) -> (subject: Result<String, MyError>)
    ensures
        text_result(subject) == token_subject(token@, now, secret@),
{
    match check_claims(decode_hs512(token, secret), now) {
        Ok(subject) => Ok(subject),
        Err(_) => Err(MyError::JWTTokenError),
    }
}

/// Authorizes a request: from its raw credential header to the
/// identity it acts as, or the reason it is rejected.
pub fn authorize(header: Option<&[u8]>, now: u64, secret: &[u8]) -> (subject: Result<
    String,
    MyError,
>)
    ensures
        text_result(subject) == authorized_subject(header_bytes(header), now, secret@),
{
    match jwt_from_header(header) {
        Ok(jwt) => verify_jwt(jwt.as_str(), now, secret),
        Err(e) => Err(e),
    }
}

} // verus!
