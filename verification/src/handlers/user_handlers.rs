//! Registration and login.
//!
//! A password is stored as the hexadecimal SHA-256 digest of its bytes. A
//! login is granted when the digest of the password given equals the bytes
//! that the stored text decodes to, and it is answered with a fresh token.

use crate::handlers::reply::{
    success, success_text, ErrorResponse, Reply, STATUS_CREATED, STATUS_OK,
};
use crate::middleware::auth::{
    admits_until, create_jwt, expiry_for, holds_until, MyError, TOKEN_TTL_SECS,
};
use crate::models::response::{LoginResponse, StatusResponse, UserRequest};
use crate::trusted::codec::{
    hex_decode, hex_decoded, hex_digit, hex_encode, hex_encoded, hex_value, sha256, sha256_digest,
};
use crate::trusted::jwt::signed_token;
use vstd::prelude::*;
use vstd::string::StringSliceAdditionalSpecFns;
use vstd::utf8::encode_utf8;

verus! {

/// The stored form of a password, as read back from storage.
#[derive(Debug, PartialEq, Eq)]
pub struct UserPassword {
    pub password: String,
}

/// The length of a SHA-256 digest in bytes.
pub const DIGEST_BYTES: usize = 32;

/// How a password compares with the stored form of one.
#[derive(Debug, Clone, Copy, PartialEq, Eq, Structural)]
pub enum PasswordCheck {
    /// The digest of the password is what is stored.
    Match,
    /// The digest of the password differs from what is stored.
    Mismatch,
    /// What is stored is not hexadecimal text.
    Unreadable,
    /// What is stored is hexadecimal but does not have the length of a
    /// digest, so it was not written by a registration.
    Corrupt,
}

/// Why a login was turned down.
#[derive(Debug, Clone, Copy, PartialEq, Eq, Structural)]
pub enum LoginFailure {
    /// No stored password was found for the user.
    UserNotFound,
    /// The password is wrong, or what is stored for the user is unreadable.
    InvalidCredentials,
    /// What is stored for the user does not have the length of a digest.
    CorruptHash,
    /// The password is right but no token could be issued.
    Token(MyError),
}

/// The stored form of `password`.
pub open spec fn stored_form(password: Seq<char>) -> Seq<char> {
    hex_encoded(sha256_digest(encode_utf8(password)))
}

/// How `password` compares with the text `stored` (given as its bytes).
pub open spec fn password_check(password: Seq<char>, stored: Seq<u8>) -> PasswordCheck {
    match hex_decoded(stored) {
        None => PasswordCheck::Unreadable,
        Some(bytes) => if bytes.len() != DIGEST_BYTES {
            PasswordCheck::Corrupt
        } else if bytes == sha256_digest(encode_utf8(password)) {
            PasswordCheck::Match
        } else {
            PasswordCheck::Mismatch
        },
    }
}

/// The failure that a login runs into before a token is issued, if any.
pub open spec fn login_failure(password: Seq<char>, stored: Option<Seq<u8>>) -> Option<
    LoginFailure,
> {
    match stored {
        None => Some(LoginFailure::UserNotFound),
        Some(text) => match password_check(password, text) {
            PasswordCheck::Match => None,
            PasswordCheck::Mismatch => Some(LoginFailure::InvalidCredentials),
            PasswordCheck::Unreadable => Some(LoginFailure::InvalidCredentials),
            PasswordCheck::Corrupt => Some(LoginFailure::CorruptHash),
        },
    }
}

/// The bytes of the text that was read back from storage, if any was.
pub open spec fn stored_bytes(stored: Option<&UserPassword>) -> Option<Seq<u8>> {
    match stored {
        Some(row) => Some(encode_utf8(row.password@)),
        None => None,
    }
}

/// Whether two byte strings are equal.
fn same_bytes(a: &Vec<u8>, b: &Vec<u8>) -> (same: bool)
    ensures
        same == (a@ == b@),
{
    if a.len() != b.len() {
        return false;
    }
    let mut i: usize = 0;
    while i < a.len()
        invariant
            i <= a@.len(),
            a@.len() == b@.len(),
            forall|k: int| 0 <= k < i ==> a@[k] == b@[k],
        decreases a@.len() - i,
    {
        if a[i] != b[i] {
            return false;
        }
        i += 1;
    }
    proof {
        assert(a@ =~= b@);
    }
    true
}

/// Decoding the hexadecimal form of `data` gives `data` back.
pub proof fn hex_round_trip(data: Seq<u8>)
    ensures
        hex_encoded(data).len() == 2 * data.len(),
        encode_utf8(hex_encoded(data)).len() == 2 * data.len(),
        hex_decoded(encode_utf8(hex_encoded(data))) == Some(data),
{
    let text = hex_encoded(data);
    assert forall|i: int| 0 <= i < text.len() implies 0 <= (#[trigger] text[i]) as u32 <= 127 by {
        let v = if i % 2 == 0 {
            data[i / 2] as int / 16
        } else {
            data[i / 2] as int % 16
        };
        assert(0 <= v < 16);
        assert(text[i] == hex_digit(v));
    }
    vstd::utf8::is_ascii_chars_encode_utf8(text);
    let bytes = encode_utf8(text);
    assert forall|i: int| 0 <= i < bytes.len() implies hex_value(#[trigger] bytes[i]) is Some by {
        let v = if i % 2 == 0 {
            data[i / 2] as int / 16
        } else {
            data[i / 2] as int % 16
        };
        assert(0 <= v < 16);
        assert(text[i] == hex_digit(v));
        assert(bytes[i] == text[i] as u8);
    }
    let back = hex_decoded(bytes)->0;
    assert forall|i: int| 0 <= i < data.len() implies back[i] == data[i] by {
        let hi = data[i] as int / 16;
        let lo = data[i] as int % 16;
        assert(text[2 * i] == hex_digit(hi));
        assert(text[2 * i + 1] == hex_digit(lo));
        assert(bytes[2 * i] == text[2 * i] as u8);
        assert(bytes[2 * i + 1] == text[2 * i + 1] as u8);
        assert(hex_value(bytes[2 * i])->0 == hi);
        assert(hex_value(bytes[2 * i + 1])->0 == lo);
    }
    assert(back =~= data);
}

/// The stored form of a password: the lower-case hexadecimal text of its
/// SHA-256 digest. The password checks against its own stored form.
pub fn password_digest(password: &str) -> (stored: String)
    ensures
        stored@ == stored_form(password@),
        password_check(password@, encode_utf8(stored@)) == PasswordCheck::Match,
{
    let digest = sha256(password.as_bytes());
    proof {
        hex_round_trip(digest@);
    }
    hex_encode(digest.as_slice())
}

/// Compares a password with the stored form of one.
pub fn check_password(password: &str, stored: &str) -> (check: PasswordCheck)
    ensures
        check == password_check(password@, encode_utf8(stored@)),
{
    match hex_decode(stored) {
        Err(_) => PasswordCheck::Unreadable,
        Ok(bytes) => {
            if bytes.len() != DIGEST_BYTES {
                PasswordCheck::Corrupt
            } else {
                let digest = sha256(password.as_bytes());
                if same_bytes(&bytes, &digest) {
                    PasswordCheck::Match
                } else {
                    PasswordCheck::Mismatch
                }
            }
        },
    }
}

/// The reply to a registration.
pub fn user_registered() -> (reply: Reply<StatusResponse>)
    ensures
        reply.status == STATUS_CREATED,
        reply.body.status@ == success_text(),
{
    Reply { status: STATUS_CREATED, body: StatusResponse { status: success() } }
}

/// Decides a login from the credentials given and the password stored for
/// the user, if one was found, and issues the token of a granted login. A
/// login is granted whenever the password matches what is stored.
///
/// The token is issued to the user name at time `now` and signed with
/// `secret`; it is sent with status 200.
pub fn login_user(
    data: &UserRequest,
    stored: Option<&UserPassword>,
    now: u64,
    secret: &[u8],
) -> (login: Result<Reply<LoginResponse>, LoginFailure>)
    requires
        now + TOKEN_TTL_SECS <= u64::MAX,
    ensures
        match login_failure(data.password@, stored_bytes(stored)) {
            Some(failure) => login == Err::<Reply<LoginResponse>, LoginFailure>(failure),
            None => {
                &&& login matches Ok(reply)
                &&& reply.status == STATUS_OK
                &&& reply.body.token@ == signed_token(
                    data.username@,
                    (now + TOKEN_TTL_SECS) as u64,
                    secret@,
                )
                &&& holds_until(reply.body.token@, data.username@, expiry_for(now), secret@)
                &&& admits_until(reply.body.token@, data.username@, expiry_for(now), secret@)
            },
        },
{
    let stored = match stored {
        Some(row) => row,
        None => {
            return Err(LoginFailure::UserNotFound);
        },
    };
    match check_password(data.password.as_str(), stored.password.as_str()) {
        PasswordCheck::Match => match create_jwt(&data.username, now, secret) {
            Ok(token) => Ok(Reply { status: STATUS_OK, body: LoginResponse { token } }),
            Err(e) => Err(LoginFailure::Token(e)),
        },
        PasswordCheck::Mismatch => Err(LoginFailure::InvalidCredentials),
        PasswordCheck::Unreadable => Err(LoginFailure::InvalidCredentials),
        PasswordCheck::Corrupt => Err(LoginFailure::CorruptHash),
    }
}

/// The message that explains a failed login to the caller, where the
/// failure is one of the credentials.
pub fn login_failure_message(failure: LoginFailure) -> (message: Option<ErrorResponse>)
    ensures
        match failure {
            LoginFailure::UserNotFound => message matches Some(m) && m.message@
                == "User not found"@,
            LoginFailure::InvalidCredentials => message matches Some(m) && m.message@
                == "Invalid credentials"@,
            LoginFailure::CorruptHash => message is None,
            LoginFailure::Token(_) => message is None,
        },
{
    match failure {
        LoginFailure::UserNotFound => Some(ErrorResponse::new("User not found".to_owned())),
        LoginFailure::InvalidCredentials => Some(
            ErrorResponse::new("Invalid credentials".to_owned()),
        ),
        LoginFailure::CorruptHash => None,
        LoginFailure::Token(_) => None,
    }
}

} // verus!
