use blog_backend::handlers::user_handlers::{
    check_password, login_failure_message, login_user, password_digest, user_registered,
    LoginFailure, PasswordCheck, UserPassword,
};
use blog_backend::middleware::auth::{verify_jwt, MyError, TOKEN_TTL_SECS};
use blog_backend::models::response::UserRequest;

const SECRET: &[u8] = b"secret";
const T: u64 = 1_700_000_000;
const DIGEST_OF_PASSWORD: &str =
    "5e884898da28047151d0e56f8dc6292773603d0d6aabbdd62a11ef721d1542d8";

fn stored(password: &str) -> UserPassword {
    UserPassword { password: password.to_string() }
}

fn request(username: &str, password: &str) -> UserRequest {
    UserRequest { username: username.to_string(), password: password.to_string() }
}

#[test]
fn password_is_stored_as_the_hex_of_its_sha256() {
    assert_eq!(password_digest("password"), DIGEST_OF_PASSWORD);
    assert_eq!(
        password_digest(""),
        "e3b0c44298fc1c149afbf4c8996fb92427ae41e4649b934ca495991b7852b855"
    );
}

#[test]
fn password_matches_its_own_stored_form() {
    for password in ["password", "", "p\u{e4}ssw\u{f6}rd", "a much longer pass phrase, with spaces"] {
        assert_eq!(check_password(password, &password_digest(password)), PasswordCheck::Match);
    }
}

#[test]
fn stored_form_may_be_in_upper_case() {
    assert_eq!(
        check_password("password", &DIGEST_OF_PASSWORD.to_uppercase()),
        PasswordCheck::Match
    );
}

#[test]
fn wrong_password_is_a_mismatch() {
    assert_eq!(check_password("Password", DIGEST_OF_PASSWORD), PasswordCheck::Mismatch);
}

#[test]
fn stored_text_that_is_not_hex_is_unreadable() {
    assert_eq!(check_password("password", "xyz"), PasswordCheck::Unreadable);
    assert_eq!(check_password("password", "abc"), PasswordCheck::Unreadable);
    assert_eq!(check_password("password", "zz"), PasswordCheck::Unreadable);
    assert_eq!(check_password("password", "\u{e9}\u{e9}"), PasswordCheck::Unreadable);
}

#[test]
fn stored_text_of_another_length_is_corrupt() {
    assert_eq!(check_password("password", ""), PasswordCheck::Corrupt);
    assert_eq!(check_password("password", "abcd"), PasswordCheck::Corrupt);
    assert_eq!(check_password("password", &DIGEST_OF_PASSWORD[2..]), PasswordCheck::Corrupt);
}

#[test]
fn login_with_the_right_password_gets_a_token_for_the_user() {
    let row = stored(&password_digest("password"));
    let reply = login_user(&request("alice", "password"), Some(&row), T, SECRET).unwrap();
    assert_eq!(reply.status, 200);
    let token = reply.body.token;
    assert_eq!(verify_jwt(&token, T, SECRET), Ok("alice".to_string()));
    assert_eq!(verify_jwt(&token, T + TOKEN_TTL_SECS - 1, SECRET), Ok("alice".to_string()));
    assert_eq!(verify_jwt(&token, T + TOKEN_TTL_SECS + 1, SECRET), Err(MyError::JWTTokenError));
}

#[test]
fn login_of_an_unknown_user_fails() {
    assert_eq!(
        login_user(&request("nobody", "password"), None, T, SECRET),
        Err(LoginFailure::UserNotFound)
    );
}

#[test]
fn login_with_the_wrong_password_fails() {
    let row = stored(&password_digest("password"));
    assert_eq!(
        login_user(&request("alice", "guess"), Some(&row), T, SECRET),
        Err(LoginFailure::InvalidCredentials)
    );
    assert_eq!(
        login_user(&request("alice", "password"), Some(&stored("not hex")), T, SECRET),
        Err(LoginFailure::InvalidCredentials)
    );
}

#[test]
fn login_against_a_corrupt_hash_is_reported_as_such() {
    assert_eq!(
        login_user(&request("alice", "password"), Some(&stored("abcd")), T, SECRET),
        Err(LoginFailure::CorruptHash)
    );
}

#[test]
fn login_failures_have_their_messages() {
    assert_eq!(
        login_failure_message(LoginFailure::UserNotFound).unwrap().message,
        "User not found"
    );
    assert_eq!(
        login_failure_message(LoginFailure::InvalidCredentials).unwrap().message,
        "Invalid credentials"
    );
    assert_eq!(login_failure_message(LoginFailure::CorruptHash), None);
    assert_eq!(
        login_failure_message(LoginFailure::Token(MyError::JWTTokenCreationError)),
        None
    );
}

#[test]
fn registration_is_answered_with_created() {
    let reply = user_registered();
    assert_eq!(reply.status, 201);
    assert_eq!(reply.body.status, "Success");
}
