//! Contracts for the byte codecs: base64 (`base64` crate), hexadecimal
//! (`hex` crate) and the SHA-256 digest (`sha2` crate).

use vstd::prelude::*;
use vstd::string::StringSliceAdditionalSpecFns;

verus! {

#[verifier::external_type_specification]
#[verifier::external_body]
pub struct ExBase64DecodeError(base64::DecodeError);

#[verifier::external_type_specification]
#[verifier::external_body]
pub struct ExFromHexError(hex::FromHexError);

/// The bytes that `base64::decode` reads from `text` in the standard
/// alphabet with padding, or `None` where it reports an error.
pub uninterp spec fn base64_decoded(text: Seq<char>) -> Option<Seq<u8>>;

/// The text that `base64::encode` writes for `data` in the standard
/// alphabet with padding.
pub uninterp spec fn base64_encoded(data: Seq<u8>) -> Seq<char>;

/// The digest that SHA-256 computes for `data`.
pub uninterp spec fn sha256_digest(data: Seq<u8>) -> Seq<u8>;

/// The lower-case hexadecimal digit for a value under sixteen.
pub open spec fn hex_digit(value: int) -> char {
    if value < 10 {
        (48 + value) as char
    } else {
        (87 + value) as char
    }
}

/// `data` written as two lower-case hexadecimal digits per byte, the high
/// half first.
pub open spec fn hex_encoded(data: Seq<u8>) -> Seq<char> {
    Seq::new(
        2 * data.len(),
        |i: int|
            if i % 2 == 0 {
                hex_digit(data[i / 2] as int / 16)
            } else {
                hex_digit(data[i / 2] as int % 16)
            },
    )
}

/// The value of a hexadecimal digit of either case, given as its byte.
pub open spec fn hex_value(digit: u8) -> Option<int> {
    if 48 <= digit <= 57 {
        Some(digit - 48)
    } else if 97 <= digit <= 102 {
        Some(digit - 87)
    } else if 65 <= digit <= 70 {
        Some(digit - 55)
    } else {
        None
    }
}

/// The bytes that hexadecimal `text` stands for: `None` where its length is
/// odd or one of its bytes is no hexadecimal digit.
pub open spec fn hex_decoded(text: Seq<u8>) -> Option<Seq<u8>> {
    if text.len() % 2 != 0 {
        None
    } else if forall|i: int| 0 <= i < text.len() ==> hex_value(#[trigger] text[i]) is Some {
        Some(
            Seq::new(
                text.len() / 2,
                |i: int| (hex_value(text[2 * i])->0 * 16 + hex_value(text[2 * i + 1])->0) as u8,
            ),
        )
    } else {
        None
    }
}

/// `base64::decode`. Trusted: the outcome is the named one.
#[verifier::external_body]
#[allow(deprecated)]
pub(crate) fn base64_decode(text: &str) -> (data: Result<Vec<u8>, base64::DecodeError>)
    ensures
        data is Ok <==> base64_decoded(text@) is Some,
        data matches Ok(bytes) ==> base64_decoded(text@) == Some(bytes@),
{
    base64::decode(text)
}

/// `base64::encode`. Trusted: the text is the named one.
#[verifier::external_body]
#[allow(deprecated)]
pub(crate) fn base64_encode(data: &[u8]) -> (text: String)
    ensures
        text@ == base64_encoded(data@),
{
    base64::encode(data)
}

/// `hex::encode`. Trusted: two digits from `0123456789abcdef` per byte,
/// the high four bits first.
#[verifier::external_body]
pub(crate) fn hex_encode(data: &[u8]) -> (text: String)
    ensures
        text@ == hex_encoded(data@),
{
    hex::encode(data)
}

/// `hex::decode`, which reads the bytes of `text`. Trusted: an odd length
/// or a byte that is no digit of either case is an error; otherwise each
/// pair of digits gives one byte, the first digit its high four bits.
#[verifier::external_body]
pub(crate) fn hex_decode(text: &str) -> (data: Result<Vec<u8>, hex::FromHexError>)
    ensures
        data is Ok <==> hex_decoded(text.spec_bytes()) is Some,
        data matches Ok(bytes) ==> hex_decoded(text.spec_bytes()) == Some(bytes@),
{
    hex::decode(text)
}

/// `Sha256::digest` of the `sha2` crate. Trusted: the digest is the named
/// one, and it is 32 bytes long.
#[verifier::external_body]
pub(crate) fn sha256(data: &[u8]) -> (digest: Vec<u8>)
    ensures
        digest@ == sha256_digest(data@),
        digest@.len() == 32,
{
    let mut hasher = <sha2::Sha256 as sha2::Digest>::new();
    sha2::Digest::update(&mut hasher, data);
    sha2::Digest::finalize(hasher).to_vec()
}

} // verus!
