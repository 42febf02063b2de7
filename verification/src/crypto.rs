//! Encodings, digests and comparisons that outside crates compute.
use base64::Engine;
use hmac::Mac;
use sha2::Digest;
use subtle::ConstantTimeEq;
use vstd::prelude::*;

verus! {

/// The bytes of an optional vector.
pub open spec fn opt_bytes(v: Option<Vec<u8>>) -> Option<Seq<u8>> {
    match v {
        Some(bytes) => Some(bytes@),
        None => None,
    }
}

/// The number under sixty-four that a character of the URL-safe base64 alphabet stands for.
pub open spec fn base64url_digit(c: char) -> Option<int> {
    if 'A' <= c <= 'Z' {
        Some(c as int - 'A' as int)
    } else if 'a' <= c <= 'z' {
        Some(c as int - 'a' as int + 26)
    } else if '0' <= c <= '9' {
        Some(c as int - '0' as int + 52)
    } else if c == '-' {
        Some(62)
    } else if c == '_' {
        Some(63)
    } else {
        None
    }
}

/// The bits that remain of a text's last digit once the whole bytes are taken: four of two digits,
/// two of three.
pub open spec fn unused_bits(text: Seq<char>) -> int {
    if text.len() % 4 == 2 {
        base64url_digit(text.last())->0 % 16
    } else if text.len() % 4 == 3 {
        base64url_digit(text.last())->0 % 4
    } else {
        0
    }
}

/// The `i`th byte of a text in base64: four digits of six bits make three bytes of eight.
pub open spec fn base64url_byte(text: Seq<char>, i: int) -> int {
    let digit = |k: int| base64url_digit(text[i / 3 * 4 + k])->0;
    if i % 3 == 0 {
        digit(0) * 4 + digit(1) / 16
    } else if i % 3 == 1 {
        digit(1) % 16 * 16 + digit(2) / 4
    } else {
        digit(2) % 4 * 64 + digit(3)
    }
}

/// The bytes that a text in the URL-safe base64 alphabet without padding stands for. There are none
/// where it holds another character, where one digit is left over, or where unused bits are set.
pub open spec fn base64url_bytes(text: Seq<char>) -> Option<Seq<u8>> {
    if (forall|i: int| 0 <= i < text.len() ==> base64url_digit(#[trigger] text[i]) is Some)
        && text.len() % 4 != 1 && unused_bits(text) == 0 {
        Some(Seq::new((text.len() * 6 / 8) as nat, |i: int| base64url_byte(text, i) as u8))
    } else {
        None
    }
}

/// `base64::engine::general_purpose::URL_SAFE_NO_PAD.decode`: it returns the bytes that the text
/// stands for, and an error, not described further, exactly where it stands for none.
#[verifier::external_body]
pub(crate) fn base64url_decode(text: &str) -> (r: Option<Vec<u8>>)
    ensures
        opt_bytes(r) == base64url_bytes(text@),
{
    base64::engine::general_purpose::URL_SAFE_NO_PAD.decode(text).ok()
}

/// The SHA-256 digest of some bytes.
pub uninterp spec fn sha256_digest(data: Seq<u8>) -> Seq<u8>;

/// `sha2::Sha256::digest`: the digest depends on the bytes alone and has 32 bytes.
#[verifier::external_body]
pub(crate) fn sha256(data: &[u8]) -> (r: Vec<u8>)
    ensures
        r@ == sha256_digest(data@),
        r@.len() == 32,
{
    sha2::Sha256::digest(data).to_vec()
}

/// The HMAC-SHA256 tag of a message under a key.
pub uninterp spec fn hmac_sha256_tag(key: Seq<u8>, message: Seq<u8>) -> Seq<u8>;

/// `hmac::Hmac::<Sha256>`, made by `new_from_slice`, fed by one `update` and finished: a key of any
/// length is accepted, and the tag, of 32 bytes, depends on the key and the message alone.
#[verifier::external_body]
pub(crate) fn hmac_sha256(key: &[u8], message: &[u8]) -> (r: Option<Vec<u8>>)
    ensures
        opt_bytes(r) == Some(hmac_sha256_tag(key@, message@)),
        r matches Some(tag) ==> tag@.len() == 32,
{
    let mut mac = hmac::Hmac::<sha2::Sha256>::new_from_slice(key).ok()?;
    mac.update(message);
    Some(mac.finalize().into_bytes().to_vec())
}

/// The hexadecimal digit, in small letters, of a number under sixteen.
pub open spec fn hex_digit(n: int) -> char {
    if n < 10 {
        ((n + 48) as u8) as char
    } else {
        ((n + 87) as u8) as char
    }
}

/// Two hexadecimal digits for each byte, the high half first.
pub open spec fn hex_text(data: Seq<u8>) -> Seq<char> {
    Seq::new(
        data.len() * 2,
        |i: int|
            if i % 2 == 0 {
                hex_digit(data[i / 2] as int / 16)
            } else {
                hex_digit(data[i / 2] as int % 16)
            },
    )
}

/// `hex::encode`: two small hexadecimal digits for each byte.
#[verifier::external_body]
pub(crate) fn hex_encode(data: &[u8]) -> (r: String)
    ensures
        r@ == hex_text(data@),
{
    hex::encode(data)
}

/// `ConstantTimeEq::ct_eq` of two byte slices: it holds exactly if they have the same length and
/// the same bytes.
#[verifier::external_body]
pub(crate) fn constant_time_eq(a: &[u8], b: &[u8]) -> (r: bool)
    ensures
        r == (a@ == b@),
{
    bool::from(a.ct_eq(b))
}

} // verus!
