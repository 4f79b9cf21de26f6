//! Signatures for proxied image URLs: HMAC-SHA256 tags in lower-case hex,
//! and the URL itself in unpadded URL-safe base64.

use vstd::prelude::*;
use vstd::string::StringSliceAdditionalSpecFns;
use vstd::utf8::{decode_utf8, encode_utf8, valid_utf8};
use base64::Engine;
use hmac::Mac;

verus! {

/// The length of an HMAC-SHA256 tag, in bytes.
pub const TAG_LENGTH: usize = 32;

/// The HMAC-SHA256 tag of `message` under `key`.
pub uninterp spec fn hmac_sha256(key: Seq<u8>, message: Seq<u8>) -> Seq<u8>;

/// The unpadded URL-safe base64 text of `bytes`.
pub uninterp spec fn base64url(bytes: Seq<u8>) -> Seq<char>;

/// The bytes that unpadded URL-safe base64 text stands for, if it is valid.
pub uninterp spec fn base64url_decoded(text: Seq<char>) -> Option<Seq<u8>>;

/// The lower-case hex digit of a value below 16.
pub open spec fn hex_digit(n: int) -> char {
    if n == 0 {
        '0'
    } else if n == 1 {
        '1'
    } else if n == 2 {
        '2'
    } else if n == 3 {
        '3'
    } else if n == 4 {
        '4'
    } else if n == 5 {
        '5'
    } else if n == 6 {
        '6'
    } else if n == 7 {
        '7'
    } else if n == 8 {
        '8'
    } else if n == 9 {
        '9'
    } else if n == 10 {
        'a'
    } else if n == 11 {
        'b'
    } else if n == 12 {
        'c'
    } else if n == 13 {
        'd'
    } else if n == 14 {
        'e'
    } else {
        'f'
    }
}

/// The value of a hex digit of either case, or -1 for any other character.
pub open spec fn hex_value(c: char) -> int {
    if c == '0' {
        0
    } else if c == '1' {
        1
    } else if c == '2' {
        2
    } else if c == '3' {
        3
    } else if c == '4' {
        4
    } else if c == '5' {
        5
    } else if c == '6' {
        6
    } else if c == '7' {
        7
    } else if c == '8' {
        8
    } else if c == '9' {
        9
    } else if c == 'a' || c == 'A' {
        10
    } else if c == 'b' || c == 'B' {
        11
    } else if c == 'c' || c == 'C' {
        12
    } else if c == 'd' || c == 'D' {
        13
    } else if c == 'e' || c == 'E' {
        14
    } else if c == 'f' || c == 'F' {
        15
    } else {
        -1
    }
}

/// The lower-case hex text of `bytes`: two digits per byte, high digit first.
pub open spec fn hex_lower(bytes: Seq<u8>) -> Seq<char> {
    Seq::new(
        (2 * bytes.len()) as nat,
        |i: int|
            if i % 2 == 0 {
                hex_digit(bytes[i / 2] as int / 16)
            } else {
                hex_digit(bytes[i / 2] as int % 16)
            },
    )
}

/// Whether `text` is hex: an even number of hex digits of either case.
pub open spec fn is_hex(text: Seq<char>) -> bool {
    text.len() % 2 == 0 && forall|i: int| 0 <= i < text.len() ==> hex_value(#[trigger] text[i]) >= 0
}

/// The bytes that hex text stands for, if it is hex.
pub open spec fn hex_decoded(text: Seq<char>) -> Option<Seq<u8>> {
    if is_hex(text) {
        Some(
            Seq::new(
                (text.len() / 2) as nat,
                |i: int| (hex_value(text[2 * i]) * 16 + hex_value(text[2 * i + 1])) as u8,
            ),
        )
    } else {
        None
    }
}

/// Decoding the hex text of some bytes gives the bytes back.
pub proof fn hex_round_trip(bytes: Seq<u8>)
    ensures
        hex_decoded(hex_lower(bytes)) == Some(bytes),
{
    let text = hex_lower(bytes);
    assert forall|i: int| 0 <= i < text.len() implies hex_value(#[trigger] text[i]) >= 0 by {
        let b = bytes[i / 2] as int;
        assert(0 <= b / 16 < 16 && 0 <= b % 16 < 16);
    }
    assert(is_hex(text));
    let back = hex_decoded(text)->Some_0;
    assert forall|i: int| 0 <= i < bytes.len() implies back[i] == bytes[i] by {
        let b = bytes[i] as int;
        assert((2 * i) / 2 == i && (2 * i + 1) / 2 == i);
        assert((2 * i) % 2 == 0 && (2 * i + 1) % 2 == 1);
        assert(0 <= b / 16 < 16 && 0 <= b % 16 < 16);
        assert(hex_value(hex_digit(b / 16)) == b / 16);
        assert(hex_value(hex_digit(b % 16)) == b % 16);
        assert((b / 16) * 16 + b % 16 == b);
    }
    assert(back =~= bytes);
}

/// `hex::encode`: two lower-case hex digits per byte.
#[verifier::external_body]
pub(crate) fn hex_encode(bytes: &[u8]) -> (text: String)
    ensures
        text@ == hex_lower(bytes@),
{
    hex::encode(bytes)
}

/// `hex::decode`: the bytes of an even number of hex digits of either
/// case; anything else is refused.
#[verifier::external_body]
pub(crate) fn hex_decode(text: &str) -> (bytes: Option<Vec<u8>>)
    ensures
        bytes is Some == hex_decoded(text@) is Some,
        bytes is Some ==> bytes->Some_0@ == hex_decoded(text@)->Some_0,
{
    hex::decode(text).ok()
}

/// `Engine::encode` of `URL_SAFE_NO_PAD`: the text depends on the bytes
/// alone, and decodes to them. The encoder gives up only where the encoded
/// size does not fit in `usize`; a slice holds at most `isize::MAX` bytes,
/// whose encoded size fits.
#[verifier::external_body]
pub(crate) fn base64url_encode(bytes: &[u8]) -> (text: String)
    ensures
        text@ == base64url(bytes@),
        base64url_decoded(text@) == Some(bytes@),
{
    base64::engine::general_purpose::URL_SAFE_NO_PAD.encode(bytes)
}

/// `Engine::decode` of `URL_SAFE_NO_PAD`: the result depends on the text
/// alone.
#[verifier::external_body]
pub(crate) fn base64url_decode(text: &str) -> (bytes: Option<Vec<u8>>)
    ensures
        bytes is Some == base64url_decoded(text@) is Some,
        bytes is Some ==> bytes->Some_0@ == base64url_decoded(text@)->Some_0,
{
    base64::engine::general_purpose::URL_SAFE_NO_PAD.decode(text).ok()
}

/// `Hmac<Sha256>`: `new_from_slice`, `update`, `finalize`. A key of any
/// length is accepted; the tag depends on key and message alone, and has
/// 32 bytes.
#[verifier::external_body]
pub(crate) fn hmac_sha256_tag(key: &[u8], message: &[u8]) -> (tag: Vec<u8>)
    ensures
        tag@ == hmac_sha256(key@, message@),
        tag@.len() == TAG_LENGTH,
{
    let mut mac = hmac::Hmac::<sha2::Sha256>::new_from_slice(key).expect("any key length");
    mac.update(message);
    mac.finalize().into_bytes().to_vec()
}

/// `Hmac<Sha256>`: `new_from_slice`, `update`, `verify_slice`. The tag is
/// accepted when it has the length of the true tag and equals it; the
/// comparison takes the same time whatever the tag.
#[verifier::external_body]
pub(crate) fn hmac_sha256_verify(key: &[u8], message: &[u8], tag: &[u8]) -> (ok: bool)
    ensures
        ok == (tag@ == hmac_sha256(key@, message@)),
{
    let mut mac = hmac::Hmac::<sha2::Sha256>::new_from_slice(key).expect("any key length");
    mac.update(message);
    mac.verify_slice(tag).is_ok()
}

/// `String::from_utf8`: the text of valid UTF-8; anything else is refused.
#[verifier::external_body]
pub(crate) fn string_from_utf8(bytes: Vec<u8>) -> (text: Option<String>)
    ensures
        text is Some == valid_utf8(bytes@),
        text is Some ==> text->Some_0@ == decode_utf8(bytes@),
{
    String::from_utf8(bytes).ok()
}

/// The signature of an image URL: the hex tag of its bytes under the secret.
pub open spec fn signature_of(image_url: Seq<char>, secret: Seq<char>) -> Seq<char> {
    hex_lower(hmac_sha256(encode_utf8(secret), encode_utf8(image_url)))
}

/// Whether `sig` is a signature of `image_url` under `secret`: hex, of
/// either case, of the true tag.
pub open spec fn signature_ok(image_url: Seq<char>, sig: Seq<char>, secret: Seq<char>) -> bool {
    hex_decoded(sig) == Some(hmac_sha256(encode_utf8(secret), encode_utf8(image_url)))
}

/// Signs an image URL for the proxy endpoint. Returns the URL in unpadded
/// URL-safe base64 and its signature.
pub fn sign_image_url(image_url: &str, secret: &str) -> (signed: (String, String))
    ensures
        signed.0@ == base64url(encode_utf8(image_url@)),
        base64url_decoded(signed.0@) == Some(encode_utf8(image_url@)),
        signed.1@ == signature_of(image_url@, secret@),
        signed.1@.len() == 2 * TAG_LENGTH,
        signature_ok(image_url@, signed.1@, secret@),
{
    let encoded_url = base64url_encode(image_url.as_bytes());
    let tag = hmac_sha256_tag(secret.as_bytes(), image_url.as_bytes());
    let sig = hex_encode(tag.as_slice());
    proof {
        hex_round_trip(tag@);
    }
    (encoded_url, sig)
}

/// Verifies the signature of a proxied image URL.
pub fn verify_image_signature(image_url: &str, sig: &str, secret: &str) -> (ok: bool)
    ensures
        ok == signature_ok(image_url@, sig@, secret@),
{
    let sig_bytes = match hex_decode(sig) {
        Some(b) => b,
        None => {
            return false;
        },
    };
    hmac_sha256_verify(secret.as_bytes(), image_url.as_bytes(), sig_bytes.as_slice())
}

/// A signature made for a URL under a secret verifies for that URL under
/// that secret.
pub proof fn signed_url_verifies(image_url: Seq<char>, secret: Seq<char>)
    ensures
        signature_ok(image_url, signature_of(image_url, secret), secret),
{
    hex_round_trip(hmac_sha256(encode_utf8(secret), encode_utf8(image_url)));
}

} // verus!
