//! The image proxy: a signed URL is decoded and verified, its target is
//! checked, and the image is relayed up to a size cap.

use vstd::prelude::*;
use vstd::utf8::{decode_utf8, encode_utf8, valid_utf8};
use crate::link_preview::{append_capped, fitting, is_safe_url, safe_url, IpAddress};
use crate::shared::error::{AppError, ErrorKind};
use crate::shared::text::{chars_of, starts_with};
use crate::shared::validation::MAX_IMAGE_PROXY_SIZE;
use crate::signing::{
    base64url, base64url_decode, base64url_decoded, signature_of, signature_ok,
    string_from_utf8, verify_image_signature,
};

verus! {

/// The query of a proxy request.
#[derive(Debug)]
pub struct ImageProxyQuery {
    /// The image URL, in unpadded URL-safe base64.
    pub url: String,
    /// The signature of the image URL, in hex.
    pub sig: String,
}

/// The image URL that a query's `url` parameter stands for, if it is
/// base64 of valid UTF-8.
pub open spec fn decoded_url(encoded: Seq<char>) -> Option<Seq<char>> {
    match base64url_decoded(encoded) {
        Some(bytes) => if valid_utf8(bytes) {
            Some(decode_utf8(bytes))
        } else {
            None
        },
        None => None,
    }
}

/// Decodes the image URL of a query and verifies its signature.
pub fn decode_proxy_query(query: &ImageProxyQuery, secret: &str) -> (r: Result<String, AppError>)
    ensures
        match decoded_url(query.url@) {
            None => r is Err && r->Err_0.is(ErrorKind::BadRequest, "Invalid URL encoding"@),
            Some(url) => if signature_ok(url, query.sig@, secret@) {
                r is Ok && r->Ok_0@ == url
            } else {
                r is Err && r->Err_0.is(ErrorKind::Forbidden, "Invalid signature"@)
            },
        },
{
    let bytes = match base64url_decode(query.url.as_str()) {
        Some(b) => b,
        None => {
            return Err(AppError::bad_request("Invalid URL encoding"));
        },
    };
    let image_url = match string_from_utf8(bytes) {
        Some(u) => u,
        None => {
            return Err(AppError::bad_request("Invalid URL encoding"));
        },
    };
    if !verify_image_signature(image_url.as_str(), query.sig.as_str(), secret) {
        return Err(AppError::forbidden("Invalid signature"));
    }
    Ok(image_url)
}

/// Refuses a target that is not safe to fetch, however well it is signed.
/// `resolved` holds the addresses the URL's host resolves to.
pub fn check_proxy_target(image_url: &str, resolved: &Vec<IpAddress>) -> (r: Result<(), AppError>)
    ensures
        safe_url(image_url@, resolved@) ==> r is Ok,
        !safe_url(image_url@, resolved@) ==> r is Err && r->Err_0.is(
            ErrorKind::BadRequest,
            "URL failed safety check"@,
        ),
{
    if !is_safe_url(image_url, resolved) {
        return Err(AppError::bad_request("URL failed safety check"));
    }
    Ok(())
}

/// The content type a response is taken to have.
pub open spec fn effective_content_type(content_type: Option<Seq<char>>) -> Seq<char> {
    match content_type {
        Some(t) => t,
        None => "application/octet-stream"@,
    }
}

/// Checks the headers of the upstream response: it must be an image, and
/// must not declare more than the cap. Returns the content type to relay.
pub fn check_image_response(content_type: Option<&str>, content_length: Option<u64>) -> (r: Result<
    String,
    AppError,
>)
    ensures
        ({
            let t = effective_content_type(
                match content_type {
                    Some(s) => Some(s@),
                    None => None,
                },
            );
            if !"image/"@.is_prefix_of(t) {
                r is Err && r->Err_0.is(ErrorKind::BadRequest, "Not an image"@)
            } else if content_length is Some && content_length->Some_0 > MAX_IMAGE_PROXY_SIZE {
                r is Err && r->Err_0.is(ErrorKind::BadRequest, "Image too large"@)
            } else {
                r is Ok && r->Ok_0@ == t
            }
        }),
{
    let t = match content_type {
        Some(s) => String::from_str(s),
        None => String::from_str("application/octet-stream"),
    };
    let v = chars_of(t.as_str());
    let image = chars_of("image/");
    if !starts_with(&v, &image) {
        return Err(AppError::bad_request("Not an image"));
    }
    match content_length {
        Some(n) => {
            if n > MAX_IMAGE_PROXY_SIZE as u64 {
                return Err(AppError::bad_request("Image too large"));
            }
        },
        None => {},
    }
    Ok(t)
}

/// Adds a chunk of the image to what was read. A chunk that arrives when
/// the cap is reached ends the relay; one that crosses the cap is cut.
pub fn append_image_chunk(buf: &mut Vec<u8>, chunk: &[u8]) -> (r: Result<(), AppError>)
    ensures
        old(buf)@.len() >= MAX_IMAGE_PROXY_SIZE ==> r is Err && r->Err_0.is(
            ErrorKind::BadRequest,
            "Image too large"@,
        ) && final(buf)@ == old(buf)@,
        old(buf)@.len() < MAX_IMAGE_PROXY_SIZE ==> r is Ok && final(buf)@ == old(buf)@ + fitting(
            old(buf)@,
            chunk@,
            MAX_IMAGE_PROXY_SIZE,
        ),
{
    if buf.len() >= MAX_IMAGE_PROXY_SIZE {
        return Err(AppError::bad_request("Image too large"));
    }
    let _ = append_capped(buf, chunk, MAX_IMAGE_PROXY_SIZE);
    Ok(())
}

/// A query made by signing a URL decodes to that URL and is accepted.
pub proof fn signed_query_is_accepted(image_url: Seq<char>, secret: Seq<char>, encoded: Seq<char>)
    requires
        base64url_decoded(encoded) == Some(encode_utf8(image_url)),
    ensures
        decoded_url(encoded) == Some(image_url),
        signature_ok(image_url, signature_of(image_url, secret), secret),
{
    vstd::utf8::encode_utf8_valid_utf8(image_url);
    vstd::utf8::encode_utf8_decode_utf8(image_url);
    crate::signing::signed_url_verifies(image_url, secret);
}

} // verus!
