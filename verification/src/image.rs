//! Judging a downloaded image and packing it into a data URI.

use crate::http::{is_success, status_is_success, ImageReply, Param, Request, RequestView};
use crate::text::{contains, has_substring, media_type, mime_of, starts_with, to_chars};
use vstd::prelude::*;
use vstd::string::StringExecFns;

verus! {

/// The smallest body that is taken for an image.
pub const MIN_IMAGE_BYTES: usize = 1000;

/// Whether a `Content-Type` header value names an image.
pub open spec fn is_image_type(content_type: Seq<char>) -> bool {
    "image/"@.is_prefix_of(content_type)
}

/// Whether status and content type allow the body to be an image at all.
pub open spec fn head_accepted(status: u16, content_type: Seq<char>) -> bool {
    is_success(status) && is_image_type(content_type)
}

/// Whether a response is taken for an image: success, an image content
/// type, and a body of at least [`MIN_IMAGE_BYTES`] bytes.
pub open spec fn image_accepted(status: u16, content_type: Seq<char>, body_len: nat) -> bool {
    head_accepted(status, content_type) && body_len >= MIN_IMAGE_BYTES
}

/// Whether status and content type allow the body to be an image. Where
/// they do not, the body need not be read: no body makes the response an
/// image.
pub fn accepts_head(status: u16, content_type: &str) -> (b: bool)
    ensures
        b == head_accepted(status, content_type@),
        !b ==> forall|body_len: nat| !image_accepted(status, content_type@, body_len),
{
    if !status_is_success(status) {
        return false;
    }
    let chars = to_chars(content_type);
    let prefix = to_chars("image/");
    starts_with(&chars, &prefix)
}

/// Judges a response to an image request. An accepted one gives its body
/// and its media type; any other gives nothing.
pub fn validate_image(status: u16, content_type: &str, body: Vec<u8>) -> (image: Option<
    (Vec<u8>, String),
>)
    ensures
        image is Some <==> image_accepted(status, content_type@, body@.len()),
        image matches Some((bytes, mime)) ==> bytes == body && mime@ == media_type(content_type@),
{
    if !status_is_success(status) {
        return None;
    }
    let chars = to_chars(content_type);
    let prefix = to_chars("image/");
    if !starts_with(&chars, &prefix) {
        return None;
    }
    if body.len() < MIN_IMAGE_BYTES {
        return None;
    }
    let mime = mime_of(&chars);
    Some((body, mime))
}

/// The image that a reply holds, if it holds one.
pub open spec fn reply_image(reply: ImageReply) -> Option<(Seq<u8>, Seq<char>)> {
    match reply {
        ImageReply::Response { status, content_type, body } => if image_accepted(
            status,
            content_type@,
            body@.len(),
        ) {
            Some((body@, media_type(content_type@)))
        } else {
            None
        },
        ImageReply::Unreachable => None,
    }
}

/// The host whose image server wants to be told where a request comes from.
pub open spec fn referer_host() -> Seq<char> {
    "artic.edu"@
}

/// The request for the image at `url`. An address on [`referer_host`] gets
/// a `Referer` header; no other does.
pub open spec fn image_request(url: Seq<char>) -> RequestView {
    RequestView {
        url,
        query: Seq::empty(),
        headers: if has_substring(url, referer_host()) {
            seq![("Referer"@, "https://www.artic.edu/"@)]
        } else {
            Seq::empty()
        },
    }
}

/// The request for the image at `url`.
pub fn request_image(url: &str) -> (request: Request)
    ensures
        request@ == image_request(url@),
{
    let chars = to_chars(url);
    let host = to_chars("artic.edu");
    let mut headers: Vec<Param> = Vec::new();
    if contains(&chars, &host) {
        headers.push(Param::new("Referer", "https://www.artic.edu/"));
    }
    let request = Request { url: url.to_owned(), query: Vec::new(), headers };
    assert(request@.query =~= Seq::empty());
    assert(request@.headers =~= image_request(url@).headers);
    request
}

/// The standard base64 text, padded, of `bytes`.
pub uninterp spec fn base64(bytes: Seq<u8>) -> Seq<char>;

/// The length of the padded base64 text of `n` bytes.
pub open spec fn base64_len(n: nat) -> nat {
    4 * ((n + 2) / 3)
}

/// `base64::Engine::encode` on the `STANDARD` engine. It computes the
/// length [`base64_len`] first and panics if that does not fit in `usize`,
/// hence the `requires`. Its result depends on the bytes alone and is
/// named [`base64`].
#[verifier::external_body]
fn encode_base64(bytes: &Vec<u8>) -> (encoded: String)
    requires
        base64_len(bytes@.len()) <= usize::MAX,
    ensures
        encoded@ == base64(bytes@),
{
    base64::Engine::encode(&base64::engine::general_purpose::STANDARD, bytes)
}

/// The data URI of an image with the media type `mime`.
pub open spec fn data_uri_of(mime: Seq<char>, bytes: Seq<u8>) -> Seq<char> {
    "data:"@ + mime + ";base64,"@ + base64(bytes)
}

/// Packs an image into a data URI: its media type, then its bytes in
/// base64.
pub fn data_uri(mime: &str, bytes: &Vec<u8>) -> (uri: String)
    requires
        base64_len(bytes@.len()) <= usize::MAX,
    ensures
        uri@ == data_uri_of(mime@, bytes@),
{
    let encoded = encode_base64(bytes);
    let mut uri = "data:".to_owned();
    uri.append(mime);
    uri.append(";base64,");
    uri.append(encoded.as_str());
    uri
}

} // verus!
