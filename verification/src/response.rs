//! The response to a request, as plain values: status, the two headers that
//! the service sets, and where the body comes from.

use crate::error::{FetchFailure, S3Error};
use vstd::prelude::*;
use vstd::utf8::{encode_utf8, is_ascii_chars, is_ascii_chars_encode_utf8};

verus! {

/// Where the body of a response comes from.
#[derive(Clone, Debug, PartialEq, Eq)]
pub enum Body {
    /// A fixed text.
    Text(&'static str),
    /// The bytes of the fetched object, chunk by chunk.
    Stream,
}

/// What a `Body` is.
pub enum BodyView {
    Text(Seq<char>),
    Stream,
}

impl View for Body {
    type V = BodyView;

    open spec fn view(&self) -> BodyView {
        match *self {
            Body::Text(text) => BodyView::Text(text@),
            Body::Stream => BodyView::Stream,
        }
    }
}

/// A response: its status code, the value of `Content-Type` and of
/// `Content-Length` where the header is set, and its body.
#[derive(Clone, Debug, PartialEq, Eq)]
pub struct Response {
    pub status: u16,
    pub content_type: Option<String>,
    pub content_length: Option<i64>,
    pub body: Body,
}

/// What a `Response` is.
pub struct ResponseView {
    pub status: u16,
    pub content_type: Option<Seq<char>>,
    pub content_length: Option<i64>,
    pub body: BodyView,
}

/// The characters of a text that may be absent.
pub open spec fn text_view(text: Option<String>) -> Option<Seq<char>> {
    match text {
        Some(text) => Some(text@),
        None => None,
    }
}

impl View for Response {
    type V = ResponseView;

    open spec fn view(&self) -> ResponseView {
        ResponseView {
            status: self.status,
            content_type: text_view(self.content_type),
            content_length: self.content_length,
            body: self.body@,
        }
    }
}

/// The response that carries nothing but a status and a fixed text: no
/// header is set, and no object is read.
pub open spec fn plain_response(status: u16, text: Seq<char>) -> ResponseView {
    ResponseView { status, content_type: None, content_length: None, body: BodyView::Text(text) }
}

/// The response that streams an object: status 200, the given content type,
/// and the object's length where it reported one.
pub open spec fn streamed_response(
    content_type: Seq<char>,
    content_length: Option<i64>,
) -> ResponseView {
    ResponseView {
        status: 200,
        content_type: Some(content_type),
        content_length,
        body: BodyView::Stream,
    }
}

impl Response {
    /// A response of the given status whose body is the given text.
    pub fn plain(status: u16, text: &'static str) -> (response: Response)
        ensures
            response@ == plain_response(status, text@),
    {
        Response { status, content_type: None, content_length: None, body: Body::Text(text) }
    }

    /// Whether the body is the fetched object's bytes. Only then is the
    /// object's byte source opened.
    pub fn is_streamed(&self) -> (streamed: bool)
        ensures
            streamed == (self@.body is Stream),
    {
        match self.body {
            Body::Stream => true,
            Body::Text(_) => false,
        }
    }
}

/// What a fetched object reported of itself.
#[derive(Clone, Debug, PartialEq, Eq)]
pub struct ObjectMeta {
    pub content_type: Option<String>,
    pub content_length: Option<i64>,
}

/// What an `ObjectMeta` is.
pub struct ObjectMetaView {
    pub content_type: Option<Seq<char>>,
    pub content_length: Option<i64>,
}

impl View for ObjectMeta {
    type V = ObjectMetaView;

    open spec fn view(&self) -> ObjectMetaView {
        ObjectMetaView {
            content_type: text_view(self.content_type),
            content_length: self.content_length,
        }
    }
}

/// The outcome of a fetch, as the contracts speak of it.
pub open spec fn fetch_view(
    outcome: Result<ObjectMeta, FetchFailure>,
) -> Result<ObjectMetaView, FetchFailure> {
    match outcome {
        Ok(meta) => Ok(meta@),
        Err(failure) => Err(failure),
    }
}

/// A response or the error in its place, as the contracts speak of it.
pub open spec fn result_view(result: Result<Response, S3Error>) -> Result<ResponseView, S3Error> {
    match result {
        Ok(response) => Ok(response@),
        Err(error) => Err(error),
    }
}

/// The content type of an object that reported none.
pub open spec fn fallback_content_type() -> Seq<char> {
    "application/octet-stream"@
}

/// A byte that a header value may hold: a tab, or any byte from the space on
/// but the delete character.
pub open spec fn is_header_value_byte(byte: u8) -> bool {
    byte >= 32 && byte != 127 || byte == 9
}

/// Whether a text can be the value of a header: each byte of its UTF-8 form
/// is one that a header value may hold.
pub open spec fn is_header_value(text: Seq<char>) -> bool {
    forall|i: int|
        0 <= i < encode_utf8(text).len() ==> is_header_value_byte(#[trigger] encode_utf8(text)[i])
}

/// Whether a size limit is set and the object reported a length above it.
pub open spec fn exceeds(content_length: Option<i64>, max_size: Option<i64>) -> bool {
    max_size matches Some(max) && content_length matches Some(size) && size > max
}

/// The response to the outcome of a fetch, or the error in its place.
///
/// A failed fetch gives the error of its kind. An object above the size limit
/// gives `MaxSizeExceeded`, whatever else holds of it. A content type that no
/// header can carry gives `InternalServerError`. Every other object is
/// streamed, under its own content type or under the fallback.
pub open spec fn assemble(
    outcome: Result<ObjectMetaView, FetchFailure>,
    max_size: Option<i64>,
) -> Result<ResponseView, S3Error> {
    match outcome {
        Err(failure) => Err(S3Error::of_failure(failure)),
        Ok(meta) => if exceeds(meta.content_length, max_size) {
            Err(S3Error::MaxSizeExceeded)
        } else {
            match meta.content_type {
                Some(content_type) => if is_header_value(content_type) {
                    Ok(streamed_response(content_type, meta.content_length))
                } else {
                    Err(S3Error::InternalServerError)
                },
                None => Ok(streamed_response(fallback_content_type(), meta.content_length)),
            }
        },
    }
}

/// Calls `HeaderValue::from_str` of the `http` crate, as `axum` hands it on,
/// and tells whether it took the text. It takes a text exactly if every byte
/// of it is a tab or at least 32 and not 127; bytes from 128 on, which a text
/// holds for each character outside ASCII, pass.
#[verifier::external_body]
fn header_value_accepts(text: &str) -> (accepted: bool)
    ensures
        accepted == is_header_value(text@),
{
    axum::http::HeaderValue::from_str(text).is_ok()
}

/// Turns the outcome of a fetch into the response, or into the error that is
/// answered in its place.
///
/// The size limit is applied before anything of the response exists, so an
/// object above it is never streamed, not even in part.
pub fn wrap_create_response(
    s3_response: Result<ObjectMeta, FetchFailure>,
    max_size: Option<i64>,
) -> (result: Result<Response, S3Error>)
    ensures
        result_view(result) == assemble(fetch_view(s3_response), max_size),
{
    let meta = match s3_response {
        Ok(meta) => meta,
        Err(failure) => {
            return Err(S3Error::from(failure));
        },
    };
    if let Some(max_size) = max_size {
        if let Some(size) = meta.content_length {
            if size > max_size {
                return Err(S3Error::MaxSizeExceeded);
            }
        }
    }
    let content_type = match meta.content_type {
        Some(content_type) => {
            if !header_value_accepts(content_type.as_str()) {
                return Err(S3Error::InternalServerError);
            }
            content_type
        },
        None => "application/octet-stream".to_owned(),
    };
    Ok(
        Response {
            status: 200,
            content_type: Some(content_type),
            content_length: meta.content_length,
            body: Body::Stream,
        },
    )
}

/// The response to the outcome of a fetch: the one that streams the object,
/// or the one that answers the error.
pub open spec fn respond(
    outcome: Result<ObjectMetaView, FetchFailure>,
    max_size: Option<i64>,
) -> ResponseView {
    match assemble(outcome, max_size) {
        Ok(response) => response,
        Err(error) => error.rendered(),
    }
}

/// Of a text in ASCII, each character is one byte, so whether the text can be
/// the value of a header is read off its characters.
pub proof fn lemma_ascii_header_value(text: Seq<char>)
    requires
        is_ascii_chars(text),
    ensures
        is_header_value(text) <==> forall|i: int|
            0 <= i < text.len() ==> is_header_value_byte(#[trigger] text[i] as u8),
{
    is_ascii_chars_encode_utf8(text);
    let bytes = encode_utf8(text);
    if is_header_value(text) {
        assert forall|i: int| 0 <= i < text.len() implies is_header_value_byte(
            #[trigger] text[i] as u8,
        ) by {
            assert(is_header_value_byte(bytes[i]));
        }
    }
    if forall|i: int| 0 <= i < text.len() ==> is_header_value_byte(#[trigger] text[i] as u8) {
        assert forall|i: int| 0 <= i < bytes.len() implies is_header_value_byte(
            #[trigger] bytes[i],
        ) by {
            assert(is_header_value_byte(text[i] as u8));
        }
    }
}

/// The fallback content type can be the value of a header.
pub proof fn lemma_fallback_is_header_value()
    ensures
        is_header_value(fallback_content_type()),
{
    reveal_strlit("application/octet-stream");
    let text = fallback_content_type();
    assert(is_ascii_chars(text));
    lemma_ascii_header_value(text);
}

/// A failed fetch is answered by the status of its kind and a fixed text:
/// a missing key by 404, another answer of the store by 502, a failure that
/// is not the store's answer by 500. No object is streamed.
pub proof fn lemma_failed_fetch(failure: FetchFailure, max_size: Option<i64>)
    ensures
        respond(Err(failure), max_size) == S3Error::of_failure(failure).rendered(),
        failure == FetchFailure::NoSuchKey ==> respond(Err(failure), max_size).status == 404,
        failure == FetchFailure::Service ==> respond(Err(failure), max_size).status == 502,
        failure == FetchFailure::Transport ==> respond(Err(failure), max_size).status == 500,
        !(respond(Err(failure), max_size).body is Stream),
{
}

/// An object that is not above the size limit, and whose content type, if
/// it has one, can be the value of a header, is streamed: the status is 200,
/// `Content-Length` is the length that the object reported, and
/// `Content-Type` is its own type or the fallback.
pub proof fn lemma_object_within_limit(meta: ObjectMetaView, max_size: Option<i64>)
    requires
        !exceeds(meta.content_length, max_size),
        meta.content_type matches Some(content_type) ==> is_header_value(content_type),
    ensures
        respond(Ok(meta), max_size).status == 200,
        respond(Ok(meta), max_size).content_length == meta.content_length,
        respond(Ok(meta), max_size).content_type == Some(
            match meta.content_type {
                Some(content_type) => content_type,
                None => fallback_content_type(),
            },
        ),
        respond(Ok(meta), max_size).body is Stream,
{
}

/// An object above the size limit is answered by 413 and a fixed text,
/// whatever else it reported, and is not streamed.
pub proof fn lemma_object_above_limit(meta: ObjectMetaView, max_size: Option<i64>)
    requires
        exceeds(meta.content_length, max_size),
    ensures
        respond(Ok(meta), max_size) == S3Error::MaxSizeExceeded.rendered(),
        respond(Ok(meta), max_size).status == 413,
        !(respond(Ok(meta), max_size).body is Stream),
{
}

/// Whatever the outcome of the fetch, the response has one of five status
/// codes, it streams the object exactly if the status is 200, and a content
/// type that it sets can be the value of a header.
pub proof fn lemma_every_outcome_has_a_response(
    outcome: Result<ObjectMetaView, FetchFailure>,
    max_size: Option<i64>,
)
    ensures
        ({
            let response = respond(outcome, max_size);
            &&& response.status == 200 || response.status == 404 || response.status == 413
                || response.status == 500 || response.status == 502
            &&& response.body is Stream <==> response.status == 200
            &&& response.status == 200 <==> assemble(outcome, max_size) is Ok
            &&& response.content_type matches Some(content_type) ==> is_header_value(content_type)
        }),
{
    lemma_fallback_is_header_value();
}

} // verus!
