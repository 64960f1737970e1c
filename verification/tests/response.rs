use axum_static_s3::{wrap_create_response, Body, FetchFailure, ObjectMeta, Response, S3Error};

fn meta(content_type: Option<&str>, content_length: Option<i64>) -> ObjectMeta {
    ObjectMeta { content_type: content_type.map(|text| text.to_string()), content_length }
}

fn streamed(content_type: &str, content_length: Option<i64>) -> Response {
    Response {
        status: 200,
        content_type: Some(content_type.to_string()),
        content_length,
        body: Body::Stream,
    }
}

#[test]
fn each_error_has_its_status_and_text() {
    let cases = [
        (S3Error::NotFound, 404, "Not found"),
        (S3Error::BadGateway, 502, "Bad gateway"),
        (S3Error::InternalServerError, 500, "Internal server error"),
        (S3Error::MaxSizeExceeded, 413, "Requested file size exceeds the maximum allowed size"),
    ];
    for (error, status, text) in cases {
        let response = error.into_response();
        assert_eq!(
            response,
            Response { status, content_type: None, content_length: None, body: Body::Text(text) }
        );
        assert!(!response.is_streamed());
    }
}

#[test]
fn each_failure_has_its_error() {
    assert_eq!(S3Error::from(FetchFailure::NoSuchKey), S3Error::NotFound);
    assert_eq!(S3Error::from(FetchFailure::Service), S3Error::BadGateway);
    assert_eq!(S3Error::from(FetchFailure::Transport), S3Error::InternalServerError);
}

#[test]
fn a_failed_fetch_gives_the_error_of_its_kind() {
    assert_eq!(
        wrap_create_response(Err(FetchFailure::NoSuchKey), None),
        Err(S3Error::NotFound)
    );
    assert_eq!(
        wrap_create_response(Err(FetchFailure::Service), Some(10)),
        Err(S3Error::BadGateway)
    );
    assert_eq!(
        wrap_create_response(Err(FetchFailure::Transport), Some(10)),
        Err(S3Error::InternalServerError)
    );
}

#[test]
fn an_object_below_the_limit_is_streamed_with_its_length() {
    let response =
        wrap_create_response(Ok(meta(Some("image/png"), Some(500))), Some(1000)).unwrap();
    assert_eq!(response, streamed("image/png", Some(500)));
    assert!(response.is_streamed());
}

#[test]
fn an_object_at_the_limit_is_streamed() {
    assert_eq!(
        wrap_create_response(Ok(meta(Some("text/css"), Some(1000))), Some(1000)),
        Ok(streamed("text/css", Some(1000)))
    );
}

#[test]
fn an_object_above_the_limit_is_refused() {
    assert_eq!(
        wrap_create_response(Ok(meta(Some("text/css"), Some(1001))), Some(1000)),
        Err(S3Error::MaxSizeExceeded)
    );
    assert_eq!(
        wrap_create_response(Ok(meta(None, Some(i64::MAX))), Some(1)),
        Err(S3Error::MaxSizeExceeded)
    );
}

#[test]
fn the_limit_comes_before_the_content_type() {
    assert_eq!(
        wrap_create_response(Ok(meta(Some("bad\ntype"), Some(11))), Some(10)),
        Err(S3Error::MaxSizeExceeded)
    );
}

#[test]
fn without_a_limit_every_length_is_streamed() {
    assert_eq!(
        wrap_create_response(Ok(meta(Some("video/mp4"), Some(i64::MAX))), None),
        Ok(streamed("video/mp4", Some(i64::MAX)))
    );
}

#[test]
fn an_object_without_a_length_is_streamed_without_the_header() {
    assert_eq!(
        wrap_create_response(Ok(meta(Some("text/html"), None)), Some(10)),
        Ok(streamed("text/html", None))
    );
}

#[test]
fn an_object_without_a_content_type_gets_the_fallback() {
    assert_eq!(
        wrap_create_response(Ok(meta(None, Some(3))), None),
        Ok(streamed("application/octet-stream", Some(3)))
    );
    assert_eq!(
        wrap_create_response(Ok(meta(None, None)), None),
        Ok(streamed("application/octet-stream", None))
    );
}

#[test]
fn a_content_type_that_no_header_can_carry_is_an_internal_error() {
    for bad in ["text/\nplain", "text/plain\r\n", "a\u{0}b", "a\u{7f}", "\u{1b}[0m"] {
        assert_eq!(
            wrap_create_response(Ok(meta(Some(bad), Some(1))), None),
            Err(S3Error::InternalServerError),
            "{:?}",
            bad
        );
    }
}

#[test]
fn a_content_type_with_tabs_spaces_or_other_scripts_is_carried() {
    let carried = ["", "text/plain; charset=utf-8", "a\tb", "~", " ", "текст/日本語", "\u{80}"];
    for good in carried {
        assert_eq!(
            wrap_create_response(Ok(meta(Some(good), None)), None),
            Ok(streamed(good, None)),
            "{:?}",
            good
        );
    }
}

#[test]
fn the_library_and_the_header_type_agree_on_every_single_character() {
    for code in 0u32..0x2000 {
        if let Some(c) = char::from_u32(code) {
            let text = c.to_string();
            let carried = wrap_create_response(Ok(meta(Some(&text), None)), None).is_ok();
            let byte_wise = text.bytes().all(|b| b >= 32 && b != 127 || b == 9);
            assert_eq!(carried, byte_wise, "{:?}", c);
            assert_eq!(carried, axum::http::HeaderValue::from_str(&text).is_ok(), "{:?}", c);
        }
    }
}

#[test]
fn a_negative_length_is_below_every_positive_limit() {
    assert_eq!(
        wrap_create_response(Ok(meta(None, Some(-1))), Some(1)),
        Ok(streamed("application/octet-stream", Some(-1)))
    );
}

#[test]
fn a_plain_response_sets_no_header() {
    let response = Response::plain(405, "Method not allowed");
    assert_eq!(response.status, 405);
    assert_eq!(response.content_type, None);
    assert_eq!(response.content_length, None);
    assert_eq!(response.body, Body::Text("Method not allowed"));
    assert!(!response.is_streamed());
}
