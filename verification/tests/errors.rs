use gemini_rust::error::handle_api_error;
use gemini_rust::Error;

#[test]
fn status_429_with_hint_becomes_rate_limited() {
    let e = handle_api_error(429, String::from("{\"retryAfter\": 7}"));
    assert_eq!(e, Error::RateLimited { retry_after_millis: Some(7000) });
    assert!(e.is_retryable());
    assert_eq!(e.retry_delay(), Some(7000));
}

#[test]
fn status_429_without_hint_falls_back_to_a_minute() {
    let e = handle_api_error(429, String::from("{}"));
    assert_eq!(e, Error::RateLimited { retry_after_millis: None });
    assert!(e.is_retryable());
    assert_eq!(e.retry_delay(), Some(60000));
}

#[test]
fn status_500_becomes_server_error() {
    let e = handle_api_error(500, String::from("oops"));
    assert_eq!(e, Error::ServerError { status: 500 });
    assert!(e.is_retryable());
    assert_eq!(e.retry_delay(), Some(5000));
}

#[test]
fn status_599_is_still_server_side() {
    let e = handle_api_error(599, String::new());
    assert_eq!(e, Error::ServerError { status: 599 });
}

#[test]
fn status_404_takes_message_from_body() {
    let e = handle_api_error(
        404,
        String::from("{\"error\": {\"message\": \"model not found\"}}"),
    );
    assert_eq!(
        e,
        Error::ClientError { status: 404, message: String::from("model not found") }
    );
    assert!(!e.is_retryable());
    assert_eq!(e.retry_delay(), None);
}

#[test]
fn unparseable_body_is_used_verbatim() {
    let e = handle_api_error(400, String::from("not json at all"));
    assert_eq!(
        e,
        Error::ClientError { status: 400, message: String::from("not json at all") }
    );
}

#[test]
fn body_without_message_field_is_used_verbatim() {
    let e = handle_api_error(403, String::from("{\"error\": {}}"));
    assert_eq!(
        e,
        Error::ClientError { status: 403, message: String::from("{\"error\": {}}") }
    );
}

#[test]
fn final_error_kinds_are_not_retryable() {
    assert!(!Error::Decode.is_retryable());
    assert!(!Error::StreamingFailure.is_retryable());
    assert!(!Error::Config { message: String::new() }.is_retryable());
    assert_eq!(Error::Decode.retry_delay(), None);
    assert_eq!(Error::StreamingFailure.retry_delay(), None);
}

#[test]
fn describe_reports_the_carried_message() {
    let e = handle_api_error(400, String::from("{\"error\": {\"message\": \"bad field\"}}"));
    assert_eq!(e.describe(), "bad field");
    assert_eq!(Error::Transport.describe(), "HTTP request failed");
}

#[test]
fn transport_and_timeout_are_retryable() {
    assert!(Error::Transport.is_retryable());
    assert!(Error::Timeout.is_retryable());
    assert_eq!(Error::Transport.retry_delay(), None);
    assert_eq!(Error::Timeout.retry_delay(), None);
}
