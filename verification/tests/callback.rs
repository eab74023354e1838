use archivr::{parse_code_from_request, ArchivrError};

#[test]
fn parse_callback_with_code_and_state() {
    let request = "GET /redirect?code=abc123&state=csrf_token HTTP/1.1";
    let (code, state) = parse_code_from_request(request).unwrap();
    assert_eq!(code, "abc123");
    assert_eq!(state.as_deref(), Some("csrf_token"));
}

#[test]
fn parse_callback_code_only() {
    let request = "GET /redirect?code=mycode HTTP/1.1";
    let (code, state) = parse_code_from_request(request).unwrap();
    assert_eq!(code, "mycode");
    assert!(state.is_none());
}

#[test]
fn parse_callback_url_encoded_values() {
    let request = "GET /redirect?code=has%20space&state=a%26b HTTP/1.1";
    let (code, state) = parse_code_from_request(request).unwrap();
    assert_eq!(code, "has space");
    assert_eq!(state.as_deref(), Some("a&b"));
}

#[test]
fn parse_callback_error_response() {
    let request = "GET /redirect?error=access_denied HTTP/1.1";
    let err = parse_code_from_request(request).unwrap_err();
    assert!(err.message().contains("access_denied"));
}

#[test]
fn parse_callback_malformed_request() {
    assert!(parse_code_from_request("GARBAGE").is_err());
}

#[test]
fn parse_callback_no_query_string() {
    // No code parameter → MalformedCallback
    assert!(parse_code_from_request("GET /redirect HTTP/1.1").is_err());
}

#[test]
fn callback_last_code_wins_and_unknown_keys_are_ignored() {
    let (code, state) =
        parse_code_from_request("GET /r?code=first&x=1&code=second&flag HTTP/1.1").unwrap();
    assert_eq!(code, "second");
    assert!(state.is_none());
}

#[test]
fn callback_error_is_reported_as_oauth_error() {
    let err = parse_code_from_request("GET /r?code=abc&error=denied%21 HTTP/1.1").unwrap_err();
    assert!(matches!(&err, ArchivrError::OAuth(m) if m == "denied!"));
    assert_eq!(err.message(), "Error from OAuth: denied!");
}

#[test]
fn callback_missing_path_is_malformed() {
    let err = parse_code_from_request("GET").unwrap_err();
    assert!(matches!(err, ArchivrError::MalformedCallback));
    assert_eq!(
        err.message(),
        "Callback was not in expected format. Please report this bug."
    );
}

#[test]
fn callback_invalid_utf8_is_undecodable() {
    let err = parse_code_from_request("GET /r?code=%FF HTTP/1.1").unwrap_err();
    assert!(matches!(&err, ArchivrError::UndecodableCallback(m) if m == "invalid utf-8 sequence of 1 bytes from index 0"));
    assert_eq!(err.message(), "invalid utf-8 sequence of 1 bytes from index 0");
}

#[test]
fn callback_plus_and_bad_escapes_are_kept() {
    let (code, _) = parse_code_from_request("GET /r?code=a+b%2%zz%41 HTTP/1.1").unwrap();
    assert_eq!(code, "a+b%2%zzA");
}

#[test]
fn callback_extra_whitespace_between_tokens() {
    let (code, state) = parse_code_from_request("  GET \t /cb?state=s&code=c   HTTP/1.1").unwrap();
    assert_eq!(code, "c");
    assert_eq!(state.as_deref(), Some("s"));
}

#[test]
fn error_messages() {
    assert!(ArchivrError::NoConsumerKey.message().contains("Consumer key"));
    assert!(ArchivrError::NoConsumerSecret.message().contains("Consumer secret"));
    let e = ArchivrError::CsrfMismatch { expected: "a".to_owned(), actual: "b".to_owned() };
    assert_eq!(e.message(), "CSRF state mismatch: expected a, got b");
}
