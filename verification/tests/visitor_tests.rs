use weibo_crawler::error::ErrorKind;
use weibo_crawler::visitor::{extract_callback_payload, visitor_cookie_from_response};

const GOOD_BODY: &str =
    "window.visitor_gray_callback({\"retcode\":20000000,\"msg\":\"succ\",\"data\":{\"sub\":\"abc\",\"subp\":\"def\"}});";

#[test]
fn payload_between_fixed_delimiters() {
    let p = extract_callback_payload(GOOD_BODY).unwrap();
    assert_eq!(
        p,
        "{\"retcode\":20000000,\"msg\":\"succ\",\"data\":{\"sub\":\"abc\",\"subp\":\"def\"}}"
    );
}

#[test]
fn payload_missing_prefix() {
    assert!(extract_callback_payload("some_other_callback({});").is_none());
}

#[test]
fn payload_missing_suffix() {
    assert!(extract_callback_payload("visitor_gray_callback({\"a\":1}").is_none());
}

#[test]
fn cookie_from_good_response() {
    let c = visitor_cookie_from_response(200, GOOD_BODY).unwrap();
    assert_eq!(c, "SUB=abc; SUBP=def; ");
}

#[test]
fn cookie_bad_status_is_auth_error() {
    let e = visitor_cookie_from_response(500, GOOD_BODY).unwrap_err();
    assert_eq!(e.kind, ErrorKind::Auth);
    assert_eq!(e.cause, "bad visitor status 500");
    assert_eq!(e.describe(), "auth error: bad visitor status 500");
}

#[test]
fn cookie_malformed_wrapper_is_parse_error() {
    let e = visitor_cookie_from_response(200, "no callback here").unwrap_err();
    assert_eq!(e.kind, ErrorKind::Parse);
    assert_eq!(e.cause, "malformed visitor response");
}

#[test]
fn cookie_unparsable_payload_is_parse_error() {
    let e = visitor_cookie_from_response(200, "visitor_gray_callback(not json);").unwrap_err();
    assert_eq!(e.kind, ErrorKind::Parse);
    assert_eq!(e.cause, "malformed visitor response");
}

#[test]
fn cookie_missing_sub_field() {
    let body = "visitor_gray_callback({\"data\":{\"subp\":\"def\"}});";
    let e = visitor_cookie_from_response(200, body).unwrap_err();
    assert_eq!(e.kind, ErrorKind::Parse);
    assert_eq!(e.cause, "failed to get sub");
}

#[test]
fn cookie_missing_subp_field() {
    let body = "visitor_gray_callback({\"data\":{\"sub\":\"abc\"}});";
    let e = visitor_cookie_from_response(200, body).unwrap_err();
    assert_eq!(e.kind, ErrorKind::Parse);
    assert_eq!(e.cause, "failed to get subp");
}

#[test]
fn cookie_non_string_sub_field() {
    let body = "visitor_gray_callback({\"data\":{\"sub\":7,\"subp\":\"def\"}});";
    let e = visitor_cookie_from_response(200, body).unwrap_err();
    assert_eq!(e.cause, "failed to get sub");
}
