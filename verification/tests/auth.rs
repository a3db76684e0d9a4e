use zhihu_cli::commands::auth::{
    read_and_validate_secret, secret_saved, status_payload, validate_secret,
};
use zhihu_cli::error::ZhihuError;
use zhihu_cli::json::Json;

fn payload(configured: bool, source: &str) -> Json {
    Json::Object(vec![
        ("configured".to_string(), Json::Bool(configured)),
        ("source".to_string(), Json::String(source.to_string())),
    ])
}

#[test]
fn validate_secret_rejects_empty() {
    let err = validate_secret("").expect_err("empty must be rejected");
    match err {
        ZhihuError::InvalidArgument(msg) => assert_eq!(msg, "secret cannot be empty"),
        other => panic!("expected InvalidArgument, got {other:?}"),
    }
}

#[test]
fn validate_secret_rejects_whitespace_only() {
    assert!(validate_secret("   ").is_err());
    assert!(validate_secret("\t").is_err());
    assert!(validate_secret("\n").is_err());
    assert!(validate_secret("  \t \n ").is_err());
}

#[test]
fn validate_secret_accepts_non_empty() {
    assert_eq!(validate_secret("abc").unwrap(), "abc");
    assert_eq!(validate_secret("中文").unwrap(), "中文");
}

#[test]
fn validate_secret_trims_surrounding_whitespace() {
    assert_eq!(validate_secret("  abc  ").unwrap(), "abc");
    assert_eq!(validate_secret("\nabc\n").unwrap(), "abc");
}

#[test]
fn validate_secret_is_idempotent() {
    for input in ["  abc  ", "x", "\u{3000}全角\u{3000}", " a b "] {
        let once = validate_secret(input).unwrap();
        assert_eq!(validate_secret(&once).unwrap(), once);
    }
}

#[test]
fn read_and_validate_secret_returns_trimmed_line() {
    let input: &[u8] = b"my-secret\n";
    assert_eq!(read_and_validate_secret(input).unwrap(), "my-secret");
}

#[test]
fn read_and_validate_secret_trims_surrounding_whitespace() {
    let input: &[u8] = b"  spaced  \n";
    assert_eq!(read_and_validate_secret(input).unwrap(), "spaced");
}

#[test]
fn read_and_validate_secret_rejects_empty_line() {
    let input: &[u8] = b"\n";
    let err = read_and_validate_secret(input).expect_err("newline-only must be rejected");
    match err {
        ZhihuError::InvalidArgument(msg) => assert_eq!(msg, "secret cannot be empty"),
        other => panic!("expected InvalidArgument, got {other:?}"),
    }
}

#[test]
fn read_and_validate_secret_rejects_whitespace_only_line() {
    let input: &[u8] = b"   \t  \n";
    assert!(read_and_validate_secret(input).is_err());
}

#[test]
fn read_and_validate_secret_reads_only_the_first_line() {
    let input: &[u8] = b"first\nsecond\n";
    assert_eq!(read_and_validate_secret(input).unwrap(), "first");
    let input: &[u8] = b"no-newline";
    assert_eq!(read_and_validate_secret(input).unwrap(), "no-newline");
    let input: &[u8] = b"";
    assert!(matches!(read_and_validate_secret(input), Err(ZhihuError::InvalidArgument(_))));
}

#[test]
fn read_and_validate_secret_reports_invalid_utf8_as_io_error() {
    let input: &[u8] = b"ab\xff\n";
    match read_and_validate_secret(input).unwrap_err() {
        ZhihuError::Io(msg) => assert_eq!(msg, "stream did not contain valid UTF-8"),
        other => panic!("expected Io, got {other:?}"),
    }
    // Invalid bytes after the first line are never read.
    let input: &[u8] = b"ok\n\xff";
    assert_eq!(read_and_validate_secret(input).unwrap(), "ok");
}

#[test]
fn status_payload_neither_set() {
    assert_eq!(status_payload(false, false), payload(false, "none"));
}

#[test]
fn status_payload_only_env_set() {
    assert_eq!(status_payload(true, false), payload(true, "env"));
}

#[test]
fn status_payload_only_config_set() {
    assert_eq!(status_payload(false, true), payload(true, "config"));
}

#[test]
fn status_payload_both_set_env_wins() {
    assert_eq!(status_payload(true, true), payload(true, "env"));
}

#[test]
fn secret_saved_reply() {
    assert_eq!(
        secret_saved(),
        Json::Object(vec![
            ("status".to_string(), Json::String("ok".to_string())),
            ("message".to_string(), Json::String("secret saved".to_string())),
        ])
    );
}
