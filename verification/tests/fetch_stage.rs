use feed_engine::errors::FetchError;
use feed_engine::fetch::{screen_body, validate_url};

#[test]
fn urls_need_a_scheme_and_a_nonempty_remainder() {
    assert!(validate_url(&"http://example.com".to_string()));
    assert!(validate_url(&"https://x".to_string()));
    assert!(validate_url(&"http://a".to_string()));
    assert!(!validate_url(&"http://".to_string()));
    assert!(!validate_url(&"https://".to_string()));
    assert!(!validate_url(&"ftp://example.com".to_string()));
    assert!(!validate_url(&"example.com".to_string()));
    assert!(!validate_url(&"".to_string()));
}

#[test]
fn screen_passes_a_body_within_the_limit_unchanged() {
    let body = vec![1u8, 2, 3];
    let screened = screen_body(Ok(body.clone()), 3).unwrap();
    assert_eq!(screened, body);
}

#[test]
fn screen_rejects_a_body_over_the_limit() {
    let body = vec![0u8; 10];
    let err = screen_body(Ok(body), 9).unwrap_err();
    assert!(matches!(err, FetchError::TooLarge));
}

#[test]
fn screen_wraps_a_transport_failure() {
    let err = screen_body(Err("timed out".to_string()), 100).unwrap_err();
    match err {
        FetchError::Transport(detail) => assert_eq!(detail, "timed out"),
        other => panic!("expected a transport error, got {:?}", other),
    }
}
