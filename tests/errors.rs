use flipt::error::{is_success, settle, Decoded, Error, UpstreamError};

fn upstream(code: i32, message: &str, details: Option<Vec<&str>>) -> UpstreamError {
    UpstreamError {
        code,
        message: message.to_string(),
        details: details.map(|d| d.into_iter().map(|s| s.to_string()).collect()),
    }
}

#[test]
fn success_statuses() {
    assert!(is_success(200));
    assert!(is_success(204));
    assert!(is_success(299));
    assert!(!is_success(199));
    assert!(!is_success(300));
    assert!(!is_success(404));
    assert!(!is_success(500));
}

#[test]
fn success_body_is_the_result() {
    let r: Result<u32, Error> = settle(200, Decoded::Value(7));
    assert_eq!(r.unwrap(), 7);
}

#[test]
fn failure_body_is_upstream_error() {
    let r: Result<u32, Error> = settle(404, Decoded::Upstream(upstream(5, "flag not found", None)));
    match r {
        Err(Error::Upstream(e)) => {
            assert_eq!(e.code, 5);
            assert_eq!(e.message, "flag not found");
        },
        other => panic!("unexpected {:?}", other),
    }
}

#[test]
fn malformed_body_is_decode_error() {
    let r: Result<u32, Error> = settle(200, Decoded::Malformed("missing field".to_string()));
    assert!(matches!(r, Err(Error::Decode(m)) if m == "missing field"));
    let r: Result<u32, Error> = settle(500, Decoded::Malformed("eof".to_string()));
    assert!(matches!(r, Err(Error::Decode(m)) if m == "eof"));
}

#[test]
fn body_of_wrong_schema_is_internal_error() {
    let r: Result<u32, Error> = settle(500, Decoded::Value(1));
    assert!(matches!(r, Err(Error::Internal(_))));
    let r: Result<u32, Error> = settle(200, Decoded::Upstream(upstream(1, "x", None)));
    assert!(matches!(r, Err(Error::Internal(_))));
}

#[test]
fn upstream_text_without_details() {
    assert_eq!(upstream(3, "bad", None).to_text(), "bad");
    assert_eq!(upstream(3, "bad", Some(vec![])).to_text(), "bad");
}

#[test]
fn upstream_text_lists_details() {
    let e = upstream(3, "invalid request", Some(vec![r#"{"field":"key"}"#, r#""second""#]));
    assert_eq!(
        e.to_text(),
        "invalid request\nDetails:\n- {\"field\":\"key\"}\n- \"second\""
    );
}

#[test]
fn error_text_of_each_kind() {
    assert_eq!(Error::Upstream(upstream(2, "m", Some(vec!["1"]))).to_text(), "m\nDetails:\n- 1");
    assert_eq!(Error::Request("connection refused".to_string()).to_text(), "connection refused");
    assert_eq!(Error::Decode("d".to_string()).to_text(), "d");
    assert_eq!(Error::Internal("i".to_string()).to_text(), "i");
}
