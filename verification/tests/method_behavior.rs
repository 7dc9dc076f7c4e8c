use kvlet::{parse_method, KvError, Method};

#[test]
fn parse_known_tokens() {
    assert!(matches!(parse_method("get"), Ok(Method::GET)));
    assert!(matches!(parse_method("post"), Ok(Method::POST)));
    assert!(matches!(parse_method(""), Ok(Method::NONE)));
}

#[test]
fn parse_unknown_token_is_config_error() {
    assert!(matches!(parse_method("GET"), Err(KvError::Config(_))));
    assert!(matches!(parse_method("delete"), Err(KvError::Config(_))));
    assert!(matches!(parse_method("gets"), Err(KvError::Config(_))));
    assert!(matches!(parse_method("pos"), Err(KvError::Config(_))));
}

#[test]
fn token_round_trip() {
    for m in [Method::GET, Method::POST, Method::NONE] {
        let token = m.token();
        let back = parse_method(token).unwrap();
        assert_eq!(back, m);
    }
    assert_eq!(Method::GET.token(), "get");
    assert_eq!(Method::POST.token(), "post");
    assert_eq!(Method::NONE.token(), "");
}

#[test]
fn error_message_is_preserved() {
    let err = KvError::Dispatch("boom".to_string());
    assert_eq!(err.message(), "boom");
}
