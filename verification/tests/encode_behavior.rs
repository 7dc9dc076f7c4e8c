use kvlet::encode::{build_notify_url, build_post_body, encode_component, percent_encode_bytes};

#[test]
fn percent_encoding_exact() {
    assert_eq!(encode_component("abcXYZ019-._~"), "abcXYZ019-._~");
    assert_eq!(encode_component("a b/c"), "a%20b%2Fc");
    assert_eq!(encode_component(""), "");
    // UTF-8 bytes are encoded byte by byte
    assert_eq!(encode_component("\u{e4}"), "%C3%A4");
    assert_eq!(encode_component("k?=&#"), "k%3F%3D%26%23");
}

#[test]
fn percent_encoding_bytes_exact() {
    assert_eq!(percent_encode_bytes(&[0x00, 0x7f, b'a']), b"%00%7Fa".to_vec());
}

#[test]
fn notify_url_exact() {
    assert_eq!(
        build_notify_url("http://h/p", "k 1", "done"),
        "http://h/p?id=k%201&state=done"
    );
    assert_eq!(build_notify_url("u", "", ""), "u?id=&state=");
}

#[test]
fn post_body_exact() {
    let body = build_post_body("k", "done", &Some("note".to_string()));
    assert_eq!(body, br#"{"id":"k","state":"done","info":"note"}"#.to_vec());
}

#[test]
fn post_body_absent_info_is_empty_string() {
    let body = build_post_body("k", "s", &None);
    assert_eq!(body, br#"{"id":"k","state":"s","info":""}"#.to_vec());
}

#[test]
fn post_body_escapes() {
    let body = build_post_body("a\"b", "c\\d", &Some("e\nf".to_string()));
    assert_eq!(
        body,
        b"{\"id\":\"a\\\"b\",\"state\":\"c\\\\d\",\"info\":\"e\\u000Af\"}".to_vec()
    );
}
