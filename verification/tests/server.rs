use cc_switch_web::web::server::{
    constant_time_eq, hex_val, percent_decode, percent_decode_bytes, token_accepted,
    token_from_query, MAX_BODY,
};

#[test]
fn percent_decode_recovers_encoded_token() {
    // encodeURIComponent("a b/c:1") => "a%20b%2Fc%3A1"
    assert_eq!(percent_decode("a%20b%2Fc%3A1"), "a b/c:1");
    // Lowercase hex and a literal that needs no decoding.
    assert_eq!(percent_decode("%2bx"), "+x");
    assert_eq!(percent_decode("550e8400-e29b"), "550e8400-e29b");
    // Trailing stray '%' is passed through, not panicked on.
    assert_eq!(percent_decode("ab%"), "ab%");
}

#[test]
fn token_from_query_decodes_value() {
    assert_eq!(
        token_from_query(Some("foo=1&token=a%20b&bar=2")).as_deref(),
        Some("a b")
    );
    assert_eq!(token_from_query(Some("no=token")), None);
    assert_eq!(token_from_query(None), None);
}

#[test]
fn constant_time_eq_matches_only_identical() {
    assert!(constant_time_eq(b"abc", b"abc"));
    assert!(!constant_time_eq(b"abc", b"abd"));
    assert!(!constant_time_eq(b"abc", b"ab"));
}

#[test]
fn hex_val_reads_both_cases() {
    assert_eq!(hex_val(b'0'), Some(0));
    assert_eq!(hex_val(b'9'), Some(9));
    assert_eq!(hex_val(b'a'), Some(10));
    assert_eq!(hex_val(b'F'), Some(15));
    assert_eq!(hex_val(b'g'), None);
    assert_eq!(hex_val(b'%'), None);
}

#[test]
fn percent_decode_multibyte_and_invalid_utf8() {
    // encodeURIComponent("你好") => "%E4%BD%A0%E5%A5%BD"
    assert_eq!(percent_decode("%E4%BD%A0%E5%A5%BD"), "你好");
    // A lone 0xFF byte is not UTF-8: it becomes the replacement character.
    assert_eq!(percent_decode("%FF"), "\u{FFFD}");
    // A '%' not followed by two hex digits passes through.
    assert_eq!(percent_decode("%zz%4"), "%zz%4");
    assert_eq!(percent_decode(""), "");
}

#[test]
fn percent_decode_bytes_exact() {
    assert_eq!(percent_decode_bytes(b"%41%42c"), b"ABc".to_vec());
    assert_eq!(percent_decode_bytes(b"%%41"), b"%A".to_vec());
}

#[test]
fn percent_decode_inverts_encode_uri_component() {
    // encodeURIComponent("t0k=n&x/ü") => "t0k%3Dn%26x%2F%C3%BC"
    assert_eq!(percent_decode("t0k%3Dn%26x%2F%C3%BC"), "t0k=n&x/ü");
}

#[test]
fn token_from_query_takes_first_token_pair() {
    assert_eq!(
        token_from_query(Some("token=one&token=two")).as_deref(),
        Some("one")
    );
    assert_eq!(token_from_query(Some("xtoken=1&token=2")).as_deref(), Some("2"));
    assert_eq!(token_from_query(Some("token=")).as_deref(), Some(""));
    assert_eq!(token_from_query(Some("")), None);
    assert_eq!(token_from_query(Some("&&token=%7E")).as_deref(), Some("~"));
}

#[test]
fn token_gate_prefers_header_then_query() {
    assert!(token_accepted(Some("s3cret"), None, "s3cret"));
    assert!(!token_accepted(Some("wrong"), Some("token=s3cret"), "s3cret"));
    assert!(token_accepted(None, Some("a=1&token=s3cret"), "s3cret"));
    assert!(token_accepted(None, Some("token=a%20b"), "a b"));
    assert!(!token_accepted(None, Some("a=1"), "s3cret"));
    assert!(!token_accepted(None, None, "s3cret"));
}

#[test]
fn body_limit_is_sixteen_mebibytes() {
    assert_eq!(MAX_BODY, 16 * 1024 * 1024);
}
