use detached_jws::base64_encode;
use detached_jws::JwsHeader;
use detached_jws::{detach_payload, signing_input};

#[test]
fn base64url_of_empty_input_is_empty() {
    assert_eq!(base64_encode(b""), "");
}

#[test]
fn base64url_known_values() {
    assert_eq!(base64_encode(b"f"), "Zg");
    assert_eq!(base64_encode(b"fo"), "Zm8");
    assert_eq!(base64_encode(b"foo"), "Zm9v");
    assert_eq!(base64_encode(b"hello"), "aGVsbG8");
}

#[test]
fn base64url_uses_the_url_safe_alphabet() {
    // 0xfb 0xff encodes to "+/8=" in standard base64.
    assert_eq!(base64_encode(&[0xfb, 0xff]), "-_8");
    assert_eq!(base64_encode(&[0xff, 0xff, 0xff]), "____");
    assert_eq!(base64_encode(&[0xf8]), "-A");
}

#[test]
fn base64url_never_holds_plus_slash_or_padding() {
    let all: Vec<u8> = (0..=255u8).collect();
    for len in 0..all.len() {
        let text = base64_encode(&all[..len]);
        assert!(!text.contains('+') && !text.contains('/') && !text.contains('='));
        assert_eq!(text.len(), (4 * len + 2) / 3);
    }
}

#[test]
fn header_json_has_alg_then_kid() {
    let header = JwsHeader { kid: "11111111-1111-1111-1111-111111111111".to_string() };
    assert_eq!(
        header.to_json().unwrap(),
        "{\"alg\":\"ES512\",\"kid\":\"11111111-1111-1111-1111-111111111111\"}"
    );
}

#[test]
fn header_json_escapes_the_kid() {
    let header = JwsHeader { kid: "a\"b\\c\n".to_string() };
    assert_eq!(header.to_json().unwrap(), "{\"alg\":\"ES512\",\"kid\":\"a\\\"b\\\\c\\n\"}");
}

#[test]
fn signing_input_of_the_example_header() {
    let header = JwsHeader { kid: "11111111-1111-1111-1111-111111111111".to_string() };
    let json = header.to_json().unwrap();
    assert_eq!(
        signing_input(&json, b"hello"),
        "eyJhbGciOiJFUzUxMiIsImtpZCI6IjExMTExMTExLTExMTEtMTExMS0xMTExLTExMTExMTExMTExMSJ9.aGVsbG8"
    );
}

#[test]
fn signing_input_with_empty_payload_ends_in_a_dot() {
    assert_eq!(signing_input("{}", b""), "e30.");
}

#[test]
fn detach_keeps_first_and_last_segment() {
    assert_eq!(detach_payload("abc.def.ghi"), Some("abc..ghi".to_string()));
    assert_eq!(detach_payload("a..c"), Some("a..c".to_string()));
    assert_eq!(detach_payload(".."), Some("..".to_string()));
}

#[test]
fn detach_refuses_other_segment_counts() {
    assert_eq!(detach_payload(""), None);
    assert_eq!(detach_payload("abc"), None);
    assert_eq!(detach_payload("abc.def"), None);
    assert_eq!(detach_payload("a.b.c.d"), None);
}

#[test]
fn detach_refuses_non_ascii_text() {
    assert_eq!(detach_payload("\u{e9}.b.c"), None);
}

#[test]
fn header_json_escapes_control_characters() {
    let header = JwsHeader { kid: "\u{1}\u{8}\t\u{c}\r\u{1f}".to_string() };
    assert_eq!(
        header.to_json().unwrap(),
        "{\"alg\":\"ES512\",\"kid\":\"\\u0001\\b\\t\\f\\r\\u001f\"}"
    );
}

#[test]
fn header_json_keeps_non_ascii_characters() {
    let header = JwsHeader { kid: "cl\u{e9}/\u{7f}".to_string() };
    assert_eq!(header.to_json().unwrap(), "{\"alg\":\"ES512\",\"kid\":\"cl\u{e9}/\u{7f}\"}");
}
