use supa_rs::json::array_texts;
use supa_rs::text::join_text;
use supa_rs::utils::{base64_decode, decode_jwt, has_expired, pad_segment, Claims, JwtError};

#[test]
fn decode_jwt_gives_the_claims_segment() {
    // header.payload.signature, the payload being {"exp":1700000000}
    let token = "eyJhbGciOiJIUzI1NiJ9.eyJleHAiOjE3MDAwMDAwMDB9.c2ln";
    assert_eq!(decode_jwt(token), Ok(b"{\"exp\":1700000000}".to_vec()));
}

#[test]
fn decode_jwt_pads_the_segment() {
    // "a" is YQ== and "ab" is YWI= once padded
    assert_eq!(decode_jwt("h.YQ.s"), Ok(b"a".to_vec()));
    assert_eq!(decode_jwt("h.YWI.s"), Ok(b"ab".to_vec()));
    assert_eq!(decode_jwt("h.YWJj.s"), Ok(b"abc".to_vec()));
    assert_eq!(decode_jwt("..").map(|b| b.len()), Ok(0));
}

#[test]
fn decode_jwt_wants_three_segments() {
    assert_eq!(decode_jwt(""), Err(JwtError::Format));
    assert_eq!(decode_jwt("YQ"), Err(JwtError::Format));
    assert_eq!(decode_jwt("a.YQ"), Err(JwtError::Format));
    assert_eq!(decode_jwt("a.YQ.c.d"), Err(JwtError::Format));
    assert_eq!(decode_jwt("a.YQ.c."), Err(JwtError::Format));
}

#[test]
fn decode_jwt_refuses_what_is_not_base64() {
    assert_eq!(decode_jwt("a.!!!!.c"), Err(JwtError::Encoding));
    // one character over a multiple of four cannot be padded
    assert_eq!(decode_jwt("a.YWJjZ.c"), Err(JwtError::Encoding));
    // the URL-safe alphabet is not the standard one
    assert_eq!(decode_jwt("a.-_-_.c"), Err(JwtError::Encoding));
}

#[test]
fn base64_decode_accepts_padded_and_bare_input() {
    assert_eq!(base64_decode("aGVsbG8="), Ok(b"hello".to_vec()));
    assert_eq!(base64_decode("aGVsbG8"), Ok(b"hello".to_vec()));
    assert_eq!(base64_decode(""), Ok(vec![]));
    assert_eq!(base64_decode("aGVsbG8gd29ybGR+Cg=="), Ok(b"hello world~\n".to_vec()));
    assert_eq!(base64_decode("%%%%"), Err(JwtError::Encoding));
}

#[test]
fn has_expired_compares_the_expiry_with_now() {
    let at = |exp| Some(Claims { exp, sub: None, iat: None });
    assert!(!has_expired(&at(Some(11)), 10));
    assert!(has_expired(&at(Some(10)), 10));
    assert!(has_expired(&at(Some(9)), 10));
    assert!(has_expired(&at(None), 10));
    assert!(has_expired(&None, 10));
    assert!(!has_expired(&at(Some(i64::MAX)), i64::MAX - 1));
    assert!(has_expired(&at(Some(i64::MIN)), i64::MIN));
}

#[test]
fn join_text_puts_the_separator_between_neighbours() {
    let parts = |items: &[&str]| items.iter().map(|s| s.to_string()).collect::<Vec<String>>();
    assert_eq!(join_text(&parts(&[]), ","), "");
    assert_eq!(join_text(&parts(&["a"]), ","), "a");
    assert_eq!(join_text(&parts(&["a", "b", "c"]), ", "), "a, b, c");
    assert_eq!(join_text(&parts(&["", ""]), "&"), "&");
}

#[test]
fn array_texts_reads_arrays_only() {
    let v = serde_json::Value::Array(vec![
        serde_json::Value::from("a\"b"),
        serde_json::Value::from(3),
        serde_json::Value::Array(vec![serde_json::Value::Null]),
    ]);
    assert_eq!(
        array_texts(&v),
        Some(vec!["\"a\\\"b\"".to_string(), "3".to_string(), "[null]".to_string()])
    );
    assert_eq!(array_texts(&serde_json::Value::from("a")), None);
    assert_eq!(array_texts(&serde_json::Value::Object(serde_json::Map::new())), None);
}

#[test]
fn pad_segment_fills_up_to_a_multiple_of_four() {
    assert_eq!(pad_segment(""), "");
    assert_eq!(pad_segment("Y"), "Y");
    assert_eq!(pad_segment("YQ"), "YQ==");
    assert_eq!(pad_segment("YWI"), "YWI=");
    assert_eq!(pad_segment("YWJj"), "YWJj");
    assert_eq!(pad_segment("YWJjZA"), "YWJjZA==");
    // the length counts bytes: two characters of three bytes each
    assert_eq!(pad_segment("\u{20ac}\u{20ac}"), "\u{20ac}\u{20ac}==");
}
