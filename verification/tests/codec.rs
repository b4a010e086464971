//! The token-file format: canonical writing, liberal reading, round trips.

use multique::json::{encode_object, lookup_string, parse_object_str};

fn pairs(v: &[(&str, Option<&str>)]) -> Vec<(String, Option<String>)> {
    v.iter().map(|(k, o)| (k.to_string(), o.map(|s| s.to_string()))).collect()
}

#[test]
fn json_round_trip_basic() {
    let ps = pairs(&[("alpha", Some("one")), ("beta", None), ("gamma", Some(""))]);
    let text = encode_object(&ps);
    assert_eq!(text, "{\"alpha\":\"one\",\"beta\":null,\"gamma\":\"\"}");
    let back = parse_object_str(&text).expect("canonical text must parse");
    assert_eq!(back, ps);
}

#[test]
fn json_round_trip_escapes() {
    let ps = pairs(&[("k", Some("he said \"hi\" and C:\\path\\"))]);
    let text = encode_object(&ps);
    assert_eq!(text, "{\"k\":\"he said \\\"hi\\\" and C:\\\\path\\\\\"}");
    let back = parse_object_str(&text).expect("escaped text must parse");
    assert_eq!(back, ps);
}

#[test]
fn json_round_trip_empty_object() {
    let ps: Vec<(String, Option<String>)> = Vec::new();
    let text = encode_object(&ps);
    assert_eq!(text, "{}");
    let back = parse_object_str(&text).expect("empty object must parse");
    assert!(back.is_empty());
}

#[test]
fn json_reader_allows_whitespace() {
    let back = parse_object_str(" {\n  \"a\" : \"b\" ,\t\"c\" : null\r\n} ").unwrap();
    assert_eq!(back, pairs(&[("a", Some("b")), ("c", None)]));
}

#[test]
fn json_reader_skips_nested_values() {
    let body = "{\"accessJwt\":\"A\",\"didDoc\":{\"ctx\":[1,2,{\"note\":\"}\"}],\"ok\":true},\"did\":\"d\"}";
    let back = parse_object_str(body).unwrap();
    assert_eq!(lookup_string(&back, "accessJwt"), Some("A".to_string()));
    assert_eq!(lookup_string(&back, "did"), Some("d".to_string()));
    assert_eq!(lookup_string(&back, "didDoc"), None);
}

#[test]
fn json_reader_skips_scalar_values() {
    let back = parse_object_str("{\"n\":42,\"f\":-1.5e3,\"b\":false,\"w\":null,\"s\":\"x\"}").unwrap();
    assert_eq!(lookup_string(&back, "n"), None);
    assert_eq!(lookup_string(&back, "f"), None);
    assert_eq!(lookup_string(&back, "b"), None);
    assert_eq!(lookup_string(&back, "w"), None);
    assert_eq!(lookup_string(&back, "s"), Some("x".to_string()));
}

#[test]
fn json_reader_rejects_malformed() {
    assert!(parse_object_str("").is_none());
    assert!(parse_object_str("{").is_none());
    assert!(parse_object_str("{\"a\":\"b\"").is_none());
    assert!(parse_object_str("{\"a\":\"b\"} trailing").is_none());
    assert!(parse_object_str("{\"a\" \"b\"}").is_none());
    assert!(parse_object_str("{\"a\":\"b\\x\"}").is_none());
    assert!(parse_object_str("[\"a\"]").is_none());
    assert!(parse_object_str("{a:\"b\"}").is_none());
}

#[test]
fn json_first_binding_wins() {
    let back = parse_object_str("{\"a\":\"one\",\"a\":\"two\"}").unwrap();
    assert_eq!(lookup_string(&back, "a"), Some("one".to_string()));
}

#[test]
fn json_writer_output_is_real_json() {
    let ps = pairs(&[("key", Some("line \"quoted\" back\\slash")), ("none", None)]);
    let text = encode_object(&ps);
    let v: serde_json::Value = serde_json::from_str(&text).expect("serde_json must accept it");
    assert_eq!(
        v.get("key").and_then(|x| x.as_str()),
        Some("line \"quoted\" back\\slash")
    );
    assert!(v.get("none").unwrap().is_null());
}

#[test]
fn json_reader_accepts_serde_output() {
    let mut m = serde_json::Map::new();
    m.insert("access_token".to_string(), serde_json::Value::String("tok/abc+x=".to_string()));
    m.insert("refresh_token".to_string(), serde_json::Value::Null);
    let text = serde_json::to_string(&serde_json::Value::Object(m)).unwrap();
    let back = parse_object_str(&text).unwrap();
    assert_eq!(lookup_string(&back, "access_token"), Some("tok/abc+x=".to_string()));
    assert_eq!(lookup_string(&back, "refresh_token"), None);
}
