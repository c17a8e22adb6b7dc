use regen_oracle::codec::{parse_oracle_result, serialize_oracle_result, OracleResult};

#[test]
fn serialized_form_is_the_expected_json() {
    let r = OracleResult {
        metadata_uri: String::from("ipfs://QmMeta"),
        feature_id: String::from("S2A_TILE_1"),
    };
    let s = serialize_oracle_result(&r);
    assert_eq!(s, "{\"metadata_uri\":\"ipfs://QmMeta\",\"feature_id\":\"S2A_TILE_1\"}");
}

// Serializing and then parsing yields the same pair.
#[test]
fn roundtrip_plain_fields() {
    let r = OracleResult {
        metadata_uri: String::from("https://gateway/object/abc"),
        feature_id: String::from("feature-42"),
    };
    let s = serialize_oracle_result(&r);
    let back = parse_oracle_result(s.as_str()).unwrap();
    assert_eq!(back.metadata_uri, r.metadata_uri);
    assert_eq!(back.feature_id, r.feature_id);
}

#[test]
fn roundtrip_with_quotes_and_backslashes() {
    let r = OracleResult {
        metadata_uri: String::from("we\"ird\\uri"),
        feature_id: String::from("\\\\\"\""),
    };
    let s = serialize_oracle_result(&r);
    let back = parse_oracle_result(s.as_str()).unwrap();
    assert_eq!(back.metadata_uri, r.metadata_uri);
    assert_eq!(back.feature_id, r.feature_id);
}

#[test]
fn roundtrip_empty_fields() {
    let r = OracleResult { metadata_uri: String::new(), feature_id: String::new() };
    let s = serialize_oracle_result(&r);
    assert_eq!(s, "{\"metadata_uri\":\"\",\"feature_id\":\"\"}");
    let back = parse_oracle_result(s.as_str()).unwrap();
    assert_eq!(back.metadata_uri, "");
    assert_eq!(back.feature_id, "");
}

#[test]
fn serde_reads_the_serialized_record() {
    let r = OracleResult {
        metadata_uri: String::from("ipfs://QmMeta"),
        feature_id: String::from("S2B_31TCJ"),
    };
    let s = serialize_oracle_result(&r);
    let v: serde_json::Value = serde_json::from_str(s.as_str()).unwrap();
    assert_eq!(v["metadata_uri"], "ipfs://QmMeta");
    assert_eq!(v["feature_id"], "S2B_31TCJ");
}

#[test]
fn parse_rejects_malformed_records() {
    assert!(parse_oracle_result("").is_none());
    assert!(parse_oracle_result("{}").is_none());
    assert!(parse_oracle_result("{\"metadata_uri\":\"a\"}").is_none());
    assert!(parse_oracle_result("{\"metadata_uri\":\"a\",\"feature_id\":\"b\"").is_none());
    assert!(parse_oracle_result("{\"metadata_uri\":\"a\",\"feature_id\":\"b\"}x").is_none());
    assert!(parse_oracle_result("{\"feature_id\":\"b\",\"metadata_uri\":\"a\"}").is_none());
}

#[test]
fn parse_accepts_exactly_the_emitted_shape() {
    let parsed = parse_oracle_result("{\"metadata_uri\":\"m\",\"feature_id\":\"f\"}").unwrap();
    assert_eq!(parsed.metadata_uri, "m");
    assert_eq!(parsed.feature_id, "f");
}

#[test]
fn roundtrip_control_characters() {
    let r = OracleResult {
        metadata_uri: String::from("line\nbreak\ttab"),
        feature_id: String::from("\u{1}end\u{1f}"),
    };
    let s = serialize_oracle_result(&r);
    assert!(s.contains("\\u000a"));
    assert!(s.contains("\\u0009"));
    assert!(s.contains("\\u0001"));
    assert!(s.contains("\\u001f"));
    let back = parse_oracle_result(s.as_str()).unwrap();
    assert_eq!(back.metadata_uri, r.metadata_uri);
    assert_eq!(back.feature_id, r.feature_id);
    // The emitted document is valid JSON even with control characters.
    let v: serde_json::Value = serde_json::from_str(s.as_str()).unwrap();
    assert_eq!(v["metadata_uri"], "line\nbreak\ttab");
    assert_eq!(v["feature_id"], "\u{1}end\u{1f}");
}

#[test]
fn parse_rejects_non_control_unicode_escapes() {
    assert!(parse_oracle_result("{\"metadata_uri\":\"\\u0041\",\"feature_id\":\"b\"}").is_none());
    assert!(parse_oracle_result("{\"metadata_uri\":\"\\u00zz\",\"feature_id\":\"b\"}").is_none());
    assert!(parse_oracle_result("{\"metadata_uri\":\"\\u00\",\"feature_id\":\"b\"}").is_none());
}
