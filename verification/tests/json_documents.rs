use modem_telemetry::error::SchemaError;
use modem_telemetry::json::{parse, Json, JsonNumber, Member};

#[test]
fn parse_reads_every_kind_of_value() {
    let doc = parse(br#"{"a": 1, "b": -2, "c": 1.5, "d": "x", "e": [true, null], "f": {}}"#)
        .expect("valid JSON");
    assert_eq!(doc.get("a"), Some(&Json::Number(JsonNumber::Unsigned(1))));
    assert_eq!(doc.get("b"), Some(&Json::Number(JsonNumber::Negative(-2))));
    assert_eq!(
        doc.get("c"),
        Some(&Json::Number(JsonNumber::Real(1.5f64.to_bits())))
    );
    assert_eq!(doc.get("d"), Some(&Json::Text("x".to_string())));
    assert_eq!(
        doc.get("e"),
        Some(&Json::Array(vec![Json::Bool(true), Json::Null]))
    );
    assert_eq!(doc.get("f"), Some(&Json::Object(vec![])));
    assert_eq!(doc.get("g"), None);
}

#[test]
fn parse_rejects_what_is_not_one_document() {
    assert_eq!(parse(b""), Err(SchemaError::Syntax));
    assert_eq!(parse(b"{"), Err(SchemaError::Syntax));
    assert_eq!(parse(b"{} {}"), Err(SchemaError::Syntax));
    assert_eq!(parse(b"{\"a\": 01}"), Err(SchemaError::Syntax));
}

#[test]
fn get_returns_the_first_member_of_that_name() {
    let doc = Json::Object(vec![
        Member { name: "k".to_string(), value: Json::Bool(false) },
        Member { name: "k".to_string(), value: Json::Bool(true) },
    ]);
    assert_eq!(doc.get("k"), Some(&Json::Bool(false)));
    assert_eq!(Json::Null.get("k"), None);
    assert_eq!(Json::Array(vec![]).get("k"), None);
}

#[test]
fn parse_keeps_one_value_of_a_repeated_name() {
    let doc = parse(br#"{"k": 1, "other": {"n": "a", "n": "b"}, "k": 2}"#).expect("valid JSON");
    match &doc {
        Json::Object(members) => {
            assert_eq!(members.len(), 2);
            assert_eq!(members.iter().filter(|m| m.name == "k").count(), 1);
        }
        other => panic!("no object: {other:?}"),
    }
    assert_eq!(doc.get("k"), Some(&Json::Number(JsonNumber::Unsigned(2))));
    assert_eq!(
        doc.get("other"),
        Some(&Json::Object(vec![Member {
            name: "n".to_string(),
            value: Json::Text("b".to_string()),
        }]))
    );
}
