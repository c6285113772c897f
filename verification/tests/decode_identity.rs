use modem_telemetry::decode::identity::{decode_modem_identity, modem_identity_from_json};
use modem_telemetry::error::SchemaError;
use modem_telemetry::ipv4::Ipv4;
use modem_telemetry::json::{Json, Member};
use modem_telemetry::records::ModemIdentity;

const FIELDS: [(&str, &str); 11] = [
    ("modem", "\"aa:bb:cc:dd:ee:ff\""),
    ("downstreamSpeed", "\"330M\""),
    ("modemidx", "\"12345\""),
    ("upstreamSpeed", "\"20M\""),
    ("Found_ON_DHCPserver", "\"dhcp1\""),
    ("ClientIP", "\"203.0.113.7\""),
    ("cf", "\"cf1\""),
    ("encodedmac", "\"qrvM3e7/\""),
    ("modemIP", "\"10.20.30.40\""),
    ("CMTS", "\"cmts1.example\""),
    ("cpeMAC", "\"11:22:33:44:55:66\""),
];

fn body_of(fields: &[(&str, &str)]) -> String {
    let members: Vec<String> =
        fields.iter().map(|(name, value)| format!("\"{name}\": {value}")).collect();
    format!("{{{}}}", members.join(", "))
}

fn body() -> String {
    body_of(&FIELDS)
}

fn with(field: &str, replacement: &str) -> String {
    let fields: Vec<(&str, &str)> = FIELDS
        .iter()
        .map(|(name, value)| if *name == field { (*name, replacement) } else { (*name, *value) })
        .collect();
    body_of(&fields)
}

fn without(field: &str) -> String {
    let fields: Vec<(&str, &str)> =
        FIELDS.iter().filter(|(name, _)| *name != field).cloned().collect();
    body_of(&fields)
}

fn expected() -> ModemIdentity {
    ModemIdentity {
        modem: "aa:bb:cc:dd:ee:ff".to_string(),
        downstream_speed: "330M".to_string(),
        modem_index: "12345".to_string(),
        upstream_speed: "20M".to_string(),
        found_on_dhcp_server: "dhcp1".to_string(),
        client_ip: Ipv4 { a: 203, b: 0, c: 113, d: 7 },
        cf: "cf1".to_string(),
        encoded_mac: "qrvM3e7/".to_string(),
        modem_ip: Ipv4 { a: 10, b: 20, c: 30, d: 40 },
        cmts: "cmts1.example".to_string(),
        cpe_mac: "11:22:33:44:55:66".to_string(),
    }
}

#[test]
fn identity_decodes() {
    assert_eq!(decode_modem_identity(body().as_bytes()), Ok(expected()));
}

#[test]
fn identity_ignores_fields_it_does_not_know() {
    let body = body().replacen('{', "{\"somethingNew\": [1, 2, 3],", 1);
    assert_eq!(decode_modem_identity(body.as_bytes()), Ok(expected()));
}

#[test]
fn identity_needs_every_field() {
    for (field, _) in FIELDS {
        assert_eq!(
            decode_modem_identity(without(field).as_bytes()),
            Err(SchemaError::MissingField),
            "{field}"
        );
    }
}

#[test]
fn identity_rejects_ill_typed_fields() {
    assert_eq!(
        decode_modem_identity(with("modemidx", "12345").as_bytes()),
        Err(SchemaError::WrongType)
    );
    assert_eq!(
        decode_modem_identity(with("cf", "null").as_bytes()),
        Err(SchemaError::WrongType)
    );
    assert_eq!(
        decode_modem_identity(with("ClientIP", "3405803783").as_bytes()),
        Err(SchemaError::WrongType)
    );
}

#[test]
fn identity_rejects_addresses_that_are_no_dotted_quad() {
    for bad in ["\"203.0.113\"", "\"203.0.113.256\"", "\"203.0.113.07\"", "\"\"", "\"::1\""] {
        assert_eq!(
            decode_modem_identity(with("ClientIP", bad).as_bytes()),
            Err(SchemaError::BadAddress),
            "{bad}"
        );
        assert_eq!(
            decode_modem_identity(with("modemIP", bad).as_bytes()),
            Err(SchemaError::BadAddress),
            "{bad}"
        );
    }
}

#[test]
fn identity_rejects_hardware_ids_that_are_no_hex() {
    for bad in [
        "\"aa:bb:cc:dd:ee:fg\"", "\"aa-bb-cc-dd-ee-ff\"", "\"aa bb\"", "\"0x12\"", "\"\"", "\":\"",
    ] {
        assert_eq!(
            decode_modem_identity(with("modem", bad).as_bytes()),
            Err(SchemaError::BadHardwareId),
            "{bad}"
        );
    }
    for good in ["\"AABBCCDDEEFF\"", "\"00:1A:2b:3C:4d:5E\""] {
        assert!(decode_modem_identity(with("modem", good).as_bytes()).is_ok(), "{good}");
    }
}

#[test]
fn identity_reports_the_first_bad_field() {
    let body = with("modem", "7").replace("\"203.0.113.7\"", "\"nowhere\"");
    assert_eq!(decode_modem_identity(body.as_bytes()), Err(SchemaError::WrongType));
    let body = with("ClientIP", "\"nowhere\"").replace("\"cf1\"", "1");
    assert_eq!(decode_modem_identity(body.as_bytes()), Err(SchemaError::BadAddress));
}

#[test]
fn identity_rejects_what_is_not_json() {
    assert_eq!(decode_modem_identity(b""), Err(SchemaError::Syntax));
    assert_eq!(decode_modem_identity(b"<html></html>"), Err(SchemaError::Syntax));
    assert_eq!(decode_modem_identity(&body().as_bytes()[..40]), Err(SchemaError::Syntax));
    assert_eq!(decode_modem_identity(&[0xff, 0xfe]), Err(SchemaError::Syntax));
}

#[test]
fn identity_rejects_documents_that_are_no_object() {
    for body in ["[]", "null", "\"modem\"", "17", "true"] {
        assert_eq!(decode_modem_identity(body.as_bytes()), Err(SchemaError::WrongType), "{body}");
    }
    assert_eq!(decode_modem_identity(b"{}"), Err(SchemaError::MissingField));
}

#[test]
fn identity_reads_a_hand_built_document() {
    let text = |name: &str, value: &str| Member {
        name: name.to_string(),
        value: Json::Text(value.to_string()),
    };
    let doc = Json::Object(vec![
        text("cpeMAC", "11:22:33:44:55:66"),
        text("CMTS", "cmts1.example"),
        text("modemIP", "10.20.30.40"),
        text("encodedmac", "qrvM3e7/"),
        text("cf", "cf1"),
        text("ClientIP", "203.0.113.7"),
        text("Found_ON_DHCPserver", "dhcp1"),
        text("upstreamSpeed", "20M"),
        text("modemidx", "12345"),
        text("downstreamSpeed", "330M"),
        text("modem", "aa:bb:cc:dd:ee:ff"),
    ]);
    assert_eq!(modem_identity_from_json(&doc), Ok(expected()));
}

#[test]
fn identity_decodes_the_same_twice() {
    let first = decode_modem_identity(body().as_bytes());
    let second = decode_modem_identity(body().as_bytes());
    assert_eq!(first, second);
    let broken = with("modemIP", "\"x\"");
    assert_eq!(
        decode_modem_identity(broken.as_bytes()),
        decode_modem_identity(broken.as_bytes())
    );
}
