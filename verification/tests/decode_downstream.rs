use modem_telemetry::decode::downstream::decode_downstream_stats;
use modem_telemetry::error::SchemaError;
use modem_telemetry::json::JsonNumber;
use modem_telemetry::records::{DownstreamChannel, DownstreamStats};

const CHANNEL: &str = r#"{"Channel Frequency": "603000000", "Uncorr": "17", "zCorr": "230",
    "DownStream SNR": "40.3", "DownStream Pwr": "1.2", "Good x10000": "9998"}"#;

const FIELDS: [(&str, &str); 7] = [
    ("dscount", "1"),
    ("Standard_Deviation", "\"0.4\""),
    ("Variance", "\"0.16\""),
    ("QAMcount", "32"),
    ("avgSNR", "40.3"),
    ("avgPwr", "-1"),
    ("DownStreams", "[]"),
];

fn body_of(fields: &[(&str, String)]) -> String {
    let members: Vec<String> =
        fields.iter().map(|(name, value)| format!("\"{name}\": {value}")).collect();
    format!("{{{}}}", members.join(", "))
}

fn sample() -> Vec<(&'static str, String)> {
    FIELDS
        .iter()
        .map(|(name, value)| {
            if *name == "DownStreams" {
                (*name, format!("[{CHANNEL}]"))
            } else {
                (*name, value.to_string())
            }
        })
        .collect()
}

fn body() -> String {
    body_of(&sample())
}

fn with(field: &str, replacement: &str) -> String {
    let fields: Vec<(&str, String)> = sample()
        .into_iter()
        .map(|(name, value)| if name == field { (name, replacement.to_string()) } else { (name, value) })
        .collect();
    body_of(&fields)
}

fn without(field: &str) -> String {
    let fields: Vec<(&str, String)> =
        sample().into_iter().filter(|(name, _)| *name != field).collect();
    body_of(&fields)
}

fn expected() -> DownstreamStats {
    DownstreamStats {
        count: 1,
        standard_deviation: "0.4".to_string(),
        variance: "0.16".to_string(),
        qam_count: 32,
        average_snr: JsonNumber::Real(40.3f64.to_bits()),
        average_power: JsonNumber::Negative(-1),
        channels: vec![DownstreamChannel {
            frequency: "603000000".to_string(),
            uncorrectable: "17".to_string(),
            corrected: "230".to_string(),
            snr: "40.3".to_string(),
            power: "1.2".to_string(),
            good_fraction: "9998".to_string(),
        }],
    }
}

#[test]
fn downstream_decodes() {
    assert_eq!(decode_downstream_stats(body().as_bytes()), Ok(expected()));
}

#[test]
fn downstream_ignores_fields_it_does_not_know() {
    let body = body().replacen('{', "{\"extra\": 1, ", 1);
    assert_eq!(decode_downstream_stats(body.as_bytes()), Ok(expected()));
}

#[test]
fn downstream_needs_every_field() {
    for (field, _) in FIELDS {
        assert_eq!(
            decode_downstream_stats(without(field).as_bytes()),
            Err(SchemaError::MissingField),
            "{field}"
        );
    }
    for field in [
        "Channel Frequency", "Uncorr", "zCorr", "DownStream SNR", "DownStream Pwr", "Good x10000",
    ] {
        let channel = CHANNEL.replace(&format!("\"{field}\""), "\"renamed\"");
        assert_eq!(
            decode_downstream_stats(with("DownStreams", &format!("[{channel}]")).as_bytes()),
            Err(SchemaError::MissingField),
            "{field}"
        );
    }
}

#[test]
fn downstream_wants_the_summary_beside_the_list() {
    let nested = format!(
        "{{\"DownStreams\": {{\"dscount\": 1, \"Standard_Deviation\": \"0.4\", \"Variance\": \
         \"0.16\", \"QAMcount\": 32, \"avgSNR\": 40.3, \"avgPwr\": -1, \"list\": [{CHANNEL}]}}}}"
    );
    assert_eq!(decode_downstream_stats(nested.as_bytes()), Err(SchemaError::MissingField));
}

#[test]
fn downstream_rejects_ill_typed_fields() {
    for (field, bad) in [
        ("dscount", "\"1\""),
        ("dscount", "1.0"),
        ("Standard_Deviation", "0.4"),
        ("Variance", "null"),
        ("QAMcount", "[32]"),
        ("avgSNR", "\"40.3\""),
        ("avgPwr", "false"),
        ("DownStreams", "{}"),
        ("DownStreams", "[[]]"),
    ] {
        assert_eq!(
            decode_downstream_stats(with(field, bad).as_bytes()),
            Err(SchemaError::WrongType),
            "{field}: {bad}"
        );
    }
    let channel = CHANNEL.replace("\"Uncorr\": \"17\"", "\"Uncorr\": 17");
    assert_eq!(
        decode_downstream_stats(with("DownStreams", &format!("[{channel}]")).as_bytes()),
        Err(SchemaError::WrongType)
    );
    assert_eq!(
        decode_downstream_stats(with("QAMcount", "-32").as_bytes()),
        Err(SchemaError::OutOfRange)
    );
}

#[test]
fn downstream_rejects_what_is_not_json() {
    assert_eq!(decode_downstream_stats(b"not json"), Err(SchemaError::Syntax));
    assert_eq!(decode_downstream_stats(b"[]"), Err(SchemaError::WrongType));
}

#[test]
fn downstream_decodes_the_same_twice() {
    assert_eq!(
        decode_downstream_stats(body().as_bytes()),
        decode_downstream_stats(body().as_bytes())
    );
}
