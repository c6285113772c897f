use modem_telemetry::error::{FetchError, NetworkError, SchemaError};
use modem_telemetry::fetch::{
    receive_downstream_stats, receive_modem_identity, receive_node_mapping,
    receive_upstream_stats,
};
use modem_telemetry::request::Reply;

const DOWNSTREAM: &str = r#"{"dscount": 0, "Standard_Deviation": "0.4", "Variance": "0.16",
    "QAMcount": 32, "avgSNR": 40.3, "avgPwr": -1, "DownStreams": []}"#;

fn answered(status: u16, body: &str) -> Reply {
    Reply::Answered { status, body: body.as_bytes().to_vec() }
}

#[test]
fn fetch_decodes_the_body_of_a_good_answer() {
    let stats = receive_downstream_stats(&answered(200, DOWNSTREAM)).expect("decodes");
    assert_eq!(stats.qam_count, 32);
    assert_eq!(stats.channels.len(), 0);
}

#[test]
fn fetch_turns_a_bad_status_into_a_network_error() {
    assert_eq!(
        receive_downstream_stats(&answered(404, DOWNSTREAM)),
        Err(FetchError::Network(NetworkError::Status(404)))
    );
    assert_eq!(
        receive_modem_identity(&answered(500, "{}")),
        Err(FetchError::Network(NetworkError::Status(500)))
    );
}

#[test]
fn fetch_turns_a_lost_call_into_a_network_error() {
    assert_eq!(
        receive_node_mapping(&Reply::TimedOut),
        Err(FetchError::Network(NetworkError::Timeout))
    );
    assert_eq!(
        receive_upstream_stats(&Reply::Unreachable),
        Err(FetchError::Network(NetworkError::Transport))
    );
}

#[test]
fn fetch_turns_a_bad_body_into_a_schema_error() {
    assert_eq!(
        receive_modem_identity(&answered(200, "<html>")),
        Err(FetchError::Schema(SchemaError::Syntax))
    );
    assert_eq!(
        receive_node_mapping(&answered(200, "{}")),
        Err(FetchError::Schema(SchemaError::MissingField))
    );
    assert_eq!(
        receive_upstream_stats(&answered(200, "[]")),
        Err(FetchError::Schema(SchemaError::WrongType))
    );
    assert_eq!(
        receive_downstream_stats(&answered(204, "")),
        Err(FetchError::Schema(SchemaError::Syntax))
    );
}

#[test]
fn fetch_looks_at_the_status_before_the_body() {
    assert_eq!(
        receive_downstream_stats(&answered(302, "not json")),
        Err(FetchError::Network(NetworkError::Status(302)))
    );
}
