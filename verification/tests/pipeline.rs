use modem_telemetry::error::{FetchError, NetworkError, SchemaError, Stage};
use modem_telemetry::ipv4::Ipv4;
use modem_telemetry::json::JsonNumber;
use modem_telemetry::metric::PacketLoss;
use modem_telemetry::pipeline::{Arrival, Command, Outcome, Pipeline};
use modem_telemetry::records::{
    Absent, DownstreamStats, ModemIdentity, NodeMapping, PortSpec, UpstreamChannel, UpstreamStats,
};
use modem_telemetry::request::Reply;

const IDENTITY: &str = r#"{"modem": "aa:bb:cc:dd:ee:ff", "downstreamSpeed": "330M",
    "modemidx": "12345", "upstreamSpeed": "20M", "Found_ON_DHCPserver": "dhcp1",
    "ClientIP": "203.0.113.7", "cf": "cf1", "encodedmac": "qrvM3e7/", "modemIP": "10.20.30.40",
    "CMTS": "cmts1.example", "cpeMAC": "11:22:33:44:55:66"}"#;

const MAPPING: &str = r#"{"macmapData": {"NODE": "N-0042", "RcvPwr": null,
    "PrimDS": "Cable7/0/3-downstream2", "nodeQuery": "node42", "SYSDESC": "vendor model",
    "Updated": "2024-01-01 00:00:00", "CHASSIS_MODEL": "E6000", "OnlineStatus": "online",
    "Current": "yes", "PrimDSIDX": "1234", "visitorIP": "203.0.113.7", "CableIF": "Cable7/0/3",
    "PrimUS": "Cable7/0/3-upstream1", "IP": "10.20.30.40", "MacDomain": "md7",
    "MAC": "aabb.ccdd.eeff", "PrimUSIDX": "5678", "cmts": "cmts1.example", "MODEMIDX": 98765}}"#;

const UPSTREAM: &str = r#"{"upstreamData": [
    {"yUncorr": 5, "xGood": 1000, "zCorr": 12, "SNR": "36.1", "Channel Frequency": "30600000",
     "Upstream Pwr": "45.0", "Channel Width": "6400000"},
    {"yUncorr": 0, "xGood": 2000, "zCorr": 0, "SNR": "35.9", "Channel Frequency": "36000000",
     "Upstream Pwr": "44.5", "Channel Width": "6400000"}],
    "DOCS_IF_MIB_docsIf3UsChSetChList": "1,2", "DOCS_IF_MIB_docsIfCmtsCmPtr": "ptr",
    "CM_Estimated_CNIR": [361, 359], "CMTS_Upstream_Idx": ["u1", "u2"], "CM_OFFset_Power": [0, 4],
    "tcsIndex": 3, "portSpec": {"docsisMode": "3.0"}, "UpstreamInts": "Cable7/0/3-upstream1",
    "avgReturnPwr": 44.75}"#;

const DOWNSTREAM: &str = r#"{"dscount": 0, "Standard_Deviation": "0.4", "Variance": "0.16",
    "QAMcount": 32, "avgSNR": 40.3, "avgPwr": -1, "DownStreams": []}"#;

fn ok(body: &str) -> Reply {
    Reply::Answered { status: 200, body: body.as_bytes().to_vec() }
}

fn identity() -> ModemIdentity {
    ModemIdentity {
        modem: "aa:bb:cc:dd:ee:ff".to_string(),
        downstream_speed: "330M".to_string(),
        modem_index: "12345".to_string(),
        upstream_speed: "20M".to_string(),
        found_on_dhcp_server: "dhcp1".to_string(),
        client_ip: Ipv4 { a: 203, b: 0, c: 113, d: 7 },
        cf: "cf1".to_string(),
        encoded_mac: "qrvM3e7/".to_string(),
        modem_ip: Ipv4 { a: 10, b: 20, c: 30, d: 40 },
        cmts: "cmts1.example".to_string(),
        cpe_mac: "11:22:33:44:55:66".to_string(),
    }
}

fn mapping() -> NodeMapping {
    NodeMapping {
        node: "N-0042".to_string(),
        rcv_pwr: Absent,
        prim_ds: "Cable7/0/3-downstream2".to_string(),
        node_query: "node42".to_string(),
        sys_desc: "vendor model".to_string(),
        updated: "2024-01-01 00:00:00".to_string(),
        chassis_model: "E6000".to_string(),
        online_status: "online".to_string(),
        current: "yes".to_string(),
        prim_ds_idx: "1234".to_string(),
        visitor_ip: Ipv4 { a: 203, b: 0, c: 113, d: 7 },
        cable_if: "Cable7/0/3".to_string(),
        prim_us: "Cable7/0/3-upstream1".to_string(),
        ip: Ipv4 { a: 10, b: 20, c: 30, d: 40 },
        mac_domain: "md7".to_string(),
        mac: "aabb.ccdd.eeff".to_string(),
        prim_us_idx: "5678".to_string(),
        cmts: "cmts1.example".to_string(),
        modem_index: 98765,
    }
}

fn upstream(counts: &[(u32, u32)]) -> UpstreamStats {
    UpstreamStats {
        channels: counts
            .iter()
            .map(|(good, uncorrectable)| UpstreamChannel {
                uncorrectable: *uncorrectable,
                good: *good,
                correctable: 0,
                snr: "36".to_string(),
                frequency: "30600000".to_string(),
                power: "45".to_string(),
                width: "6400000".to_string(),
            })
            .collect(),
        channel_set_list: String::new(),
        cm_pointer: String::new(),
        estimated_cnir: vec![],
        upstream_indices: vec![],
        offset_power: vec![],
        tcs_index: 0,
        port_spec: PortSpec { docsis_mode: "3.0".to_string() },
        upstream_interfaces: String::new(),
        average_return_power: JsonNumber::Unsigned(45),
        extra: vec![],
    }
}

fn downstream() -> DownstreamStats {
    DownstreamStats {
        count: 0,
        standard_deviation: "0.4".to_string(),
        variance: "0.16".to_string(),
        qam_count: 32,
        average_snr: JsonNumber::Real(40.3f64.to_bits()),
        average_power: JsonNumber::Negative(-1),
        channels: vec![],
    }
}

fn branches_pending() -> Pipeline {
    let (state, _) = Pipeline::start();
    let (state, _) = state.advance(Arrival::Identity(Ok(identity())));
    let (state, _) = state.advance(Arrival::Mapping(Ok(mapping())));
    state
}

#[test]
fn run_begins_with_the_identity_request() {
    assert_eq!(Pipeline::start(), (Pipeline::Start, Command::FetchIdentity));
}

#[test]
fn identity_leads_to_the_mapping_request() {
    let (state, _) = Pipeline::start();
    let (state, commands) = state.deliver(Stage::Identity, &ok(IDENTITY));
    assert_eq!(state, Pipeline::IdentityFetched { identity: identity() });
    assert_eq!(
        commands,
        vec![Command::FetchMapping { hardware_id: "aa:bb:cc:dd:ee:ff".to_string() }]
    );
}

#[test]
fn mapping_leads_to_both_statistics_requests_at_once() {
    let (state, _) = Pipeline::start();
    let (state, _) = state.deliver(Stage::Identity, &ok(IDENTITY));
    let (state, commands) = state.deliver(Stage::Mapping, &ok(MAPPING));
    assert_eq!(state, Pipeline::MappingFetched { upstream: None, downstream: None });
    assert_eq!(
        commands,
        vec![
            Command::FetchUpstream {
                hardware_id: "aa:bb:cc:dd:ee:ff".to_string(),
                cable_if: "Cable7/0/3".to_string(),
            },
            Command::FetchDownstream { modem_ip: Ipv4 { a: 10, b: 20, c: 30, d: 40 } },
        ]
    );
}

#[test]
fn failed_identity_is_fatal_and_asks_for_nothing() {
    let (state, _) = Pipeline::start();
    let (state, commands) = state.deliver(Stage::Identity, &Reply::Unreachable);
    assert_eq!(
        state,
        Pipeline::Done(Outcome::Fatal {
            stage: Stage::Identity,
            error: FetchError::Network(NetworkError::Transport),
        })
    );
    assert_eq!(commands, vec![]);
}

#[test]
fn failed_mapping_is_fatal_before_any_statistics_request() {
    let mut issued: Vec<Command> = Vec::new();
    let (state, first) = Pipeline::start();
    issued.push(first);
    let (state, commands) = state.deliver(Stage::Identity, &ok(IDENTITY));
    issued.extend(commands);
    let (state, commands) = state.deliver(Stage::Mapping, &Reply::Unreachable);
    issued.extend(commands);
    assert_eq!(
        state,
        Pipeline::Done(Outcome::Fatal {
            stage: Stage::Mapping,
            error: FetchError::Network(NetworkError::Transport),
        })
    );
    let statistics = issued
        .iter()
        .filter(|c| matches!(c.stage(), Stage::Upstream | Stage::Downstream))
        .count();
    assert_eq!(statistics, 0);
    assert_eq!(issued.len(), 2);
    let (state, commands) = state.deliver(Stage::Upstream, &ok(UPSTREAM));
    assert_eq!(commands, vec![]);
    assert!(matches!(state, Pipeline::Done(Outcome::Fatal { stage: Stage::Mapping, .. })));
}

#[test]
fn mapping_that_does_not_decode_is_fatal() {
    let (state, _) = Pipeline::start();
    let (state, _) = state.deliver(Stage::Identity, &ok(IDENTITY));
    let body = MAPPING.replace("\"CableIF\": \"Cable7/0/3\",", "");
    assert_ne!(body, MAPPING);
    let (state, commands) = state.deliver(Stage::Mapping, &ok(&body));
    assert_eq!(
        state,
        Pipeline::Done(Outcome::Fatal {
            stage: Stage::Mapping,
            error: FetchError::Schema(SchemaError::MissingField),
        })
    );
    assert_eq!(commands, vec![]);
}

#[test]
fn failed_downstream_degrades_and_keeps_the_loss() {
    let state = branches_pending();
    let (state, commands) =
        state.advance(Arrival::Upstream(Ok(upstream(&[(1000, 5), (2000, 0)]))));
    assert_eq!(commands, vec![]);
    assert_eq!(state.outcome(), None);
    let (state, commands) = state
        .advance(Arrival::Downstream(Err(FetchError::Network(NetworkError::Timeout))));
    assert_eq!(commands, vec![]);
    let outcome = state.outcome().expect("both branches have arrived");
    assert_eq!(
        outcome,
        &Outcome::Degraded {
            loss: PacketLoss::Ratio { uncorrectable: 5, good: 3000 },
            upstream: upstream(&[(1000, 5), (2000, 0)]),
            downstream_error: FetchError::Network(NetworkError::Timeout),
        }
    );
    assert_eq!(outcome.loss(), Some(PacketLoss::Ratio { uncorrectable: 5, good: 3000 }));
    assert_eq!(outcome.exit_status(), 0);
    match outcome.loss() {
        Some(PacketLoss::Ratio { uncorrectable, good }) => {
            assert!((uncorrectable as f64 / good as f64 - 0.001667).abs() < 1e-6);
        }
        other => panic!("no ratio: {other:?}"),
    }
}

#[test]
fn whole_run_with_failing_downstream_is_degraded() {
    let (state, _) = Pipeline::start();
    let (state, _) = state.deliver(Stage::Identity, &ok(IDENTITY));
    let (state, _) = state.deliver(Stage::Mapping, &ok(MAPPING));
    let (state, _) = state.deliver(
        Stage::Downstream,
        &Reply::Answered { status: 503, body: b"busy".to_vec() },
    );
    assert_eq!(state.outcome(), None);
    let (state, _) = state.deliver(Stage::Upstream, &ok(UPSTREAM));
    match state.outcome() {
        Some(Outcome::Degraded { loss, downstream_error, .. }) => {
            assert_eq!(*loss, PacketLoss::Ratio { uncorrectable: 5, good: 3000 });
            assert_eq!(*downstream_error, FetchError::Network(NetworkError::Status(503)));
        }
        other => panic!("not degraded: {other:?}"),
    }
}

#[test]
fn whole_run_is_complete() {
    let (state, _) = Pipeline::start();
    let (state, _) = state.deliver(Stage::Identity, &ok(IDENTITY));
    let (state, _) = state.deliver(Stage::Mapping, &ok(MAPPING));
    let (state, _) = state.deliver(Stage::Upstream, &ok(UPSTREAM));
    let (state, commands) = state.deliver(Stage::Downstream, &ok(DOWNSTREAM));
    assert_eq!(commands, vec![]);
    match state.outcome() {
        Some(Outcome::Complete { loss, upstream, downstream: down }) => {
            assert_eq!(*loss, PacketLoss::Ratio { uncorrectable: 5, good: 3000 });
            assert_eq!(upstream.channels.len(), 2);
            assert_eq!(*down, downstream());
        }
        other => panic!("not complete: {other:?}"),
    }
    assert_eq!(state.outcome().map(|o| o.exit_status()), Some(0));
}

#[test]
fn downstream_that_does_not_decode_degrades() {
    let state = branches_pending();
    let (state, _) = state.deliver(Stage::Upstream, &ok(UPSTREAM));
    let (state, _) = state.deliver(Stage::Downstream, &ok("{\"dscount\": \"many\"}"));
    assert!(matches!(
        state.outcome(),
        Some(Outcome::Degraded {
            downstream_error: FetchError::Schema(SchemaError::WrongType),
            ..
        })
    ));
}

#[test]
fn failed_upstream_is_fatal_once_both_have_arrived() {
    let state = branches_pending();
    let (state, _) =
        state.advance(Arrival::Upstream(Err(FetchError::Schema(SchemaError::Syntax))));
    assert_eq!(state.outcome(), None);
    let (state, _) = state.advance(Arrival::Downstream(Ok(downstream())));
    let outcome = state.outcome().expect("both branches have arrived");
    assert_eq!(
        outcome,
        &Outcome::Fatal { stage: Stage::Upstream, error: FetchError::Schema(SchemaError::Syntax) }
    );
    assert_eq!(outcome.loss(), None);
    assert_eq!(outcome.exit_status(), 1);
}

#[test]
fn branches_merge_the_same_in_either_order() {
    let up = || Arrival::Upstream(Ok(upstream(&[(10, 1)])));
    let down = || Arrival::Downstream(Ok(downstream()));
    let (one, _) = branches_pending().advance(up());
    let (one, _) = one.advance(down());
    let (other, _) = branches_pending().advance(down());
    let (other, _) = other.advance(up());
    assert_eq!(one, other);
    assert!(matches!(one, Pipeline::Done(Outcome::Complete { .. })));
}

#[test]
fn run_without_channels_has_no_defined_loss() {
    let state = branches_pending();
    let (state, _) = state.advance(Arrival::Upstream(Ok(upstream(&[]))));
    let (state, _) = state.advance(Arrival::Downstream(Ok(downstream())));
    assert_eq!(state.outcome().and_then(|o| o.loss()), Some(PacketLoss::Undefined));
    assert_eq!(state.outcome().map(|o| o.exit_status()), Some(0));
}

#[test]
fn arrivals_that_nothing_waits_for_change_nothing() {
    let (state, commands) = Pipeline::Start.advance(Arrival::Mapping(Ok(mapping())));
    assert_eq!((state, commands), (Pipeline::Start, vec![]));
    let (state, commands) = Pipeline::Start.advance(Arrival::Upstream(Ok(upstream(&[]))));
    assert_eq!((state, commands), (Pipeline::Start, vec![]));
    let (state, commands) = branches_pending().advance(Arrival::Identity(Ok(identity())));
    assert_eq!((state, commands), (branches_pending(), vec![]));
    let (state, _) = branches_pending().advance(Arrival::Upstream(Ok(upstream(&[(1, 0)]))));
    let (again, commands) = state.advance(Arrival::Upstream(Ok(upstream(&[(9, 9)]))));
    assert_eq!(commands, vec![]);
    assert_eq!(
        again,
        Pipeline::MappingFetched { upstream: Some(Ok(upstream(&[(1, 0)]))), downstream: None }
    );
}

#[test]
fn finished_run_stays_finished() {
    let fatal = || {
        Pipeline::Done(Outcome::Fatal {
            stage: Stage::Identity,
            error: FetchError::Network(NetworkError::Timeout),
        })
    };
    for arrival in [
        Arrival::Identity(Ok(identity())),
        Arrival::Mapping(Ok(mapping())),
        Arrival::Upstream(Ok(upstream(&[]))),
        Arrival::Downstream(Ok(downstream())),
    ] {
        assert_eq!(fatal().advance(arrival), (fatal(), vec![]));
    }
}

#[test]
fn commands_build_their_requests() {
    let (_, first) = Pipeline::start();
    assert_eq!(first.stage(), Stage::Identity);
    assert_eq!(first.request(7).query.len(), 1);
    let mapping = Command::FetchMapping { hardware_id: "aa:bb:cc:dd:ee:ff".to_string() };
    assert_eq!(mapping.stage(), Stage::Mapping);
    assert_eq!(mapping.request(7).query[1].value, "aabbccddeeff");
    let up = Command::FetchUpstream {
        hardware_id: "aa:bb:cc:dd:ee:ff".to_string(),
        cable_if: "Cable7/0/3".to_string(),
    };
    assert_eq!(up.stage(), Stage::Upstream);
    assert_eq!(up.request(7).query[1].value, "aa:bb:cc:dd:ee:ff");
    assert_eq!(up.request(7).query[2].value, "Cable7/0/3");
    let down = Command::FetchDownstream { modem_ip: Ipv4 { a: 10, b: 20, c: 30, d: 40 } };
    assert_eq!(down.stage(), Stage::Downstream);
    assert_eq!(down.request(8).query[0].value, "8");
    assert_eq!(down.request(8).query[1].value, "10.20.30.40");
}

#[test]
fn one_branch_can_arrive_while_the_other_is_outstanding() {
    let (state, _) = Pipeline::start();
    let (state, _) = state.deliver(Stage::Identity, &ok(IDENTITY));
    let (state, commands) = state.deliver(Stage::Mapping, &ok(MAPPING));
    let outstanding: Vec<Stage> = commands.iter().map(|c| c.stage()).collect();
    assert_eq!(outstanding, vec![Stage::Upstream, Stage::Downstream]);
    let (state, commands) = state.deliver(Stage::Downstream, &ok(DOWNSTREAM));
    assert_eq!(commands, vec![]);
    assert_eq!(
        state,
        Pipeline::MappingFetched { upstream: None, downstream: Some(Ok(downstream())) }
    );
    let (state, _) = state.deliver(Stage::Upstream, &ok(UPSTREAM));
    assert!(matches!(state.outcome(), Some(Outcome::Complete { .. })));
}
