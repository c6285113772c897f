//! The requests of the four stages, and what comes back for them.
//!
//! Every request is a GET on a fixed address with a short query. The first
//! parameter of every query is `_`, a time stamp that keeps caches from
//! answering in the modem's place.

use crate::error::NetworkError;
use crate::ipv4::{dotted, Ipv4};
use crate::text::{decimal, decimal_text, remove_char, without};
use vstd::prelude::*;

verus! {

/// Address of the identity endpoint.
pub const IDENTITY_URL: &'static str = "http://ma.speedtest.rcn.net/lookup_mip_merlin-new.cgi";

/// Address of the mapping endpoint.
pub const MAPPING_URL: &'static str = "http://ma.speedtest.rcn.net/merlin/macmap_Ver2.cgi";

/// Address of the upstream statistics endpoint.
pub const UPSTREAM_URL: &'static str = "http://ma.speedtest.rcn.net/merlin/rfmodem_us_Ver2.cgi";

/// Address of the downstream statistics endpoint.
pub const DOWNSTREAM_URL: &'static str = "http://ma.speedtest.rcn.net/merlin/rfmodem_ds.cgi";

/// One `name=value` pair of a query string, not yet escaped.
#[derive(Clone, Debug, PartialEq, Eq)]
pub struct Parameter {
    pub name: String,
    pub value: String,
}

/// A GET request: where to, and with which query.
#[derive(Clone, Debug, PartialEq, Eq)]
pub struct Request {
    pub url: String,
    pub query: Vec<Parameter>,
}

/// Model of a [`Request`].
pub struct RequestModel {
    pub url: Seq<char>,
    pub query: Seq<(Seq<char>, Seq<char>)>,
}

/// The models of a run of parameters.
pub open spec fn query_model(query: Seq<Parameter>) -> Seq<(Seq<char>, Seq<char>)> {
    Seq::new(query.len(), |i: int| (query[i].name@, query[i].value@))
}

impl View for Request {
    type V = RequestModel;

    open spec fn view(&self) -> RequestModel {
        RequestModel { url: self.url@, query: query_model(self.query@) }
    }
}

/// The parameter that defeats caches, for a request made at `stamp` seconds
/// after the Unix epoch.
pub open spec fn cache_defeater(stamp: u64) -> (Seq<char>, Seq<char>) {
    ("_"@, decimal(stamp as nat))
}

/// The identity request.
pub open spec fn identity_request_model(stamp: u64) -> RequestModel {
    RequestModel { url: IDENTITY_URL@, query: seq![cache_defeater(stamp)] }
}

/// The mapping request for a hardware identifier: the identifier travels
/// without its colons.
pub open spec fn mapping_request_model(stamp: u64, hardware_id: Seq<char>) -> RequestModel {
    RequestModel {
        url: MAPPING_URL@,
        query: seq![cache_defeater(stamp), ("mac"@, without(hardware_id, ':'))],
    }
}

/// The upstream statistics request: the identifier travels as it is.
pub open spec fn upstream_request_model(
    stamp: u64,
    hardware_id: Seq<char>,
    cable_if: Seq<char>,
) -> RequestModel {
    RequestModel {
        url: UPSTREAM_URL@,
        query: seq![cache_defeater(stamp), ("mac"@, hardware_id), ("INT"@, cable_if)],
    }
}

/// The downstream statistics request: the address travels as a dotted quad.
pub open spec fn downstream_request_model(stamp: u64, modem_ip: Ipv4) -> RequestModel {
    RequestModel {
        url: DOWNSTREAM_URL@,
        query: seq![cache_defeater(stamp), ("ip"@, dotted(modem_ip))],
    }
}

/// Makes one parameter.
fn parameter(name: &str, value: String) -> (made: Parameter)
    ensures
        made.name@ == name@,
        made.value@ == value@,
{
    Parameter { name: name.to_owned(), value }
}

/// Builds the identity request.
pub fn identity_request(stamp: u64) -> (request: Request)
    ensures
        request@ == identity_request_model(stamp),
{
    let mut query: Vec<Parameter> = Vec::new();
    query.push(parameter("_", decimal_text(stamp)));
    assert(query_model(query@) =~= identity_request_model(stamp).query);
    Request { url: IDENTITY_URL.to_owned(), query }
}

/// Builds the mapping request.
pub fn mapping_request(stamp: u64, hardware_id: &str) -> (request: Request)
    ensures
        request@ == mapping_request_model(stamp, hardware_id@),
{
    let mut query: Vec<Parameter> = Vec::new();
    query.push(parameter("_", decimal_text(stamp)));
    query.push(parameter("mac", remove_char(hardware_id, ':')));
    assert(query_model(query@) =~= mapping_request_model(stamp, hardware_id@).query);
    Request { url: MAPPING_URL.to_owned(), query }
}

/// Builds the upstream statistics request.
pub fn upstream_request(stamp: u64, hardware_id: &str, cable_if: &str) -> (request: Request)
    ensures
        request@ == upstream_request_model(stamp, hardware_id@, cable_if@),
{
    let mut query: Vec<Parameter> = Vec::new();
    query.push(parameter("_", decimal_text(stamp)));
    query.push(parameter("mac", hardware_id.to_owned()));
    query.push(parameter("INT", cable_if.to_owned()));
    assert(query_model(query@) =~= upstream_request_model(stamp, hardware_id@, cable_if@).query);
    Request { url: UPSTREAM_URL.to_owned(), query }
}

/// Builds the downstream statistics request.
pub fn downstream_request(stamp: u64, modem_ip: Ipv4) -> (request: Request)
    ensures
        request@ == downstream_request_model(stamp, modem_ip),
{
    let mut query: Vec<Parameter> = Vec::new();
    query.push(parameter("_", decimal_text(stamp)));
    query.push(parameter("ip", modem_ip.to_text()));
    assert(query_model(query@) =~= downstream_request_model(stamp, modem_ip).query);
    Request { url: DOWNSTREAM_URL.to_owned(), query }
}

/// What came back for one request.
#[derive(Clone, Debug, PartialEq, Eq)]
pub enum Reply {
    /// The server answered, with this status and this body.
    Answered { status: u16, body: Vec<u8> },
    /// The call ran into its time limit.
    TimedOut,
    /// The request could not be sent, or the answer could not be read.
    Unreachable,
}

/// Model of a [`Reply`].
pub enum ReplyModel {
    Answered { status: u16, body: Seq<u8> },
    TimedOut,
    Unreachable,
}

impl View for Reply {
    type V = ReplyModel;

    open spec fn view(&self) -> ReplyModel {
        match self {
            Reply::Answered { status, body } => ReplyModel::Answered {
                status: *status,
                body: body@,
            },
            Reply::TimedOut => ReplyModel::TimedOut,
            Reply::Unreachable => ReplyModel::Unreachable,
        }
    }
}

/// The body that a reply delivers: that of an answer with a status from 200
/// to 299. Every other reply is a network error.
pub open spec fn body_of(reply: ReplyModel) -> Result<Seq<u8>, NetworkError> {
    match reply {
        ReplyModel::Answered { status, body } => if 200 <= status <= 299 {
            Ok(body)
        } else {
            Err(NetworkError::Status(status))
        },
        ReplyModel::TimedOut => Err(NetworkError::Timeout),
        ReplyModel::Unreachable => Err(NetworkError::Transport),
    }
}

impl Reply {
    /// Tells a usable answer from a network error.
    pub fn body(&self) -> (outcome: Result<&Vec<u8>, NetworkError>)
        ensures
            match outcome {
                Ok(bytes) => body_of(self@) == Ok::<Seq<u8>, NetworkError>(bytes@),
                Err(e) => body_of(self@) == Err::<Seq<u8>, NetworkError>(e),
            },
    {
        match self {
            Reply::Answered { status, body } => if 200 <= *status && *status <= 299 {
                Ok(body)
            } else {
                Err(NetworkError::Status(*status))
            },
            Reply::TimedOut => Err(NetworkError::Timeout),
            Reply::Unreachable => Err(NetworkError::Transport),
        }
    }
}

} // verus!
