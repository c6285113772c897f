//! The receiving half of each fetch: from what came back to the typed
//! record, or to the reason why there is none.
//!
//! Sending is the caller's part. A fetch is the request of
//! [`crate::request`], sent by the caller, and the reply handed to one of the
//! functions here. Nothing is retried and nothing is kept between calls.

use crate::decode::downstream::{decode_downstream_stats, downstream_stats_in};
use crate::decode::identity::{decode_modem_identity, modem_identity_in};
use crate::decode::mapping::{decode_node_mapping, node_mapping_in};
use crate::decode::outcome_model;
use crate::decode::upstream::{decode_upstream_stats, upstream_stats_in};
use crate::error::{FetchError, NetworkError, SchemaError};
use crate::records::{
    DownstreamStats, DownstreamStatsModel, ModemIdentity, ModemIdentityModel, NodeMapping,
    NodeMappingModel, UpstreamStats, UpstreamStatsModel,
};
use crate::request::{body_of, Reply, ReplyModel};
use vstd::prelude::*;

verus! {

/// What a fetch yields, from what the reply delivers and from what its
/// body would decode to: a network error where the reply delivers no body,
/// a schema error where the body does not decode, else the record.
pub open spec fn fetched<M>(
    body: Result<Seq<u8>, NetworkError>,
    decode: spec_fn(Seq<u8>) -> Result<M, SchemaError>,
) -> Result<M, FetchError> {
    match body {
        Ok(bytes) => match decode(bytes) {
            Ok(record) => Ok(record),
            Err(e) => Err(FetchError::Schema(e)),
        },
        Err(e) => Err(FetchError::Network(e)),
    }
}

/// What the identity fetch yields for a reply.
pub open spec fn identity_received(reply: ReplyModel) -> Result<ModemIdentityModel, FetchError> {
    fetched(body_of(reply), |bytes: Seq<u8>| modem_identity_in(bytes))
}

/// What the mapping fetch yields for a reply.
pub open spec fn mapping_received(reply: ReplyModel) -> Result<NodeMappingModel, FetchError> {
    fetched(body_of(reply), |bytes: Seq<u8>| node_mapping_in(bytes))
}

/// What the upstream statistics fetch yields for a reply.
pub open spec fn upstream_received(reply: ReplyModel) -> Result<UpstreamStatsModel, FetchError> {
    fetched(body_of(reply), |bytes: Seq<u8>| upstream_stats_in(bytes))
}

/// What the downstream statistics fetch yields for a reply.
pub open spec fn downstream_received(reply: ReplyModel) -> Result<
    DownstreamStatsModel,
    FetchError,
> {
    fetched(body_of(reply), |bytes: Seq<u8>| downstream_stats_in(bytes))
}

/// Completes the identity fetch.
pub fn receive_modem_identity(reply: &Reply) -> (outcome: Result<ModemIdentity, FetchError>)
    ensures
        outcome_model(outcome) == identity_received(reply@),
        outcome matches Ok(identity) ==> identity@.wf(),
{
    match reply.body() {
        Ok(bytes) => match decode_modem_identity(bytes.as_slice()) {
            Ok(record) => Ok(record),
            Err(e) => Err(FetchError::Schema(e)),
        },
        Err(e) => Err(FetchError::Network(e)),
    }
}

/// Completes the mapping fetch.
pub fn receive_node_mapping(reply: &Reply) -> (outcome: Result<NodeMapping, FetchError>)
    ensures
        outcome_model(outcome) == mapping_received(reply@),
        outcome matches Ok(mapping) ==> mapping@.wf(),
{
    match reply.body() {
        Ok(bytes) => match decode_node_mapping(bytes.as_slice()) {
            Ok(record) => Ok(record),
            Err(e) => Err(FetchError::Schema(e)),
        },
        Err(e) => Err(FetchError::Network(e)),
    }
}

/// Completes the upstream statistics fetch.
pub fn receive_upstream_stats(reply: &Reply) -> (outcome: Result<UpstreamStats, FetchError>)
    ensures
        outcome_model(outcome) == upstream_received(reply@),
        outcome matches Ok(stats) ==> stats@.wf(),
{
    match reply.body() {
        Ok(bytes) => match decode_upstream_stats(bytes.as_slice()) {
            Ok(record) => Ok(record),
            Err(e) => Err(FetchError::Schema(e)),
        },
        Err(e) => Err(FetchError::Network(e)),
    }
}

/// Completes the downstream statistics fetch.
pub fn receive_downstream_stats(reply: &Reply) -> (outcome: Result<DownstreamStats, FetchError>)
    ensures
        outcome_model(outcome) == downstream_received(reply@),
{
    match reply.body() {
        Ok(bytes) => match decode_downstream_stats(bytes.as_slice()) {
            Ok(record) => Ok(record),
            Err(e) => Err(FetchError::Schema(e)),
        },
        Err(e) => Err(FetchError::Network(e)),
    }
}

} // verus!
