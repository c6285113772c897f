//! The order of the four stages.
//!
//! The pipeline is a state machine. It is handed what arrived for a request
//! and answers with its next state and the requests to send next; sending
//! them is the caller's part. Identity comes first, mapping second. The two
//! statistics requests are then issued together, and the pipeline waits for
//! both, in whichever order they arrive, before it settles.

use crate::decode::outcome_model;
use crate::error::{FetchError, Stage};
use crate::fetch::{
    downstream_received, identity_received, mapping_received, receive_downstream_stats,
    receive_modem_identity, receive_node_mapping, receive_upstream_stats, upstream_received,
};
use crate::ipv4::Ipv4;
use crate::metric::{compute_packet_loss, packet_loss_of, PacketLoss, PacketLossModel};
use crate::records::{
    is_hex_digit, lemma_stripped_hardware_id, DownstreamStats, DownstreamStatsModel, ModemIdentity, ModemIdentityModel,
    NodeMapping, NodeMappingModel, UpstreamStats, UpstreamStatsModel,
};
use crate::request::{
    cache_defeater, downstream_request, downstream_request_model, identity_request, identity_request_model,
    mapping_request, mapping_request_model, upstream_request, upstream_request_model, Reply,
    ReplyModel, Request, RequestModel,
};
use crate::text::{decimal, lemma_decimal_is_injective};
use vstd::prelude::*;

verus! {

/// A request that the pipeline wants sent, with the values it depends on.
#[derive(Clone, Debug, PartialEq, Eq)]
pub enum Command {
    FetchIdentity,
    FetchMapping { hardware_id: String },
    FetchUpstream { hardware_id: String, cable_if: String },
    FetchDownstream { modem_ip: Ipv4 },
}

/// Model of a [`Command`].
pub enum CommandModel {
    FetchIdentity,
    FetchMapping { hardware_id: Seq<char> },
    FetchUpstream { hardware_id: Seq<char>, cable_if: Seq<char> },
    FetchDownstream { modem_ip: Ipv4 },
}

impl View for Command {
    type V = CommandModel;

    open spec fn view(&self) -> CommandModel {
        match self {
            Command::FetchIdentity => CommandModel::FetchIdentity,
            Command::FetchMapping { hardware_id } => CommandModel::FetchMapping {
                hardware_id: hardware_id@,
            },
            Command::FetchUpstream { hardware_id, cable_if } => CommandModel::FetchUpstream {
                hardware_id: hardware_id@,
                cable_if: cable_if@,
            },
            Command::FetchDownstream { modem_ip } => CommandModel::FetchDownstream {
                modem_ip: *modem_ip,
            },
        }
    }
}

impl CommandModel {
    /// The stage that the command belongs to.
    pub open spec fn stage(self) -> Stage {
        match self {
            CommandModel::FetchIdentity => Stage::Identity,
            CommandModel::FetchMapping { .. } => Stage::Mapping,
            CommandModel::FetchUpstream { .. } => Stage::Upstream,
            CommandModel::FetchDownstream { .. } => Stage::Downstream,
        }
    }

    /// The request that carries out the command at time `stamp`.
    pub open spec fn request(self, stamp: u64) -> RequestModel {
        match self {
            CommandModel::FetchIdentity => identity_request_model(stamp),
            CommandModel::FetchMapping { hardware_id } => mapping_request_model(
                stamp,
                hardware_id,
            ),
            CommandModel::FetchUpstream { hardware_id, cable_if } => upstream_request_model(
                stamp,
                hardware_id,
                cable_if,
            ),
            CommandModel::FetchDownstream { modem_ip } => downstream_request_model(
                stamp,
                modem_ip,
            ),
        }
    }
}

impl Command {
    /// The stage that the command belongs to.
    pub fn stage(&self) -> (stage: Stage)
        ensures
            stage == self@.stage(),
    {
        match self {
            Command::FetchIdentity => Stage::Identity,
            Command::FetchMapping { .. } => Stage::Mapping,
            Command::FetchUpstream { .. } => Stage::Upstream,
            Command::FetchDownstream { .. } => Stage::Downstream,
        }
    }

    /// Builds the request that carries out the command. `stamp` is the
    /// current Unix time in seconds, read for this request.
    pub fn request(&self, stamp: u64) -> (request: Request)
        ensures
            request@ == self@.request(stamp),
    {
        match self {
            Command::FetchIdentity => identity_request(stamp),
            Command::FetchMapping { hardware_id } => mapping_request(stamp, hardware_id.as_str()),
            Command::FetchUpstream { hardware_id, cable_if } => upstream_request(
                stamp,
                hardware_id.as_str(),
                cable_if.as_str(),
            ),
            Command::FetchDownstream { modem_ip } => downstream_request(stamp, *modem_ip),
        }
    }
}

/// The models of a run of commands.
pub open spec fn commands_model(commands: Seq<Command>) -> Seq<CommandModel> {
    Seq::new(commands.len(), |i: int| commands[i]@)
}

/// What arrived for the request of one stage: the record, or the reason why
/// there is none.
#[derive(Debug, PartialEq, Eq)]
pub enum Arrival {
    Identity(Result<ModemIdentity, FetchError>),
    Mapping(Result<NodeMapping, FetchError>),
    Upstream(Result<UpstreamStats, FetchError>),
    Downstream(Result<DownstreamStats, FetchError>),
}

/// Model of an [`Arrival`].
pub enum ArrivalModel {
    Identity(Result<ModemIdentityModel, FetchError>),
    Mapping(Result<NodeMappingModel, FetchError>),
    Upstream(Result<UpstreamStatsModel, FetchError>),
    Downstream(Result<DownstreamStatsModel, FetchError>),
}

/// The model of a result that may not have arrived yet.
pub open spec fn pending_model<T: View, E>(pending: Option<Result<T, E>>) -> Option<
    Result<T::V, E>,
> {
    match pending {
        Some(result) => Some(outcome_model(result)),
        None => None,
    }
}

impl View for Arrival {
    type V = ArrivalModel;

    open spec fn view(&self) -> ArrivalModel {
        match self {
            Arrival::Identity(result) => ArrivalModel::Identity(outcome_model(*result)),
            Arrival::Mapping(result) => ArrivalModel::Mapping(outcome_model(*result)),
            Arrival::Upstream(result) => ArrivalModel::Upstream(outcome_model(*result)),
            Arrival::Downstream(result) => ArrivalModel::Downstream(outcome_model(*result)),
        }
    }
}

/// How a run of the pipeline ended.
#[derive(Clone, Debug, PartialEq, Eq)]
pub enum Outcome {
    /// Every stage succeeded.
    Complete { loss: PacketLoss, upstream: UpstreamStats, downstream: DownstreamStats },
    /// Everything but the downstream branch succeeded: the packet loss is
    /// there, the downstream statistics are not.
    Degraded { loss: PacketLoss, upstream: UpstreamStats, downstream_error: FetchError },
    /// A stage that the packet loss depends on failed.
    Fatal { stage: Stage, error: FetchError },
}

/// Model of an [`Outcome`].
pub enum OutcomeModel {
    Complete { loss: PacketLossModel, upstream: UpstreamStatsModel, downstream: DownstreamStatsModel },
    Degraded { loss: PacketLossModel, upstream: UpstreamStatsModel, downstream_error: FetchError },
    Fatal { stage: Stage, error: FetchError },
}

impl View for Outcome {
    type V = OutcomeModel;

    open spec fn view(&self) -> OutcomeModel {
        match self {
            Outcome::Complete { loss, upstream, downstream } => OutcomeModel::Complete {
                loss: loss@,
                upstream: upstream@,
                downstream: downstream@,
            },
            Outcome::Degraded { loss, upstream, downstream_error } => OutcomeModel::Degraded {
                loss: loss@,
                upstream: upstream@,
                downstream_error: *downstream_error,
            },
            Outcome::Fatal { stage, error } => OutcomeModel::Fatal { stage: *stage, error: *error },
        }
    }
}

impl OutcomeModel {
    /// The packet loss that the run produced, if it produced one.
    pub open spec fn loss(self) -> Option<PacketLossModel> {
        match self {
            OutcomeModel::Complete { loss, .. } => Some(loss),
            OutcomeModel::Degraded { loss, .. } => Some(loss),
            OutcomeModel::Fatal { .. } => None,
        }
    }

    /// The exit status that the run asks for: zero unless it ended fatally.
    pub open spec fn exit_status(self) -> u8 {
        match self {
            OutcomeModel::Fatal { .. } => 1,
            _ => 0,
        }
    }
}

impl Outcome {
    /// The packet loss that the run produced, if it produced one.
    pub fn loss(&self) -> (loss: Option<PacketLoss>)
        ensures
            pending_loss(loss) == self@.loss(),
    {
        match self {
            Outcome::Complete { loss, .. } => Some(*loss),
            Outcome::Degraded { loss, .. } => Some(*loss),
            Outcome::Fatal { .. } => None,
        }
    }

    /// The exit status that the run asks for: zero unless it ended fatally.
    pub fn exit_status(&self) -> (status: u8)
        ensures
            status == self@.exit_status(),
    {
        match self {
            Outcome::Fatal { .. } => 1,
            _ => 0,
        }
    }
}

/// The model of a packet loss that may not be there.
pub open spec fn pending_loss(loss: Option<PacketLoss>) -> Option<PacketLossModel> {
    match loss {
        Some(loss) => Some(loss@),
        None => None,
    }
}

/// The state of a run.
#[derive(Debug, PartialEq, Eq)]
pub enum Pipeline {
    /// The identity request is out; nothing has arrived.
    Start,
    /// The identity is there; the mapping request is out.
    IdentityFetched { identity: ModemIdentity },
    /// The mapping is there and both statistics requests are out. Each
    /// branch holds what arrived for it, once it did.
    MappingFetched {
        upstream: Option<Result<UpstreamStats, FetchError>>,
        downstream: Option<Result<DownstreamStats, FetchError>>,
    },
    /// The run is over.
    Done(Outcome),
}

/// Model of a [`Pipeline`].
pub enum PipelineModel {
    Start,
    IdentityFetched { identity: ModemIdentityModel },
    MappingFetched {
        upstream: Option<Result<UpstreamStatsModel, FetchError>>,
        downstream: Option<Result<DownstreamStatsModel, FetchError>>,
    },
    Done(OutcomeModel),
}

impl View for Pipeline {
    type V = PipelineModel;

    open spec fn view(&self) -> PipelineModel {
        match self {
            Pipeline::Start => PipelineModel::Start,
            Pipeline::IdentityFetched { identity } => PipelineModel::IdentityFetched {
                identity: identity@,
            },
            Pipeline::MappingFetched { upstream, downstream } => PipelineModel::MappingFetched {
                upstream: pending_model(*upstream),
                downstream: pending_model(*downstream),
            },
            Pipeline::Done(outcome) => PipelineModel::Done(outcome@),
        }
    }
}

/// What the two branches merge into. A failed upstream branch is fatal,
/// whatever the downstream branch brought. A failed downstream branch only
/// degrades the outcome.
pub open spec fn merged(
    upstream: Result<UpstreamStatsModel, FetchError>,
    downstream: Result<DownstreamStatsModel, FetchError>,
) -> OutcomeModel {
    match upstream {
        Ok(stats) => match downstream {
            Ok(down) => OutcomeModel::Complete {
                loss: packet_loss_of(stats.channels),
                upstream: stats,
                downstream: down,
            },
            Err(error) => OutcomeModel::Degraded {
                loss: packet_loss_of(stats.channels),
                upstream: stats,
                downstream_error: error,
            },
        },
        Err(error) => OutcomeModel::Fatal { stage: Stage::Upstream, error },
    }
}

/// The state of the two branches: settled once both have arrived, pending
/// until then.
pub open spec fn settled(
    upstream: Option<Result<UpstreamStatsModel, FetchError>>,
    downstream: Option<Result<DownstreamStatsModel, FetchError>>,
) -> PipelineModel {
    match (upstream, downstream) {
        (Some(up), Some(down)) => PipelineModel::Done(merged(up, down)),
        _ => PipelineModel::MappingFetched { upstream, downstream },
    }
}

/// The next state for an arrival. An arrival that the state does not wait
/// for changes nothing.
pub open spec fn next_state(state: PipelineModel, arrival: ArrivalModel) -> PipelineModel {
    match (state, arrival) {
        (PipelineModel::Start, ArrivalModel::Identity(Ok(identity))) => {
            PipelineModel::IdentityFetched { identity }
        },
        (PipelineModel::Start, ArrivalModel::Identity(Err(error))) => PipelineModel::Done(
            OutcomeModel::Fatal { stage: Stage::Identity, error },
        ),
        (PipelineModel::IdentityFetched { .. }, ArrivalModel::Mapping(Ok(_))) => {
            PipelineModel::MappingFetched { upstream: None, downstream: None }
        },
        (PipelineModel::IdentityFetched { .. }, ArrivalModel::Mapping(Err(error))) => {
            PipelineModel::Done(OutcomeModel::Fatal { stage: Stage::Mapping, error })
        },
        (
            PipelineModel::MappingFetched { upstream: None, downstream },
            ArrivalModel::Upstream(result),
        ) => settled(Some(result), downstream),
        (
            PipelineModel::MappingFetched { upstream, downstream: None },
            ArrivalModel::Downstream(result),
        ) => settled(upstream, Some(result)),
        _ => state,
    }
}

/// The requests to send for an arrival: the mapping request once the
/// identity is there, both statistics requests once the mapping is there,
/// and none otherwise.
pub open spec fn next_commands(state: PipelineModel, arrival: ArrivalModel) -> Seq<CommandModel> {
    match (state, arrival) {
        (PipelineModel::Start, ArrivalModel::Identity(Ok(identity))) => seq![
            CommandModel::FetchMapping { hardware_id: identity.modem },
        ],
        (PipelineModel::IdentityFetched { identity }, ArrivalModel::Mapping(Ok(mapping))) => seq![
            CommandModel::FetchUpstream {
                hardware_id: identity.modem,
                cable_if: mapping.cable_if,
            },
            CommandModel::FetchDownstream { modem_ip: identity.modem_ip },
        ],
        _ => Seq::empty(),
    }
}

/// What arrives for a reply to the request of `stage`.
pub open spec fn arrival_of(stage: Stage, reply: ReplyModel) -> ArrivalModel {
    match stage {
        Stage::Identity => ArrivalModel::Identity(identity_received(reply)),
        Stage::Mapping => ArrivalModel::Mapping(mapping_received(reply)),
        Stage::Upstream => ArrivalModel::Upstream(upstream_received(reply)),
        Stage::Downstream => ArrivalModel::Downstream(downstream_received(reply)),
    }
}

/// Merges the two branches into the outcome of the run.
fn merge(
    upstream: Result<UpstreamStats, FetchError>,
    downstream: Result<DownstreamStats, FetchError>,
) -> (outcome: Outcome)
    ensures
        outcome@ == merged(outcome_model(upstream), outcome_model(downstream)),
{
    match upstream {
        Ok(stats) => {
            let loss = compute_packet_loss(stats.channels.as_slice());
            match downstream {
                Ok(down) => Outcome::Complete { loss, upstream: stats, downstream: down },
                Err(error) => Outcome::Degraded { loss, upstream: stats, downstream_error: error },
            }
        },
        Err(error) => Outcome::Fatal { stage: Stage::Upstream, error },
    }
}

/// Settles the run where both branches have arrived.
fn settle(
    upstream: Option<Result<UpstreamStats, FetchError>>,
    downstream: Option<Result<DownstreamStats, FetchError>>,
) -> (state: Pipeline)
    ensures
        state@ == settled(pending_model(upstream), pending_model(downstream)),
{
    match (upstream, downstream) {
        (Some(up), Some(down)) => Pipeline::Done(merge(up, down)),
        (upstream, downstream) => Pipeline::MappingFetched { upstream, downstream },
    }
}

impl Pipeline {
    /// Begins a run: the state to start from, and the identity request as
    /// the one thing to send.
    pub fn start() -> (begun: (Pipeline, Command))
        ensures
            begun.0@ == PipelineModel::Start,
            begun.1@ == CommandModel::FetchIdentity,
    {
        (Pipeline::Start, Command::FetchIdentity)
    }

    /// Takes in what arrived for one request, already decoded, and says how
    /// the run goes on: the next state, and the requests to send now.
    ///
    /// A failed identity or mapping ends the run at once and asks for no
    /// further request. The two statistics requests are asked for together,
    /// in one step. The run settles when both have arrived.
    pub fn advance(self, arrival: Arrival) -> (next: (Pipeline, Vec<Command>))
        ensures
            next.0@ == next_state(self@, arrival@),
            commands_model(next.1@) == next_commands(self@, arrival@),
            next.1@.len() == next_commands(self@, arrival@).len(),
    {
        let mut commands: Vec<Command> = Vec::new();
        assert(commands_model(commands@) == Seq::<CommandModel>::empty());
        match (self, arrival) {
            (Pipeline::Start, Arrival::Identity(Ok(identity))) => {
                commands.push(Command::FetchMapping { hardware_id: identity.modem.clone() });
                assert(commands_model(commands@) == seq![
                    CommandModel::FetchMapping { hardware_id: identity@.modem },
                ]);
                (Pipeline::IdentityFetched { identity }, commands)
            },
            (Pipeline::Start, Arrival::Identity(Err(error))) => (
                Pipeline::Done(Outcome::Fatal { stage: Stage::Identity, error }),
                commands,
            ),
            (Pipeline::IdentityFetched { identity }, Arrival::Mapping(Ok(mapping))) => {
                commands.push(
                    Command::FetchUpstream {
                        hardware_id: identity.modem,
                        cable_if: mapping.cable_if,
                    },
                );
                commands.push(Command::FetchDownstream { modem_ip: identity.modem_ip });
                assert(commands_model(commands@) == seq![
                    CommandModel::FetchUpstream {
                        hardware_id: identity@.modem,
                        cable_if: mapping@.cable_if,
                    },
                    CommandModel::FetchDownstream { modem_ip: identity@.modem_ip },
                ]);
                (Pipeline::MappingFetched { upstream: None, downstream: None }, commands)
            },
            (Pipeline::IdentityFetched { .. }, Arrival::Mapping(Err(error))) => (
                Pipeline::Done(Outcome::Fatal { stage: Stage::Mapping, error }),
                commands,
            ),
            (
                Pipeline::MappingFetched { upstream: None, downstream },
                Arrival::Upstream(result),
            ) => (settle(Some(result), downstream), commands),
            (
                Pipeline::MappingFetched { upstream, downstream: None },
                Arrival::Downstream(result),
            ) => (settle(upstream, Some(result)), commands),
            (state, _) => (state, commands),
        }
    }

    /// Takes in the reply to the request of `stage` as it came back,
    /// decodes it, and advances.
    pub fn deliver(self, stage: Stage, reply: &Reply) -> (next: (Pipeline, Vec<Command>))
        ensures
            next.0@ == next_state(self@, arrival_of(stage, reply@)),
            commands_model(next.1@) == next_commands(self@, arrival_of(stage, reply@)),
            next.1@.len() == next_commands(self@, arrival_of(stage, reply@)).len(),
    {
        let arrival = match stage {
            Stage::Identity => Arrival::Identity(receive_modem_identity(reply)),
            Stage::Mapping => Arrival::Mapping(receive_node_mapping(reply)),
            Stage::Upstream => Arrival::Upstream(receive_upstream_stats(reply)),
            Stage::Downstream => Arrival::Downstream(receive_downstream_stats(reply)),
        };
        self.advance(arrival)
    }

    /// How the run ended, once it has.
    pub fn outcome(&self) -> (outcome: Option<&Outcome>)
        ensures
            match outcome {
                Some(o) => self@ == PipelineModel::Done(o@),
                None => !(self@ is Done),
            },
    {
        match self {
            Pipeline::Done(outcome) => Some(outcome),
            _ => None,
        }
    }
}

/// The statistics requests wait for the mapping: whatever the state and
/// whatever arrives, an upstream or downstream request is asked for only on
/// the arrival of a good mapping after a good identity, and then both are,
/// in this order, in one step.
pub proof fn lemma_statistics_requests_need_the_mapping(
    state: PipelineModel,
    arrival: ArrivalModel,
    at: int,
)
    requires
        0 <= at < next_commands(state, arrival).len(),
        next_commands(state, arrival)[at].stage() == Stage::Upstream || next_commands(
            state,
            arrival,
        )[at].stage() == Stage::Downstream,
    ensures
        state is IdentityFetched,
        arrival matches ArrivalModel::Mapping(Ok(_)),
        next_commands(state, arrival).len() == 2,
        next_commands(state, arrival)[0].stage() == Stage::Upstream,
        next_commands(state, arrival)[1].stage() == Stage::Downstream,
        next_state(state, arrival) == (PipelineModel::MappingFetched {
            upstream: None,
            downstream: None,
        }),
{
}

/// A failed identity or mapping ends the run at once, and asks for nothing
/// more.
pub proof fn lemma_early_failure_is_fatal(state: PipelineModel, error: FetchError)
    ensures
        state is Start ==> next_state(state, ArrivalModel::Identity(Err(error))) == PipelineModel::Done(
            OutcomeModel::Fatal { stage: Stage::Identity, error },
        ),
        state is IdentityFetched ==> next_state(state, ArrivalModel::Mapping(Err(error)))
            == PipelineModel::Done(OutcomeModel::Fatal { stage: Stage::Mapping, error }),
        next_commands(state, ArrivalModel::Identity(Err(error))).len() == 0,
        next_commands(state, ArrivalModel::Mapping(Err(error))).len() == 0,
{
}

/// A run ends fatally only on the failure of the identity, the mapping or
/// the upstream branch, and with the error of that failure. The downstream
/// branch never ends a run fatally.
pub proof fn lemma_fatal_has_its_cause(state: PipelineModel, arrival: ArrivalModel)
    requires
        !(state is Done),
        next_state(state, arrival) matches PipelineModel::Done(OutcomeModel::Fatal { .. }),
    ensures
        ({
            let stage = next_state(state, arrival)->Done_0->Fatal_stage;
            let error = next_state(state, arrival)->Done_0->Fatal_error;
            match stage {
                Stage::Identity => state is Start && arrival == ArrivalModel::Identity(
                    Err(error),
                ),
                Stage::Mapping => state is IdentityFetched && arrival == ArrivalModel::Mapping(
                    Err(error),
                ),
                Stage::Upstream => state is MappingFetched && (arrival
                    == ArrivalModel::Upstream(Err(error)) || state->MappingFetched_upstream
                    == Some(Err::<UpstreamStatsModel, FetchError>(error))),
                Stage::Downstream => false,
            }
        }),
{
}

/// A run ends degraded only where the upstream branch brought its
/// statistics and the downstream branch failed, and it then holds the
/// packet loss of those statistics and the error of that failure.
pub proof fn lemma_degraded_has_its_cause(state: PipelineModel, arrival: ArrivalModel)
    requires
        !(state is Done),
        next_state(state, arrival) matches PipelineModel::Done(OutcomeModel::Degraded { .. }),
    ensures
        ({
            let outcome = next_state(state, arrival)->Done_0;
            let stats = outcome->Degraded_upstream;
            let error = outcome->Degraded_downstream_error;
            &&& state is MappingFetched
            &&& outcome->Degraded_loss == packet_loss_of(stats.channels)
            &&& (arrival == ArrivalModel::Upstream(Ok(stats)) && state->MappingFetched_downstream
                == Some(Err::<DownstreamStatsModel, FetchError>(error))) || (arrival
                == ArrivalModel::Downstream(Err(error)) && state->MappingFetched_upstream == Some(
                Ok::<UpstreamStatsModel, FetchError>(stats),
            ))
        }),
{
}

/// The two branches merge the same way in whichever order they arrive, and
/// the run is not over before both have.
pub proof fn lemma_branch_order_does_not_matter(
    upstream: Result<UpstreamStatsModel, FetchError>,
    downstream: Result<DownstreamStatsModel, FetchError>,
)
    ensures
        ({
            let pending = PipelineModel::MappingFetched { upstream: None, downstream: None };
            let up_first = next_state(pending, ArrivalModel::Upstream(upstream));
            let down_first = next_state(pending, ArrivalModel::Downstream(downstream));
            &&& !(up_first is Done)
            &&& !(down_first is Done)
            &&& next_state(up_first, ArrivalModel::Downstream(downstream)) == PipelineModel::Done(
                merged(upstream, downstream),
            )
            &&& next_state(down_first, ArrivalModel::Upstream(upstream)) == PipelineModel::Done(
                merged(upstream, downstream),
            )
        }),
{
}

/// A run that is over stays as it is, and asks for nothing.
pub proof fn lemma_done_is_final(outcome: OutcomeModel, arrival: ArrivalModel)
    ensures
        next_state(PipelineModel::Done(outcome), arrival) == PipelineModel::Done(outcome),
        next_commands(PipelineModel::Done(outcome), arrival).len() == 0,
{
}

/// Every outcome with a packet loss exits with status zero, and every
/// outcome without one does not.
pub proof fn lemma_exit_status_tells_the_loss(outcome: OutcomeModel)
    ensures
        outcome.exit_status() == 0 <==> outcome.loss() is Some,
        outcome.exit_status() != 0 <==> outcome is Fatal,
{
}

/// Every request defeats caches: whatever the command, the first parameter
/// of its request is `_` with the time stamp as a decimal numeral, so that
/// requests made at different times differ.
pub proof fn lemma_every_request_defeats_caches(command: CommandModel, stamp: u64, later: u64)
    ensures
        command.request(stamp).query.len() > 0,
        command.request(stamp).query[0] == cache_defeater(stamp),
        stamp != later ==> command.request(stamp).query[0] != command.request(later).query[0],
{
    if stamp != later && decimal(stamp as nat) == decimal(later as nat) {
        lemma_decimal_is_injective(stamp as nat, later as nat);
    }
}

/// What the pipeline sends on is fit to be sent: with a well-formed
/// identity, the mapping request carries a run of hex digits without colons,
/// and with a well-formed mapping, the upstream request names a cable
/// interface.
pub proof fn lemma_requests_carry_usable_values(
    identity: ModemIdentityModel,
    mapping: NodeMappingModel,
    stamp: u64,
)
    requires
        identity.wf(),
        mapping.wf(),
    ensures
        ({
            let asked = next_commands(PipelineModel::Start, ArrivalModel::Identity(Ok(identity)));
            let mac = asked[0].request(stamp).query[1].1;
            &&& asked.len() == 1
            &&& asked[0].request(stamp).query[1].0 == "mac"@
            &&& mac.len() > 0
            &&& forall|i: int| 0 <= i < mac.len() ==> is_hex_digit(#[trigger] mac[i])
        }),
        ({
            let asked = next_commands(
                PipelineModel::IdentityFetched { identity },
                ArrivalModel::Mapping(Ok(mapping)),
            );
            &&& asked[0].request(stamp).query[2].0 == "INT"@
            &&& asked[0].request(stamp).query[2].1.len() > 0
        }),
{
    lemma_stripped_hardware_id(identity.modem);
}

} // verus!
