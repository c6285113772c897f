//! The packet-loss figure derived from the upstream counters.

use crate::records::{upstream_channels_model, UpstreamChannel, UpstreamChannelModel};
use vstd::prelude::*;

verus! {

/// The upstream packet loss: uncorrectable over good, summed over all
/// channels. It is kept as the two sums, so that no precision is lost and a
/// reading without any good packet stays apart from a loss of zero.
#[derive(Clone, Copy, Debug, PartialEq, Eq)]
pub enum PacketLoss {
    /// No good packet was counted: the ratio has no value.
    Undefined,
    /// `uncorrectable / good`, with `good > 0`.
    Ratio { uncorrectable: u128, good: u128 },
}

/// Model of a [`PacketLoss`].
pub enum PacketLossModel {
    Undefined,
    Ratio { uncorrectable: nat, good: nat },
}

impl View for PacketLoss {
    type V = PacketLossModel;

    open spec fn view(&self) -> PacketLossModel {
        match self {
            PacketLoss::Undefined => PacketLossModel::Undefined,
            PacketLoss::Ratio { uncorrectable, good } => PacketLossModel::Ratio {
                uncorrectable: *uncorrectable as nat,
                good: *good as nat,
            },
        }
    }
}

/// The good packets of all channels together.
pub open spec fn total_good(channels: Seq<UpstreamChannelModel>) -> nat
    decreases channels.len(),
{
    if channels.len() == 0 {
        0
    } else {
        total_good(channels.drop_last()) + channels.last().good as nat
    }
}

/// The uncorrectable packets of all channels together.
pub open spec fn total_uncorrectable(channels: Seq<UpstreamChannelModel>) -> nat
    decreases channels.len(),
{
    if channels.len() == 0 {
        0
    } else {
        total_uncorrectable(channels.drop_last()) + channels.last().uncorrectable as nat
    }
}

/// The packet loss of a run of channels.
pub open spec fn packet_loss_of(channels: Seq<UpstreamChannelModel>) -> PacketLossModel {
    if total_good(channels) == 0 {
        PacketLossModel::Undefined
    } else {
        PacketLossModel::Ratio {
            uncorrectable: total_uncorrectable(channels),
            good: total_good(channels),
        }
    }
}

/// Computes the packet loss over all upstream channels.
///
/// The result is `Undefined` exactly where the channels count no good packet
/// at all, which includes the case of no channel. Nothing overflows: the
/// sums are exact for any number of channels.
pub fn compute_packet_loss(channels: &[UpstreamChannel]) -> (loss: PacketLoss)
    ensures
        loss@ == packet_loss_of(upstream_channels_model(channels@)),
{
    let ghost all = upstream_channels_model(channels@);
    let mut good: u128 = 0;
    let mut uncorrectable: u128 = 0;
    let mut i: usize = 0;
    while i < channels.len()
        invariant
            i <= channels.len(),
            all == upstream_channels_model(channels@),
            good == total_good(all.take(i as int)),
            uncorrectable == total_uncorrectable(all.take(i as int)),
            good <= i * 0xffff_ffff,
            uncorrectable <= i * 0xffff_ffff,
        decreases channels.len() - i,
    {
        assert(all.take(i + 1).drop_last() == all.take(i as int));
        good = good + channels[i].good as u128;
        uncorrectable = uncorrectable + channels[i].uncorrectable as u128;
        i += 1;
    }
    assert(all.take(i as int) == all);
    if good == 0 {
        PacketLoss::Undefined
    } else {
        PacketLoss::Ratio { uncorrectable, good }
    }
}

} // verus!
