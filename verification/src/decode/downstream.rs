//! The downstream statistics response: summary figures, and beside them a
//! list of channel records under `DownStreams`.

use crate::decode::fields::{
    count_at, count_field, each, items_of, lemma_each_fails, read_items, read_required,
    reading_at, reading_field, required, text_at, text_field,
};
use crate::decode::outcome_model;
use crate::error::SchemaError;
use crate::json::{document_of, items_model, parse, Json, JsonModel};
use crate::records::{
    downstream_channels_model, DownstreamChannel, DownstreamChannelModel, DownstreamStats,
    DownstreamStatsModel,
};
use vstd::prelude::*;

verus! {

/// The channel record that one item of the channel list holds.
pub open spec fn downstream_channel_of(item: JsonModel) -> Result<DownstreamChannelModel, SchemaError> {
    let frequency = text_field(item, "Channel Frequency"@);
    let uncorrectable = text_field(item, "Uncorr"@);
    let corrected = text_field(item, "zCorr"@);
    let snr = text_field(item, "DownStream SNR"@);
    let power = text_field(item, "DownStream Pwr"@);
    let good_fraction = text_field(item, "Good x10000"@);
    if frequency is Err {
        Err(frequency->Err_0)
    } else if uncorrectable is Err {
        Err(uncorrectable->Err_0)
    } else if corrected is Err {
        Err(corrected->Err_0)
    } else if snr is Err {
        Err(snr->Err_0)
    } else if power is Err {
        Err(power->Err_0)
    } else if good_fraction is Err {
        Err(good_fraction->Err_0)
    } else {
        Ok(
            DownstreamChannelModel {
                frequency: frequency->Ok_0,
                uncorrectable: uncorrectable->Ok_0,
                corrected: corrected->Ok_0,
                snr: snr->Ok_0,
                power: power->Ok_0,
                good_fraction: good_fraction->Ok_0,
            },
        )
    }
}

/// Reads one channel record.
pub fn downstream_channel_from_json(item: &Json) -> (outcome: Result<DownstreamChannel, SchemaError>)
    ensures
        outcome_model(outcome) == downstream_channel_of(item@),
{
    let frequency = text_at(item, "Channel Frequency")?;
    let uncorrectable = text_at(item, "Uncorr")?;
    let corrected = text_at(item, "zCorr")?;
    let snr = text_at(item, "DownStream SNR")?;
    let power = text_at(item, "DownStream Pwr")?;
    let good_fraction = text_at(item, "Good x10000")?;
    Ok(
        DownstreamChannel {
            frequency,
            uncorrectable,
            corrected,
            snr,
            power,
            good_fraction,
        },
    )
}

/// A value read as a list of channel records.
pub open spec fn channels_of(value: JsonModel) -> Result<
    Seq<DownstreamChannelModel>,
    SchemaError,
> {
    match items_of(value) {
        Ok(items) => each(items, |item: JsonModel| downstream_channel_of(item)),
        Err(e) => Err(e),
    }
}

/// A required field that holds a list of channel records.
pub open spec fn channels_field(doc: JsonModel, key: Seq<char>) -> Result<
    Seq<DownstreamChannelModel>,
    SchemaError,
> {
    match required(doc, key) {
        Ok(value) => channels_of(value),
        Err(e) => Err(e),
    }
}

/// Reads a required field that holds a list of channel records.
fn channels_at(doc: &Json, key: &str) -> (outcome: Result<Vec<DownstreamChannel>, SchemaError>)
    ensures
        match outcome {
            Ok(channels) => channels_field(doc@, key@) == Ok::<
                Seq<DownstreamChannelModel>,
                SchemaError,
            >(downstream_channels_model(channels@)),
            Err(e) => channels_field(doc@, key@) == Err::<
                Seq<DownstreamChannelModel>,
                SchemaError,
            >(e),
        },
{
    let items = read_items(read_required(doc, key)?)?;
    let ghost all = items_model(items@);
    let ghost read = |item: JsonModel| downstream_channel_of(item);
    let mut channels: Vec<DownstreamChannel> = Vec::new();
    let mut i: usize = 0;
    assert(downstream_channels_model(channels@) == Seq::<DownstreamChannelModel>::empty());
    while i < items.len()
        invariant
            i <= items.len(),
            all == items_model(items@),
            read == |item: JsonModel| downstream_channel_of(item),
            channels_field(doc@, key@) == each(all, read),
            each(all.take(i as int), read) == Ok::<Seq<DownstreamChannelModel>, SchemaError>(
                downstream_channels_model(channels@),
            ),
        decreases items.len() - i,
    {
        assert(all.take(i + 1).drop_last() == all.take(i as int));
        match downstream_channel_from_json(&items[i]) {
            Ok(channel) => {
                let ghost before = downstream_channels_model(channels@);
                channels.push(channel);
                assert(downstream_channels_model(channels@) == before.push(channel@));
            },
            Err(e) => {
                proof {
                    lemma_each_fails(all, read, i as int);
                }
                return Err(e);
            },
        }
        i += 1;
    }
    assert(all.take(i as int) == all);
    Ok(channels)
}

/// The downstream statistics that a document holds.
pub open spec fn downstream_stats_of(doc: JsonModel) -> Result<DownstreamStatsModel, SchemaError> {
    let count = count_field(doc, "dscount"@);
    let standard_deviation = text_field(doc, "Standard_Deviation"@);
    let variance = text_field(doc, "Variance"@);
    let qam_count = count_field(doc, "QAMcount"@);
    let average_snr = reading_field(doc, "avgSNR"@);
    let average_power = reading_field(doc, "avgPwr"@);
    let channels = channels_field(doc, "DownStreams"@);
    if count is Err {
        Err(count->Err_0)
    } else if standard_deviation is Err {
        Err(standard_deviation->Err_0)
    } else if variance is Err {
        Err(variance->Err_0)
    } else if qam_count is Err {
        Err(qam_count->Err_0)
    } else if average_snr is Err {
        Err(average_snr->Err_0)
    } else if average_power is Err {
        Err(average_power->Err_0)
    } else if channels is Err {
        Err(channels->Err_0)
    } else {
        Ok(
            DownstreamStatsModel {
                count: count->Ok_0,
                standard_deviation: standard_deviation->Ok_0,
                variance: variance->Ok_0,
                qam_count: qam_count->Ok_0,
                average_snr: average_snr->Ok_0,
                average_power: average_power->Ok_0,
                channels: channels->Ok_0,
            },
        )
    }
}

/// Reads the downstream statistics out of a parsed document.
pub fn downstream_stats_from_json(doc: &Json) -> (outcome: Result<DownstreamStats, SchemaError>)
    ensures
        outcome_model(outcome) == downstream_stats_of(doc@),
{
    let count = count_at(doc, "dscount")?;
    let standard_deviation = text_at(doc, "Standard_Deviation")?;
    let variance = text_at(doc, "Variance")?;
    let qam_count = count_at(doc, "QAMcount")?;
    let average_snr = reading_at(doc, "avgSNR")?;
    let average_power = reading_at(doc, "avgPwr")?;
    let channels = channels_at(doc, "DownStreams")?;
    Ok(
        DownstreamStats {
            count,
            standard_deviation,
            variance,
            qam_count,
            average_snr,
            average_power,
            channels,
        },
    )
}

/// What a response body decodes to: `Syntax` where it is not one JSON
/// document, else what [`downstream_stats_of`] says of the document.
pub open spec fn downstream_stats_in(bytes: Seq<u8>) -> Result<DownstreamStatsModel, SchemaError> {
    match document_of(bytes) {
        Some(doc) => downstream_stats_of(doc),
        None => Err(SchemaError::Syntax),
    }
}

/// Decodes the body of a downstream statistics response.
///
/// The outcome is that of [`downstream_stats_in`].
pub fn decode_downstream_stats(bytes: &[u8]) -> (outcome: Result<DownstreamStats, SchemaError>)
    ensures
        outcome_model(outcome) == downstream_stats_in(bytes@),
{
    let doc = parse(bytes)?;
    downstream_stats_from_json(&doc)
}

} // verus!
