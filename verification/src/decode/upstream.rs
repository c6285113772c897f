//! The upstream statistics response: a list of channel records under
//! `upstreamData`, a fixed set of summary fields, and whatever else the
//! modem chose to send, which is kept as it is.

use crate::decode::fields::{
    count_at, count_field, counts_at, counts_field, each, items_of, lemma_each_fails, read_items,
    read_required, reading_at, reading_field, required, text_at, text_field, texts_at, texts_field,
};
use crate::decode::outcome_model;
use crate::error::SchemaError;
use crate::json::{
    document_of, items_model, lemma_object_view, lookup, members_model, names_are_distinct, parse,
    Json, JsonModel, Member,
};
use crate::records::{
    texts_model, upstream_channels_model, PortSpec, UpstreamChannel, UpstreamChannelModel,
    UpstreamStats, UpstreamStatsModel,
};
use vstd::prelude::*;

verus! {

/// The channel record that one item of the channel list holds.
pub open spec fn upstream_channel_of(item: JsonModel) -> Result<UpstreamChannelModel, SchemaError> {
    let uncorrectable = count_field(item, "yUncorr"@);
    let good = count_field(item, "xGood"@);
    let correctable = count_field(item, "zCorr"@);
    let snr = text_field(item, "SNR"@);
    let frequency = text_field(item, "Channel Frequency"@);
    let power = text_field(item, "Upstream Pwr"@);
    let width = text_field(item, "Channel Width"@);
    if uncorrectable is Err {
        Err(uncorrectable->Err_0)
    } else if good is Err {
        Err(good->Err_0)
    } else if correctable is Err {
        Err(correctable->Err_0)
    } else if snr is Err {
        Err(snr->Err_0)
    } else if frequency is Err {
        Err(frequency->Err_0)
    } else if power is Err {
        Err(power->Err_0)
    } else if width is Err {
        Err(width->Err_0)
    } else {
        Ok(
            UpstreamChannelModel {
                uncorrectable: uncorrectable->Ok_0,
                good: good->Ok_0,
                correctable: correctable->Ok_0,
                snr: snr->Ok_0,
                frequency: frequency->Ok_0,
                power: power->Ok_0,
                width: width->Ok_0,
            },
        )
    }
}

/// Reads one channel record.
pub fn upstream_channel_from_json(item: &Json) -> (outcome: Result<UpstreamChannel, SchemaError>)
    ensures
        outcome_model(outcome) == upstream_channel_of(item@),
{
    let uncorrectable = count_at(item, "yUncorr")?;
    let good = count_at(item, "xGood")?;
    let correctable = count_at(item, "zCorr")?;
    let snr = text_at(item, "SNR")?;
    let frequency = text_at(item, "Channel Frequency")?;
    let power = text_at(item, "Upstream Pwr")?;
    let width = text_at(item, "Channel Width")?;
    Ok(
        UpstreamChannel {
            uncorrectable,
            good,
            correctable,
            snr,
            frequency,
            power,
            width,
        },
    )
}

/// A value read as a list of channel records.
pub open spec fn channels_of(value: JsonModel) -> Result<Seq<UpstreamChannelModel>, SchemaError> {
    match items_of(value) {
        Ok(items) => each(items, |item: JsonModel| upstream_channel_of(item)),
        Err(e) => Err(e),
    }
}

/// A required field that holds a list of channel records.
pub open spec fn channels_field(doc: JsonModel, key: Seq<char>) -> Result<
    Seq<UpstreamChannelModel>,
    SchemaError,
> {
    match required(doc, key) {
        Ok(value) => channels_of(value),
        Err(e) => Err(e),
    }
}

/// Reads a required field that holds a list of channel records.
fn channels_at(doc: &Json, key: &str) -> (outcome: Result<Vec<UpstreamChannel>, SchemaError>)
    ensures
        match outcome {
            Ok(channels) => channels_field(doc@, key@) == Ok::<
                Seq<UpstreamChannelModel>,
                SchemaError,
            >(upstream_channels_model(channels@)),
            Err(e) => channels_field(doc@, key@) == Err::<Seq<UpstreamChannelModel>, SchemaError>(
                e,
            ),
        },
{
    let items = read_items(read_required(doc, key)?)?;
    let ghost all = items_model(items@);
    let ghost read = |item: JsonModel| upstream_channel_of(item);
    let mut channels: Vec<UpstreamChannel> = Vec::new();
    let mut i: usize = 0;
    assert(upstream_channels_model(channels@) == Seq::<UpstreamChannelModel>::empty());
    while i < items.len()
        invariant
            i <= items.len(),
            all == items_model(items@),
            read == |item: JsonModel| upstream_channel_of(item),
            channels_field(doc@, key@) == each(all, read),
            each(all.take(i as int), read) == Ok::<Seq<UpstreamChannelModel>, SchemaError>(
                upstream_channels_model(channels@),
            ),
        decreases items.len() - i,
    {
        assert(all.take(i + 1).drop_last() == all.take(i as int));
        match upstream_channel_from_json(&items[i]) {
            Ok(channel) => {
                let ghost before = upstream_channels_model(channels@);
                channels.push(channel);
                assert(upstream_channels_model(channels@) == before.push(channel@));
            },
            Err(e) => {
                proof {
                    lemma_each_fails(all, read, i as int);
                }
                return Err(e);
            },
        }
        i += 1;
    }
    assert(all.take(i as int) == all);
    Ok(channels)
}

/// The DOCSIS mode inside a required `portSpec` object.
pub open spec fn docsis_mode_field(doc: JsonModel, key: Seq<char>) -> Result<
    Seq<char>,
    SchemaError,
> {
    match required(doc, key) {
        Ok(inner) => text_field(inner, "docsisMode"@),
        Err(e) => Err(e),
    }
}

/// Reads the DOCSIS mode inside a required `portSpec` object.
fn docsis_mode_at(doc: &Json, key: &str) -> (outcome: Result<String, SchemaError>)
    ensures
        outcome_model(outcome) == docsis_mode_field(doc@, key@),
{
    text_at(read_required(doc, key)?, "docsisMode")
}

/// The names of the top-level fields that the upstream statistics model.
pub open spec fn upstream_field_names() -> Seq<Seq<char>> {
    seq![
        "upstreamData"@,
        "DOCS_IF_MIB_docsIf3UsChSetChList"@,
        "DOCS_IF_MIB_docsIfCmtsCmPtr"@,
        "CM_Estimated_CNIR"@,
        "CMTS_Upstream_Idx"@,
        "CM_OFFset_Power"@,
        "tcsIndex"@,
        "portSpec"@,
        "UpstreamInts"@,
        "avgReturnPwr"@,
    ]
}

/// The members of an object. Anything else has none.
pub open spec fn members_of(doc: JsonModel) -> Seq<(Seq<char>, JsonModel)> {
    match doc {
        JsonModel::Object(members) => members,
        _ => Seq::empty(),
    }
}

/// The members whose name is not among `names`, in their order.
pub open spec fn unlisted(members: Seq<(Seq<char>, JsonModel)>, names: Seq<Seq<char>>) -> Seq<
    (Seq<char>, JsonModel),
>
    decreases members.len(),
{
    if members.len() == 0 {
        Seq::empty()
    } else if names.contains(members[0].0) {
        unlisted(members.drop_first(), names)
    } else {
        seq![members[0]] + unlisted(members.drop_first(), names)
    }
}

/// Among the members whose name is not listed, a name that is not listed
/// finds what it finds among all members.
pub proof fn lemma_unlisted_lookup(
    members: Seq<(Seq<char>, JsonModel)>,
    names: Seq<Seq<char>>,
    key: Seq<char>,
)
    requires
        !names.contains(key),
    ensures
        lookup(unlisted(members, names), key) == lookup(members, key),
    decreases members.len(),
{
    if members.len() > 0 {
        lemma_unlisted_lookup(members.drop_first(), names, key);
        if !names.contains(members[0].0) {
            let kept = seq![members[0]] + unlisted(members.drop_first(), names);
            assert(kept[0] == members[0]);
            assert(kept.drop_first() == unlisted(members.drop_first(), names));
        }
    }
}

/// What is left of the members is a part of them: each of its members is
/// one of them, and bears a name that is not listed.
proof fn lemma_unlisted_is_a_part(
    members: Seq<(Seq<char>, JsonModel)>,
    names: Seq<Seq<char>>,
    at: int,
)
    requires
        0 <= at < unlisted(members, names).len(),
    ensures
        members.contains(unlisted(members, names)[at]),
        !names.contains(unlisted(members, names)[at].0),
    decreases members.len(),
{
    let rest = members.drop_first();
    let kept = unlisted(rest, names);
    if names.contains(members[0].0) {
        lemma_unlisted_is_a_part(rest, names, at);
        let k = choose|k: int| 0 <= k < rest.len() && rest[k] == kept[at];
        assert(members[k + 1] == kept[at]);
    } else if at == 0 {
        assert(members[0] == unlisted(members, names)[0]);
    } else {
        lemma_unlisted_is_a_part(rest, names, at - 1);
        let k = choose|k: int| 0 <= k < rest.len() && rest[k] == kept[at - 1];
        assert(members[k + 1] == unlisted(members, names)[at]);
    }
}

/// What is left of the members is a mapping beside the listed names: it
/// holds no listed name, and where the members held no name twice, it holds
/// none twice either.
pub proof fn lemma_unlisted_is_a_mapping(
    members: Seq<(Seq<char>, JsonModel)>,
    names: Seq<Seq<char>>,
)
    ensures
        forall|i: int|
            0 <= i < unlisted(members, names).len() ==> !names.contains(
                (#[trigger] unlisted(members, names)[i]).0,
            ),
        names_are_distinct(members) ==> names_are_distinct(unlisted(members, names)),
    decreases members.len(),
{
    let left = unlisted(members, names);
    assert forall|i: int| 0 <= i < left.len() implies !names.contains((#[trigger] left[i]).0) by {
        lemma_unlisted_is_a_part(members, names, i);
    }
    if members.len() > 0 && names_are_distinct(members) {
        let rest = members.drop_first();
        let kept = unlisted(rest, names);
        assert forall|i: int, j: int| 0 <= i < j < rest.len() implies (#[trigger] rest[i]).0 != (
        #[trigger] rest[j]).0 by {
            assert(rest[i] == members[i + 1]);
            assert(rest[j] == members[j + 1]);
        }
        lemma_unlisted_is_a_mapping(rest, names);
        if !names.contains(members[0].0) {
            assert forall|i: int, j: int| 0 <= i < j < left.len() implies (#[trigger] left[i]).0 != (
            #[trigger] left[j]).0 by {
                assert(left[j] == kept[j - 1]);
                if i == 0 {
                    lemma_unlisted_is_a_part(rest, names, j - 1);
                    let k = choose|k: int| 0 <= k < rest.len() && rest[k] == kept[j - 1];
                    assert(members[k + 1] == rest[k]);
                    assert(left[0] == members[0]);
                } else {
                    assert(left[i] == kept[i - 1]);
                }
            }
        }
    }
}

/// The modelled names, for comparing.
fn known_names() -> (names: Vec<String>)
    ensures
        texts_model(names@) == upstream_field_names(),
{
    let mut names: Vec<String> = Vec::new();
    names.push("upstreamData".to_owned());
    names.push("DOCS_IF_MIB_docsIf3UsChSetChList".to_owned());
    names.push("DOCS_IF_MIB_docsIfCmtsCmPtr".to_owned());
    names.push("CM_Estimated_CNIR".to_owned());
    names.push("CMTS_Upstream_Idx".to_owned());
    names.push("CM_OFFset_Power".to_owned());
    names.push("tcsIndex".to_owned());
    names.push("portSpec".to_owned());
    names.push("UpstreamInts".to_owned());
    names.push("avgReturnPwr".to_owned());
    assert(texts_model(names@) =~= upstream_field_names());
    names
}

/// Whether a name is among `names`.
fn is_listed(name: &String, names: &Vec<String>) -> (listed: bool)
    ensures
        listed == texts_model(names@).contains(name@),
{
    let mut i: usize = 0;
    while i < names.len()
        invariant
            i <= names.len(),
            forall|k: int| 0 <= k < i ==> texts_model(names@)[k] != name@,
        decreases names.len() - i,
    {
        if names[i] == *name {
            assert(texts_model(names@)[i as int] == name@);
            return true;
        }
        i += 1;
    }
    false
}

/// Copies the members that the record does not model.
fn extra_members(doc: &Json) -> (extra: Vec<Member>)
    ensures
        members_model(extra@) == unlisted(members_of(doc@), upstream_field_names()),
{
    let mut extra: Vec<Member> = Vec::new();
    assert(members_model(extra@) == Seq::<(Seq<char>, JsonModel)>::empty());
    match doc {
        Json::Object(members) => {
            let names = known_names();
            let ghost all = members_model(members@);
            let ghost listed = upstream_field_names();
            proof {
                lemma_object_view(*members);
                assert(all.skip(0) == all);
            }
            let mut i: usize = 0;
            while i < members.len()
                invariant
                    i <= members.len(),
                    all == members_model(members@),
                    listed == texts_model(names@),
                    unlisted(all, listed) == members_model(extra@) + unlisted(
                        all.skip(i as int),
                        listed,
                    ),
                decreases members.len() - i,
            {
                let ghost rest = all.skip(i as int);
                assert(rest[0] == all[i as int]);
                assert(rest.drop_first() == all.skip(i + 1));
                if !is_listed(&members[i].name, &names) {
                    let ghost before = members_model(extra@);
                    let copy = members[i].clone();
                    extra.push(copy);
                    assert(members_model(extra@) == before.push(all[i as int]));
                    assert(before.push(all[i as int]) + unlisted(all.skip(i + 1), listed) == before
                        + (seq![all[i as int]] + unlisted(all.skip(i + 1), listed)));
                }
                i += 1;
            }
            assert(members_model(extra@) + Seq::<(Seq<char>, JsonModel)>::empty()
                == members_model(extra@));
            extra
        },
        _ => extra,
    }
}

/// The upstream statistics that a document holds.
pub open spec fn upstream_stats_of(doc: JsonModel) -> Result<UpstreamStatsModel, SchemaError> {
    let channels = channels_field(doc, "upstreamData"@);
    let channel_set_list = text_field(doc, "DOCS_IF_MIB_docsIf3UsChSetChList"@);
    let cm_pointer = text_field(doc, "DOCS_IF_MIB_docsIfCmtsCmPtr"@);
    let estimated_cnir = counts_field(doc, "CM_Estimated_CNIR"@);
    let upstream_indices = texts_field(doc, "CMTS_Upstream_Idx"@);
    let offset_power = counts_field(doc, "CM_OFFset_Power"@);
    let tcs_index = count_field(doc, "tcsIndex"@);
    let docsis_mode = docsis_mode_field(doc, "portSpec"@);
    let upstream_interfaces = text_field(doc, "UpstreamInts"@);
    let average_return_power = reading_field(doc, "avgReturnPwr"@);
    if channels is Err {
        Err(channels->Err_0)
    } else if channel_set_list is Err {
        Err(channel_set_list->Err_0)
    } else if cm_pointer is Err {
        Err(cm_pointer->Err_0)
    } else if estimated_cnir is Err {
        Err(estimated_cnir->Err_0)
    } else if upstream_indices is Err {
        Err(upstream_indices->Err_0)
    } else if offset_power is Err {
        Err(offset_power->Err_0)
    } else if tcs_index is Err {
        Err(tcs_index->Err_0)
    } else if docsis_mode is Err {
        Err(docsis_mode->Err_0)
    } else if upstream_interfaces is Err {
        Err(upstream_interfaces->Err_0)
    } else if average_return_power is Err {
        Err(average_return_power->Err_0)
    } else {
        Ok(
            UpstreamStatsModel {
                channels: channels->Ok_0,
                channel_set_list: channel_set_list->Ok_0,
                cm_pointer: cm_pointer->Ok_0,
                estimated_cnir: estimated_cnir->Ok_0,
                upstream_indices: upstream_indices->Ok_0,
                offset_power: offset_power->Ok_0,
                tcs_index: tcs_index->Ok_0,
                docsis_mode: docsis_mode->Ok_0,
                upstream_interfaces: upstream_interfaces->Ok_0,
                average_return_power: average_return_power->Ok_0,
                extra: unlisted(members_of(doc), upstream_field_names()),
            },
        )
    }
}

/// Reads the upstream statistics out of a parsed document.
pub fn upstream_stats_from_json(doc: &Json) -> (outcome: Result<UpstreamStats, SchemaError>)
    ensures
        outcome_model(outcome) == upstream_stats_of(doc@),
        outcome matches Ok(stats) ==> stats@.extra_is_apart(),
        outcome matches Ok(stats) ==> (doc@.well_keyed() ==> stats@.wf()),
{
    proof {
        lemma_unlisted_is_a_mapping(members_of(doc@), upstream_field_names());
    }
    let channels = channels_at(doc, "upstreamData")?;
    let channel_set_list = text_at(doc, "DOCS_IF_MIB_docsIf3UsChSetChList")?;
    let cm_pointer = text_at(doc, "DOCS_IF_MIB_docsIfCmtsCmPtr")?;
    let estimated_cnir = counts_at(doc, "CM_Estimated_CNIR")?;
    let upstream_indices = texts_at(doc, "CMTS_Upstream_Idx")?;
    let offset_power = counts_at(doc, "CM_OFFset_Power")?;
    let tcs_index = count_at(doc, "tcsIndex")?;
    let docsis_mode = docsis_mode_at(doc, "portSpec")?;
    let upstream_interfaces = text_at(doc, "UpstreamInts")?;
    let average_return_power = reading_at(doc, "avgReturnPwr")?;
    let extra = extra_members(doc);
    Ok(
        UpstreamStats {
            channels,
            channel_set_list,
            cm_pointer,
            estimated_cnir,
            upstream_indices,
            offset_power,
            tcs_index,
            port_spec: PortSpec { docsis_mode },
            upstream_interfaces,
            average_return_power,
            extra,
        },
    )
}

/// What a response body decodes to: `Syntax` where it is not one JSON
/// document, else what [`upstream_stats_of`] says of the document.
pub open spec fn upstream_stats_in(bytes: Seq<u8>) -> Result<UpstreamStatsModel, SchemaError> {
    match document_of(bytes) {
        Some(doc) => upstream_stats_of(doc),
        None => Err(SchemaError::Syntax),
    }
}

/// Decodes the body of an upstream statistics response.
///
/// The outcome is that of [`upstream_stats_in`]. Fields that the record does
/// not model never make it fail: they are kept under `extra`.
pub fn decode_upstream_stats(bytes: &[u8]) -> (outcome: Result<UpstreamStats, SchemaError>)
    ensures
        outcome_model(outcome) == upstream_stats_in(bytes@),
        outcome matches Ok(stats) ==> stats@.wf(),
{
    let doc = parse(bytes)?;
    upstream_stats_from_json(&doc)
}

/// A top-level field that the record does not model is kept: after
/// decoding, `extra` holds under its name what the document held.
pub proof fn lemma_unmodelled_field_is_kept(doc: JsonModel, key: Seq<char>)
    requires
        upstream_stats_of(doc) is Ok,
        !upstream_field_names().contains(key),
    ensures
        lookup(upstream_stats_of(doc)->Ok_0.extra, key) == doc.field(key),
{
    lemma_unlisted_lookup(members_of(doc), upstream_field_names(), key);
}

/// Decoding looks at the modelled fields only: two objects that agree on
/// them fail with the same error, or decode to records that differ in
/// nothing but `extra`. So a field that the record does not model never
/// makes decoding fail.
pub proof fn lemma_upstream_reads_modelled_fields_only(first: JsonModel, second: JsonModel)
    requires
        first is Object,
        second is Object,
        forall|name: Seq<char>|
            upstream_field_names().contains(name) ==> first.field(name) == second.field(name),
    ensures
        match (upstream_stats_of(first), upstream_stats_of(second)) {
            (Ok(one), Ok(other)) => one == (UpstreamStatsModel { extra: one.extra, ..other }),
            (Err(e), Err(f)) => e == f,
            _ => false,
        },
{
    let names = upstream_field_names();
    assert(names.contains(names[0]));
    assert(names.contains(names[1]));
    assert(names.contains(names[2]));
    assert(names.contains(names[3]));
    assert(names.contains(names[4]));
    assert(names.contains(names[5]));
    assert(names.contains(names[6]));
    assert(names.contains(names[7]));
    assert(names.contains(names[8]));
    assert(names.contains(names[9]));
}

} // verus!
