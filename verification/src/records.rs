//! The typed shapes of the four diagnostic responses.
//!
//! Readings that the modem sends as quoted text stay text. Only counts and
//! indices are integers. Averages are kept as the JSON numbers they arrived
//! as.

use crate::ipv4::Ipv4;
use crate::decode::upstream::upstream_field_names;
use crate::json::{
    find_member, lookup, members_model, names_are_distinct, Json, JsonModel, JsonNumber, Member,
};
use crate::text::{lemma_without, lemma_without_keeps, without};
use vstd::prelude::*;

verus! {

/// Marks a field whose value is always JSON `null`: it is there, and it says
/// nothing.
#[derive(Clone, Copy, Debug, PartialEq, Eq, Structural)]
pub struct Absent;

/// Whether `c` is a hexadecimal digit, in either case.
pub open spec fn is_hex_digit(c: char) -> bool {
    ('0' <= c <= '9') || ('a' <= c <= 'f') || ('A' <= c <= 'F')
}

/// Whether a text can serve as a hardware identifier: it holds hex digits
/// and colons and nothing else, and at least one hex digit.
pub open spec fn is_hardware_id(text: Seq<char>) -> bool {
    &&& forall|i: int| 0 <= i < text.len() ==> is_hex_digit(#[trigger] text[i]) || text[i] == ':'
    &&& exists|i: int| 0 <= i < text.len() && is_hex_digit(#[trigger] text[i])
}

/// A hardware identifier without its colons is a run of hex digits, and not
/// an empty one.
pub proof fn lemma_stripped_hardware_id(text: Seq<char>)
    requires
        is_hardware_id(text),
    ensures
        without(text, ':').len() > 0,
        forall|i: int|
            0 <= i < without(text, ':').len() ==> is_hex_digit(#[trigger] without(text, ':')[i]),
{
    lemma_without(text, ':');
    assert forall|i: int| 0 <= i < without(text, ':').len() implies is_hex_digit(
        #[trigger] without(text, ':')[i],
    ) by {
        let c = without(text, ':')[i];
        assert(text.contains(c));
        let k = choose|k: int| 0 <= k < text.len() && text[k] == c;
        assert(is_hex_digit(text[k]) || text[k] == ':');
    }
    let at = choose|i: int| 0 <= i < text.len() && is_hex_digit(#[trigger] text[i]);
    lemma_without_keeps(text, ':', at);
}

/// Checks a text against [`is_hardware_id`].
pub fn check_hardware_id(text: &str) -> (valid: bool)
    ensures
        valid == is_hardware_id(text@),
{
    let mut digits = false;
    for c in it: text.chars()
        invariant
            it.seq() == text@,
            forall|i: int|
                0 <= i < it.index() ==> is_hex_digit(#[trigger] text@[i]) || text@[i] == ':',
            digits == exists|i: int| 0 <= i < it.index() && is_hex_digit(#[trigger] text@[i]),
    {
        let hex = ('0' <= c && c <= '9') || ('a' <= c && c <= 'f') || ('A' <= c && c <= 'F');
        if !hex && c != ':' {
            assert(text@[it.index() as int] == c);
            return false;
        }
        if hex {
            assert(is_hex_digit(text@[it.index() as int]));
            digits = true;
        }
    }
    digits
}

/// Who the modem is: the answer of the identity stage.
#[derive(Clone, Debug, PartialEq, Eq)]
pub struct ModemIdentity {
    /// Hardware identifier: hex pairs separated by colons.
    pub modem: String,
    pub downstream_speed: String,
    pub modem_index: String,
    pub upstream_speed: String,
    pub found_on_dhcp_server: String,
    pub client_ip: Ipv4,
    pub cf: String,
    pub encoded_mac: String,
    pub modem_ip: Ipv4,
    pub cmts: String,
    pub cpe_mac: String,
}

/// Model of a [`ModemIdentity`].
pub struct ModemIdentityModel {
    pub modem: Seq<char>,
    pub downstream_speed: Seq<char>,
    pub modem_index: Seq<char>,
    pub upstream_speed: Seq<char>,
    pub found_on_dhcp_server: Seq<char>,
    pub client_ip: Ipv4,
    pub cf: Seq<char>,
    pub encoded_mac: Seq<char>,
    pub modem_ip: Ipv4,
    pub cmts: Seq<char>,
    pub cpe_mac: Seq<char>,
}

impl ModemIdentityModel {
    /// Whether the hardware identifier can be sent on: it holds hex digits
    /// and colons only. Every decoded identity is well-formed.
    pub open spec fn wf(self) -> bool {
        is_hardware_id(self.modem)
    }
}

impl View for ModemIdentity {
    type V = ModemIdentityModel;

    open spec fn view(&self) -> ModemIdentityModel {
        ModemIdentityModel {
            modem: self.modem@,
            downstream_speed: self.downstream_speed@,
            modem_index: self.modem_index@,
            upstream_speed: self.upstream_speed@,
            found_on_dhcp_server: self.found_on_dhcp_server@,
            client_ip: self.client_ip,
            cf: self.cf@,
            encoded_mac: self.encoded_mac@,
            modem_ip: self.modem_ip,
            cmts: self.cmts@,
            cpe_mac: self.cpe_mac@,
        }
    }
}

/// Where the modem hangs: the answer of the mapping stage.
#[derive(Clone, Debug, PartialEq, Eq)]
pub struct NodeMapping {
    pub node: String,
    pub rcv_pwr: Absent,
    pub prim_ds: String,
    pub node_query: String,
    pub sys_desc: String,
    pub updated: String,
    pub chassis_model: String,
    pub online_status: String,
    pub current: String,
    pub prim_ds_idx: String,
    pub visitor_ip: Ipv4,
    /// Cable interface that the modem is registered on. Never empty.
    pub cable_if: String,
    pub prim_us: String,
    pub ip: Ipv4,
    pub mac_domain: String,
    pub mac: String,
    pub prim_us_idx: String,
    pub cmts: String,
    pub modem_index: u32,
}

/// Model of a [`NodeMapping`].
pub struct NodeMappingModel {
    pub node: Seq<char>,
    pub prim_ds: Seq<char>,
    pub node_query: Seq<char>,
    pub sys_desc: Seq<char>,
    pub updated: Seq<char>,
    pub chassis_model: Seq<char>,
    pub online_status: Seq<char>,
    pub current: Seq<char>,
    pub prim_ds_idx: Seq<char>,
    pub visitor_ip: Ipv4,
    pub cable_if: Seq<char>,
    pub prim_us: Seq<char>,
    pub ip: Ipv4,
    pub mac_domain: Seq<char>,
    pub mac: Seq<char>,
    pub prim_us_idx: Seq<char>,
    pub cmts: Seq<char>,
    pub modem_index: u32,
}

impl NodeMappingModel {
    /// Whether the mapping names a cable interface. Every decoded mapping
    /// is well-formed.
    pub open spec fn wf(self) -> bool {
        self.cable_if.len() > 0
    }
}

impl View for NodeMapping {
    type V = NodeMappingModel;

    open spec fn view(&self) -> NodeMappingModel {
        NodeMappingModel {
            node: self.node@,
            prim_ds: self.prim_ds@,
            node_query: self.node_query@,
            sys_desc: self.sys_desc@,
            updated: self.updated@,
            chassis_model: self.chassis_model@,
            online_status: self.online_status@,
            current: self.current@,
            prim_ds_idx: self.prim_ds_idx@,
            visitor_ip: self.visitor_ip,
            cable_if: self.cable_if@,
            prim_us: self.prim_us@,
            ip: self.ip,
            mac_domain: self.mac_domain@,
            mac: self.mac@,
            prim_us_idx: self.prim_us_idx@,
            cmts: self.cmts@,
            modem_index: self.modem_index,
        }
    }
}

/// One bonded upstream channel.
#[derive(Clone, Debug, PartialEq, Eq)]
pub struct UpstreamChannel {
    pub uncorrectable: u32,
    pub good: u32,
    pub correctable: u32,
    pub snr: String,
    pub frequency: String,
    pub power: String,
    pub width: String,
}

/// Model of an [`UpstreamChannel`].
pub struct UpstreamChannelModel {
    pub uncorrectable: u32,
    pub good: u32,
    pub correctable: u32,
    pub snr: Seq<char>,
    pub frequency: Seq<char>,
    pub power: Seq<char>,
    pub width: Seq<char>,
}

impl View for UpstreamChannel {
    type V = UpstreamChannelModel;

    open spec fn view(&self) -> UpstreamChannelModel {
        UpstreamChannelModel {
            uncorrectable: self.uncorrectable,
            good: self.good,
            correctable: self.correctable,
            snr: self.snr@,
            frequency: self.frequency@,
            power: self.power@,
            width: self.width@,
        }
    }
}

/// What the response holds under `portSpec`: the DOCSIS mode.
#[derive(Clone, Debug, PartialEq, Eq)]
pub struct PortSpec {
    pub docsis_mode: String,
}

/// The upstream measurements: the answer of the upstream stage.
#[derive(Clone, Debug, PartialEq, Eq)]
pub struct UpstreamStats {
    pub channels: Vec<UpstreamChannel>,
    pub channel_set_list: String,
    pub cm_pointer: String,
    pub estimated_cnir: Vec<u32>,
    pub upstream_indices: Vec<String>,
    pub offset_power: Vec<u32>,
    pub tcs_index: u32,
    pub port_spec: PortSpec,
    pub upstream_interfaces: String,
    pub average_return_power: JsonNumber,
    /// Every top-level field of the response that is not one of the above,
    /// as it arrived.
    pub extra: Vec<Member>,
}

/// Model of an [`UpstreamStats`].
pub struct UpstreamStatsModel {
    pub channels: Seq<UpstreamChannelModel>,
    pub channel_set_list: Seq<char>,
    pub cm_pointer: Seq<char>,
    pub estimated_cnir: Seq<u32>,
    pub upstream_indices: Seq<Seq<char>>,
    pub offset_power: Seq<u32>,
    pub tcs_index: u32,
    pub docsis_mode: Seq<char>,
    pub upstream_interfaces: Seq<char>,
    pub average_return_power: JsonNumber,
    pub extra: Seq<(Seq<char>, JsonModel)>,
}

impl UpstreamStatsModel {
    /// Whether `extra` holds nothing that the record models: none of its
    /// names is the name of a modelled field.
    pub open spec fn extra_is_apart(self) -> bool {
        forall|i: int|
            0 <= i < self.extra.len() ==> !upstream_field_names().contains(
                (#[trigger] self.extra[i]).0,
            )
    }

    /// Whether `extra` is a mapping beside the modelled fields: it holds no
    /// modelled name, and no name twice. Every decoded response body is
    /// well-formed.
    pub open spec fn wf(self) -> bool {
        self.extra_is_apart() && names_are_distinct(self.extra)
    }
}

/// The models of a run of upstream channels.
pub open spec fn upstream_channels_model(channels: Seq<UpstreamChannel>) -> Seq<
    UpstreamChannelModel,
> {
    Seq::new(channels.len(), |i: int| channels[i]@)
}

/// The models of a run of strings.
pub open spec fn texts_model(texts: Seq<String>) -> Seq<Seq<char>> {
    Seq::new(texts.len(), |i: int| texts[i]@)
}

impl View for UpstreamStats {
    type V = UpstreamStatsModel;

    open spec fn view(&self) -> UpstreamStatsModel {
        UpstreamStatsModel {
            channels: upstream_channels_model(self.channels@),
            channel_set_list: self.channel_set_list@,
            cm_pointer: self.cm_pointer@,
            estimated_cnir: self.estimated_cnir@,
            upstream_indices: texts_model(self.upstream_indices@),
            offset_power: self.offset_power@,
            tcs_index: self.tcs_index,
            docsis_mode: self.port_spec.docsis_mode@,
            upstream_interfaces: self.upstream_interfaces@,
            average_return_power: self.average_return_power,
            extra: members_model(self.extra@),
        }
    }
}

/// One bonded downstream channel. All its readings arrive as text.
#[derive(Clone, Debug, PartialEq, Eq)]
pub struct DownstreamChannel {
    pub frequency: String,
    pub uncorrectable: String,
    pub corrected: String,
    pub snr: String,
    pub power: String,
    pub good_fraction: String,
}

/// Model of a [`DownstreamChannel`].
pub struct DownstreamChannelModel {
    pub frequency: Seq<char>,
    pub uncorrectable: Seq<char>,
    pub corrected: Seq<char>,
    pub snr: Seq<char>,
    pub power: Seq<char>,
    pub good_fraction: Seq<char>,
}

impl View for DownstreamChannel {
    type V = DownstreamChannelModel;

    open spec fn view(&self) -> DownstreamChannelModel {
        DownstreamChannelModel {
            frequency: self.frequency@,
            uncorrectable: self.uncorrectable@,
            corrected: self.corrected@,
            snr: self.snr@,
            power: self.power@,
            good_fraction: self.good_fraction@,
        }
    }
}

/// The downstream measurements: the answer of the downstream stage. The
/// summary figures stand beside the channel list, not inside it.
#[derive(Clone, Debug, PartialEq, Eq)]
pub struct DownstreamStats {
    pub count: u32,
    pub standard_deviation: String,
    pub variance: String,
    pub qam_count: u32,
    pub average_snr: JsonNumber,
    pub average_power: JsonNumber,
    pub channels: Vec<DownstreamChannel>,
}

/// Model of a [`DownstreamStats`].
pub struct DownstreamStatsModel {
    pub count: u32,
    pub standard_deviation: Seq<char>,
    pub variance: Seq<char>,
    pub qam_count: u32,
    pub average_snr: JsonNumber,
    pub average_power: JsonNumber,
    pub channels: Seq<DownstreamChannelModel>,
}

/// The models of a run of downstream channels.
pub open spec fn downstream_channels_model(channels: Seq<DownstreamChannel>) -> Seq<
    DownstreamChannelModel,
> {
    Seq::new(channels.len(), |i: int| channels[i]@)
}

impl View for DownstreamStats {
    type V = DownstreamStatsModel;

    open spec fn view(&self) -> DownstreamStatsModel {
        DownstreamStatsModel {
            count: self.count,
            standard_deviation: self.standard_deviation@,
            variance: self.variance@,
            qam_count: self.qam_count,
            average_snr: self.average_snr,
            average_power: self.average_power,
            channels: downstream_channels_model(self.channels@),
        }
    }
}

impl UpstreamStats {
    /// The value of an unmodelled top-level field, by name.
    pub fn extra_field(&self, name: &str) -> (found: Option<&Json>)
        ensures
            match found {
                Some(value) => lookup(self@.extra, name@) == Some(value@),
                None => lookup(self@.extra, name@) is None,
            },
    {
        find_member(&self.extra, name)
    }
}

} // verus!
