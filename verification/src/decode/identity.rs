//! The identity response.

use crate::decode::fields::{
    address_at, address_field, hardware_id_at, hardware_id_field, text_at, text_field,
};
use crate::decode::outcome_model;
use crate::error::SchemaError;
use crate::json::{document_of, parse, Json, JsonModel};
use crate::records::{ModemIdentity, ModemIdentityModel};
use vstd::prelude::*;

verus! {

/// The identity record that a document holds.
pub open spec fn modem_identity_of(doc: JsonModel) -> Result<ModemIdentityModel, SchemaError> {
    let modem = hardware_id_field(doc, "modem"@);
    let downstream_speed = text_field(doc, "downstreamSpeed"@);
    let modem_index = text_field(doc, "modemidx"@);
    let upstream_speed = text_field(doc, "upstreamSpeed"@);
    let found_on_dhcp_server = text_field(doc, "Found_ON_DHCPserver"@);
    let client_ip = address_field(doc, "ClientIP"@);
    let cf = text_field(doc, "cf"@);
    let encoded_mac = text_field(doc, "encodedmac"@);
    let modem_ip = address_field(doc, "modemIP"@);
    let cmts = text_field(doc, "CMTS"@);
    let cpe_mac = text_field(doc, "cpeMAC"@);
    if modem is Err {
        Err(modem->Err_0)
    } else if downstream_speed is Err {
        Err(downstream_speed->Err_0)
    } else if modem_index is Err {
        Err(modem_index->Err_0)
    } else if upstream_speed is Err {
        Err(upstream_speed->Err_0)
    } else if found_on_dhcp_server is Err {
        Err(found_on_dhcp_server->Err_0)
    } else if client_ip is Err {
        Err(client_ip->Err_0)
    } else if cf is Err {
        Err(cf->Err_0)
    } else if encoded_mac is Err {
        Err(encoded_mac->Err_0)
    } else if modem_ip is Err {
        Err(modem_ip->Err_0)
    } else if cmts is Err {
        Err(cmts->Err_0)
    } else if cpe_mac is Err {
        Err(cpe_mac->Err_0)
    } else {
        Ok(
            ModemIdentityModel {
                modem: modem->Ok_0,
                downstream_speed: downstream_speed->Ok_0,
                modem_index: modem_index->Ok_0,
                upstream_speed: upstream_speed->Ok_0,
                found_on_dhcp_server: found_on_dhcp_server->Ok_0,
                client_ip: client_ip->Ok_0,
                cf: cf->Ok_0,
                encoded_mac: encoded_mac->Ok_0,
                modem_ip: modem_ip->Ok_0,
                cmts: cmts->Ok_0,
                cpe_mac: cpe_mac->Ok_0,
            },
        )
    }
}

/// Reads the identity record out of a parsed document.
pub fn modem_identity_from_json(doc: &Json) -> (outcome: Result<ModemIdentity, SchemaError>)
    ensures
        outcome_model(outcome) == modem_identity_of(doc@),
        outcome matches Ok(identity) ==> identity@.wf(),
{
    let modem = hardware_id_at(doc, "modem")?;
    let downstream_speed = text_at(doc, "downstreamSpeed")?;
    let modem_index = text_at(doc, "modemidx")?;
    let upstream_speed = text_at(doc, "upstreamSpeed")?;
    let found_on_dhcp_server = text_at(doc, "Found_ON_DHCPserver")?;
    let client_ip = address_at(doc, "ClientIP")?;
    let cf = text_at(doc, "cf")?;
    let encoded_mac = text_at(doc, "encodedmac")?;
    let modem_ip = address_at(doc, "modemIP")?;
    let cmts = text_at(doc, "CMTS")?;
    let cpe_mac = text_at(doc, "cpeMAC")?;
    Ok(
        ModemIdentity {
            modem,
            downstream_speed,
            modem_index,
            upstream_speed,
            found_on_dhcp_server,
            client_ip,
            cf,
            encoded_mac,
            modem_ip,
            cmts,
            cpe_mac,
        },
    )
}

/// What a response body decodes to: `Syntax` where it is not one JSON
/// document, else what [`modem_identity_of`] says of the document.
pub open spec fn modem_identity_in(bytes: Seq<u8>) -> Result<ModemIdentityModel, SchemaError> {
    match document_of(bytes) {
        Some(doc) => modem_identity_of(doc),
        None => Err(SchemaError::Syntax),
    }
}

/// Decodes the body of an identity response.
///
/// The outcome is that of [`modem_identity_in`].
pub fn decode_modem_identity(bytes: &[u8]) -> (outcome: Result<ModemIdentity, SchemaError>)
    ensures
        outcome_model(outcome) == modem_identity_in(bytes@),
        outcome matches Ok(identity) ==> identity@.wf(),
{
    let doc = parse(bytes)?;
    modem_identity_from_json(&doc)
}

/// An identity that decodes is well-formed: its hardware identifier holds
/// hex digits and colons only.
pub proof fn lemma_identity_is_well_formed(doc: JsonModel)
    requires
        modem_identity_of(doc) is Ok,
    ensures
        modem_identity_of(doc)->Ok_0.wf(),
{
}

} // verus!
