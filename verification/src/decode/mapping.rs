//! The mapping response: one record under the wrapper key `macmapData`.

use crate::decode::fields::{
    address_at, address_field, count_at, count_field, nothing_at, nothing_field, read_required,
    required, text_at, text_field,
};
use crate::decode::outcome_model;
use crate::error::SchemaError;
use crate::json::{document_of, parse, Json, JsonModel};
use crate::records::{Absent, NodeMapping, NodeMappingModel};
use vstd::prelude::*;

verus! {

/// A required cable interface field: text that is not empty.
pub open spec fn interface_field(doc: JsonModel, key: Seq<char>) -> Result<Seq<char>, SchemaError> {
    match text_field(doc, key) {
        Ok(text) => if text.len() > 0 {
            Ok(text)
        } else {
            Err(SchemaError::EmptyInterface)
        },
        Err(e) => Err(e),
    }
}

/// Reads a required cable interface field.
fn interface_at(doc: &Json, key: &str) -> (outcome: Result<String, SchemaError>)
    ensures
        outcome_model(outcome) == interface_field(doc@, key@),
{
    let text = text_at(doc, key)?;
    if text.as_str().is_empty() {
        Err(SchemaError::EmptyInterface)
    } else {
        Ok(text)
    }
}

/// The mapping record that the object under the wrapper key holds.
pub open spec fn mapping_data_of(data: JsonModel) -> Result<NodeMappingModel, SchemaError> {
    let node = text_field(data, "NODE"@);
    let rcv_pwr = nothing_field(data, "RcvPwr"@);
    let prim_ds = text_field(data, "PrimDS"@);
    let node_query = text_field(data, "nodeQuery"@);
    let sys_desc = text_field(data, "SYSDESC"@);
    let updated = text_field(data, "Updated"@);
    let chassis_model = text_field(data, "CHASSIS_MODEL"@);
    let online_status = text_field(data, "OnlineStatus"@);
    let current = text_field(data, "Current"@);
    let prim_ds_idx = text_field(data, "PrimDSIDX"@);
    let visitor_ip = address_field(data, "visitorIP"@);
    let cable_if = interface_field(data, "CableIF"@);
    let prim_us = text_field(data, "PrimUS"@);
    let ip = address_field(data, "IP"@);
    let mac_domain = text_field(data, "MacDomain"@);
    let mac = text_field(data, "MAC"@);
    let prim_us_idx = text_field(data, "PrimUSIDX"@);
    let cmts = text_field(data, "cmts"@);
    let modem_index = count_field(data, "MODEMIDX"@);
    if node is Err {
        Err(node->Err_0)
    } else if rcv_pwr is Err {
        Err(rcv_pwr->Err_0)
    } else if prim_ds is Err {
        Err(prim_ds->Err_0)
    } else if node_query is Err {
        Err(node_query->Err_0)
    } else if sys_desc is Err {
        Err(sys_desc->Err_0)
    } else if updated is Err {
        Err(updated->Err_0)
    } else if chassis_model is Err {
        Err(chassis_model->Err_0)
    } else if online_status is Err {
        Err(online_status->Err_0)
    } else if current is Err {
        Err(current->Err_0)
    } else if prim_ds_idx is Err {
        Err(prim_ds_idx->Err_0)
    } else if visitor_ip is Err {
        Err(visitor_ip->Err_0)
    } else if cable_if is Err {
        Err(cable_if->Err_0)
    } else if prim_us is Err {
        Err(prim_us->Err_0)
    } else if ip is Err {
        Err(ip->Err_0)
    } else if mac_domain is Err {
        Err(mac_domain->Err_0)
    } else if mac is Err {
        Err(mac->Err_0)
    } else if prim_us_idx is Err {
        Err(prim_us_idx->Err_0)
    } else if cmts is Err {
        Err(cmts->Err_0)
    } else if modem_index is Err {
        Err(modem_index->Err_0)
    } else {
        Ok(
            NodeMappingModel {
                node: node->Ok_0,
                prim_ds: prim_ds->Ok_0,
                node_query: node_query->Ok_0,
                sys_desc: sys_desc->Ok_0,
                updated: updated->Ok_0,
                chassis_model: chassis_model->Ok_0,
                online_status: online_status->Ok_0,
                current: current->Ok_0,
                prim_ds_idx: prim_ds_idx->Ok_0,
                visitor_ip: visitor_ip->Ok_0,
                cable_if: cable_if->Ok_0,
                prim_us: prim_us->Ok_0,
                ip: ip->Ok_0,
                mac_domain: mac_domain->Ok_0,
                mac: mac->Ok_0,
                prim_us_idx: prim_us_idx->Ok_0,
                cmts: cmts->Ok_0,
                modem_index: modem_index->Ok_0,
            },
        )
    }
}

/// Reads the mapping record out of the object under the wrapper key.
pub fn mapping_data_from_json(data: &Json) -> (outcome: Result<NodeMapping, SchemaError>)
    ensures
        outcome_model(outcome) == mapping_data_of(data@),
        outcome matches Ok(mapping) ==> mapping@.wf(),
{
    let node = text_at(data, "NODE")?;
    nothing_at(data, "RcvPwr")?;
    let prim_ds = text_at(data, "PrimDS")?;
    let node_query = text_at(data, "nodeQuery")?;
    let sys_desc = text_at(data, "SYSDESC")?;
    let updated = text_at(data, "Updated")?;
    let chassis_model = text_at(data, "CHASSIS_MODEL")?;
    let online_status = text_at(data, "OnlineStatus")?;
    let current = text_at(data, "Current")?;
    let prim_ds_idx = text_at(data, "PrimDSIDX")?;
    let visitor_ip = address_at(data, "visitorIP")?;
    let cable_if = interface_at(data, "CableIF")?;
    let prim_us = text_at(data, "PrimUS")?;
    let ip = address_at(data, "IP")?;
    let mac_domain = text_at(data, "MacDomain")?;
    let mac = text_at(data, "MAC")?;
    let prim_us_idx = text_at(data, "PrimUSIDX")?;
    let cmts = text_at(data, "cmts")?;
    let modem_index = count_at(data, "MODEMIDX")?;
    Ok(
        NodeMapping {
            node,
            rcv_pwr: Absent,
            prim_ds,
            node_query,
            sys_desc,
            updated,
            chassis_model,
            online_status,
            current,
            prim_ds_idx,
            visitor_ip,
            cable_if,
            prim_us,
            ip,
            mac_domain,
            mac,
            prim_us_idx,
            cmts,
            modem_index,
        },
    )
}

/// The mapping record that a document holds: that of the object under its
/// wrapper key.
pub open spec fn node_mapping_of(doc: JsonModel) -> Result<NodeMappingModel, SchemaError> {
    match required(doc, "macmapData"@) {
        Ok(data) => mapping_data_of(data),
        Err(e) => Err(e),
    }
}

/// Reads the mapping record out of a parsed document.
pub fn node_mapping_from_json(doc: &Json) -> (outcome: Result<NodeMapping, SchemaError>)
    ensures
        outcome_model(outcome) == node_mapping_of(doc@),
        outcome matches Ok(mapping) ==> mapping@.wf(),
{
    let data = read_required(doc, "macmapData")?;
    mapping_data_from_json(data)
}

/// What a response body decodes to: `Syntax` where it is not one JSON
/// document, else what [`node_mapping_of`] says of the document.
pub open spec fn node_mapping_in(bytes: Seq<u8>) -> Result<NodeMappingModel, SchemaError> {
    match document_of(bytes) {
        Some(doc) => node_mapping_of(doc),
        None => Err(SchemaError::Syntax),
    }
}

/// Decodes the body of a mapping response.
///
/// The outcome is that of [`node_mapping_in`].
pub fn decode_node_mapping(bytes: &[u8]) -> (outcome: Result<NodeMapping, SchemaError>)
    ensures
        outcome_model(outcome) == node_mapping_in(bytes@),
        outcome matches Ok(mapping) ==> mapping@.wf(),
{
    let doc = parse(bytes)?;
    node_mapping_from_json(&doc)
}

/// A mapping that decodes is well-formed: it names a cable interface.
pub proof fn lemma_mapping_is_well_formed(doc: JsonModel)
    requires
        node_mapping_of(doc) is Ok,
    ensures
        node_mapping_of(doc)->Ok_0.wf(),
{
}

/// Without the field `CableIF` under the wrapper key there is no mapping:
/// decoding fails, whatever else the document holds.
pub proof fn lemma_mapping_needs_cable_interface(doc: JsonModel)
    requires
        doc.field("macmapData"@) matches Some(data) && data.field("CableIF"@) is None,
    ensures
        node_mapping_of(doc) is Err,
{
}

} // verus!
