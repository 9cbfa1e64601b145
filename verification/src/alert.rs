//! The resolved alert record as the remote alerts API returns it: the
//! identifier, the classification tag, the geometry echo, and the properties
//! block whose headline, description, instruction and area description the
//! presenter prints. The geometry is carried through untouched as a raw JSON
//! value; nothing in the pipeline reads it.

use vstd::prelude::*;

verus! {

/// Declares serde_json's JSON value type so a raw geometry value can be
/// carried through the pipeline. The value is opaque here: the pipeline
/// echoes it and never reads it.
#[verifier::external_type_specification]
#[verifier::external_body]
pub struct ExValue(serde_json::Value);

/// One element of an alert's context list: either the structured context
/// object or a bare vocabulary string.
pub enum ContextElement {
    ContextClass(ContextClass),
    Text(String),
}

/// The structured form of a context element.
pub struct ContextClass {
    pub version: String,
    pub wx: String,
    pub vocab: String,
}

/// The geocode block of an alert: same-code and UGC-zone lists.
pub struct Geocode {
    pub same: Vec<String>,
    pub ugc: Vec<String>,
}

/// The protocol-specific repeated parameter fields of an alert. Only the
/// expired-reference list may be absent.
pub struct Parameters {
    pub awip_sidentifier: Vec<String>,
    pub wm_oidentifier: Vec<String>,
    pub nw_sheadline: Vec<String>,
    pub blockchannel: Vec<String>,
    pub vtec: Vec<String>,
    pub event_ending_time: Vec<String>,
    pub expired_references: Option<Vec<String>>,
}

/// A reference to a related or prior alert.
pub struct Reference {
    pub id: String,
    pub identifier: String,
    pub sender: String,
    pub sent: String,
}

/// The properties block of an alert.
pub struct Properties {
    pub id: String,
    pub properties_type: String,
    pub properties_id: String,
    pub area_desc: String,
    pub geocode: Geocode,
    pub affected_zones: Vec<String>,
    pub references: Vec<Reference>,
    pub sent: String,
    pub effective: String,
    pub onset: String,
    pub expires: String,
    pub ends: String,
    pub status: String,
    pub message_type: String,
    pub category: String,
    pub severity: String,
    pub certainty: String,
    pub urgency: String,
    pub event: String,
    pub sender: String,
    pub sender_name: String,
    pub headline: String,
    pub description: String,
    pub instruction: String,
    pub response: String,
    pub parameters: Parameters,
}

/// One resolved alert.
pub struct Alert {
    pub context: Vec<ContextElement>,
    pub id: String,
    pub alert_type: String,
    pub geometry: serde_json::Value,
    pub properties: Properties,
}

} // verus!
