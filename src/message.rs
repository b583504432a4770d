use vstd::prelude::*;

verus! {

/// The structured, schema-less payload of a message, carried through the bus
/// without being looked into.
#[verifier::external_type_specification]
#[verifier::external_body]
pub struct ExJsonValue(serde_json::Value);

/// Relies on the `Clone` that `serde_json::Value` derives: the copy is the same
/// JSON tree as `v`.
#[verifier::external_body]
fn clone_payload(v: &serde_json::Value) -> (r: serde_json::Value)
    ensures
        r == *v,
{
    v.clone()
}

/// Holds of the JSON value `{}`: an object without entries.
pub uninterp spec fn is_empty_object(v: serde_json::Value) -> bool;

/// Relies on serde_json::Map::new, an object without entries, wrapped as a
/// `serde_json::Value::Object`: the JSON value `{}`.
#[verifier::external_body]
pub(crate) fn empty_object() -> (r: serde_json::Value)
    ensures
        is_empty_object(r),
{
    serde_json::Value::Object(serde_json::Map::new())
}

/// One configuration change: its topic, its payload, the window it came from,
/// and the time, in milliseconds since the Unix epoch, at which the bus took it in.
pub struct ConfigMessage {
    pub event_type: String,
    pub data: serde_json::Value,
    pub source_window: String,
    pub timestamp: u64,
}

impl ConfigMessage {
    pub fn new(event_type: String, data: serde_json::Value, source_window: String, timestamp: u64) -> (r: Self)
        ensures
            r.event_type == event_type,
            r.data == data,
            r.source_window == source_window,
            r.timestamp == timestamp,
    {
        ConfigMessage { event_type, data, source_window, timestamp }
    }
}

impl Clone for ConfigMessage {
    fn clone(&self) -> (r: Self)
        ensures
            r == *self,
    {
        ConfigMessage {
            event_type: self.event_type.clone(),
            data: clone_payload(&self.data),
            source_window: self.source_window.clone(),
            timestamp: self.timestamp,
        }
    }
}

} // verus!
