//! The envelope in which every event travels to a client.

use vstd::prelude::*;
use serde_json::Value;
use crate::json::{Json, json_of, json_written, object_of_two, text_value, written};

verus! {

/// The envelope of an event: an object that holds the name of the event
/// under `type`, its payload under `data`, and nothing else.
pub open spec fn envelope(event_type: Seq<char>, data: Json) -> Json {
    Json::Object(
        Map::<Seq<char>, Json>::empty().insert("type"@, Json::Text(event_type)).insert(
            "data"@,
            data,
        ),
    )
}

/// Writes an event for the wire: the compact JSON text of its envelope.
pub fn create_message(event_type: &str, data: Value) -> (r: String)
    ensures
        r@ == json_written(envelope(event_type@, json_of(data))),
{
    let doc = object_of_two("type", text_value(event_type), "data", data);
    written(&doc)
}

} // verus!
