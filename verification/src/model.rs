//! The value objects exchanged with the external command source and the
//! notification sink, and the exact wire image of the notification snapshot.
//!
//! The snapshot travels as a compact JSON object with the two flags in fixed
//! order; the library frames those bytes itself so the payload handed to the
//! transport is pinned down to the character.

use vstd::prelude::*;

verus! {

/// Parameters of a `setValue` request: which flag to set and to what.
#[derive(Debug)]
pub struct RequestParams {
    pub request_type: String,
    pub value: bool,
}

/// An inbound request from the command source.
#[derive(Debug)]
pub struct RequestPayload {
    pub method: String,
    pub params: Option<RequestParams>,
}

/// The immutable state snapshot published whenever either flag changes.
#[derive(Clone, Copy, Debug, PartialEq, Eq, Structural)]
pub struct AttributePayload {
    pub lamp_state: bool,
    pub sensor_state: bool,
}

/// The JSON spelling of a boolean.
pub open spec fn json_bool(b: bool) -> Seq<char> {
    if b {
        "true"@
    } else {
        "false"@
    }
}

/// The exact wire image of a snapshot: a compact JSON object with
/// `lamp_state` first and `sensor_state` second.
pub open spec fn attribute_json(lamp: bool, sensor: bool) -> Seq<char> {
    "{\"lamp_state\":"@ + json_bool(lamp) + ",\"sensor_state\":"@ + json_bool(sensor) + "}"@
}

/// The JSON spelling of a boolean, as it goes on the wire.
fn bool_json(b: bool) -> (r: &'static str)
    ensures
        r@ == json_bool(b),
{
    if b {
        "true"
    } else {
        "false"
    }
}

impl AttributePayload {
    /// Frame the snapshot as the JSON text the notification sink publishes.
    pub fn to_json(&self) -> (r: String)
        ensures
            r@ == attribute_json(self.lamp_state, self.sensor_state),
    {
        let mut s = String::from_str("{\"lamp_state\":");
        s.append(bool_json(self.lamp_state));
        s.append(",\"sensor_state\":");
        s.append(bool_json(self.sensor_state));
        s.append("}");
        s
    }
}

} // verus!
