//! Persistence of the two boolean flags.
//!
//! The durable image of the controller state is two independent single-byte
//! records, one per key. A record decodes to `true` exactly when it is a
//! single non-zero byte; a missing record, and a corrupt one (empty or
//! over-long) decodes to the default `false`. The application owns the
//! store handle and moves the raw bytes; encoding and decoding live here.

use vstd::prelude::*;

verus! {

/// The two record keys of the persistent store.
#[derive(Clone, Copy, Debug, PartialEq, Eq, Structural)]
pub enum NvsKey {
    LampState,
    SensorState,
}

impl NvsKey {
    /// The string under which the record is stored.
    pub fn key_str(&self) -> (r: &'static str)
        ensures
            *self == NvsKey::LampState ==> r@ == "lamp_state"@,
            *self == NvsKey::SensorState ==> r@ == "sensor_state"@,
    {
        match self {
            NvsKey::LampState => "lamp_state",
            NvsKey::SensorState => "sensor_state",
        }
    }
}

/// The byte sequence that persists a flag: one byte, `1` for `true`.
pub open spec fn spec_encode_flag(state: bool) -> Seq<u8> {
    if state {
        seq![1u8]
    } else {
        seq![0u8]
    }
}

/// The flag a raw record decodes to: `true` for a single non-zero byte,
/// `false` for everything else: a missing, empty or over-long record is
/// the default `false`.
pub open spec fn spec_decode_flag(raw: Option<Seq<u8>>) -> bool {
    match raw {
        Option::Some(d) => d.len() == 1 && d[0] != 0,
        Option::None => false,
    }
}

/// View of an optional raw record as an optional byte sequence.
pub open spec fn raw_view(raw: Option<&[u8]>) -> Option<Seq<u8>> {
    match raw {
        Option::Some(d) => Option::Some(d@),
        Option::None => Option::None,
    }
}

/// Encode a flag as its single-byte durable record.
pub fn encode_flag(state: bool) -> (r: Vec<u8>)
    ensures
        r@ == spec_encode_flag(state),
{
    let mut v: Vec<u8> = Vec::new();
    if state {
        v.push(1u8);
    } else {
        v.push(0u8);
    }
    proof {
        assert(v@ =~= spec_encode_flag(state));
    }
    v
}

/// Decode a raw record read from the store; `None` stands for a missing
/// record and decodes to the default `false`.
pub fn decode_flag(raw: Option<&[u8]>) -> (b: bool)
    ensures
        b == spec_decode_flag(raw_view(raw)),
{
    match raw {
        Option::Some(d) => d.len() == 1 && d[0] != 0,
        Option::None => false,
    }
}

/// A flag persisted through `spec_encode_flag` always decodes back to
/// itself: the durable image loses nothing.
pub proof fn lemma_flag_round_trip(state: bool)
    ensures
        spec_decode_flag(Option::Some(spec_encode_flag(state))) == state,
{
}

} // verus!
