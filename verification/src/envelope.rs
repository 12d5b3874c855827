//! The wire envelope of a gateway frame.
//!
//! Every frame is a JSON object with an integer `op`, an optional
//! integer sequence `s`, an optional event-type name `t` and a payload
//! body `d`. Only the three routing fields are read here; the body is
//! never materialized on the relay path.

use vstd::prelude::*;

use crate::json::JsonValue;
use crate::json::get_field;
use crate::json::lookup;

verus! {

/// The opcode of an ordinary dispatch frame.
pub const OP_DISPATCH: i64 = 0;

/// The opcode by which the upstream invalidates the current session.
pub const OP_INVALIDATE_SESSION: i64 = 9;

/// The routing fields of one frame; the payload body stays behind.
pub struct Envelope {
    pub op: i64,
    pub sequence: Option<i64>,
    pub event_type: Option<String>,
}

/// What the envelope of a decoded frame holds: a frame without an
/// object shape or without an integer `op` has no envelope; `s` and
/// `t` are kept only when they carry the expected type.
pub open spec fn spec_envelope(doc: Option<JsonValue>) -> Option<Envelope> {
    match doc {
        Some(JsonValue::Obj(fields)) => match lookup(fields@, "op"@) {
            Some(JsonValue::Int(op)) => Some(
                Envelope {
                    op,
                    sequence: match lookup(fields@, "s"@) {
                        Some(JsonValue::Int(s)) => Some(s),
                        _ => None,
                    },
                    event_type: match lookup(fields@, "t"@) {
                        Some(JsonValue::Str(t)) => Some(t),
                        _ => None,
                    },
                },
            ),
            _ => None,
        },
        _ => None,
    }
}

/// Extract the routing fields from a decoded frame.
pub fn envelope_of_doc(doc: &JsonValue) -> (r: Option<Envelope>)
    ensures
        r == spec_envelope(Some(*doc)),
{
    match doc {
        JsonValue::Obj(fields) => {
            let op_key = String::from_str("op");
            match get_field(fields, &op_key) {
                Some(op_value) => match op_value {
                    JsonValue::Int(op) => {
                        let s_key = String::from_str("s");
                        let sequence = match get_field(fields, &s_key) {
                            Some(s_value) => match s_value {
                                JsonValue::Int(s) => Some(*s),
                                _ => None,
                            },
                            None => None,
                        };
                        let t_key = String::from_str("t");
                        let event_type = match get_field(fields, &t_key) {
                            Some(t_value) => match t_value {
                                JsonValue::Str(t) => Some(t.clone()),
                                _ => None,
                            },
                            None => None,
                        };
                        Some(Envelope { op: *op, sequence, event_type })
                    },
                    _ => None,
                },
                None => None,
            }
        },
        _ => None,
    }
}

} // verus!
