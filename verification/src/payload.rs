//! Trusted access to the JSON texts carried inside wire frames.
//!
//! The wire sub-protocol nests JSON documents inside its frames: an event
//! frame carries a JSON array whose first element is the event name, and a
//! handshake frame carries a JSON object with the heartbeat interval. The
//! library leaves parsing those documents to `serde_json` and names the
//! results here; everything built on top of these names is verified.

use vstd::prelude::*;

verus! {

/// The event name carried by a payload text: when `payload` is the text of a
/// JSON array whose first element is a string, the characters of that string,
/// and `None` otherwise. The value on a given text is learnt only by calling
/// `parse_event_name`.
pub uninterp spec fn json_event_name(payload: Seq<char>) -> Option<Seq<char>>;

/// The heartbeat interval carried by a handshake payload: when `payload` is
/// the text of a JSON object whose `pingInterval` field is an unsigned
/// integer, that number, and `None` otherwise.
pub uninterp spec fn json_ping_interval(payload: Seq<char>) -> Option<u64>;

/// Relies on `serde_json::from_str::<Value>`, `Value::get(0)` and
/// `Value::as_str`: hands back the first element of the JSON array `payload`
/// parses to, when that element is a string. The result is a function of the
/// characters of `payload` alone.
#[verifier::external_body]
pub(crate) fn parse_event_name(payload: &str) -> (r: Option<String>)
    ensures
        match r {
            Some(name) => json_event_name(payload@) == Some(name@),
            None => json_event_name(payload@) is None,
        },
{
    match serde_json::from_str::<serde_json::Value>(payload) {
        Ok(value) => value.get(0).and_then(|e| e.as_str()).map(|s| s.to_string()),
        Err(_) => None,
    }
}

/// Relies on `serde_json::from_str::<Value>`, `Value::get("pingInterval")`
/// and `Value::as_u64`: hands back the `pingInterval` field of the JSON
/// object `payload` parses to, when that field is an unsigned integer. The
/// result is a function of the characters of `payload` alone.
#[verifier::external_body]
pub(crate) fn parse_ping_interval(payload: &str) -> (r: Option<u64>)
    ensures
        r == json_ping_interval(payload@),
{
    match serde_json::from_str::<serde_json::Value>(payload) {
        Ok(value) => value.get("pingInterval").and_then(|e| e.as_u64()),
        Err(_) => None,
    }
}

} // verus!
