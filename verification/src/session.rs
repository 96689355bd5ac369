//! Session-level rules: what one live link negotiates and forwards.
//!
//! A session begins with a join event naming the configured room, then waits
//! for exactly one inbound frame. When that frame is a handshake
//! acknowledgement the session arms its heartbeat at the negotiated
//! interval; any other or malformed first frame leaves the default interval,
//! never aborts the attempt. For the rest of its life the session forwards
//! the two recognised application events as control messages and consumes
//! every other frame internally.

use vstd::prelude::*;

use crate::TaskMessage;
use crate::codec::{DEFAULT_HEARTBEAT_INTERVAL_MS, Frame, FrameModel};

verus! {

/// The fixed delay between a session's end and the next connect attempt, in
/// milliseconds. Applied after every non-shutdown termination; never grows,
/// never gives up.
pub const RECONNECT_DELAY_MS: u64 = 5000;

/// The heartbeat interval a session arms after its first inbound frame: the
/// handshake's value when the frame is a handshake acknowledgement, the
/// default otherwise.
pub open spec fn spec_negotiated_interval(f: FrameModel) -> u64 {
    match f {
        FrameModel::HandshakeAck { heartbeat_interval_ms } => heartbeat_interval_ms,
        _ => DEFAULT_HEARTBEAT_INTERVAL_MS,
    }
}

/// Reads the heartbeat interval off the first inbound frame of a session.
pub fn negotiated_interval(f: &Frame) -> (interval: u64)
    ensures
        interval == spec_negotiated_interval(f@),
{
    match f {
        Frame::HandshakeAck { heartbeat_interval_ms } => *heartbeat_interval_ms,
        _ => DEFAULT_HEARTBEAT_INTERVAL_MS,
    }
}

/// The control message an inbound event name produces: the two recognised
/// names are forwarded, every other name is decoded but not acted upon.
pub open spec fn spec_event_signal(name: Seq<char>) -> Option<TaskMessage> {
    if name == "queue-update"@ {
        Some(TaskMessage::SongQueueUpdate)
    } else if name == "new-playhistory"@ {
        Some(TaskMessage::SongHistoryUpdate)
    } else {
        None
    }
}

/// Classifies an inbound event name.
pub fn event_signal(name: &String) -> (r: Option<TaskMessage>)
    ensures
        r == spec_event_signal(name@),
{
    let queue_name = "queue-update".to_owned();
    let history_name = "new-playhistory".to_owned();
    if *name == queue_name {
        Some(TaskMessage::SongQueueUpdate)
    } else if *name == history_name {
        Some(TaskMessage::SongHistoryUpdate)
    } else {
        None
    }
}

/// The join event sent right after the transport opens, naming the
/// configured room.
pub fn join_frame() -> (s: String)
    ensures
        s@ == "42[\"join-room\",\"7325\"]"@,
{
    "42[\"join-room\",\"7325\"]".to_owned()
}

} // verus!
