//! Frame codec for the wire sub-protocol.
//!
//! A raw frame is a UTF-8 string whose first one or two characters are a type
//! tag: `0` opens a handshake acknowledgement, `1` is a close, `2` a ping,
//! `3` a pong, and `4` followed by `2` an event carrying a JSON array whose
//! first element is the event name. Decoding is total: every string maps to
//! exactly one frame, and malformed input becomes `Unknown` (or a handshake
//! acknowledgement with the default interval) rather than an error.

use vstd::prelude::*;

use crate::payload::{json_event_name, json_ping_interval, parse_event_name, parse_ping_interval};

verus! {

/// Heartbeat interval assumed when a handshake carries no usable one, in
/// milliseconds.
pub const DEFAULT_HEARTBEAT_INTERVAL_MS: u64 = 1000;

/// A decoded unit from the wire.
#[derive(Clone, Debug)]
pub enum Frame {
    /// First frame of a session; negotiates the heartbeat interval.
    HandshakeAck { heartbeat_interval_ms: u64 },
    /// Either side asks to close the link.
    Close,
    /// Heartbeat probe.
    Ping,
    /// Heartbeat answer.
    Pong,
    /// An application event: `name` is the first element of the JSON array
    /// `payload`, the rest of the array is opaque to the core.
    Event { name: String, payload: String },
    /// Anything unrecognised; consumed and otherwise ignored.
    Unknown,
}

/// The mathematical model of a frame: the same shape, with text as character
/// sequences.
pub enum FrameModel {
    HandshakeAck { heartbeat_interval_ms: u64 },
    Close,
    Ping,
    Pong,
    Event { name: Seq<char>, payload: Seq<char> },
    Unknown,
}

impl View for Frame {
    type V = FrameModel;

    open spec fn view(&self) -> FrameModel {
        match self {
            Frame::HandshakeAck { heartbeat_interval_ms } => FrameModel::HandshakeAck {
                heartbeat_interval_ms: *heartbeat_interval_ms,
            },
            Frame::Close => FrameModel::Close,
            Frame::Ping => FrameModel::Ping,
            Frame::Pong => FrameModel::Pong,
            Frame::Event { name, payload } => FrameModel::Event {
                name: name@,
                payload: payload@,
            },
            Frame::Unknown => FrameModel::Unknown,
        }
    }
}

impl PartialEq for Frame {
    fn eq(&self, other: &Frame) -> (r: bool) {
        match (self, other) {
            (
                Frame::HandshakeAck { heartbeat_interval_ms: a },
                Frame::HandshakeAck { heartbeat_interval_ms: b },
            ) => *a == *b,
            (Frame::Close, Frame::Close) => true,
            (Frame::Ping, Frame::Ping) => true,
            (Frame::Pong, Frame::Pong) => true,
            (
                Frame::Event { name: n1, payload: p1 },
                Frame::Event { name: n2, payload: p2 },
            ) => *n1 == *n2 && *p1 == *p2,
            (Frame::Unknown, Frame::Unknown) => true,
            _ => false,
        }
    }
}

impl vstd::std_specs::cmp::PartialEqSpecImpl for Frame {
    open spec fn obeys_eq_spec() -> bool {
        true
    }

    open spec fn eq_spec(&self, other: &Frame) -> bool {
        self@ == other@
    }
}

/// The heartbeat interval a handshake payload negotiates: its `pingInterval`
/// field when that can be read, the default otherwise.
pub open spec fn interval_of_handshake(payload: Seq<char>) -> u64 {
    match json_ping_interval(payload) {
        Some(interval) => interval,
        None => DEFAULT_HEARTBEAT_INTERVAL_MS,
    }
}

/// What `decode` returns on a raw frame text: the unique frame each string
/// maps to.
pub open spec fn spec_decode(s: Seq<char>) -> FrameModel {
    if s.len() == 0 {
        FrameModel::Unknown
    } else if s[0] == '0' {
        FrameModel::HandshakeAck {
            heartbeat_interval_ms: interval_of_handshake(s.subrange(1, s.len() as int)),
        }
    } else if s.len() == 1 && s[0] == '1' {
        FrameModel::Close
    } else if s.len() == 1 && s[0] == '2' {
        FrameModel::Ping
    } else if s.len() == 1 && s[0] == '3' {
        FrameModel::Pong
    } else if s.len() >= 2 && s[0] == '4' && s[1] == '2' {
        match json_event_name(s.subrange(2, s.len() as int)) {
            Some(name) => FrameModel::Event {
                name,
                payload: s.subrange(2, s.len() as int),
            },
            None => FrameModel::Unknown,
        }
    } else {
        FrameModel::Unknown
    }
}

/// Decodes one raw frame. Total: never fails, never panics; anything that
/// carries no recognised tag or an unreadable event payload comes back as
/// `Unknown`, and a handshake with an unreadable payload comes back with the
/// default interval.
pub fn decode(raw: &str) -> (f: Frame)
    ensures
        f@ == spec_decode(raw@),
{
    let n = raw.unicode_len();
    if n == 0 {
        return Frame::Unknown;
    }
    let c0 = raw.get_char(0);
    if c0 == '0' {
        let rest = raw.substring_char(1, n);
        let interval = match parse_ping_interval(rest) {
            Some(interval) => interval,
            None => DEFAULT_HEARTBEAT_INTERVAL_MS,
        };
        Frame::HandshakeAck { heartbeat_interval_ms: interval }
    } else if n == 1 && c0 == '1' {
        Frame::Close
    } else if n == 1 && c0 == '2' {
        Frame::Ping
    } else if n == 1 && c0 == '3' {
        Frame::Pong
    } else if n >= 2 && c0 == '4' && raw.get_char(1) == '2' {
        let rest = raw.substring_char(2, n);
        match parse_event_name(rest) {
            Some(name) => Frame::Event { name, payload: rest.to_owned() },
            None => Frame::Unknown,
        }
    } else {
        Frame::Unknown
    }
}

/// What `encode` returns on a frame: the literal tag character for the three
/// control frames, the event prefix followed by the payload for an event,
/// and nothing for the frames the protocol never sends.
pub open spec fn spec_encode(f: FrameModel) -> Option<Seq<char>> {
    match f {
        FrameModel::Close => Some(seq!['1']),
        FrameModel::Ping => Some(seq!['2']),
        FrameModel::Pong => Some(seq!['3']),
        FrameModel::Event { name, payload } => Some(seq!['4', '2'] + payload),
        FrameModel::HandshakeAck { .. } => None,
        FrameModel::Unknown => None,
    }
}

/// Encodes a frame for the wire. `Close`, `Ping` and `Pong` become their
/// single tag character, an event becomes the two-character prefix followed
/// by its JSON array payload; handshake acknowledgements and unknown frames
/// are never sent and encode to `None`.
pub fn encode(f: &Frame) -> (r: Option<String>)
    ensures
        match r {
            Some(s) => spec_encode(f@) == Some(s@),
            None => spec_encode(f@) is None,
        },
{
    match f {
        Frame::Close => {
            let s = "1".to_owned();
            proof {
                reveal_strlit("1");
                assert(s@ =~= seq!['1']);
            }
            Some(s)
        }
        Frame::Ping => {
            let s = "2".to_owned();
            proof {
                reveal_strlit("2");
                assert(s@ =~= seq!['2']);
            }
            Some(s)
        }
        Frame::Pong => {
            let s = "3".to_owned();
            proof {
                reveal_strlit("3");
                assert(s@ =~= seq!['3']);
            }
            Some(s)
        }
        Frame::Event { name: _, payload } => {
            let mut s = "42".to_owned();
            s.append(payload.as_str());
            proof {
                reveal_strlit("42");
                assert("42"@ =~= seq!['4', '2']);
                assert(s@ =~= seq!['4', '2'] + payload@);
            }
            Some(s)
        }
        Frame::HandshakeAck { .. } => None,
        Frame::Unknown => None,
    }
}

/// An event frame is well formed when its name really is the first element
/// of its payload's JSON array; the other frames carry nothing to get wrong.
pub open spec fn wf_frame(f: FrameModel) -> bool {
    match f {
        FrameModel::Event { name, payload } => json_event_name(payload) == Some(name),
        _ => true,
    }
}

/// Round trip: decoding an encoded frame reproduces the frame, for every
/// well-formed frame the protocol sends (`Close`, `Ping`, `Pong` and events
/// whose payload names them).
pub proof fn lemma_codec_round_trip(f: FrameModel)
    ensures
        wf_frame(f) && spec_encode(f) is Some ==> spec_decode(spec_encode(f)->Some_0) == f,
{
    if wf_frame(f) && spec_encode(f) is Some {
        let s = spec_encode(f)->Some_0;
        match f {
            FrameModel::Close => {
                assert(spec_decode(s) == f);
            }
            FrameModel::Ping => {
                assert(spec_decode(s) == f);
            }
            FrameModel::Pong => {
                assert(spec_decode(s) == f);
            }
            FrameModel::Event { name, payload } => {
                assert(s.subrange(2, s.len() as int) =~= payload);
                assert(spec_decode(s) == f);
            }
            _ => {}
        }
    }
}

/// Malformed input never fails decoding: an empty string, a string with no
/// recognised tag, an event prefix over an unreadable payload all decode to
/// `Unknown`, and a handshake over an unreadable payload decodes to the
/// default interval.
pub proof fn lemma_decode_malformed(s: Seq<char>)
    ensures
        s.len() == 0 ==> spec_decode(s) == FrameModel::Unknown,
        s.len() >= 1 && s[0] != '0' && s[0] != '1' && s[0] != '2' && s[0] != '3' && s[0] != '4'
            ==> spec_decode(s) == FrameModel::Unknown,
        s.len() >= 2 && (s[0] == '1' || s[0] == '2' || s[0] == '3') ==> spec_decode(s)
            == FrameModel::Unknown,
        s.len() >= 1 && s[0] == '4' && (s.len() == 1 || s[1] != '2') ==> spec_decode(s)
            == FrameModel::Unknown,
        s.len() >= 2 && s[0] == '4' && s[1] == '2' && json_event_name(
            s.subrange(2, s.len() as int),
        ) is None ==> spec_decode(s) == FrameModel::Unknown,
        s.len() >= 1 && s[0] == '0' && json_ping_interval(s.subrange(1, s.len() as int)) is None
            ==> spec_decode(s) == (FrameModel::HandshakeAck {
            heartbeat_interval_ms: DEFAULT_HEARTBEAT_INTERVAL_MS,
        }),
{
}

} // verus!

