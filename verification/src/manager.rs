//! Connection manager: the supervisor owning zero or one session at a time.
//!
//! The manager is a state machine over `Connecting`, `Active`, `Backoff` and
//! `Terminal`. Every connect failure and every session death that was not
//! asked for leads through one fixed backoff delay into the next connect
//! attempt, without bound — the manager never gives up. A shutdown request
//! wins over everything: whatever the state, the next step is terminal and
//! nothing is emitted from then on. The surrounding I/O shell drives `step`
//! with the events it observes and performs what the returned effect and the
//! new state ask: write a frame, forward a control message, open a
//! transport, wait out the delay, or exit.

use vstd::prelude::*;

use crate::TaskMessage;
use crate::codec::Frame;
use crate::heartbeat::{HeartbeatState, TickAction};
use crate::session::{event_signal, negotiated_interval, spec_event_signal, spec_negotiated_interval};

verus! {

/// The supervisor's state: it owns one session exactly when `Active`.
#[derive(Clone, Copy, Debug, PartialEq, Eq, Structural)]
pub enum ManagerState {
    /// A connect attempt is in flight.
    Connecting,
    /// One session lives; its heartbeat bookkeeping is here.
    Active { heartbeat: HeartbeatState },
    /// Waiting out the fixed delay before the next attempt.
    Backoff,
    /// Shut down; no further attempt is ever made.
    Terminal,
}

/// One observation delivered to the manager.
pub enum ManagerEvent {
    /// A connect attempt got its first inbound frame, already decoded.
    ConnectSucceeded { handshake: Frame },
    /// A connect attempt failed to establish transport, join or handshake.
    ConnectFailed,
    /// The backoff delay ran out.
    DelayElapsed,
    /// The live session read one frame, already decoded.
    FrameReceived { frame: Frame },
    /// The live session's transport failed on read or write.
    ReadFailed,
    /// The live session's transport reported end of stream.
    ReadClosed,
    /// The live session's heartbeat timer fired.
    HeartbeatTick,
    /// The application asked for a graceful stop.
    ShutdownRequested,
}

/// What one step asks the I/O shell to do: at most one frame to write and
/// one control message to forward.
#[derive(Debug)]
pub struct StepEffect {
    /// Frame to write to the transport, best-effort on every closing path.
    pub send: Option<Frame>,
    /// Control message for the application.
    pub emit: Option<TaskMessage>,
}

/// The effect of a step that neither writes nor forwards anything.
pub open spec fn no_effect() -> StepEffect {
    StepEffect { send: None, emit: None }
}

/// The manager's transition function: next state and effect of one event.
pub open spec fn spec_step(s: ManagerState, e: ManagerEvent) -> (ManagerState, StepEffect) {
    if s is Terminal {
        (ManagerState::Terminal, no_effect())
    } else if e is ShutdownRequested {
        (
            ManagerState::Terminal,
            StepEffect {
                send: if s is Active {
                    Some(Frame::Close)
                } else {
                    None
                },
                emit: None,
            },
        )
    } else {
        match s {
            ManagerState::Connecting => match e {
                ManagerEvent::ConnectSucceeded { handshake } => (
                    ManagerState::Active {
                        heartbeat: HeartbeatState {
                            interval_ms: spec_negotiated_interval(handshake@),
                            awaiting_pong: false,
                        },
                    },
                    no_effect(),
                ),
                ManagerEvent::ConnectFailed => (ManagerState::Backoff, no_effect()),
                _ => (s, no_effect()),
            },
            ManagerState::Backoff => match e {
                ManagerEvent::DelayElapsed => (ManagerState::Connecting, no_effect()),
                _ => (s, no_effect()),
            },
            ManagerState::Active { heartbeat } => match e {
                ManagerEvent::FrameReceived { frame } => match frame {
                    Frame::Pong => (
                        ManagerState::Active {
                            heartbeat: HeartbeatState { awaiting_pong: false, ..heartbeat },
                        },
                        no_effect(),
                    ),
                    Frame::Event { name, payload } => (
                        s,
                        StepEffect { send: None, emit: spec_event_signal(name@) },
                    ),
                    _ => (s, no_effect()),
                },
                ManagerEvent::HeartbeatTick => if heartbeat.awaiting_pong {
                    (ManagerState::Backoff, StepEffect { send: Some(Frame::Close), emit: None })
                } else {
                    (
                        ManagerState::Active {
                            heartbeat: HeartbeatState { awaiting_pong: true, ..heartbeat },
                        },
                        StepEffect { send: Some(Frame::Ping), emit: None },
                    )
                },
                ManagerEvent::ReadFailed => (
                    ManagerState::Backoff,
                    StepEffect { send: Some(Frame::Close), emit: None },
                ),
                ManagerEvent::ReadClosed => (
                    ManagerState::Backoff,
                    StepEffect { send: Some(Frame::Close), emit: None },
                ),
                _ => (s, no_effect()),
            },
            ManagerState::Terminal => (s, no_effect()),
        }
    }
}

/// Advances the manager by one observed event and hands back what the I/O
/// shell must do. The new state itself directs the shell's next wait: open a
/// transport in `Connecting`, run the session's three-way wait in `Active`,
/// sleep the fixed delay in `Backoff`, exit in `Terminal`.
pub fn step(state: &mut ManagerState, event: ManagerEvent) -> (eff: StepEffect)
    ensures
        (*final(state), eff) == spec_step(*old(state), event),
{
    let s = *state;
    match (s, event) {
        (ManagerState::Terminal, _) => StepEffect { send: None, emit: None },
        (ManagerState::Active { heartbeat: _ }, ManagerEvent::ShutdownRequested) => {
            *state = ManagerState::Terminal;
            StepEffect { send: Some(Frame::Close), emit: None }
        }
        (_, ManagerEvent::ShutdownRequested) => {
            *state = ManagerState::Terminal;
            StepEffect { send: None, emit: None }
        }
        (ManagerState::Connecting, ManagerEvent::ConnectSucceeded { handshake }) => {
            let interval = negotiated_interval(&handshake);
            *state = ManagerState::Active { heartbeat: HeartbeatState::new(interval) };
            StepEffect { send: None, emit: None }
        }
        (ManagerState::Connecting, ManagerEvent::ConnectFailed) => {
            *state = ManagerState::Backoff;
            StepEffect { send: None, emit: None }
        }
        (ManagerState::Backoff, ManagerEvent::DelayElapsed) => {
            *state = ManagerState::Connecting;
            StepEffect { send: None, emit: None }
        }
        (ManagerState::Active { heartbeat }, ManagerEvent::FrameReceived { frame }) => {
            match frame {
                Frame::Pong => {
                    let mut hb = heartbeat;
                    hb.on_pong();
                    *state = ManagerState::Active { heartbeat: hb };
                    StepEffect { send: None, emit: None }
                }
                Frame::Event { name, payload: _ } => {
                    StepEffect { send: None, emit: event_signal(&name) }
                }
                _ => StepEffect { send: None, emit: None },
            }
        }
        (ManagerState::Active { heartbeat }, ManagerEvent::HeartbeatTick) => {
            let mut hb = heartbeat;
            match hb.on_tick() {
                TickAction::SendPing => {
                    *state = ManagerState::Active { heartbeat: hb };
                    StepEffect { send: Some(Frame::Ping), emit: None }
                }
                TickAction::TimedOut => {
                    *state = ManagerState::Backoff;
                    StepEffect { send: Some(Frame::Close), emit: None }
                }
            }
        }
        (ManagerState::Active { heartbeat: _ }, ManagerEvent::ReadFailed) => {
            *state = ManagerState::Backoff;
            StepEffect { send: Some(Frame::Close), emit: None }
        }
        (ManagerState::Active { heartbeat: _ }, ManagerEvent::ReadClosed) => {
            *state = ManagerState::Backoff;
            StepEffect { send: Some(Frame::Close), emit: None }
        }
        (_, _) => StepEffect { send: None, emit: None },
    }
}

/// The state a run of events leaves the manager in, starting from `s0`.
pub open spec fn state_after(s0: ManagerState, evs: Seq<ManagerEvent>) -> ManagerState
    decreases evs.len(),
{
    if evs.len() == 0 {
        s0
    } else {
        spec_step(state_after(s0, evs.drop_last()), evs.last()).0
    }
}

/// The effect of the step that consumes `evs[i]` in a run from `s0`.
pub open spec fn effect_at(s0: ManagerState, evs: Seq<ManagerEvent>, i: int) -> StepEffect {
    spec_step(state_after(s0, evs.take(i)), evs[i]).1
}

/// Connect attempts a run resolves: one for each connect result delivered
/// while the manager stands in `Connecting`.
pub open spec fn connect_attempts(s0: ManagerState, evs: Seq<ManagerEvent>) -> nat
    decreases evs.len(),
{
    if evs.len() == 0 {
        0
    } else {
        connect_attempts(s0, evs.drop_last()) + (if state_after(s0, evs.drop_last()) is Connecting
            && (evs.last() is ConnectSucceeded || evs.last() is ConnectFailed) {
            1 as nat
        } else {
            0 as nat
        })
    }
}

/// Runs compose: the state and attempt count of a concatenated run come from
/// running the two halves in order.
pub proof fn lemma_run_append(s0: ManagerState, a: Seq<ManagerEvent>, b: Seq<ManagerEvent>)
    ensures
        state_after(s0, a + b) == state_after(state_after(s0, a), b),
        connect_attempts(s0, a + b) == connect_attempts(s0, a) + connect_attempts(
            state_after(s0, a),
            b,
        ),
    decreases b.len(),
{
    if b.len() == 0 {
        assert(a + b =~= a);
    } else {
        lemma_run_append(s0, a, b.drop_last());
        assert((a + b).drop_last() =~= a + b.drop_last());
    }
}

/// A shutdown request moves every state to `Terminal` in one step without
/// emitting anything, and `Terminal` absorbs every further event.
pub proof fn lemma_shutdown_immediate(s: ManagerState, e: ManagerEvent)
    ensures
        spec_step(s, ManagerEvent::ShutdownRequested).0 is Terminal,
        spec_step(s, ManagerEvent::ShutdownRequested).1.emit is None,
        spec_step(ManagerState::Terminal, e).0 is Terminal,
        spec_step(ManagerState::Terminal, e).1 == no_effect(),
{
}

/// Shutdown priority: from the step that observes a shutdown request on, the
/// manager is terminal and no further queue or history notification is ever
/// emitted, whatever events still arrive.
pub proof fn lemma_shutdown_priority(s0: ManagerState, evs: Seq<ManagerEvent>, i: int, j: int)
    requires
        0 <= i <= j < evs.len(),
        evs[i] is ShutdownRequested,
    ensures
        state_after(s0, evs.take(j + 1)) is Terminal,
        effect_at(s0, evs, j).emit is None,
    decreases j - i,
{
    assert(evs.take(j + 1).drop_last() =~= evs.take(j));
    if i < j {
        lemma_shutdown_priority(s0, evs, i, j - 1);
    }
}

/// The only way back into `Connecting` is out of `Backoff` through an
/// elapsed delay: every connect attempt after the first is preceded by the
/// fixed wait, whatever ended the one before it.
pub proof fn lemma_delay_precedes_retry(s: ManagerState, e: ManagerEvent)
    ensures
        spec_step(s, e).0 is Connecting && !(s is Connecting) ==> s is Backoff
            && e is DelayElapsed,
{
}

/// The alternating run of `n` failed connect attempts, each followed by the
/// backoff delay, closed by one success.
pub open spec fn retry_trace(n: nat, handshake: Frame) -> Seq<ManagerEvent>
    decreases n,
{
    if n == 0 {
        seq![ManagerEvent::ConnectSucceeded { handshake }]
    } else {
        seq![ManagerEvent::ConnectFailed, ManagerEvent::DelayElapsed] + retry_trace(
            (n - 1) as nat,
            handshake,
        )
    }
}

/// Reconnect law: when the first `n` connect attempts fail and the next one
/// succeeds, the manager resolves exactly `n + 1` attempts — one backoff
/// delay between each consecutive pair, as the trace spells out — and ends
/// with a live session.
pub proof fn lemma_reconnect_attempts(n: nat, handshake: Frame)
    ensures
        state_after(ManagerState::Connecting, retry_trace(n, handshake)) is Active,
        connect_attempts(ManagerState::Connecting, retry_trace(n, handshake)) == n + 1,
    decreases n,
{
    if n == 0 {
        let evs = retry_trace(0, handshake);
        assert(evs =~= seq![ManagerEvent::ConnectSucceeded { handshake }]);
        assert(evs.drop_last() =~= Seq::<ManagerEvent>::empty());
        assert(evs.last() == (ManagerEvent::ConnectSucceeded { handshake }));
        assert(state_after(ManagerState::Connecting, Seq::<ManagerEvent>::empty())
            == ManagerState::Connecting);
        assert(connect_attempts(ManagerState::Connecting, Seq::<ManagerEvent>::empty()) == 0);
    } else {
        let pre = seq![ManagerEvent::ConnectFailed, ManagerEvent::DelayElapsed];
        let one = seq![ManagerEvent::ConnectFailed];
        let rest = retry_trace((n - 1) as nat, handshake);
        assert(pre.drop_last() =~= one);
        assert(one.drop_last() =~= Seq::<ManagerEvent>::empty());
        assert(one.last() == ManagerEvent::ConnectFailed);
        assert(pre.last() == ManagerEvent::DelayElapsed);
        assert(state_after(ManagerState::Connecting, Seq::<ManagerEvent>::empty())
            == ManagerState::Connecting);
        assert(connect_attempts(ManagerState::Connecting, Seq::<ManagerEvent>::empty()) == 0);
        assert(state_after(ManagerState::Connecting, one) == ManagerState::Backoff);
        assert(state_after(ManagerState::Connecting, pre) == ManagerState::Connecting);
        assert(connect_attempts(ManagerState::Connecting, one) == 1);
        assert(connect_attempts(ManagerState::Connecting, pre) == 1);
        lemma_run_append(ManagerState::Connecting, pre, rest);
        lemma_reconnect_attempts((n - 1) as nat, handshake);
        assert(retry_trace(n, handshake) == pre + rest);
    }
}

} // verus!
