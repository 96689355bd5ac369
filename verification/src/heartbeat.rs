//! Heartbeat policy: one ping per timer tick, one miss and the link is dead.
//!
//! At most one ping is outstanding at a time. A tick that finds no ping
//! outstanding sends a new one; a tick that finds the previous ping still
//! unanswered declares the link dead on exactly that tick — no grace period,
//! no retry count. A pong clears the outstanding ping whenever it arrives;
//! one received while no ping is outstanding is a no-op.

use vstd::prelude::*;

verus! {

/// The heartbeat bookkeeping of one live session.
#[derive(Clone, Copy, Debug, PartialEq, Eq, Structural)]
pub struct HeartbeatState {
    /// Negotiated tick period in milliseconds.
    pub interval_ms: u64,
    /// Whether a ping has been sent whose pong has not arrived yet.
    pub awaiting_pong: bool,
}

/// What a timer tick decides.
#[derive(Clone, Copy, Debug, PartialEq, Eq, Structural)]
pub enum TickAction {
    /// No ping was outstanding: send a new one.
    SendPing,
    /// The previous ping is still unanswered: the link is dead.
    TimedOut,
}

impl HeartbeatState {
    /// A fresh session starts with no ping outstanding, so its first tick
    /// always sends a ping.
    pub fn new(interval_ms: u64) -> (s: Self)
        ensures
            s == (HeartbeatState { interval_ms, awaiting_pong: false }),
    {
        HeartbeatState { interval_ms, awaiting_pong: false }
    }

    /// A pong resolves the outstanding ping; when none is outstanding it
    /// changes nothing.
    pub fn on_pong(&mut self)
        ensures
            *final(self) == (HeartbeatState { awaiting_pong: false, ..*old(self) }),
    {
        self.awaiting_pong = false;
    }

    /// One timer tick: sends a ping when the previous one was answered,
    /// declares the link dead when it was not. Either way a ping counts as
    /// outstanding afterwards, so a new one is only ever sent once the
    /// previous one has been resolved.
    pub fn on_tick(&mut self) -> (a: TickAction)
        ensures
            final(self).interval_ms == old(self).interval_ms,
            final(self).awaiting_pong,
            a == (if old(self).awaiting_pong {
                TickAction::TimedOut
            } else {
                TickAction::SendPing
            }),
    {
        if self.awaiting_pong {
            TickAction::TimedOut
        } else {
            self.awaiting_pong = true;
            TickAction::SendPing
        }
    }
}

/// One observation the policy reacts to.
#[derive(Clone, Copy, Debug, PartialEq, Eq, Structural)]
pub enum HeartbeatEvent {
    /// The heartbeat timer fired.
    Tick,
    /// A pong frame arrived.
    PongArrived,
}

/// Whether a ping is outstanding after one event: a tick leaves one
/// outstanding (it either sent a fresh ping or found one unanswered), a pong
/// resolves whatever was outstanding.
pub open spec fn hb_next(awaiting: bool, e: HeartbeatEvent) -> bool {
    match e {
        HeartbeatEvent::Tick => true,
        HeartbeatEvent::PongArrived => false,
    }
}

/// Whether a ping is outstanding after a whole run of events.
pub open spec fn hb_awaiting_after(awaiting0: bool, evs: Seq<HeartbeatEvent>) -> bool
    decreases evs.len(),
{
    if evs.len() == 0 {
        awaiting0
    } else {
        hb_next(hb_awaiting_after(awaiting0, evs.drop_last()), evs.last())
    }
}

/// Whether the tick at position `i` declares the link dead: it does exactly
/// when it finds a ping still outstanding.
pub open spec fn hb_times_out_at(awaiting0: bool, evs: Seq<HeartbeatEvent>, i: int) -> bool {
    evs[i] is Tick && hb_awaiting_after(awaiting0, evs.take(i))
}

/// No pong arrives strictly between positions `lo` and `hi`.
pub open spec fn no_pong_between(evs: Seq<HeartbeatEvent>, lo: int, hi: int) -> bool {
    forall|k: int| lo < k < hi ==> !(#[trigger] evs[k] is PongArrived)
}

/// Some pong arrives strictly between positions `lo` and `hi`.
pub open spec fn pong_between(evs: Seq<HeartbeatEvent>, lo: int, hi: int) -> bool {
    exists|k: int| lo < k < hi && #[trigger] evs[k] is PongArrived
}

/// A ping is outstanding after a run exactly when some tick has no pong
/// after it — or one was outstanding from the start and no pong ever came.
pub proof fn lemma_hb_awaiting_iff(awaiting0: bool, evs: Seq<HeartbeatEvent>)
    ensures
        hb_awaiting_after(awaiting0, evs) <==> ((exists|j: int|
            0 <= j < evs.len() && evs[j] is Tick && no_pong_between(evs, j, evs.len() as int))
            || (awaiting0 && no_pong_between(evs, -1, evs.len() as int))),
{
    if evs.len() == 0 {
    } else {
        let n = evs.len() as int;
        if evs.last() is Tick {
            assert(evs[n - 1] is Tick && no_pong_between(evs, n - 1, n));
        } else {
            if exists|j: int| 0 <= j < n && evs[j] is Tick && no_pong_between(evs, j, n) {
                let j = choose|j: int| 0 <= j < n && evs[j] is Tick && no_pong_between(evs, j, n);
                assert(j != n - 1);
                assert(!(evs[n - 1] is PongArrived));
                assert(false);
            }
            if awaiting0 && no_pong_between(evs, -1, n) {
                assert(!(evs[n - 1] is PongArrived));
                assert(false);
            }
        }
    }
}

/// First half of the policy's law: when a pong arrives between every pair of
/// pings and no ping is outstanding at the start, no tick ever declares the
/// link dead.
pub proof fn lemma_hb_no_timeout(evs: Seq<HeartbeatEvent>, i: int)
    requires
        0 <= i < evs.len(),
        evs[i] is Tick,
        forall|j: int, k: int|
            0 <= j < k < evs.len() && evs[j] is Tick && evs[k] is Tick ==> #[trigger] pong_between(
                evs,
                j,
                k,
            ),
    ensures
        !hb_times_out_at(false, evs, i),
{
    let t = evs.take(i);
    lemma_hb_awaiting_iff(false, t);
    if hb_awaiting_after(false, t) {
        let j = choose|j: int| 0 <= j < t.len() && t[j] is Tick && no_pong_between(t, j, i);
        assert(t[j] == evs[j]);
        assert(pong_between(evs, j, i));
        let m = choose|k: int| j < k < i && evs[k] is PongArrived;
        assert(t[m] is PongArrived);
        assert(false);
    }
}

/// Second half of the policy's law: a tick that follows a ping with no pong
/// in between declares the link dead on exactly that tick.
pub proof fn lemma_hb_timeout_exact(awaiting0: bool, evs: Seq<HeartbeatEvent>, j: int, i: int)
    requires
        0 <= j < i < evs.len(),
        evs[j] is Tick,
        evs[i] is Tick,
        no_pong_between(evs, j, i),
    ensures
        hb_times_out_at(awaiting0, evs, i),
{
    lemma_hb_awaiting_iff(awaiting0, evs.take(i));
    assert(evs.take(i)[j] is Tick && no_pong_between(evs.take(i), j, i));
}

} // verus!
