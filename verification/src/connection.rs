//! The connection protocol: the fixed wire messages, the frame and cadence
//! constants, and the heartbeat deadline.
//!
//! The socket itself lives outside the library; this module holds the
//! decisions.  Any transport-level error is unrecoverable by design: the
//! caller terminates rather than retry.

use vstd::prelude::*;

verus! {

/// Milliseconds between keep-alive messages.
pub const HEARTBEAT_INTERVAL_MS: u64 = 2000;

/// The most bytes one datagram may carry; larger datagrams are truncated
/// by the receive call.
pub const MAX_FRAME_BYTES: usize = 8192;

/// Milliseconds the dashboard loop sleeps after each full tick (roughly a
/// 60 Hz target).
pub const POLLING_INTERVAL_MS: u64 = 16;

/// The fixed request sent to the peer once, at handshake.
pub fn handshake_request() -> (s: &'static str)
    ensures
        s@ == "Give me the data!"@,
{
    "Give me the data!"
}

/// The fixed keep-alive message sent whenever the heartbeat interval has
/// elapsed.
pub fn keepalive_message() -> (s: &'static str)
    ensures
        s@ == "I'm alive!"@,
{
    "I'm alive!"
}

/// The heartbeat deadline of a connection: when the last keep-alive went
/// out, in milliseconds of some monotone reference clock.
#[derive(Clone, Copy, PartialEq, Eq, Structural, Debug)]
pub struct HeartbeatClock {
    pub last_sent_ms: u64,
}

impl HeartbeatClock {
    /// Whether a keep-alive is due at `now`: strictly more than the
    /// interval has passed since the last send.
    pub open spec fn spec_due(self, now: int) -> bool {
        now - self.last_sent_ms > HEARTBEAT_INTERVAL_MS
    }

    /// The clock after one keep-alive check at `now`.
    pub open spec fn spec_after_poll(self, now: u64) -> HeartbeatClock {
        if self.spec_due(now as int) {
            HeartbeatClock { last_sent_ms: now }
        } else {
            self
        }
    }

    /// A fresh clock, as if a keep-alive had just gone out at `now_ms`.
    pub fn new(now_ms: u64) -> (c: HeartbeatClock)
        ensures
            c.last_sent_ms == now_ms,
    {
        HeartbeatClock { last_sent_ms: now_ms }
    }

    /// One keep-alive check: reports whether a keep-alive must be sent
    /// now and, exactly when one is due, resets the deadline to `now_ms`.
    /// The caller sends the message; a send failure is fatal to it, so the
    /// deadline moves with the decision.
    pub fn poll_keepalive(&mut self, now_ms: u64) -> (due: bool)
        ensures
            due == old(self).spec_due(now_ms as int),
            *final(self) == old(self).spec_after_poll(now_ms),
    {
        if now_ms > self.last_sent_ms && now_ms - self.last_sent_ms > HEARTBEAT_INTERVAL_MS {
            self.last_sent_ms = now_ms;
            true
        } else {
            false
        }
    }
}

/// Two keep-alive checks within one interval of each other send at most
/// one keep-alive message: if the first check sends, the second cannot.
pub proof fn lemma_keepalive_at_most_one(clock: HeartbeatClock, t1: u64, t2: u64)
    requires
        t1 <= t2,
        t2 - t1 <= HEARTBEAT_INTERVAL_MS,
    ensures
        !(clock.spec_due(t1 as int) && clock.spec_after_poll(t1).spec_due(t2 as int)),
{
}

} // verus!
