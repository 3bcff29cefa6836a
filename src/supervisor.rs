//! The connection supervisor: the decisions of the reconnect loop, from the events
//! that the transport reports to the waits that the loop performs.
use vstd::arithmetic::power2::{lemma2_to64, lemma_pow2_strictly_increases, lemma_pow2_unfold, pow2};
use vstd::prelude::*;

verus! {

/// The first wait after a failed connection attempt, in milliseconds.
pub const BACKOFF_BASE_MS: u64 = 125;

/// The longest wait between two connection attempts, in milliseconds.
pub const BACKOFF_CAP_MS: u64 = 30_000;

/// The wait after a connection ends, before connecting again, in milliseconds.
pub const RECONNECT_COOLDOWN_MS: u64 = 5_000;

/// The wait after the failed attempt that follows `failures` earlier failed ones:
/// the base doubled that many times, capped.
pub open spec fn backoff_delay(failures: nat) -> nat {
    let d = (BACKOFF_BASE_MS * pow2(failures)) as nat;
    if d < BACKOFF_CAP_MS {
        d
    } else {
        BACKOFF_CAP_MS as nat
    }
}

/// Where the supervisor stands in the life of a connection.
#[derive(Debug, Clone, Copy, PartialEq, Eq, Structural)]
pub enum Phase {
    /// Trying to open the upstream connection.
    Connecting,
    /// A live connection is handed to the pump.
    Streaming,
}

/// How a live connection ended.
#[derive(Debug, Clone, PartialEq)]
pub enum Termination {
    /// The upstream ended the stream.
    Closed,
    /// A transport or protocol error, as its message.
    Failed(String),
}

/// The state of the reconnect loop.
pub struct Supervisor {
    phase: Phase,
    backoff_ms: u64,
    failures: Ghost<nat>,
}

impl Supervisor {
    /// The current phase.
    pub closed spec fn spec_phase(&self) -> Phase {
        self.phase
    }

    /// The number of failed attempts since the current connecting phase began.
    pub closed spec fn failures(&self) -> nat {
        self.failures@
    }

    /// The wait kept for the next failure matches the failures counted so far.
    pub closed spec fn wf(&self) -> bool {
        self.backoff_ms == backoff_delay(self.failures@)
    }

    /// A supervisor about to make its first connection attempt.
    pub fn new() -> (s: Self)
        ensures
            s.wf(),
            s.spec_phase() == Phase::Connecting,
            s.failures() == 0,
    {
        proof {
            lemma2_to64();
        }
        Supervisor { phase: Phase::Connecting, backoff_ms: BACKOFF_BASE_MS, failures: Ghost(0) }
    }

    /// The current phase.
    pub fn phase(&self) -> (p: Phase)
        ensures
            p == self.spec_phase(),
    {
        self.phase
    }

    /// A connection attempt failed: returns how long to wait before the next one,
    /// and doubles the next wait up to the cap.
    pub fn on_connect_failed(&mut self) -> (wait_ms: u64)
        requires
            old(self).wf(),
            old(self).spec_phase() == Phase::Connecting,
        ensures
            final(self).wf(),
            final(self).spec_phase() == Phase::Connecting,
            final(self).failures() == old(self).failures() + 1,
            wait_ms == backoff_delay(old(self).failures()),
    {
        let wait_ms = self.backoff_ms;
        proof {
            lemma_next_delay(self.failures@);
        }
        self.backoff_ms = if wait_ms * 2 < BACKOFF_CAP_MS {
            wait_ms * 2
        } else {
            BACKOFF_CAP_MS
        };
        self.failures = Ghost(self.failures@ + 1);
        wait_ms
    }

    /// The connection is open: it goes to the pump.
    pub fn on_connected(&mut self)
        requires
            old(self).wf(),
            old(self).spec_phase() == Phase::Connecting,
        ensures
            final(self).wf(),
            final(self).spec_phase() == Phase::Streaming,
            final(self).failures() == old(self).failures(),
    {
        self.phase = Phase::Streaming;
    }

    /// The connection ended, cleanly or not: returns the cool-down to wait before
    /// connecting again, and starts a fresh connecting phase at the base wait.
    pub fn on_stream_ended(&mut self, reason: &Termination) -> (cooldown_ms: u64)
        requires
            old(self).wf(),
            old(self).spec_phase() == Phase::Streaming,
        ensures
            final(self).wf(),
            final(self).spec_phase() == Phase::Connecting,
            final(self).failures() == 0,
            cooldown_ms == RECONNECT_COOLDOWN_MS,
    {
        proof {
            lemma2_to64();
        }
        self.phase = Phase::Connecting;
        self.backoff_ms = BACKOFF_BASE_MS;
        self.failures = Ghost(0);
        RECONNECT_COOLDOWN_MS
    }
}

/// Each wait is the previous one doubled, up to the cap.
proof fn lemma_next_delay(k: nat)
    ensures
        backoff_delay(k + 1) == (if 2 * backoff_delay(k) < BACKOFF_CAP_MS {
            2 * backoff_delay(k)
        } else {
            BACKOFF_CAP_MS as nat
        }),
        backoff_delay(k) <= BACKOFF_CAP_MS,
{
    lemma_pow2_unfold(k + 1);
    assert(pow2(k + 1) == 2 * pow2(k));
    assert(BACKOFF_BASE_MS * pow2(k + 1) == 2 * (BACKOFF_BASE_MS * pow2(k)));
}

/// From a cold start the waits are 125, 250, 500, 1000, 2000, 4000, 8000 and 16000
/// milliseconds, then 30000 for every later failure until a connection succeeds.
pub proof fn lemma_backoff_schedule(k: nat)
    ensures
        backoff_delay(k) == (if k < 8 {
            BACKOFF_BASE_MS * pow2(k)
        } else {
            BACKOFF_CAP_MS as int
        }),
        backoff_delay(0) == 125,
        backoff_delay(1) == 250,
        backoff_delay(2) == 500,
        backoff_delay(3) == 1000,
        backoff_delay(4) == 2000,
        backoff_delay(5) == 4000,
        backoff_delay(6) == 8000,
        backoff_delay(7) == 16000,
        k >= 8 ==> backoff_delay(k) == 30000,
{
    lemma2_to64();
    if k > 8 {
        lemma_pow2_strictly_increases(8, k);
    }
}

} // verus!
