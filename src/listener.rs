//! Lifecycle of the pairing listener.
//!
//! The caller owns the socket and runs the accept loop; before each accept it
//! asks [`PairingListener::poll`] whether to go on, and it hands every ended
//! handshake to [`PairingListener::finish`]. `stop` only flips the state, so
//! it never waits on the network; the loop sees it at its next poll.
use vstd::prelude::*;
use crate::handshake::PairingError;

verus! {

/// Pause between two accept attempts while no client is connecting, in
/// milliseconds.
pub const POLL_INTERVAL_MS: u64 = 100;

/// Where a listener stands. `Stopped` is final: a new listener is needed to
/// listen again.
#[derive(Clone, Copy, Debug, PartialEq, Eq, Structural)]
pub enum ListenerPhase {
    Created,
    Listening,
    Paired,
    TimedOut,
    Stopped,
}

/// What the accept loop does next.
#[derive(Clone, Copy, Debug, PartialEq, Eq, Structural)]
pub enum PollDecision {
    /// Try a non-blocking accept; on none pending, sleep one poll interval.
    Accept,
    /// The time allowed has passed.
    TimedOut,
    /// The listener was stopped.
    Stopped,
}

/// What a status query reports.
#[derive(Clone, Copy, Debug, PartialEq, Eq, Structural)]
pub struct TempServerStatus {
    pub running: bool,
    pub port: u16,
    pub waiting_for_pairing: bool,
}

/// The shared state of one pairing listener.
#[derive(Clone, Copy, Debug, PartialEq, Eq, Structural)]
pub struct PairingListener {
    pub port: u16,
    pub phase: ListenerPhase,
    /// The socket is bound and not stopped.
    pub running: bool,
    /// A wait for a handshake is in progress.
    pub waiting_for_pairing: bool,
}

impl PairingListener {
    pub open spec fn wf(self) -> bool {
        &&& self.running <==> (self.phase == ListenerPhase::Listening || self.phase
            == ListenerPhase::Paired || self.phase == ListenerPhase::TimedOut)
        &&& self.waiting_for_pairing ==> self.phase == ListenerPhase::Listening
    }

    pub open spec fn after_bound(self) -> PairingListener {
        if self.phase == ListenerPhase::Created {
            PairingListener { phase: ListenerPhase::Listening, running: true, ..self }
        } else {
            self
        }
    }

    pub open spec fn wait_result(self) -> Result<(), PairingError> {
        match self.phase {
            ListenerPhase::Listening | ListenerPhase::TimedOut => Ok(()),
            ListenerPhase::Paired => Err(PairingError::AlreadyPaired),
            _ => Err(PairingError::Stopped),
        }
    }

    pub open spec fn after_begin_wait(self) -> PairingListener {
        if self.wait_result() is Ok {
            PairingListener {
                phase: ListenerPhase::Listening,
                waiting_for_pairing: true,
                ..self
            }
        } else {
            self
        }
    }

    /// Whether `elapsed_ms` milliseconds are past a budget of `timeout_secs` seconds.
    pub open spec fn past(elapsed_ms: u64, timeout_secs: u64) -> bool {
        elapsed_ms as int > timeout_secs as int * 1000
    }

    pub open spec fn decision(self, elapsed_ms: u64, timeout_secs: u64) -> PollDecision {
        if Self::past(elapsed_ms, timeout_secs) {
            PollDecision::TimedOut
        } else if !self.running {
            PollDecision::Stopped
        } else {
            PollDecision::Accept
        }
    }

    pub open spec fn after_poll(self, elapsed_ms: u64, timeout_secs: u64) -> PairingListener {
        match self.decision(elapsed_ms, timeout_secs) {
            PollDecision::Accept => self,
            PollDecision::TimedOut => PairingListener {
                phase: if self.phase == ListenerPhase::Listening {
                    ListenerPhase::TimedOut
                } else {
                    self.phase
                },
                waiting_for_pairing: false,
                ..self
            },
            PollDecision::Stopped => PairingListener { waiting_for_pairing: false, ..self },
        }
    }

    pub open spec fn after_finish(self, paired: bool) -> PairingListener {
        PairingListener {
            phase: if paired && self.phase == ListenerPhase::Listening {
                ListenerPhase::Paired
            } else {
                self.phase
            },
            waiting_for_pairing: false,
            ..self
        }
    }

    pub open spec fn after_stop(self) -> PairingListener {
        PairingListener {
            phase: ListenerPhase::Stopped,
            running: false,
            waiting_for_pairing: false,
            ..self
        }
    }

    /// A listener for `port`, before its socket is bound.
    pub fn new(port: u16) -> (r: PairingListener)
        ensures
            r.wf(),
            r == (PairingListener {
                port,
                phase: ListenerPhase::Created,
                running: false,
                waiting_for_pairing: false,
            }),
    {
        PairingListener {
            port,
            phase: ListenerPhase::Created,
            running: false,
            waiting_for_pairing: false,
        }
    }

    /// Records that the socket was bound; only a listener still in `Created`
    /// starts listening.
    pub fn mark_bound(&mut self)
        requires
            old(self).wf(),
        ensures
            final(self).wf(),
            *final(self) == old(self).after_bound(),
    {
        if self.phase == ListenerPhase::Created {
            self.phase = ListenerPhase::Listening;
            self.running = true;
        }
    }

    /// Starts a wait for a handshake. It fails with `Stopped` on a listener
    /// that is not listening, and with `AlreadyPaired` once it has paired.
    pub fn begin_wait(&mut self) -> (r: Result<(), PairingError>)
        requires
            old(self).wf(),
        ensures
            final(self).wf(),
            *final(self) == old(self).after_begin_wait(),
            r is Ok <==> old(self).wait_result() is Ok,
            old(self).wait_result() matches Err(PairingError::Stopped) ==> r matches Err(PairingError::Stopped),
            old(self).wait_result() matches Err(PairingError::AlreadyPaired) ==> r matches Err(PairingError::AlreadyPaired),
    {
        match self.phase {
            ListenerPhase::Listening | ListenerPhase::TimedOut => {
                self.phase = ListenerPhase::Listening;
                self.waiting_for_pairing = true;
                Ok(())
            },
            ListenerPhase::Paired => Err(PairingError::AlreadyPaired),
            _ => Err(PairingError::Stopped),
        }
    }

    /// One check of the accept loop, `elapsed_ms` after the wait began. Past
    /// the budget the wait ends with a timeout; on a stopped listener it ends
    /// as stopped; either way the listener no longer reports waiting.
    pub fn poll(&mut self, elapsed_ms: u64, timeout_secs: u64) -> (d: PollDecision)
        requires
            old(self).wf(),
        ensures
            final(self).wf(),
            d == old(self).decision(elapsed_ms, timeout_secs),
            *final(self) == old(self).after_poll(elapsed_ms, timeout_secs),
    {
        let past = if timeout_secs <= u64::MAX / 1000 {
            elapsed_ms > timeout_secs * 1000
        } else {
            assert(timeout_secs as int * 1000 > u64::MAX) by (nonlinear_arith)
                requires timeout_secs > u64::MAX / 1000;
            false
        };
        if past {
            if self.phase == ListenerPhase::Listening {
                self.phase = ListenerPhase::TimedOut;
            }
            self.waiting_for_pairing = false;
            PollDecision::TimedOut
        } else if !self.running {
            self.waiting_for_pairing = false;
            PollDecision::Stopped
        } else {
            PollDecision::Accept
        }
    }

    /// Records the end of one handshake. The listener stops reporting
    /// waiting whatever the result; a pairing ends its listening, a failed
    /// handshake leaves it listening for another attempt.
    pub fn finish(&mut self, paired: bool)
        requires
            old(self).wf(),
        ensures
            final(self).wf(),
            *final(self) == old(self).after_finish(paired),
    {
        if paired && self.phase == ListenerPhase::Listening {
            self.phase = ListenerPhase::Paired;
        }
        self.waiting_for_pairing = false;
    }

    /// Stops the listener. Calling it again changes nothing.
    pub fn stop(&mut self)
        requires
            old(self).wf(),
        ensures
            final(self).wf(),
            *final(self) == old(self).after_stop(),
    {
        self.phase = ListenerPhase::Stopped;
        self.running = false;
        self.waiting_for_pairing = false;
    }

    pub fn port(&self) -> (r: u16)
        ensures
            r == self.port,
    {
        self.port
    }

    pub fn is_running(&self) -> (r: bool)
        ensures
            r == self.running,
    {
        self.running
    }

    /// The running flag, the port and whether a wait is in progress.
    pub fn status(&self) -> (r: TempServerStatus)
        ensures
            r == (TempServerStatus {
                running: self.running,
                port: self.port,
                waiting_for_pairing: self.waiting_for_pairing,
            }),
    {
        TempServerStatus {
            running: self.running,
            port: self.port,
            waiting_for_pairing: self.waiting_for_pairing,
        }
    }
}

/// A wait with a budget of `timeout_secs` seconds ends with a timeout no
/// earlier than the budget, and at the first poll past it. Since the loop
/// polls at least every [`POLL_INTERVAL_MS`], that poll comes no later than
/// the budget plus one interval.
pub proof fn lemma_timeout_window(s: PairingListener, elapsed_ms: u64, timeout_secs: u64)
    requires
        s.wf(),
        s.running,
    ensures
        s.decision(elapsed_ms, timeout_secs) == PollDecision::TimedOut <==> elapsed_ms as int
            > timeout_secs as int * 1000,
        s.decision(elapsed_ms, timeout_secs) != PollDecision::TimedOut ==> s.decision(
            elapsed_ms,
            timeout_secs,
        ) == PollDecision::Accept,
        s.decision(elapsed_ms, timeout_secs) == PollDecision::TimedOut ==> !s.after_poll(
            elapsed_ms,
            timeout_secs,
        ).waiting_for_pairing,
{
}

/// A stop raised during a wait ends that wait as stopped at the loop's next
/// poll within the budget, so within one poll interval.
pub proof fn lemma_stop_ends_wait(s: PairingListener, elapsed_ms: u64, timeout_secs: u64)
    requires
        s.wf(),
        s.waiting_for_pairing,
        elapsed_ms as int <= timeout_secs as int * 1000,
    ensures
        s.after_stop().decision(elapsed_ms, timeout_secs) == PollDecision::Stopped,
        !s.after_stop().after_poll(elapsed_ms, timeout_secs).waiting_for_pairing,
{
}

/// Stopping twice is stopping once.
pub proof fn lemma_stop_idempotent(s: PairingListener)
    requires
        s.wf(),
    ensures
        s.after_stop().after_stop() == s.after_stop(),
{
}

/// A stopped listener stays stopped, whatever happens to it next.
pub proof fn lemma_stopped_is_final(
    s: PairingListener,
    elapsed_ms: u64,
    timeout_secs: u64,
    paired: bool,
)
    requires
        s.wf(),
        s.phase == ListenerPhase::Stopped,
    ensures
        s.after_bound().phase == ListenerPhase::Stopped,
        s.after_begin_wait().phase == ListenerPhase::Stopped,
        s.wait_result() matches Err(PairingError::Stopped),
        s.after_poll(elapsed_ms, timeout_secs).phase == ListenerPhase::Stopped,
        s.after_finish(paired).phase == ListenerPhase::Stopped,
        s.after_stop().phase == ListenerPhase::Stopped,
{
}

/// A failed handshake does not end the listener: it is still listening,
/// no longer waiting, and a new wait can begin.
pub proof fn lemma_failed_handshake_keeps_listening(s: PairingListener)
    requires
        s.wf(),
        s.phase == ListenerPhase::Listening,
    ensures
        s.after_finish(false).phase == ListenerPhase::Listening,
        s.after_finish(false).running,
        !s.after_finish(false).waiting_for_pairing,
        s.after_finish(false).wait_result() is Ok,
{
}

/// A listener delivers at most one pairing: once a wait ends paired, it stops
/// waiting and refuses any further wait.
pub proof fn lemma_pairs_once(s: PairingListener)
    requires
        s.wf(),
        s.waiting_for_pairing,
    ensures
        s.after_finish(true).phase == ListenerPhase::Paired,
        !s.after_finish(true).waiting_for_pairing,
        s.after_finish(true).wait_result() matches Err(PairingError::AlreadyPaired),
        s.after_finish(true).after_begin_wait() == s.after_finish(true),
{
}

} // verus!
