//! The decisions of the connection-accepting loop.
//!
//! The loop itself (blocking accepts, one scoped worker thread per
//! connection, joining them) runs outside the library; it reports each accept
//! and each join here and does what the returned decision says. The state
//! counts the workers spawned and joined, so that the loop can only finish
//! once every worker has been joined.
use vstd::prelude::*;

verus! {

/// How one blocking accept ended.
#[derive(Debug, Clone, Copy, PartialEq, Eq, Structural)]
pub enum AcceptOutcome {
    /// A connection was accepted.
    Accepted,
    /// A transient condition: accept again.
    WouldBlock,
    /// An operating-system error that ends the listener.
    Failed,
}

/// Where the loop stands.
#[derive(Debug, Clone, Copy, PartialEq, Eq, Structural)]
pub enum Phase {
    /// Accepting connections.
    Accepting,
    /// No more accepts; joining the workers. `failed` records a fatal accept
    /// error, to be returned once they are joined.
    Draining { failed: bool },
    /// Every worker is joined; the loop returns.
    Finished { failed: bool },
}

#[derive(Debug, Clone, Copy, PartialEq, Eq, Structural)]
pub enum ListenError {
    /// Accepting a connection failed with a fatal error.
    AcceptFailed,
}

/// The state of one run of the accept loop.
pub struct ListenerState {
    spawned: u64,
    joined: u64,
    phase: Phase,
}

/// What one accept does to the state: a worker is spawned for an accepted
/// connection when there is a handler; a transient error changes nothing; a
/// fatal error stops accepting; after an accepted connection the stop flag is
/// read and, when set, accepting stops.
pub open spec fn after_accept(
    s: (u64, u64, Phase),
    outcome: AcceptOutcome,
    has_handler: bool,
    stop_requested: bool,
) -> (u64, u64, Phase) {
    match outcome {
        AcceptOutcome::WouldBlock => s,
        AcceptOutcome::Failed => (s.0, s.1, Phase::Draining { failed: true }),
        AcceptOutcome::Accepted => (
            if has_handler { (s.0 + 1) as u64 } else { s.0 },
            s.1,
            if stop_requested { Phase::Draining { failed: false } } else { Phase::Accepting },
        ),
    }
}

/// Every state the loop can be in: no more workers joined than spawned, and
/// all of them joined once it has finished.
pub open spec fn state_wf(s: (u64, u64, Phase)) -> bool {
    &&& s.1 <= s.0
    &&& s.2 is Finished ==> s.1 == s.0
}

impl ListenerState {
    /// Spawned workers, joined workers and the phase.
    pub closed spec fn view(&self) -> (u64, u64, Phase) {
        (self.spawned, self.joined, self.phase)
    }

    pub closed spec fn wf(&self) -> bool {
        state_wf(self@)
    }

    pub fn new() -> (r: ListenerState)
        ensures
            r@ == (0u64, 0u64, Phase::Accepting),
            r.wf(),
    {
        ListenerState { spawned: 0, joined: 0, phase: Phase::Accepting }
    }

    pub fn phase(&self) -> (r: Phase)
        ensures
            r == self@.2,
    {
        self.phase
    }

    pub fn spawned(&self) -> (r: u64)
        ensures
            r == self@.0,
    {
        self.spawned
    }

    pub fn joined(&self) -> (r: u64)
        ensures
            r == self@.1,
    {
        self.joined
    }

    /// Records how an accept ended; returns whether a worker must be spawned
    /// for the accepted connection.
    pub fn on_accept(&mut self, outcome: AcceptOutcome, has_handler: bool, stop_requested: bool) -> (spawn: bool)
        requires
            old(self).wf(),
            old(self)@.2 is Accepting,
            old(self)@.0 < u64::MAX,
        ensures
            final(self).wf(),
            spawn == (outcome == AcceptOutcome::Accepted && has_handler),
            final(self)@ == after_accept(old(self)@, outcome, has_handler, stop_requested),
    {
        match outcome {
            AcceptOutcome::WouldBlock => false,
            AcceptOutcome::Failed => {
                self.phase = Phase::Draining { failed: true };
                false
            },
            AcceptOutcome::Accepted => {
                if has_handler {
                    self.spawned = self.spawned + 1;
                }
                if stop_requested {
                    self.phase = Phase::Draining { failed: false };
                }
                has_handler
            },
        }
    }

    /// Records that one more worker has been joined.
    pub fn on_joined(&mut self)
        requires
            old(self).wf(),
            old(self)@.2 is Draining,
            old(self)@.1 < old(self)@.0,
        ensures
            final(self).wf(),
            final(self)@ == ((old(self)@.0, (old(self)@.1 + 1) as u64, old(self)@.2)),
    {
        self.joined = self.joined + 1;
    }

    /// Ends the loop once every worker is joined; the error of a fatal accept
    /// is returned then, and not before.
    pub fn finish(&mut self) -> (r: Result<(), ListenError>)
        requires
            old(self).wf(),
            old(self)@.2 is Draining,
            old(self)@.1 == old(self)@.0,
        ensures
            final(self).wf(),
            final(self)@.0 == old(self)@.0 && final(self)@.1 == old(self)@.1,
            old(self)@.2 matches Phase::Draining { failed } && final(self)@.2 == (Phase::Finished {
                failed,
            }) && (r is Err <==> failed),
    {
        match self.phase {
            Phase::Draining { failed } => {
                self.phase = Phase::Finished { failed };
                if failed {
                    Err(ListenError::AcceptFailed)
                } else {
                    Ok(())
                }
            },
            _ => Ok(()),
        }
    }
}

/// A stop request is honoured at the next completed accept: that connection
/// still gets its own worker when there is a handler, accepting then ends
/// without error, and the loop finishes only with as many workers joined as
/// were spawned, so no worker is abandoned.
pub proof fn stop_then_join_all(s: (u64, u64, Phase), has_handler: bool)
    requires
        state_wf(s),
        s.2 is Accepting,
        s.0 < u64::MAX,
    ensures
        after_accept(s, AcceptOutcome::Accepted, has_handler, true).2 == (Phase::Draining {
            failed: false,
        }),
        after_accept(s, AcceptOutcome::Accepted, has_handler, true).0 == if has_handler {
            s.0 + 1
        } else {
            s.0 as int
        },
        after_accept(s, AcceptOutcome::Accepted, has_handler, true).1 == s.1,
        state_wf(after_accept(s, AcceptOutcome::Accepted, has_handler, true)),
        forall|t: (u64, u64, Phase)| state_wf(t) && t.2 is Finished ==> t.1 == t.0,
{
}

} // verus!
