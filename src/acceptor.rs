//! The server's accept loop as a state machine. A permit is reserved before
//! a connection is accepted, so an accepted connection always has one, and
//! each permit goes to exactly one connection handler.
use vstd::prelude::*;
use crate::admission::{AcquireError, Permit};

verus! {

/// Backlog requested for the listening socket, well above the number of
/// connections served at once so that bursts wait in the kernel.
pub const LISTEN_BACKLOG: u32 = 4096;

/// Why the server stops.
#[derive(Debug, Clone, Copy, PartialEq, Eq, Structural)]
pub enum ShutdownCause {
    /// The shared cancellation flag was set from inside the server.
    Cancelled,
    /// An interrupt came from outside.
    Interrupted,
}

/// Where the accept loop stands.
#[derive(Debug, Clone, Copy, PartialEq, Eq, Structural)]
pub enum Phase {
    /// Serving: reserving permits and accepting connections.
    Serving,
    /// Admission is closed; waiting for the shutdown signal.
    Draining,
    /// Stopped.
    Stopped(ShutdownCause),
}

/// What happened while the loop waited.
#[derive(Debug)]
pub enum AcceptorEvent {
    /// The limiter answered a request for a permit.
    Admission(Result<Permit, AcquireError>),
    /// A connection came in.
    Accepted,
    /// Shutdown was signalled.
    Shutdown(ShutdownCause),
}

/// What the caller does next.
#[derive(Debug)]
pub enum AcceptorAction {
    /// Keep waiting.
    Wait,
    /// Hand the new connection and this permit to a new handler.
    Spawn(Permit),
    /// Close the new connection at once: no permit was reserved for it.
    Refuse,
    /// Release this permit.
    Release(Permit),
    /// Set the shared cancellation flag.
    Cancel,
    /// Leave the loop: release the permit, if any, then scan the tracker
    /// for ids that never arrived.
    Stop(Option<Permit>),
}

/// The accept loop's state: its phase and the permit it holds in reserve.
pub struct Acceptor {
    phase: Phase,
    reserved: Option<Permit>,
}

impl Acceptor {
    /// Where the loop stands.
    pub closed spec fn spec_phase(self) -> Phase {
        self.phase
    }

    /// Whether a permit is held in reserve.
    pub closed spec fn spec_reserved(self) -> bool {
        self.reserved is Some
    }

    /// A permit is held in reserve only while serving.
    pub open spec fn wf(self) -> bool {
        self.spec_reserved() ==> self.spec_phase() is Serving
    }

    /// Whether the loop waits for a permit now.
    pub open spec fn spec_wants_permit(self) -> bool {
        self.spec_phase() is Serving && !self.spec_reserved()
    }

    /// Whether the loop waits for a connection now.
    pub open spec fn spec_wants_connection(self) -> bool {
        self.spec_phase() is Serving && self.spec_reserved()
    }

    /// A loop that serves and holds no permit.
    pub fn new() -> (r: Self)
        ensures
            r.wf(),
            r.spec_phase() == Phase::Serving,
            !r.spec_reserved(),
    {
        Acceptor { phase: Phase::Serving, reserved: None }
    }

    /// Where the loop stands.
    pub fn phase(&self) -> (r: Phase)
        ensures
            r == self.spec_phase(),
    {
        self.phase
    }

    /// Whether the loop waits for a permit now.
    pub fn wants_permit(&self) -> (r: bool)
        ensures
            r == self.spec_wants_permit(),
    {
        match self.phase {
            Phase::Serving => self.reserved.is_none(),
            _ => false,
        }
    }

    /// Whether the loop waits for a connection now.
    pub fn wants_connection(&self) -> (r: bool)
        ensures
            r == self.spec_wants_connection(),
    {
        match self.phase {
            Phase::Serving => self.reserved.is_some(),
            _ => false,
        }
    }

    /// Whether the loop has stopped.
    pub fn is_stopped(&self) -> (r: bool)
        ensures
            r == self.spec_phase() is Stopped,
    {
        match self.phase {
            Phase::Stopped(_) => true,
            _ => false,
        }
    }

    /// Takes one event. A granted permit is kept in reserve; a closed
    /// limiter sets off shutdown; a connection takes the reserved permit with
    /// it; a shutdown signal stops the loop and gives back the reserve.
    /// Every permit that comes in goes out again exactly once: kept, passed
    /// to a handler, or returned for release.
    pub fn step(&mut self, event: AcceptorEvent) -> (r: AcceptorAction)
        requires
            old(self).wf(),
        ensures
            final(self).wf(),
            match event {
                AcceptorEvent::Admission(Ok(_)) => if old(self).spec_wants_permit() {
                    r is Wait && final(self).spec_phase() == old(self).spec_phase()
                        && final(self).spec_reserved()
                } else {
                    r is Release && *final(self) == *old(self)
                },
                AcceptorEvent::Admission(Err(e)) => if old(self).spec_wants_permit() && e is Closed {
                    r is Cancel && final(self).spec_phase() == Phase::Draining
                        && !final(self).spec_reserved()
                } else {
                    r is Wait && *final(self) == *old(self)
                },
                AcceptorEvent::Accepted => if old(self).spec_wants_connection() {
                    r is Spawn && final(self).spec_phase() == old(self).spec_phase()
                        && !final(self).spec_reserved()
                } else {
                    r is Refuse && *final(self) == *old(self)
                },
                AcceptorEvent::Shutdown(cause) => if old(self).spec_phase() is Stopped {
                    r matches AcceptorAction::Stop(p) && p is None && *final(self) == *old(self)
                } else {
                    r matches AcceptorAction::Stop(p) && (p is Some <==> old(
                        self,
                    ).spec_reserved()) && final(self).spec_phase() == Phase::Stopped(cause)
                        && !final(self).spec_reserved()
                },
            },
    {
        match event {
            AcceptorEvent::Admission(Ok(p)) => {
                if self.wants_permit() {
                    self.reserved = Some(p);
                    assert(self.spec_reserved());
                    AcceptorAction::Wait
                } else {
                    AcceptorAction::Release(p)
                }
            },
            AcceptorEvent::Admission(Err(e)) => {
                if self.wants_permit() && e == AcquireError::Closed {
                    self.phase = Phase::Draining;
                    AcceptorAction::Cancel
                } else {
                    AcceptorAction::Wait
                }
            },
            AcceptorEvent::Accepted => {
                if self.wants_connection() {
                    match self.reserved.take() {
                        Some(p) => AcceptorAction::Spawn(p),
                        None => AcceptorAction::Refuse,
                    }
                } else {
                    AcceptorAction::Refuse
                }
            },
            AcceptorEvent::Shutdown(cause) => {
                if self.is_stopped() {
                    AcceptorAction::Stop(None)
                } else {
                    self.phase = Phase::Stopped(cause);
                    AcceptorAction::Stop(self.reserved.take())
                }
            },
        }
    }
}

} // verus!
