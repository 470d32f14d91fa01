//! One delivery attempt of one task id, as a state machine. The caller
//! performs each action (take from the pool, connect, send) and reports how
//! it went; the machine decides what comes next and how the attempt ends.
use vstd::prelude::*;
use crate::admission::{AcquireError, Permit};
use crate::frame::{encode, frame_of};

verus! {

/// How an attempt failed.
#[derive(Debug, Clone, Copy, PartialEq, Eq, Structural)]
pub enum AttemptError {
    /// The limiter is closed: the client is shutting down.
    AdmissionClosed,
    /// No socket could be created: local resources are exhausted.
    SocketCreate,
    /// The connection could not be made.
    Connect,
    /// The frame could not be written.
    Write,
    /// The attempt ended abnormally.
    Faulted,
}

/// Whether a failure is worth another attempt of the same task.
pub open spec fn retryable(e: AttemptError) -> bool {
    e is Connect || e is Write
}

/// Whether a failure is worth another attempt of the same task.
pub fn is_retryable(e: AttemptError) -> (r: bool)
    ensures
        r == retryable(e),
{
    match e {
        AttemptError::Connect | AttemptError::Write => true,
        _ => false,
    }
}

/// Where an attempt stands.
#[derive(Debug, Clone, Copy, PartialEq, Eq, Structural)]
pub enum Stage {
    /// Admitted; looking for an idle pooled connection.
    Sourcing,
    /// No pooled connection; opening a new one.
    Connecting,
    /// Holding a connection; writing the frame.
    Sending,
    /// Over; nothing is held any more.
    Finished,
}

/// What happened to the last action.
#[derive(Debug, Clone, Copy, PartialEq, Eq, Structural)]
pub enum AttemptEvent {
    /// The pool gave a connection.
    PoolHit,
    /// The pool was empty.
    PoolEmpty,
    /// No socket could be created.
    SocketFailed,
    /// A new connection is open.
    Connected,
    /// The new connection could not be made.
    ConnectFailed,
    /// The whole frame was written.
    Written,
    /// Writing the frame failed.
    WriteFailed,
}

/// What the caller does next.
#[derive(Debug)]
pub enum AttemptAction {
    /// Take the most recent idle connection from the pool.
    TakePooled,
    /// Create a socket and connect it.
    Connect,
    /// Write these bytes on the connection in hand.
    Send([u8; 8]),
    /// The attempt is over. With `recycle` the connection goes back to the
    /// pool, else it is dropped; `permit`, if any, is released.
    Finish { outcome: Result<(), AttemptError>, recycle: bool, permit: Option<Permit> },
}

/// The stage that follows `stage` on `event`; an event that does not fit
/// the stage ends the attempt.
pub open spec fn next_stage(stage: Stage, event: AttemptEvent) -> Stage {
    match (stage, event) {
        (Stage::Sourcing, AttemptEvent::PoolHit) => Stage::Sending,
        (Stage::Sourcing, AttemptEvent::PoolEmpty) => Stage::Connecting,
        (Stage::Connecting, AttemptEvent::Connected) => Stage::Sending,
        _ => Stage::Finished,
    }
}

/// How an attempt ends when `event` comes in `stage` and ends it.
pub open spec fn end_of(stage: Stage, event: AttemptEvent) -> Result<(), AttemptError> {
    match (stage, event) {
        (Stage::Connecting, AttemptEvent::SocketFailed) => Err(AttemptError::SocketCreate),
        (Stage::Connecting, AttemptEvent::ConnectFailed) => Err(AttemptError::Connect),
        (Stage::Sending, AttemptEvent::Written) => Ok(()),
        (Stage::Sending, AttemptEvent::WriteFailed) => Err(AttemptError::Write),
        _ => Err(AttemptError::Faulted),
    }
}

/// One attempt to deliver the frame of `task`.
pub struct Attempt {
    task: u32,
    stage: Stage,
    permit: Option<Permit>,
}

impl Attempt {
    /// The task id being delivered.
    pub closed spec fn spec_task(self) -> u32 {
        self.task
    }

    /// Where the attempt stands.
    pub closed spec fn spec_stage(self) -> Stage {
        self.stage
    }

    /// Whether the attempt holds an admission permit.
    pub closed spec fn holds_permit(self) -> bool {
        self.permit is Some
    }

    /// The permit is held exactly while the attempt is under way.
    pub open spec fn wf(self) -> bool {
        self.holds_permit() == !(self.spec_stage() is Finished)
    }

    /// Starts an attempt once admission has answered: with a permit, which
    /// is kept until the attempt ends, or with the news that the limiter is
    /// closed, which ends the attempt at once. Admission answers only when
    /// one of the two holds.
    pub fn begin(task: u32, admission: Result<Permit, AcquireError>) -> (r: (Attempt, AttemptAction))
        requires
            admission is Ok || admission == Err::<Permit, AcquireError>(AcquireError::Closed),
        ensures
            r.0.wf(),
            r.0.spec_task() == task,
            admission is Ok ==> r.0.spec_stage() == Stage::Sourcing && r.1 is TakePooled,
            admission is Err ==> r.0.spec_stage() == Stage::Finished && (r.1 matches
                AttemptAction::Finish { outcome, recycle, permit } && outcome == Err::<
                (),
                AttemptError,
            >(AttemptError::AdmissionClosed) && !recycle && permit is None),
    {
        match admission {
            Ok(p) => (Attempt { task, stage: Stage::Sourcing, permit: Some(p) }, AttemptAction::TakePooled),
            Err(_) => (
                Attempt { task, stage: Stage::Finished, permit: None },
                AttemptAction::Finish {
                    outcome: Err(AttemptError::AdmissionClosed),
                    recycle: false,
                    permit: None,
                },
            ),
        }
    }

    /// The task id being delivered.
    pub fn task(&self) -> (r: u32)
        ensures
            r == self.spec_task(),
    {
        self.task
    }

    /// Where the attempt stands.
    pub fn stage(&self) -> (r: Stage)
        ensures
            r == self.spec_stage(),
    {
        self.stage
    }

    /// Moves the attempt on by the result of the last action. A connection is
    /// recycled only after a full write, and the permit leaves the attempt
    /// exactly once, with the action that ends it.
    pub fn step(&mut self, event: AttemptEvent) -> (r: AttemptAction)
        requires
            old(self).wf(),
        ensures
            final(self).wf(),
            final(self).spec_task() == old(self).spec_task(),
            final(self).spec_stage() == next_stage(old(self).spec_stage(), event),
            final(self).spec_stage() is Connecting ==> r is Connect,
            final(self).spec_stage() is Sending ==> (r matches AttemptAction::Send(f) && f@
                == frame_of(old(self).spec_task())),
            final(self).spec_stage() is Finished ==> (r matches AttemptAction::Finish {
                outcome,
                recycle,
                permit,
            } && outcome == end_of(old(self).spec_stage(), event) && recycle == (outcome is Ok)
                && (permit is Some <==> old(self).holds_permit())),
    {
        let next = match (self.stage, event) {
            (Stage::Sourcing, AttemptEvent::PoolHit) => Stage::Sending,
            (Stage::Sourcing, AttemptEvent::PoolEmpty) => Stage::Connecting,
            (Stage::Connecting, AttemptEvent::Connected) => Stage::Sending,
            _ => Stage::Finished,
        };
        match next {
            Stage::Connecting => {
                self.stage = next;
                AttemptAction::Connect
            },
            Stage::Sending => {
                self.stage = next;
                AttemptAction::Send(encode(self.task))
            },
            _ => {
                let outcome: Result<(), AttemptError> = match (self.stage, event) {
                    (Stage::Connecting, AttemptEvent::SocketFailed) => Err(
                        AttemptError::SocketCreate,
                    ),
                    (Stage::Connecting, AttemptEvent::ConnectFailed) => Err(AttemptError::Connect),
                    (Stage::Sending, AttemptEvent::Written) => Ok(()),
                    (Stage::Sending, AttemptEvent::WriteFailed) => Err(AttemptError::Write),
                    _ => Err(AttemptError::Faulted),
                };
                self.stage = Stage::Finished;
                let permit = self.permit.take();
                let recycle = outcome.is_ok();
                AttemptAction::Finish { outcome, recycle, permit }
            },
        }
    }
}

} // verus!
