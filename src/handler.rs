//! What a server connection does with each read: record the task id of a
//! whole frame and read on, or stop.
use vstd::prelude::*;
use crate::frame::{be_value, decode, frame_of, lemma_decode_frame, FRAME_LEN};
use crate::admission::Permit;
use crate::tracker::{
    in_range, lemma_record_seen, observed_set, record_effect, recorded, word_count,
    CompletionTracker, Record,
};

verus! {

/// Milliseconds a connection may stay silent before it is dropped.
pub const READ_TIMEOUT_MS: u64 = 10000;

/// How a read of one frame ended.
#[derive(Debug, Clone, PartialEq, Eq)]
pub enum ReadOutcome {
    /// These bytes were read.
    Frame(Vec<u8>),
    /// Nothing came in time.
    TimedOut,
    /// The read failed.
    Failed,
    /// The peer closed the connection.
    Closed,
}

/// Why a connection is given up.
#[derive(Debug, Clone, Copy, PartialEq, Eq, Structural)]
pub enum StopReason {
    TimedOut,
    Failed,
    Closed,
    /// Fewer bytes than a frame came in.
    ShortFrame,
}

/// What the connection does next.
#[derive(Debug, Clone, Copy, PartialEq, Eq, Structural)]
pub enum HandlerStep {
    /// The frame carried `task`, with the effect `record`; read the next one.
    Continue { task: u32, record: Record },
    /// Close the connection and release its permit.
    Stop(StopReason),
}

/// Whether `read` is a whole frame.
pub open spec fn is_whole_frame(read: ReadOutcome) -> bool {
    read matches ReadOutcome::Frame(b) && b@.len() >= FRAME_LEN
}

/// The task id that a whole frame carries.
pub open spec fn task_in(read: ReadOutcome) -> int {
    match read {
        ReadOutcome::Frame(b) => be_value(b@),
        _ => 0,
    }
}

/// What a connection does after `read`, given the ids seen before.
pub open spec fn read_step(limit: u32, seen: Set<int>, read: ReadOutcome) -> HandlerStep {
    match read {
        ReadOutcome::Frame(b) => if b@.len() >= FRAME_LEN {
            HandlerStep::Continue {
                task: be_value(b@) as u32,
                record: record_effect(limit, seen, be_value(b@)),
            }
        } else {
            HandlerStep::Stop(StopReason::ShortFrame)
        },
        ReadOutcome::TimedOut => HandlerStep::Stop(StopReason::TimedOut),
        ReadOutcome::Failed => HandlerStep::Stop(StopReason::Failed),
        ReadOutcome::Closed => HandlerStep::Stop(StopReason::Closed),
    }
}

/// The tracker words after `read`: a whole frame records its task id, and
/// anything else leaves them as they were.
pub open spec fn read_words(words: Seq<u64>, limit: u32, read: ReadOutcome) -> Seq<u64> {
    if is_whole_frame(read) {
        recorded(words, limit, task_in(read))
    } else {
        words
    }
}

/// Takes one read: a whole frame has its task id recorded and the
/// connection reads on; anything else ends the connection and changes
/// nothing.
pub fn handle_read(tracker: &mut CompletionTracker, read: ReadOutcome) -> (r: HandlerStep)
    requires
        old(tracker).wf(),
    ensures
        final(tracker).wf(),
        final(tracker).limit() == old(tracker).limit(),
        r == read_step(old(tracker).limit(), old(tracker).seen(), read),
        final(tracker).words() == read_words(old(tracker).words(), old(tracker).limit(), read),
        final(tracker).seen() == (if is_whole_frame(read) && in_range(
            old(tracker).limit(),
            task_in(read),
        ) {
            old(tracker).seen().insert(task_in(read))
        } else {
            old(tracker).seen()
        }),
        !is_whole_frame(read) ==> *final(tracker) == *old(tracker),
{
    match read {
        ReadOutcome::Frame(b) => match decode(b.as_slice()) {
            Ok(task) => {
                let record = tracker.record(task);
                HandlerStep::Continue { task, record }
            },
            Err(_) => HandlerStep::Stop(StopReason::ShortFrame),
        },
        ReadOutcome::TimedOut => HandlerStep::Stop(StopReason::TimedOut),
        ReadOutcome::Failed => HandlerStep::Stop(StopReason::Failed),
        ReadOutcome::Closed => HandlerStep::Stop(StopReason::Closed),
    }
}

/// One accepted connection and the admission permit it holds while open.
pub struct Connection {
    permit: Option<Permit>,
}

impl Connection {
    /// Whether the connection still holds its permit.
    pub closed spec fn holds_permit(self) -> bool {
        self.permit is Some
    }

    /// A connection that starts with `permit`.
    pub fn open(permit: Permit) -> (r: Self)
        ensures
            r.holds_permit(),
    {
        Connection { permit: Some(permit) }
    }

    /// Takes one read as [`handle_read`] does. When the connection stops,
    /// its permit comes back for release, once: a later call returns none.
    pub fn take_read(&mut self, tracker: &mut CompletionTracker, read: ReadOutcome) -> (r: (
        HandlerStep,
        Option<Permit>,
    ))
        requires
            old(tracker).wf(),
        ensures
            final(tracker).wf(),
            final(tracker).limit() == old(tracker).limit(),
            r.0 == read_step(old(tracker).limit(), old(tracker).seen(), read),
            final(tracker).words() == read_words(old(tracker).words(), old(tracker).limit(), read),
            (r.0 is Continue) ==> (r.1 is None) && final(self).holds_permit()
                == old(self).holds_permit(),
            (r.0 is Stop) ==> ((r.1 is Some) <==> old(self).holds_permit()) && !final(self).holds_permit(),
    {
        let step = handle_read(tracker, read);
        match step {
            HandlerStep::Continue { .. } => (step, None),
            HandlerStep::Stop(_) => (step, self.permit.take()),
        }
    }
}

/// A task id in range whose frame reaches a connection is seen by the
/// tracker once that frame is taken, and stays seen whatever is recorded
/// after it.
pub proof fn lemma_delivered_is_seen(words: Seq<u64>, limit: u32, task: u32, later: Seq<int>)
    requires
        words.len() == word_count(limit),
        1 <= task <= limit,
    ensures
        observed_set(
            recorded_all(recorded(words, limit, be_value(frame_of(task))), limit, later),
            limit,
        ).contains(task as int),
{
    lemma_decode_frame(task);
    lemma_record_seen(words, limit, task as int);
    lemma_seen_kept(recorded(words, limit, task as int), limit, later, task as int);
}

/// The words after each id of `ids` is recorded in turn.
pub open spec fn recorded_all(words: Seq<u64>, limit: u32, ids: Seq<int>) -> Seq<u64>
    decreases ids.len(),
{
    if ids.len() == 0 {
        words
    } else {
        recorded(recorded_all(words, limit, ids.drop_last()), limit, ids.last())
    }
}

/// An id that is seen stays seen through any further records.
pub proof fn lemma_seen_kept(words: Seq<u64>, limit: u32, ids: Seq<int>, id: int)
    requires
        words.len() == word_count(limit),
        observed_set(words, limit).contains(id),
    ensures
        recorded_all(words, limit, ids).len() == words.len(),
        observed_set(recorded_all(words, limit, ids), limit).contains(id),
    decreases ids.len(),
{
    if ids.len() > 0 {
        lemma_seen_kept(words, limit, ids.drop_last(), id);
        lemma_record_seen(recorded_all(words, limit, ids.drop_last()), limit, ids.last());
    }
}

} // verus!
