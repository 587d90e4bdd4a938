//! What becomes of the items of a stream over a whole series of events.
//!
//! The state of a write is spread over the task and the buffer, and that of a
//! read over the child and the buffer.  The models here put the parts side by
//! side, and say what each function that touches them does to the whole.  The
//! ledgers add what the host says was transferred and what the user was told.
use vstd::prelude::*;

use crate::export::{TaskView, WriteState};
use crate::import::ChildState;

verus! {

/// Something that happens to a stream that a task writes.
pub enum WriteEvent {
    /// [`write`](crate::export::WriteStreamWithBuffer::write) is called.
    Start,
    /// The `post-write` callback comes.
    PostWrite { amt: usize },
    /// The write is [polled](crate::export::ActiveWrite::poll).
    Poll,
    /// The write has resolved and is
    /// [finished](crate::export::ActiveWrite::finish).
    Finish,
    /// The write is [cancelled](crate::export::ActiveWrite::cancel).
    Cancel,
    /// The host [answers](crate::export::Unwrite::complete) how many items it
    /// had taken of a cancelled write.
    Unwrote { amt: usize },
    /// [`count`](crate::export::WriteStreamWithBuffer::count) is called.
    Count,
}

/// How far a write has come.
pub enum WritePhase {
    /// There is no write.
    Idle,
    /// There is a write in progress.
    Active,
    /// The write has resolved.
    Resolved,
    /// The write was cancelled, and the host has to answer.
    Withdrawing,
}

/// A write as a whole.
pub struct WriteModel {
    pub phase: WritePhase,
    /// The state of the task.
    pub state: WriteState,
    /// The count of the buffer.
    pub written: usize,
}

impl WriteModel {
    /// The write whose parts these are.
    pub open spec fn of(phase: WritePhase, state: WriteState, written: usize) -> WriteModel {
        WriteModel { phase, state, written }
    }

    /// `event` can happen: the user starts one write at a time and asks for
    /// the count of a cancelled one first, and the host takes what is on
    /// offer.
    pub open spec fn admits(self, event: WriteEvent) -> bool {
        match event {
            WriteEvent::Start => self.phase is Idle && self.written == 0,
            WriteEvent::PostWrite { .. } => self.state is Writing,
            WriteEvent::Poll => self.phase is Active,
            WriteEvent::Finish => self.phase is Resolved,
            WriteEvent::Cancel => self.phase is Active,
            WriteEvent::Unwrote { .. } => self.phase is Withdrawing,
            WriteEvent::Count => self.phase is Idle,
        }
    }

    /// The write after `event`.
    pub open spec fn next(self, event: WriteEvent) -> WriteModel {
        match event {
            WriteEvent::Start => WriteModel {
                phase: WritePhase::Active,
                state: WriteState::Writing,
                written: self.written,
            },
            WriteEvent::PostWrite { amt } => WriteModel {
                state: WriteState::Wrote { amt },
                ..self
            },
            WriteEvent::Poll => if self.state is Wrote {
                WriteModel {
                    phase: WritePhase::Resolved,
                    state: WriteState::Idle,
                    written: self.state.unclaimed(),
                }
            } else {
                self
            },
            WriteEvent::Finish => WriteModel { phase: WritePhase::Idle, written: 0, ..self },
            WriteEvent::Cancel => if self.state is Wrote {
                WriteModel {
                    phase: WritePhase::Idle,
                    state: WriteState::Idle,
                    written: self.state.unclaimed(),
                }
            } else {
                WriteModel { phase: WritePhase::Withdrawing, state: WriteState::Idle, ..self }
            },
            WriteEvent::Unwrote { amt } => WriteModel {
                phase: WritePhase::Idle,
                written: amt,
                ..self
            },
            WriteEvent::Count => WriteModel { written: 0, ..self },
        }
    }

    /// How many items the user is told of by `event`.
    pub open spec fn delivered(self, event: WriteEvent) -> usize {
        match event {
            WriteEvent::Finish => self.written,
            WriteEvent::Count => self.written,
            _ => 0,
        }
    }

    /// How many items were taken that the user was not told of yet.
    pub open spec fn held(self) -> nat {
        self.written as nat + self.state.unclaimed() as nat
    }
}

impl WriteEvent {
    /// How many items the host says it took.
    pub open spec fn reported(self) -> usize {
        match self {
            WriteEvent::PostWrite { amt } => amt,
            WriteEvent::Unwrote { amt } => amt,
            _ => 0,
        }
    }

    /// How many offers the host gets by this, less those that it takes and
    /// those that are withdrawn.
    pub open spec fn offered(self) -> int {
        match self {
            WriteEvent::Start => 1,
            WriteEvent::PostWrite { .. } => -1,
            WriteEvent::Unwrote { .. } => -1,
            _ => 0,
        }
    }
}

/// A write, and what was transferred so far.
pub struct WriteLedger {
    pub model: WriteModel,
    /// How many offers the host has.
    pub offers: int,
    /// How many items the host has said it took.
    pub reported: nat,
    /// How many items the user was told of.
    pub delivered: nat,
}

impl WriteLedger {
    /// The ledger after `events`, on a stream to which nothing was written
    /// before.
    pub open spec fn after(events: Seq<WriteEvent>) -> WriteLedger
        decreases events.len(),
    {
        if events.len() == 0 {
            WriteLedger {
                model: WriteModel {
                    phase: WritePhase::Idle,
                    state: WriteState::Idle,
                    written: 0,
                },
                offers: 0,
                reported: 0,
                delivered: 0,
            }
        } else {
            let before = WriteLedger::after(events.drop_last());
            let event = events.last();
            WriteLedger {
                model: before.model.next(event),
                offers: before.offers + event.offered(),
                reported: before.reported + event.reported() as nat,
                delivered: before.delivered + before.model.delivered(event) as nat,
            }
        }
    }

    /// All of `events` can happen one after the other.
    pub open spec fn admits(events: Seq<WriteEvent>) -> bool
        decreases events.len(),
    {
        events.len() == 0 || {
            &&& WriteLedger::admits(events.drop_last())
            &&& WriteLedger::after(events.drop_last()).model.admits(events.last())
        }
    }
}

/// The `post-write` callback is the event of that name to whatever write it
/// finds.
pub proof fn law_post_write_event<F>(
    task: TaskView<F>,
    amt: usize,
    phase: WritePhase,
    written: usize,
)
    ensures
        WriteModel::of(phase, task.wrote(amt).write_state, written) == WriteModel::of(
            phase,
            task.write_state,
            written,
        ).next(WriteEvent::PostWrite { amt }),
{
}

/// Whatever happens to a stream that a task writes, in any order that is
/// possible: the host has one offer while the task is writing or withdrawing,
/// and none otherwise; a write in progress starts from a count of zero, and
/// leaves the task idle whichever way it ends.
pub proof fn law_write_states(events: Seq<WriteEvent>)
    requires
        WriteLedger::admits(events),
    ensures
        ({
            let ledger = WriteLedger::after(events);
            let model = ledger.model;
            &&& ledger.offers == (if model.state is Writing || model.phase is Withdrawing {
                1int
            } else {
                0
            })
            &&& model.phase is Active <==> !(model.state is Idle)
            &&& model.phase is Active || model.phase is Withdrawing ==> model.written == 0
        }),
    decreases events.len(),
{
    if events.len() > 0 {
        law_write_states(events.drop_last());
    }
}

/// No item is lost and none is counted twice: whatever happens, the items that
/// the host has said it took are those that the user was told of, and those
/// that are held for the user to ask for.
pub proof fn law_write_conservation(events: Seq<WriteEvent>)
    requires
        WriteLedger::admits(events),
    ensures
        ({
            let ledger = WriteLedger::after(events);
            ledger.reported == ledger.delivered + ledger.model.held()
        }),
    decreases events.len(),
{
    if events.len() > 0 {
        law_write_conservation(events.drop_last());
        law_write_states(events.drop_last());
    }
}

/// Once the user has asked for the count of the last write, everything was
/// delivered, and to ask again delivers nothing.
pub proof fn law_write_count_settles(events: Seq<WriteEvent>)
    requires
        WriteLedger::admits(events),
        WriteLedger::after(events).model.phase is Idle,
    ensures
        ({
            let asked = WriteLedger::after(events.push(WriteEvent::Count));
            &&& asked.reported == asked.delivered
            &&& asked.model.delivered(WriteEvent::Count) == 0
        }),
{
    assert(events.push(WriteEvent::Count).drop_last() =~= events);
    law_write_conservation(events);
    law_write_states(events);
}

/// After a write that was finished and not cancelled, there is nothing to be
/// asked for.
pub proof fn law_finished_write_leaves_no_count(events: Seq<WriteEvent>)
    requires
        WriteLedger::admits(events.push(WriteEvent::Finish)),
    ensures
        WriteLedger::after(events.push(WriteEvent::Finish)).model.held() == 0,
{
    assert(events.push(WriteEvent::Finish).drop_last() =~= events);
    law_write_states(events);
}

/// Something that happens to a stream that a child writes.
pub enum ReadEvent {
    /// [`read`](crate::stream::StreamWithBuffer::read) is called.
    Start,
    /// The `on-event` callback reports a new state of the child.
    Child { new_state: ChildState },
    /// The read is [polled](crate::stream::ActiveRead::poll).
    Poll,
    /// The read has resolved and is
    /// [finished](crate::stream::ActiveRead::finish).
    Finish,
    /// The read is [cancelled](crate::stream::ActiveRead::cancel).
    Cancel,
    /// [`count`](crate::stream::StreamWithBuffer::count) is called.
    Count,
}

/// How far a read has come.
pub enum ReadPhase {
    /// There is no read.
    Idle,
    /// There is a read in progress.
    Active,
    /// The read has resolved.
    Resolved,
}

/// A read as a whole.
pub struct ReadModel {
    pub phase: ReadPhase,
    /// The state of the child.
    pub state: ChildState,
    /// The count of the buffer.
    pub read: usize,
}

impl ReadModel {
    /// The read whose parts these are.
    pub open spec fn of(phase: ReadPhase, state: ChildState, read: usize) -> ReadModel {
        ReadModel { phase, state, read }
    }

    /// `event` can happen: the user starts one read at a time and asks for the
    /// count of a cancelled one first; the host reports states in order, and
    /// writes only while there is a read in progress.
    pub open spec fn admits(self, event: ReadEvent) -> bool {
        match event {
            ReadEvent::Start => self.phase is Idle && self.read == 0,
            ReadEvent::Child { new_state } => {
                &&& self.state.spec_expects(new_state)
                &&& !(new_state is Waiting)
                &&& new_state is Wrote ==> self.phase is Active
            },
            ReadEvent::Poll => self.phase is Active,
            ReadEvent::Finish => self.phase is Resolved,
            ReadEvent::Cancel => self.phase is Active,
            ReadEvent::Count => self.phase is Idle,
        }
    }

    /// The read after `event`.
    pub open spec fn next(self, event: ReadEvent) -> ReadModel {
        match event {
            ReadEvent::Start => ReadModel { phase: ReadPhase::Active, ..self },
            ReadEvent::Child { new_state } => ReadModel { state: new_state, ..self },
            ReadEvent::Poll => if self.state is Waiting {
                self
            } else {
                ReadModel {
                    phase: ReadPhase::Resolved,
                    state: self.state.after_read(),
                    read: self.state.unclaimed(),
                }
            },
            ReadEvent::Finish => ReadModel { phase: ReadPhase::Idle, read: 0, ..self },
            ReadEvent::Cancel => ReadModel {
                phase: ReadPhase::Idle,
                state: self.state.after_read(),
                read: self.state.unclaimed(),
            },
            ReadEvent::Count => ReadModel { read: 0, ..self },
        }
    }

    /// How many items the user is told of by `event`.
    pub open spec fn delivered(self, event: ReadEvent) -> usize {
        match event {
            ReadEvent::Finish => self.read,
            ReadEvent::Count => self.read,
            _ => 0,
        }
    }

    /// How many items were written that the user was not told of yet.
    pub open spec fn held(self) -> nat {
        self.read as nat + self.state.unclaimed() as nat
    }
}

impl ReadEvent {
    /// How many items the host says were written.
    pub open spec fn reported(self) -> usize {
        match self {
            ReadEvent::Child { new_state } => new_state.unclaimed(),
            _ => 0,
        }
    }
}

/// A read, and what was transferred so far.
pub struct ReadLedger {
    pub model: ReadModel,
    /// How many items the host has said were written.
    pub reported: nat,
    /// How many items the user was told of.
    pub delivered: nat,
}

impl ReadLedger {
    /// The ledger after `events`, on a stream that was just made.
    pub open spec fn after(events: Seq<ReadEvent>) -> ReadLedger
        decreases events.len(),
    {
        if events.len() == 0 {
            ReadLedger {
                model: ReadModel { phase: ReadPhase::Idle, state: ChildState::Waiting, read: 0 },
                reported: 0,
                delivered: 0,
            }
        } else {
            let before = ReadLedger::after(events.drop_last());
            let event = events.last();
            ReadLedger {
                model: before.model.next(event),
                reported: before.reported + event.reported() as nat,
                delivered: before.delivered + before.model.delivered(event) as nat,
            }
        }
    }

    /// All of `events` can happen one after the other.
    pub open spec fn admits(events: Seq<ReadEvent>) -> bool
        decreases events.len(),
    {
        events.len() == 0 || {
            &&& ReadLedger::admits(events.drop_last())
            &&& ReadLedger::after(events.drop_last()).model.admits(events.last())
        }
    }
}

/// The `on-event` callback is an event to whatever read from the child it
/// finds.
pub proof fn law_child_event(
    children: Map<u32, ChildState>,
    cause: u32,
    idx: u32,
    phase: ReadPhase,
    read: usize,
)
    requires
        crate::import::event_in_order(children, cause, idx),
    ensures
        ReadModel::of(phase, crate::import::after_event(children, cause, idx)[idx], read)
            == ReadModel::of(phase, children[idx], read).next(
            ReadEvent::Child { new_state: crate::import::reported_state(cause)->0 },
        ),
{
}

/// Whatever happens to a stream that a child writes, in any order that is
/// possible: no items wait in the child's state unless a read is in progress,
/// and a read in progress starts from a count of zero.
pub proof fn law_read_states(events: Seq<ReadEvent>)
    requires
        ReadLedger::admits(events),
    ensures
        ({
            let model = ReadLedger::after(events).model;
            &&& model.state is Wrote ==> model.phase is Active
            &&& model.phase is Active ==> model.read == 0
        }),
    decreases events.len(),
{
    if events.len() > 0 {
        law_read_states(events.drop_last());
    }
}

/// No item is lost and none is counted twice: whatever happens, the items that
/// the host has said were written are those that the user was told of, and
/// those that are held for the user to ask for.
pub proof fn law_read_conservation(events: Seq<ReadEvent>)
    requires
        ReadLedger::admits(events),
    ensures
        ({
            let ledger = ReadLedger::after(events);
            ledger.reported == ledger.delivered + ledger.model.held()
        }),
    decreases events.len(),
{
    if events.len() > 0 {
        law_read_conservation(events.drop_last());
        law_read_states(events.drop_last());
    }
}

/// Once the user has asked for the count of the last read, everything was
/// delivered, and to ask again delivers nothing.
pub proof fn law_read_count_settles(events: Seq<ReadEvent>)
    requires
        ReadLedger::admits(events),
        ReadLedger::after(events).model.phase is Idle,
    ensures
        ({
            let asked = ReadLedger::after(events.push(ReadEvent::Count));
            &&& asked.reported == asked.delivered
            &&& asked.model.delivered(ReadEvent::Count) == 0
        }),
{
    assert(events.push(ReadEvent::Count).drop_last() =~= events);
    law_read_conservation(events);
    law_read_states(events);
}

/// After a read that was finished and not cancelled, there is nothing to be
/// asked for.
pub proof fn law_finished_read_leaves_no_count(events: Seq<ReadEvent>)
    requires
        ReadLedger::admits(events.push(ReadEvent::Finish)),
    ensures
        ReadLedger::after(events.push(ReadEvent::Finish)).model.held() == 0,
{
    assert(events.push(ReadEvent::Finish).drop_last() =~= events);
    law_read_states(events);
}

/// Once a child has returned, it has returned for good: it writes nothing any
/// more, and a read resolves as soon as it is polled, with nothing read.
pub proof fn law_returned_for_good(model: ReadModel, event: ReadEvent)
    requires
        model.state.has_returned(),
        model.admits(event),
    ensures
        model.next(event).state.has_returned(),
        event.reported() == 0,
        event is Poll ==> model.next(event).phase is Resolved && model.next(event).delivered(
            ReadEvent::Finish,
        ) == 0,
{
}

/// A read of zero items tells that the child has returned, so that the result
/// can be taken, unless the child has written zero items.
pub proof fn law_zero_read_tells_return(model: ReadModel)
    requires
        model.admits(ReadEvent::Poll),
        model.next(ReadEvent::Poll).phase is Resolved,
        model.next(ReadEvent::Poll).delivered(ReadEvent::Finish) == 0,
        model.state != ChildState::Wrote(0),
    ensures
        model.next(ReadEvent::Poll).state.has_returned(),
{
}

} // verus!
