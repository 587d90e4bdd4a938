//! What holds across several functions of this crate.
use vstd::prelude::*;

use crate::call::{ImportView, WasmImport};
use crate::export::{Action, ExportWaker, TaskView, WriteState};
use crate::import::{ChildState, WasmTask};

verus! {

/// How often the host is asked for a wakeup if `waker` is used `uses` times.
pub open spec fn notifications(waker: ExportWaker, uses: nat) -> nat
    decreases uses,
{
    if uses == 0 {
        0
    } else {
        let first: nat = if waker.wake_call() is Some { 1 } else { 0 };
        first + notifications(waker.woken(), (uses - 1) as nat)
    }
}

/// However often a task is woken between two polls, the host is asked for one
/// wakeup.
pub proof fn law_one_notification_per_poll(id_self: u32, uses: nat)
    ensures
        notifications(ExportWaker::spec_new(id_self), uses) == (if uses == 0 {
            0nat
        } else {
            1
        }),
{
    if uses > 0 {
        lemma_no_more_notifications(ExportWaker::spec_new(id_self).woken(), (uses - 1) as nat);
    }
}

proof fn lemma_no_more_notifications(waker: ExportWaker, uses: nat)
    requires
        waker.notified,
    ensures
        notifications(waker, uses) == 0,
    decreases uses,
{
    if uses > 0 {
        lemma_no_more_notifications(waker.woken(), (uses - 1) as nat);
    }
}

/// A task that waits has a future, so that the next callback has something to
/// poll; the task is otherwise as the poll has left it.
pub proof fn law_waiting_task_has_future<F>(
    task: TaskView<F>,
    pending: Option<F>,
    action: Action<F>,
)
    requires
        crate::export::resumed(task, pending, action),
    ensures
        action is Wait <==> pending is Some,
        action matches Action::Wait(waiting) ==> {
            &&& waiting@.future is Some
            &&& waiting@.lent() == task.lent()
        },
        action.encoded().0 is Some <==> action.encoded().1 == crate::abi::ACTION_WAIT,
        action.encoded().0 is None <==> action.encoded().1 == crate::abi::ACTION_FINISH,
{
}

/// To stop waiting for a return value that the host has not taken undoes the
/// return.
pub proof fn law_cancelled_return_is_undone<F>(task: TaskView<F>)
    requires
        task.return_state is NotStarted,
    ensures
        task.returning().return_cancelled() == task,
{
}

/// A return value that the host has taken stays taken.
pub proof fn law_acknowledged_return_stays<F>(task: TaskView<F>)
    ensures
        task.returning().acknowledged().return_cancelled() == task.acknowledged(),
{
}

/// Something that happens to the return value of a task.
pub enum ReturnEvent {
    /// [`await_return`](crate::export::ExportTask::await_return) is called.
    Return,
    /// The `post-return` callback comes.
    PostReturn,
    /// The wait is [cancelled](crate::export::TaskReturn::cancel).
    Cancel,
}

/// `task` after `events`.
pub open spec fn after_returns<F>(task: TaskView<F>, events: Seq<ReturnEvent>) -> TaskView<F>
    decreases events.len(),
{
    if events.len() == 0 {
        task
    } else {
        let before = after_returns(task, events.drop_last());
        match events.last() {
            ReturnEvent::Return => before.returning(),
            ReturnEvent::PostReturn => before.acknowledged(),
            ReturnEvent::Cancel => before.return_cancelled(),
        }
    }
}

/// All of `events` can happen to `task`: it returns while it has not returned,
/// and the host takes what was handed over.
pub open spec fn admits_returns<F>(task: TaskView<F>, events: Seq<ReturnEvent>) -> bool
    decreases events.len(),
{
    events.len() == 0 || {
        let before = after_returns(task, events.drop_last());
        &&& admits_returns(task, events.drop_last())
        &&& match events.last() {
            ReturnEvent::Return => before.return_state is NotStarted,
            ReturnEvent::PostReturn => before.return_state is Started,
            ReturnEvent::Cancel => !(before.return_state is NotStarted),
        }
    }
}

/// How many return values the host was handed, less those that it took and
/// those that were withdrawn.
pub open spec fn values_offered<F>(task: TaskView<F>, events: Seq<ReturnEvent>) -> int
    decreases events.len(),
{
    if events.len() == 0 {
        0
    } else {
        let before = after_returns(task, events.drop_last());
        values_offered(task, events.drop_last()) + match events.last() {
            ReturnEvent::Return => 1int,
            ReturnEvent::PostReturn => -1,
            ReturnEvent::Cancel => if before.return_state is Acknowledged {
                0
            } else {
                -1
            },
        }
    }
}

/// Whatever happens to the return value of a task, in any order that is
/// possible: the host has one exactly while the task is returning, and the
/// rest of the task is left alone.
pub proof fn law_return_states<F>(id_self: u32, future: F, events: Seq<ReturnEvent>)
    requires
        admits_returns(TaskView::started(id_self, future), events),
    ensures
        ({
            let started = TaskView::started(id_self, future);
            let task = after_returns(started, events);
            &&& values_offered(started, events) == (if task.return_state is Started {
                1int
            } else {
                0
            })
            &&& task == (TaskView { return_state: task.return_state, ..started })
        }),
    decreases events.len(),
{
    if events.len() > 0 {
        law_return_states(id_self, future, events.drop_last());
    }
}

/// The cause of an event gives back the amount that was put into it.
pub proof fn law_cause_roundtrip(amt: u32)
    requires
        amt < 0x1000_0000,
    ensures
        crate::import::reported_state((amt << 4) | crate::abi::CAUSE_CHILD_WRITE) == Some(
            ChildState::Wrote(amt as usize),
        ),
        crate::import::reported_state(crate::abi::CAUSE_CHILD_RETURN) == Some(ChildState::Returned),
        crate::import::reported_state(crate::abi::CAUSE_CHILD_DONE) == Some(ChildState::Done),
{
    let cause = (amt << 4) | 0u32;
    assert(cause % 16 == 0 && cause / 16 == amt) by (bit_vector)
        requires
            amt < 0x1000_0000,
            cause == (amt << 4) | 0u32,
    ;
}

/// Something that happens to the children of a module.
pub enum ImportEvent {
    /// A child is [started](crate::import::WasmTask::new).
    New { id: u32 },
    /// The [`on-event`](crate::import::on_event_abi) callback comes.
    Event { cause: u32, idx: u32 },
    /// A [read](crate::stream::ActiveRead) looks at a child.
    Read { id: u32 },
    /// A child is [given up](crate::import::WasmTask::release).
    Release { id: u32 },
}

/// The children after `events`, in a module that had none.
pub open spec fn children_after(events: Seq<ImportEvent>) -> Map<u32, ChildState>
    decreases events.len(),
{
    if events.len() == 0 {
        Map::empty()
    } else {
        let before = children_after(events.drop_last());
        match events.last() {
            ImportEvent::New { id } => before.insert(id, ChildState::Waiting),
            ImportEvent::Event { cause, idx } => crate::import::after_event(before, cause, idx),
            ImportEvent::Read { id } => crate::stream::after_read(before, id),
            ImportEvent::Release { id } => crate::call::after_release(
                before,
                Some(WasmTask { id, parent: 0 }),
            ),
        }
    }
}

/// The children that were started and not given up.
pub open spec fn owned_after(events: Seq<ImportEvent>) -> Set<u32>
    decreases events.len(),
{
    if events.len() == 0 {
        Set::empty()
    } else {
        let before = owned_after(events.drop_last());
        match events.last() {
            ImportEvent::New { id } => before.insert(id),
            ImportEvent::Release { id } => before.remove(id),
            _ => before,
        }
    }
}

/// All of `events` can happen: what happens to a child happens while somebody
/// owns it.
pub open spec fn admits_imports(events: Seq<ImportEvent>) -> bool
    decreases events.len(),
{
    events.len() == 0 || {
        let owned = owned_after(events.drop_last());
        &&& admits_imports(events.drop_last())
        &&& match events.last() {
            ImportEvent::New { id } => !owned.contains(id),
            ImportEvent::Event { cause, idx } => owned.contains(idx),
            ImportEvent::Read { id } => owned.contains(id),
            ImportEvent::Release { id } => owned.contains(id),
        }
    }
}

/// Something is known of exactly the children that somebody owns, whatever
/// happens: no call of a child finds it missing, and none is left behind.
pub proof fn law_known_children_are_owned(events: Seq<ImportEvent>)
    requires
        admits_imports(events),
    ensures
        children_after(events).dom() =~= owned_after(events),
    decreases events.len(),
{
    if events.len() > 0 {
        law_known_children_are_owned(events.drop_last());
    }
}

/// An event is about one child: nothing changes for the others.
pub proof fn law_event_touches_one_child(
    children: Map<u32, ChildState>,
    cause: u32,
    idx: u32,
    other: u32,
)
    requires
        other != idx,
    ensures
        crate::import::after_event(children, cause, idx).contains_key(other)
            == children.contains_key(other),
        crate::import::after_event(children, cause, idx)[other] == children[other],
{
}

/// A child that has returned can only be reported to be done, and a child that
/// is done is never heard of again.
pub proof fn law_reports_come_to_an_end(state: ChildState, new_state: ChildState)
    requires
        state.spec_expects(new_state),
    ensures
        !(state is Done),
        state is Returned ==> new_state is Done,
        state.has_returned() ==> new_state.has_returned(),
{
}

/// What a read or a write claims is claimed once: nothing is left to be
/// claimed, and to look again changes nothing.
pub proof fn law_items_are_claimed_once(child: ChildState, task: WriteState)
    ensures
        !(child.after_read() is Wrote),
        child.after_read().unclaimed() == 0,
        child.after_read().after_read() == child.after_read(),
        !(task.after_poll() is Wrote),
        task.after_poll().unclaimed() == 0,
        task.after_poll().after_poll() == task.after_poll(),
{
}

/// A child that was started and given up leaves nothing behind.
pub proof fn law_released_child_is_forgotten(children: Map<u32, ChildState>, task: WasmTask)
    requires
        !children.contains_key(task.id),
    ensures
        crate::call::after_release(children.insert(task.id, ChildState::Waiting), Some(task))
            =~= children,
{
}

/// A task that polls a child again does not ask for it again.
pub proof fn law_one_adoption_per_task(task: WasmTask, current_id: u32)
    ensures
        task.reparented(current_id).adoption(current_id) is None,
        task.reparented(current_id).reparented(current_id) == task.reparented(current_id),
{
}

/// A call that was finished at once is ready, and a call that a child carries
/// out is not, until the child has returned.
pub proof fn law_call_is_ready_once_returned<D, const N: usize>(
    import: ImportView<D, N>,
    children: Map<u32, ChildState>,
)
    requires
        import.known(children),
    ensures
        import.task is None ==> import.is_ready(children),
        import.task matches Some(task) ==> {
            &&& !import.is_ready(children.insert(task.id, ChildState::Waiting))
            &&& import.is_ready(children.insert(task.id, ChildState::Returned))
            &&& import.is_ready(children.insert(task.id, ChildState::Done))
        },
{
}

/// A return value that is in place and was not taken is handed over to be
/// dropped when the call is given up, if values of its type have to be dropped
/// and unless the child is done.
pub proof fn law_unread_result_is_dropped<T, D: FnOnce(&[usize; N]) -> T, const N: usize>(
    import: WasmImport<T, D, N>,
    children: Map<u32, ChildState>,
    undelivered: Option<T>,
)
    requires
        import@.known(children),
        import@.deserialize is Some,
        import@.is_ready(children),
        import@.task matches Some(task) ==> !(children[task.id] is Done),
        import.gives_up(children, true, undelivered),
    ensures
        undelivered is Some,
        import.deserializes_to(undelivered->0),
{
}

/// The return value of a call is made once: after it was taken, there is
/// nothing to be dropped, and no child to be given up.
pub proof fn law_result_is_taken_once<D, const N: usize>(
    import: ImportView<D, N>,
    children: Map<u32, ChildState>,
)
    ensures
        !import.finished().is_undelivered(children),
        crate::call::release_call(import.finished().task) is None,
        crate::call::after_release(children, import.finished().task) == children,
{
}

} // verus!
