//! What callers are promised, call by call.
//!
//! Each law here speaks of whatever a call of a function may return, and says
//! in terms of what went in what comes out: which of the user's code has run,
//! and on what; which items were counted; which state a task, a stream or a
//! child is left in; which intrinsic the host has to be asked for.
use vstd::prelude::*;

use crate::abi::{HostCall, Poll};
use crate::export::{
    Action, ActiveWrite, ExportTask, ExportWaker, ReturnState, TaskReturn, TaskView, Unwrite,
    WriteState, WriteStream, WriteStreamWithBuffer,
};
use crate::import::{ChildState, GlobalImportState};
use crate::tls;
use crate::tls::{ContextError, Guest};

verus! {

/// `future` was polled by `poll_future`, with a waker of `id_self` that was not
/// used, while the task `id_self` was current in the given states; and `kept`
/// and `code` answer that poll: the task is finished exactly if the future is
/// ready, and waits with the future and the states that the poll has left
/// otherwise.
pub open spec fn future_was_polled<
    F,
    P: FnOnce(F, ExportWaker, Guest<F>) -> (Option<F>, Guest<F>),
>(
    poll_future: P,
    future: F,
    id_self: u32,
    write_state: WriteState,
    return_state: ReturnState,
    imports: GlobalImportState,
    imports_after: GlobalImportState,
    kept: Option<Box<ExportTask<F>>>,
    code: u32,
) -> bool {
    exists|lent: Box<ExportTask<F>>, pending: Option<F>, after: Box<ExportTask<F>>|
        {
            &&& #[trigger] call_ensures(
                poll_future,
                (
                    future,
                    (ExportWaker { id_self, notified: false }),
                    (Guest { current: Some(lent), imports }),
                ),
                (pending, (Guest { current: Some(after), imports: imports_after })),
            )
            &&& lent@ == (TaskView::<F> { future: None, write_state, return_state, id_self })
            &&& match pending {
                None => kept is None && code == 1,
                Some(rest) => {
                    &&& code == 0
                    &&& kept is Some
                    &&& kept->0@ == (TaskView {
                        future: Some(rest),
                        write_state: after@.write_state,
                        return_state: after@.return_state,
                        id_self,
                    })
                },
            }
        }
}

/// A task is polled whenever there is a future to poll, whatever the states of
/// its write and of its return, and whichever callback has come; a task
/// without a future is finished.  The task that was current before is current
/// again afterwards.
pub proof fn law_task_is_polled<F, P: FnOnce(F, ExportWaker, Guest<F>) -> (Option<F>, Guest<F>)>(
    task: Box<ExportTask<F>>,
    poll_future: P,
)
    ensures
        forall|guest: &mut Guest<F>, action: Action<F>| #[trigger]
            call_ensures(ExportTask::<F>::poll::<P>, (task, guest, poll_future), action) ==> {
                &&& final(guest).current == guest.current
                &&& match task@.future {
                    None => action is Finish && final(guest).imports == guest.imports,
                    Some(future) => future_was_polled(
                        poll_future,
                        future,
                        task@.id_self,
                        task@.write_state,
                        task@.return_state,
                        guest.imports,
                        final(guest).imports,
                        match action {
                            Action::Wait(waiting) => Some(waiting),
                            Action::Finish => None,
                        },
                        match action {
                            Action::Wait(_) => 0,
                            Action::Finish => 1,
                        },
                    ),
                }
            },
{
    assert forall|guest: &mut Guest<F>, action: Action<F>| #[trigger]
        call_ensures(
            ExportTask::<F>::poll::<P>,
            (task, guest, poll_future),
            action,
        ) && task@.future is Some implies future_was_polled(
        poll_future,
        task@.future->0,
        task@.id_self,
        task@.write_state,
        task@.return_state,
        guest.imports,
        final(guest).imports,
        action.encoded().0,
        action.encoded().1,
    ) by {
        lemma_polled(poll_future, *guest, task@, action, final(guest).imports);
    }
}

/// [`future_was_polled`] says what `polled` does.
proof fn lemma_polled<F, P: FnOnce(F, ExportWaker, Guest<F>) -> (Option<F>, Guest<F>)>(
    poll_future: P,
    guest: Guest<F>,
    task: TaskView<F>,
    action: Action<F>,
    imports_after: GlobalImportState,
)
    requires
        crate::export::polled(poll_future, guest, task, action, imports_after),
        task.future is Some,
    ensures
        future_was_polled(
            poll_future,
            task.future->0,
            task.id_self,
            task.write_state,
            task.return_state,
            guest.imports,
            imports_after,
            action.encoded().0,
            action.encoded().1,
        ),
{
}

/// The entry point of an export polls the future right away, while the new
/// task is current, with nothing written and nothing returned.
pub proof fn law_run_polls_at_once<F, P: FnOnce(F, ExportWaker, Guest<F>) -> (Option<F>, Guest<F>)>(
    id_self: u32,
    future: F,
    poll_future: P,
)
    ensures
        forall|guest: &mut Guest<F>, ret: (Option<Box<ExportTask<F>>>, u32)| #[trigger]
            call_ensures(
                ExportTask::<F>::run::<P>,
                (guest, id_self, future, poll_future),
                ret,
            ) ==> {
                &&& final(guest).current == guest.current
                &&& future_was_polled(
                    poll_future,
                    future,
                    id_self,
                    WriteState::Idle,
                    ReturnState::NotStarted,
                    guest.imports,
                    final(guest).imports,
                    ret.0,
                    ret.1,
                )
            },
{
    assert forall|guest: &mut Guest<F>, ret: (Option<Box<ExportTask<F>>>, u32)| #[trigger]
        call_ensures(
            ExportTask::<F>::run::<P>,
            (guest, id_self, future, poll_future),
            ret,
        ) implies future_was_polled(
        poll_future,
        future,
        id_self,
        WriteState::Idle,
        ReturnState::NotStarted,
        guest.imports,
        final(guest).imports,
        ret.0,
        ret.1,
    ) by {
        let task = TaskView::started(id_self, future);
        let action = choose|action: Action<F>|
            crate::export::polled(poll_future, *guest, task, action, final(guest).imports) && ret
                == action.encoded();
        lemma_polled(poll_future, *guest, task, action, final(guest).imports);
    }
}

/// A task that the host has taken items from is polled with exactly that
/// amount to be claimed; nothing else about it changes before the poll.
pub proof fn law_post_write_polls<F, P: FnOnce(F, ExportWaker, Guest<F>) -> (Option<F>, Guest<F>)>(
    task: Box<ExportTask<F>>,
    amt: usize,
    poll_future: P,
)
    ensures
        forall|guest: &mut Guest<F>, ret: (Option<Box<ExportTask<F>>>, u32)| #[trigger]
            call_ensures(
                ExportTask::<F>::post_write_abi::<P>,
                (task, guest, amt, poll_future),
                ret,
            ) ==> {
                &&& final(guest).current == guest.current
                &&& match task@.future {
                    None => {
                        &&& ret.0 is None && ret.1 == 1
                        &&& final(guest).imports == guest.imports
                    },
                    Some(future) => future_was_polled(
                        poll_future,
                        future,
                        task@.id_self,
                        WriteState::Wrote { amt },
                        task@.return_state,
                        guest.imports,
                        final(guest).imports,
                        ret.0,
                        ret.1,
                    ),
                }
            },
{
    assert forall|guest: &mut Guest<F>, ret: (Option<Box<ExportTask<F>>>, u32)| #[trigger]
        call_ensures(
            ExportTask::<F>::post_write_abi::<P>,
            (task, guest, amt, poll_future),
            ret,
        ) && task@.future is Some implies future_was_polled(
        poll_future,
        task@.future->0,
        task@.id_self,
        WriteState::Wrote { amt },
        task@.return_state,
        guest.imports,
        final(guest).imports,
        ret.0,
        ret.1,
    ) by {
        let wrote = task@.wrote(amt);
        let action = choose|action: Action<F>|
            crate::export::polled(poll_future, *guest, wrote, action, final(guest).imports) && ret
                == action.encoded();
        lemma_polled(poll_future, *guest, wrote, action, final(guest).imports);
    }
}

/// A task whose return value the host has taken is polled with the return
/// acknowledged; nothing else about it changes before the poll.
pub proof fn law_post_return_polls<
    F,
    P: FnOnce(F, ExportWaker, Guest<F>) -> (Option<F>, Guest<F>),
>(task: Box<ExportTask<F>>, poll_future: P)
    ensures
        forall|guest: &mut Guest<F>, ret: (Option<Box<ExportTask<F>>>, u32)| #[trigger]
            call_ensures(
                ExportTask::<F>::post_return_abi::<P>,
                (task, guest, poll_future),
                ret,
            ) ==> {
                &&& final(guest).current == guest.current
                &&& match task@.future {
                    None => {
                        &&& ret.0 is None && ret.1 == 1
                        &&& final(guest).imports == guest.imports
                    },
                    Some(future) => future_was_polled(
                        poll_future,
                        future,
                        task@.id_self,
                        task@.write_state,
                        ReturnState::Acknowledged,
                        guest.imports,
                        final(guest).imports,
                        ret.0,
                        ret.1,
                    ),
                }
            },
{
    assert forall|guest: &mut Guest<F>, ret: (Option<Box<ExportTask<F>>>, u32)| #[trigger]
        call_ensures(
            ExportTask::<F>::post_return_abi::<P>,
            (task, guest, poll_future),
            ret,
        ) && task@.future is Some implies future_was_polled(
        poll_future,
        task@.future->0,
        task@.id_self,
        task@.write_state,
        ReturnState::Acknowledged,
        guest.imports,
        final(guest).imports,
        ret.0,
        ret.1,
    ) by {
        let acknowledged = task@.acknowledged();
        let action = choose|action: Action<F>|
            crate::export::polled(poll_future, *guest, acknowledged, action, final(guest).imports)
                && ret == action.encoded();
        lemma_polled(poll_future, *guest, acknowledged, action, final(guest).imports);
    }
}

/// The children are `after` once the child `idx` was reported with `cause`: a
/// multiple of sixteen reports a sixteenth of it as the amount written, one a
/// return and two the end of the child.  Other causes change nothing, and no
/// cause changes anything about another child.
pub open spec fn child_was_reported(
    children: Map<u32, ChildState>,
    cause: u32,
    idx: u32,
    after: Map<u32, ChildState>,
) -> bool {
    &&& cause % 16 == 0 ==> after.contains_key(idx) && after[idx] == ChildState::Wrote(
        (cause / 16) as usize,
    )
    &&& cause == 1 ==> after.contains_key(idx) && after[idx] == ChildState::Returned
    &&& cause == 2 ==> after.contains_key(idx) && after[idx] == ChildState::Done
    &&& cause % 16 != 0 && cause != 1 && cause != 2 ==> after == children
    &&& forall|id: u32| #![trigger after.contains_key(id)]
        id != idx ==> (after.contains_key(id) <==> children.contains_key(id))
    &&& forall|id: u32| #![trigger after[id]]
        id != idx && children.contains_key(id) ==> after[id] == children[id]
}

/// An event is what its cause says, of the child that it names.
pub proof fn law_event_reports_a_child(cause: u32, idx: u32)
    ensures
        forall|state: &mut GlobalImportState|
            #![trigger call_ensures(crate::import::on_event_abi, (state, cause, idx), ())]
            call_ensures(crate::import::on_event_abi, (state, cause, idx), ())
                ==> child_was_reported(state@, cause, idx, final(state)@),
{
}

/// An event reaches the child first; the task is polled then, whatever the
/// states of its write and of its return, and finds the child as reported.
pub proof fn law_event_polls<F, P: FnOnce(F, ExportWaker, Guest<F>) -> (Option<F>, Guest<F>)>(
    task: Box<ExportTask<F>>,
    cause: u32,
    idx: u32,
    poll_future: P,
)
    ensures
        forall|guest: &mut Guest<F>, ret: (Option<Box<ExportTask<F>>>, u32)| #[trigger]
            call_ensures(
                ExportTask::<F>::on_event_abi::<P>,
                (task, guest, cause, idx, poll_future),
                ret,
            ) ==> {
                &&& final(guest).current == guest.current
                &&& match task@.future {
                    None => {
                        &&& ret.0 is None && ret.1 == 1
                        &&& child_was_reported(guest.imports@, cause, idx, final(guest).imports@)
                    },
                    Some(future) => exists|imports: GlobalImportState|
                        {
                            &&& #[trigger] child_was_reported(
                                guest.imports@,
                                cause,
                                idx,
                                imports@,
                            )
                            &&& future_was_polled(
                                poll_future,
                                future,
                                task@.id_self,
                                task@.write_state,
                                task@.return_state,
                                imports,
                                final(guest).imports,
                                ret.0,
                                ret.1,
                            )
                        },
                }
            },
{
    assert forall|guest: &mut Guest<F>, ret: (Option<Box<ExportTask<F>>>, u32)| #[trigger]
        call_ensures(
            ExportTask::<F>::on_event_abi::<P>,
            (task, guest, cause, idx, poll_future),
            ret,
        ) && task@.future is Some implies exists|imports: GlobalImportState|
        {
            &&& #[trigger] child_was_reported(guest.imports@, cause, idx, imports@)
            &&& future_was_polled(
                poll_future,
                task@.future->0,
                task@.id_self,
                task@.write_state,
                task@.return_state,
                imports,
                final(guest).imports,
                ret.0,
                ret.1,
            )
        } by {
        let (imports, action) = choose|imports: GlobalImportState, action: Action<F>|
            {
                &&& imports@ == crate::import::after_event(guest.imports@, cause, idx)
                &&& #[trigger] crate::export::polled(
                    poll_future,
                    guest.with_imports(imports),
                    task@,
                    action,
                    final(guest).imports,
                )
                &&& ret == action.encoded()
            };
        lemma_polled(
            poll_future,
            guest.with_imports(imports),
            task@,
            action,
            final(guest).imports,
        );
        assert(child_was_reported(guest.imports@, cause, idx, imports@));
    }
}

/// A cancelled task is finished, and what is left of it is dropped by
/// `drop_future` while the task is current, whatever the states of its write
/// and of its return.
pub proof fn law_cancel_drops_within_the_task<F, D: FnOnce(F, Guest<F>) -> Guest<F>>(
    task: Box<ExportTask<F>>,
    drop_future: D,
)
    ensures
        forall|guest: &mut Guest<F>, ret: (Option<Box<ExportTask<F>>>, u32)| #[trigger]
            call_ensures(
                ExportTask::<F>::cancel_abi::<D>,
                (task, guest, drop_future),
                ret,
            ) ==> {
                &&& ret.0 is None && ret.1 == 1
                &&& final(guest).current == guest.current
                &&& task@.future is None ==> final(guest).imports == guest.imports
                &&& task@.future matches Some(future) ==> exists|
                    lent: Box<ExportTask<F>>,
                    after: Box<ExportTask<F>>,
                |
                    {
                        &&& #[trigger] call_ensures(
                            drop_future,
                            (future, (Guest { current: Some(lent), imports: guest.imports })),
                            (Guest { current: Some(after), imports: final(guest).imports }),
                        )
                        &&& lent@ == (TaskView::<F> {
                            future: None,
                            write_state: task@.write_state,
                            return_state: task@.return_state,
                            id_self: task@.id_self,
                        })
                    }
            },
{
}

/// Code that runs within a task is run on the module with that task for the
/// current one.  It finds and leaves the children of the module; the task that
/// was current before is current again afterwards, and the task is handed back
/// as the code has left it.
pub proof fn law_set_runs_within_the_task<F, R, G: FnOnce(Guest<F>) -> (R, Guest<F>)>(
    task: Box<ExportTask<F>>,
    f: G,
)
    ensures
        forall|guest: &mut Guest<F>, ret: (R, Box<ExportTask<F>>)| #[trigger]
            call_ensures(tls::set::<F, R, G>, (guest, task, f), ret) ==> {
                &&& call_ensures(
                    f,
                    ((Guest { current: Some(task), imports: guest.imports }),),
                    (
                        ret.0,
                        (Guest { current: Some(ret.1), imports: final(guest).imports }),
                    ),
                )
                &&& final(guest).current == guest.current
                &&& ret.1@.id_self == task@.id_self
                &&& ret.1@.future == task@.future
            },
{
}

/// A task is found exactly by its own identifier, and only while it is current.
pub proof fn law_context_is_checked<F>(
    guest: Guest<F>,
    expected_id_self: u32,
    found: Result<(), ContextError>,
)
    requires
        call_ensures(tls::check::<F>, (&guest, expected_id_self), found),
    ensures
        guest.current is None ==> found == Err::<(), _>(ContextError::NoTask),
        guest.current matches Some(task) ==> {
            &&& task@.id_self == expected_id_self ==> found is Ok
            &&& task@.id_self != expected_id_self ==> found == Err::<(), _>(
                ContextError::OtherTask,
            )
        },
{
}

/// Code that is run on the current task is given that task, and the task stays
/// current as the code has left it.
pub proof fn law_with_reaches_the_task<F, R, G: FnOnce(&mut Box<ExportTask<F>>) -> R>(
    expected_id_self: u32,
    f: G,
)
    ensures
        forall|guest: &mut Guest<F>, ret: R| #[trigger]
            call_ensures(tls::with::<F, R, G>, (guest, expected_id_self, f), ret) ==> {
                &&& final(guest).imports == guest.imports
                &&& exists|task: &mut Box<ExportTask<F>>|
                    {
                        &&& #[trigger] call_ensures(f, (task,), ret)
                        &&& guest.current == Some(*task)
                        &&& final(guest).current == Some(*final(task))
                    }
            },
{
}

/// Between two polls the host is asked for one wakeup: the first use of a new
/// waker asks for its task, and the next one asks for nothing.
pub proof fn law_second_wake_is_silent(id_self: u32)
    ensures
        forall|
            fresh: ExportWaker,
            first: &mut ExportWaker,
            asked: Option<HostCall>,
            second: &mut ExportWaker,
            again: Option<HostCall>,
        |
            #![trigger
                call_ensures(ExportWaker::new, (id_self,), fresh),
                call_ensures(ExportWaker::wake, (first,), asked),
                call_ensures(ExportWaker::wake, (second,), again)]
            {
                &&& call_ensures(ExportWaker::new, (id_self,), fresh)
                &&& *first == fresh
                &&& call_ensures(ExportWaker::wake, (first,), asked)
                &&& *second == *final(first)
                &&& call_ensures(ExportWaker::wake, (second,), again)
            } ==> {
                &&& asked == Some(HostCall::TaskNotify { task: id_self })
                &&& again is None
                &&& *final(second) == *second
            },
{
}

/// A return value is handed over once, at the address that was given, and
/// counts as taken exactly if the host has acknowledged it.  To stop waiting
/// withdraws it exactly if the host has not.
pub proof fn law_return_is_handed_over<F>(id_self: u32, retptr: usize)
    ensures
        forall|guest: &mut Guest<F>, ret: (TaskReturn, HostCall)| #[trigger]
            call_ensures(
                ExportTask::<F>::await_return,
                (guest, id_self, retptr),
                ret,
            ) && guest.current is Some ==> {
                &&& ret.0.id_self == id_self
                &&& ret.1 == (HostCall::TaskReturn { ptr: retptr })
                &&& final(guest).imports == guest.imports
                &&& final(guest).current is Some
                &&& final(guest).current->0@ == (TaskView::<F> {
                    future: guest.current->0@.future,
                    write_state: guest.current->0@.write_state,
                    return_state: ReturnState::Started,
                    id_self: guest.current->0@.id_self,
                })
            },
        forall|waiting: TaskReturn, guest: Guest<F>, poll: Poll<()>| #[trigger]
            call_ensures(TaskReturn::poll::<F>, (&waiting, &guest), poll) ==> (poll is Ready
                <==> guest.current->0@.return_state == ReturnState::Acknowledged),
        forall|waiting: TaskReturn, guest: &mut Guest<F>, call: Option<HostCall>| #[trigger]
            call_ensures(TaskReturn::cancel::<F>, (waiting, guest), call) ==> {
                let before = guest.current->0@;
                &&& final(guest).imports == guest.imports
                &&& final(guest).current is Some
                &&& before.return_state == ReturnState::Acknowledged ==> {
                    &&& call is None
                    &&& final(guest).current->0@ == before
                }
                &&& before.return_state != ReturnState::Acknowledged ==> {
                    &&& call == Some(HostCall::TaskUnreturn)
                    &&& final(guest).current->0@ == (TaskView::<F> {
                        future: before.future,
                        write_state: before.write_state,
                        return_state: ReturnState::NotStarted,
                        id_self: before.id_self,
                    })
                }
            },
{
}

/// A write offers all items of the buffer, at the address that was given, and
/// puts the task it belongs to into the writing state; nothing else about the
/// task changes.
pub proof fn law_write_offers_the_buffer<'a, 'buf, 'stream, T, F>(ptr: usize)
    ensures
        forall|
            attached: &'a mut WriteStreamWithBuffer<'buf, 'stream, T>,
            guest: &mut Guest<F>,
            ret: (ActiveWrite<'a, 'buf, 'stream, T>, HostCall),
        | #[trigger]
            call_ensures(
                WriteStreamWithBuffer::<'buf, 'stream, T>::write::<F>,
                (attached, guest, ptr),
                ret,
            ) ==> {
                &&& ret.1 matches HostCall::TaskWrite { ptr: at, len }
                &&& at == ptr
                &&& len as int == attached.buf@.len() as usize
                &&& *ret.0.buf == *attached
                &&& *final(attached) == *final(ret.0.buf)
                &&& final(guest).imports == guest.imports
                &&& final(guest).current is Some
                &&& final(guest).current->0@ == (TaskView::<F> {
                    future: guest.current->0@.future,
                    write_state: WriteState::Writing,
                    return_state: guest.current->0@.return_state,
                    id_self: guest.current->0@.id_self,
                })
            },
{
}

/// A write resolves exactly once the host has taken items, and its result is
/// the amount that the host has reported, whatever that is.  The task is idle
/// again then, and nothing is left to be asked for.
pub proof fn law_write_delivers_what_was_taken<'a, 'buf, 'stream, T, F>()
    ensures
        forall|
            active: &mut ActiveWrite<'a, 'buf, 'stream, T>,
            guest: &mut Guest<F>,
            poll: Poll<()>,
            total: usize,
        |
            #![trigger
                call_ensures(
                    ActiveWrite::<'a, 'buf, 'stream, T>::poll::<F>,
                    (active, guest),
                    poll,
                ),
                call_ensures(
                    ActiveWrite::<'a, 'buf, 'stream, T>::finish,
                    (*final(active),),
                    total,
                )]
            {
                &&& guest.current is Some
                &&& guest.current->0@.write_state is Wrote
                &&& call_ensures(
                    ActiveWrite::<'a, 'buf, 'stream, T>::poll::<F>,
                    (active, guest),
                    poll,
                )
                &&& call_ensures(
                    ActiveWrite::<'a, 'buf, 'stream, T>::finish,
                    (*final(active),),
                    total,
                )
            } ==> {
                &&& poll == Poll::Ready(())
                &&& guest.current->0@.write_state == (WriteState::Wrote { amt: total })
                &&& final(active.buf).written == 0
                &&& final(guest).imports == guest.imports
                &&& final(guest).current is Some
                &&& final(guest).current->0@ == (TaskView::<F> {
                    future: guest.current->0@.future,
                    write_state: WriteState::Idle,
                    return_state: guest.current->0@.return_state,
                    id_self: guest.current->0@.id_self,
                })
            },
        forall|
            active: &mut ActiveWrite<'a, 'buf, 'stream, T>,
            guest: &mut Guest<F>,
            poll: Poll<()>,
        | #[trigger]
            call_ensures(
                ActiveWrite::<'a, 'buf, 'stream, T>::poll::<F>,
                (active, guest),
                poll,
            ) && guest.current is Some && guest.current->0@.write_state == WriteState::Writing
                ==> {
                &&& poll == Poll::<()>::Pending
                &&& final(active).buf.written == 0
                &&& final(guest).current is Some
                &&& final(guest).current->0@ == guest.current->0@
            },
{
}

/// A write that is cancelled after the host has taken items counts them, and
/// one that is cancelled before withdraws the offer and counts what the host
/// answers.  Either way the task is idle, and the count is given once.
pub proof fn law_cancelled_write_is_counted<'a, 'buf, 'stream, T, F>()
    ensures
        forall|
            active: ActiveWrite<'a, 'buf, 'stream, T>,
            guest: &mut Guest<F>,
            unwrite: Option<(Unwrite<'a, 'buf, 'stream, T>, HostCall)>,
        | #[trigger]
            call_ensures(
                ActiveWrite::<'a, 'buf, 'stream, T>::cancel::<F>,
                (active, guest),
                unwrite,
            ) && guest.current is Some ==> {
                &&& final(guest).imports == guest.imports
                &&& final(guest).current is Some
                &&& final(guest).current->0@ == (TaskView::<F> {
                    future: guest.current->0@.future,
                    write_state: WriteState::Idle,
                    return_state: guest.current->0@.return_state,
                    id_self: guest.current->0@.id_self,
                })
                &&& match guest.current->0@.write_state {
                    WriteState::Wrote { amt } => unwrite is None && final(active.buf).written
                        == amt,
                    _ => {
                        &&& unwrite matches Some((pending, call))
                        &&& call == HostCall::TaskUnwrite
                        &&& *final(active.buf) == *final(pending.buf)
                    },
                }
            },
        forall|pending: Unwrite<'a, 'buf, 'stream, T>, amt: usize|
            #![trigger call_ensures(
                Unwrite::<'a, 'buf, 'stream, T>::complete,
                (pending, amt),
                (),
            )]
            call_ensures(Unwrite::<'a, 'buf, 'stream, T>::complete, (pending, amt), ())
                ==> final(pending.buf).written == amt,
        forall|attached: &mut WriteStreamWithBuffer<'buf, 'stream, T>, amt: usize| #[trigger]
            call_ensures(
                WriteStreamWithBuffer::<'buf, 'stream, T>::count,
                (attached,),
                amt,
            ) ==> {
                &&& amt == attached.written
                &&& final(attached).written == 0
                &&& final(attached).buf@ == attached.buf@
            },
{
}

/// A stream belongs to the task it was made for, and a buffer that is attached
/// to it is the one that was given, with nothing counted.
pub proof fn law_stream_belongs_to_its_task<'buf, 'stream, T>(id_self: u32, buf: &'buf [T])
    ensures
        forall|stream: WriteStream<u8>, id: u32|
            #![trigger
                call_ensures(WriteStream::<u8>::new, (id_self,), stream),
                call_ensures(WriteStream::<u8>::id_self, (&stream,), id)]
            call_ensures(WriteStream::<u8>::new, (id_self,), stream) && call_ensures(
                WriteStream::<u8>::id_self,
                (&stream,),
                id,
            ) ==> id == id_self,
        forall|
            stream: &'stream mut WriteStream<T>,
            attached: WriteStreamWithBuffer<'buf, 'stream, T>,
        | #[trigger]
            call_ensures(WriteStream::<T>::with_buffer, (stream, buf), attached) ==> {
                &&& *attached.stream == *stream
                &&& *final(stream) == *final(attached.stream)
                &&& attached.buf@ == buf@
                &&& attached.written == 0
            },
{
}

/// A task whose future was polled waits exactly if the future is pending, with
/// that future and otherwise as it is; and a waiting task is kept by the host
/// under the code zero, a finished one released under the code one.
pub proof fn law_outcome_is_encoded<F>(
    task: Box<ExportTask<F>>,
    pending: Option<F>,
    action: Action<F>,
    encoded: (Option<Box<ExportTask<F>>>, u32),
)
    requires
        call_ensures(ExportTask::<F>::resume, (task, pending), action),
        call_ensures(Action::<F>::encode, (action,), encoded),
    ensures
        encoded.1 == 0 || encoded.1 == 1,
        encoded.1 == 0 <==> pending is Some,
        encoded.0 is Some <==> pending is Some,
        encoded.0 matches Some(waiting) ==> {
            &&& waiting@.future == pending
            &&& waiting@.write_state == task@.write_state
            &&& waiting@.return_state == task@.return_state
            &&& waiting@.id_self == task@.id_self
        },
{
}

/// A task tells what it is, how far its write and its return have come, and
/// which callbacks it expects: that of a write exactly while it is writing, and
/// that of a return exactly while its value waits to be taken.
pub proof fn law_task_tells_its_states<F>(task: ExportTask<F>)
    ensures
        forall|id: u32| #[trigger]
            call_ensures(ExportTask::<F>::id_self, (&task,), id) ==> id == task@.id_self,
        forall|state: WriteState| #[trigger]
            call_ensures(ExportTask::<F>::write_state, (&task,), state) ==> state
                == task@.write_state,
        forall|state: ReturnState| #[trigger]
            call_ensures(ExportTask::<F>::return_state, (&task,), state) ==> state
                == task@.return_state,
        forall|in_order: bool| #[trigger]
            call_ensures(ExportTask::<F>::expects_post_write, (&task,), in_order) ==> (in_order
                <==> task@.write_state == WriteState::Writing),
        forall|in_order: bool| #[trigger]
            call_ensures(ExportTask::<F>::expects_post_return, (&task,), in_order) ==> (in_order
                <==> task@.return_state == ReturnState::Started),
{
}

/// In a new module no task is current and no child is known.
pub proof fn law_new_module_is_empty<F>()
    ensures
        forall|guest: Guest<F>| #[trigger]
            call_ensures(Guest::<F>::new, (), guest) ==> {
                &&& guest.current is None
                &&& forall|id: u32| !#[trigger] guest.imports@.contains_key(id)
            },
{
}

} // verus!
