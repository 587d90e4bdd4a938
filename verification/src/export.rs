//! Exported tasks: the asynchronous functions that this module exports.
use vstd::prelude::*;

use crate::abi::{HostCall, Poll, ACTION_FINISH, ACTION_WAIT};
use crate::import;
use crate::import::GlobalImportState;
use crate::ledger::{WriteEvent, WriteModel, WritePhase};
use crate::tls;
use crate::tls::Guest;

verus! {

/// How far the write of a task's stream has come.
#[derive(Clone, Copy, Debug, PartialEq, Eq, Structural)]
pub enum WriteState {
    /// The host took `amt` items, which nobody has claimed yet.
    Wrote { amt: usize },
    /// Items are on offer.
    Writing,
    /// There is no write.
    Idle,
}

impl WriteState {
    /// How many items were taken and not claimed.
    pub open spec fn unclaimed(self) -> usize {
        match self {
            WriteState::Wrote { amt } => amt,
            _ => 0,
        }
    }

    /// The state after the write was polled: what could be claimed is claimed.
    pub open spec fn after_poll(self) -> WriteState {
        match self {
            WriteState::Wrote { .. } => WriteState::Idle,
            _ => self,
        }
    }
}

/// How far the return of a task has come.
#[derive(Clone, Copy, Debug, PartialEq, Eq, Structural)]
pub enum ReturnState {
    /// The task has not returned.
    NotStarted,
    /// The return value was handed over.
    Started,
    /// The host has taken the return value.
    Acknowledged,
}

/// One call of an exported function, run by the future `F`.
pub struct ExportTask<F> {
    future: Option<F>,
    write_state: WriteState,
    return_state: ReturnState,
    id_self: u32,
}

/// What an [`ExportTask`] is made of.
pub struct TaskView<F> {
    /// What is left of the task, unless it is finished or being polled.
    pub future: Option<F>,
    pub write_state: WriteState,
    pub return_state: ReturnState,
    /// The host's identifier of the task.
    pub id_self: u32,
}

impl<F> View for ExportTask<F> {
    type V = TaskView<F>;

    closed spec fn view(&self) -> TaskView<F> {
        TaskView {
            future: self.future,
            write_state: self.write_state,
            return_state: self.return_state,
            id_self: self.id_self,
        }
    }
}

/// What becomes of a task after a callback.
pub enum Action<F> {
    /// The task has more to do: the host keeps it and calls back.
    Wait(Box<ExportTask<F>>),
    /// The task is finished.
    Finish,
}

impl<F> Action<F> {
    /// The task that the host is to keep, and the code that tells it so.
    pub open spec fn encoded(self) -> (Option<Box<ExportTask<F>>>, u32) {
        match self {
            Action::Wait(task) => (Some(task), ACTION_WAIT),
            Action::Finish => (None, ACTION_FINISH),
        }
    }

    /// Turns the action into the task that the host is to keep and the code
    /// that tells it so.
    pub fn encode(self) -> (encoded: (Option<Box<ExportTask<F>>>, u32))
        ensures
            encoded == self.encoded(),
    {
        match self {
            Action::Wait(task) => (Some(task), ACTION_WAIT),
            Action::Finish => (None, ACTION_FINISH),
        }
    }
}

/// What all wakers of one task share.  It is made anew for every poll, which
/// is how the task comes to be notified again.
pub struct ExportWaker {
    pub id_self: u32,
    /// A wakeup was asked for since the task was last polled.
    pub notified: bool,
}

impl ExportWaker {
    /// A waker that has not been used.
    pub open spec fn spec_new(id_self: u32) -> ExportWaker {
        ExportWaker { id_self, notified: false }
    }

    /// A waker of the task `id_self` that has not been used.
    pub fn new(id_self: u32) -> (waker: ExportWaker)
        ensures
            waker == ExportWaker::spec_new(id_self),
    {
        ExportWaker { id_self, notified: false }
    }

    /// The waker after it was used.
    pub open spec fn woken(self) -> ExportWaker {
        ExportWaker { id_self: self.id_self, notified: true }
    }

    /// What the host has to be told when the waker is used.
    pub open spec fn wake_call(self) -> Option<HostCall> {
        if self.notified {
            None
        } else {
            Some(HostCall::TaskNotify { task: self.id_self })
        }
    }

    /// Wakes the task.  The host is asked only if no wakeup is on its way.
    pub fn wake(&mut self) -> (call: Option<HostCall>)
        ensures
            *final(self) == old(self).woken(),
            call == old(self).wake_call(),
    {
        if self.notified {
            return None;
        }
        self.notified = true;
        Some(HostCall::TaskNotify { task: self.id_self })
    }
}

impl<F> TaskView<F> {
    /// A task that was not polled yet.
    pub open spec fn started(id_self: u32, future: F) -> TaskView<F> {
        TaskView {
            future: Some(future),
            write_state: WriteState::Idle,
            return_state: ReturnState::NotStarted,
            id_self,
        }
    }

    /// A `post-write` callback is in order: the task is writing.
    pub open spec fn spec_expects_post_write(self) -> bool {
        self.write_state is Writing
    }

    /// A `post-return` callback is in order: the task has handed over its
    /// return value, and the host has not taken it.
    pub open spec fn spec_expects_post_return(self) -> bool {
        self.return_state is Started
    }

    /// The task after the host took `amt` items from it.
    pub open spec fn wrote(self, amt: usize) -> TaskView<F> {
        self.with_write_state(WriteState::Wrote { amt })
    }

    /// The task in another state of writing.
    pub open spec fn with_write_state(self, write_state: WriteState) -> TaskView<F> {
        TaskView { write_state, ..self }
    }

    /// The task after the host took its return value.
    pub open spec fn acknowledged(self) -> TaskView<F> {
        TaskView { return_state: ReturnState::Acknowledged, ..self }
    }

    /// The task after it handed over its return value.
    pub open spec fn returning(self) -> TaskView<F> {
        TaskView { return_state: ReturnState::Started, ..self }
    }

    /// The task after it stopped to wait for its return value to be taken.
    pub open spec fn return_cancelled(self) -> TaskView<F> {
        if self.return_state is Acknowledged {
            self
        } else {
            TaskView { return_state: ReturnState::NotStarted, ..self }
        }
    }

    /// The task as it is while its future is being polled.
    pub open spec fn lent(self) -> TaskView<F> {
        TaskView { future: None, ..self }
    }
}

/// Code that polls futures: it is given the future, the waker to poll it with
/// and the module with the future's task as the current one, and returns the
/// future if that is still pending.
pub open spec fn polls<F, P: FnOnce(F, ExportWaker, Guest<F>) -> (Option<F>, Guest<F>)>(
    poll_future: P,
    guest: Guest<F>,
    task: TaskView<F>,
) -> bool {
    task.future matches Some(future) ==> {
        let waker = ExportWaker::spec_new(task.id_self);
        &&& forall|lent: Box<ExportTask<F>>|
            #![trigger guest.entered(lent)]
            lent@ == task.lent() ==> call_requires(
                poll_future,
                (future, waker, guest.entered(lent)),
            )
        &&& forall|lent: Box<ExportTask<F>>, out: (Option<F>, Guest<F>)|
            #![trigger call_ensures(poll_future, (future, waker, guest.entered(lent)), out)]
            lent@ == task.lent() && call_ensures(
                poll_future,
                (future, waker, guest.entered(lent)),
                out,
            ) ==> out.1.current is Some && tls::same_task(lent, out.1.current->0)
    }
}

/// `action` is what a poll of `task` by `poll_future` may lead to, leaving the
/// children as `imports_after`.
///
/// A task without a future is finished.  Otherwise the future is polled, with
/// a waker that has not been used yet, while the task is current: the task is
/// finished if the future is ready, and waits with the future if it is not.
pub open spec fn polled<F, P: FnOnce(F, ExportWaker, Guest<F>) -> (Option<F>, Guest<F>)>(
    poll_future: P,
    guest: Guest<F>,
    task: TaskView<F>,
    action: Action<F>,
    imports_after: GlobalImportState,
) -> bool {
    match task.future {
        None => action == Action::<F>::Finish && imports_after == guest.imports,
        Some(future) => exists|
            lent: Box<ExportTask<F>>,
            pending: Option<F>,
            after: Box<ExportTask<F>>,
        |
            {
                &&& lent@ == task.lent()
                &&& #[trigger] call_ensures(
                    poll_future,
                    (future, ExportWaker::spec_new(task.id_self), guest.entered(lent)),
                    (pending, Guest { current: Some(after), imports: imports_after }),
                )
                &&& tls::same_task(lent, after)
                &&& resumed(after@, pending, action)
            },
    }
}

/// Code that drops futures: it is given the future and the module with the
/// future's task as the current one.
pub open spec fn drops<F, D: FnOnce(F, Guest<F>) -> Guest<F>>(
    drop_future: D,
    guest: Guest<F>,
    task: TaskView<F>,
) -> bool {
    task.future matches Some(future) ==> {
        &&& forall|lent: Box<ExportTask<F>>|
            #![trigger guest.entered(lent)]
            lent@ == task.lent() ==> call_requires(drop_future, (future, guest.entered(lent)))
        &&& forall|lent: Box<ExportTask<F>>, out: Guest<F>|
            #![trigger call_ensures(drop_future, (future, guest.entered(lent)), out)]
            lent@ == task.lent() && call_ensures(drop_future, (future, guest.entered(lent)), out)
                ==> out.current is Some && tls::same_task(lent, out.current->0)
    }
}

/// The children may be `imports_after` once the future of `task`, if it has
/// one, was dropped by `drop_future` while the task was current.
pub open spec fn dropped<F, D: FnOnce(F, Guest<F>) -> Guest<F>>(
    drop_future: D,
    guest: Guest<F>,
    task: TaskView<F>,
    imports_after: GlobalImportState,
) -> bool {
    match task.future {
        None => imports_after == guest.imports,
        Some(future) => exists|lent: Box<ExportTask<F>>, after: Box<ExportTask<F>>|
            {
                &&& lent@ == task.lent()
                &&& #[trigger] call_ensures(
                    drop_future,
                    (future, guest.entered(lent)),
                    (Guest { current: Some(after), imports: imports_after }),
                )
            },
    }
}

/// `action` is what becomes of a task whose future was polled, which left
/// `task` and, unless it is ready, the future `pending`.
pub open spec fn resumed<F>(task: TaskView<F>, pending: Option<F>, action: Action<F>) -> bool {
    match pending {
        None => action is Finish,
        Some(_) => {
            &&& action is Wait
            &&& action->Wait_0@ == (TaskView { future: pending, ..task })
        },
    }
}

impl<F> ExportTask<F> {
    /// The host's identifier of the task.
    pub fn id_self(&self) -> (id_self: u32)
        ensures
            id_self == self@.id_self,
    {
        self.id_self
    }

    /// How far the write of the task's stream has come.
    pub fn write_state(&self) -> (write_state: WriteState)
        ensures
            write_state == self@.write_state,
    {
        self.write_state
    }

    /// How far the return of the task has come.
    pub fn return_state(&self) -> (return_state: ReturnState)
        ensures
            return_state == self@.return_state,
    {
        self.return_state
    }

    /// Whether a `post-write` callback is in order, which it is if the task is
    /// writing.
    pub fn expects_post_write(&self) -> (in_order: bool)
        ensures
            in_order == self@.spec_expects_post_write(),
    {
        matches!(self.write_state, WriteState::Writing)
    }

    /// Whether a `post-return` callback is in order, which it is if the task
    /// has started to return and the host has not taken the value.
    pub fn expects_post_return(&self) -> (in_order: bool)
        ensures
            in_order == self@.spec_expects_post_return(),
    {
        matches!(self.return_state, ReturnState::Started)
    }

    /// Takes note of the outcome of a poll: `pending` is the future, unless it
    /// is ready.
    pub fn resume(task: Box<ExportTask<F>>, pending: Option<F>) -> (action: Action<F>)
        ensures
            resumed(task@, pending, action),
    {
        if pending.is_some() {
            let mut task = task;
            task.future = pending;
            return Action::Wait(task);
        }
        Action::Finish
    }

    /// Polls the task's future, if it has one.
    pub fn poll<P: FnOnce(F, ExportWaker, Guest<F>) -> (Option<F>, Guest<F>)>(
        task: Box<ExportTask<F>>,
        guest: &mut Guest<F>,
        poll_future: P,
    ) -> (action: Action<F>)
        requires
            polls(poll_future, *old(guest), task@),
        ensures
            final(guest).current == old(guest).current,
            polled(poll_future, *old(guest), task@, action, final(guest).imports),
    {
        let mut task = task;
        match task.future.take() {
            None => Action::Finish,
            Some(future) => {
                let waker = ExportWaker::new(task.id_self);
                let poll_inner = |inner: Guest<F>| -> (out: (Option<F>, Guest<F>))
                    requires
                        call_requires(poll_future, (future, waker, inner)),
                    ensures
                        call_ensures(poll_future, (future, waker, inner), out),
                {
                    poll_future(future, waker, inner)
                };
                let (pending, task) = tls::set(guest, task, poll_inner);
                ExportTask::resume(task, pending)
            },
        }
    }

    /// Starts a task: the `callee` entry point of the export.
    ///
    /// `id_self` is the host's identifier of the task, and `future` does its
    /// work.  The future is polled for the first time right away.  Returns the
    /// task, unless it is finished, and the code for the host.
    pub fn run<P: FnOnce(F, ExportWaker, Guest<F>) -> (Option<F>, Guest<F>)>(
        guest: &mut Guest<F>,
        id_self: u32,
        future: F,
        poll_future: P,
    ) -> (ret: (Option<Box<ExportTask<F>>>, u32))
        requires
            polls(poll_future, *old(guest), TaskView::started(id_self, future)),
        ensures
            final(guest).current == old(guest).current,
            exists|action: Action<F>|
                {
                    &&& #[trigger] polled(
                        poll_future,
                        *old(guest),
                        TaskView::started(id_self, future),
                        action,
                        final(guest).imports,
                    )
                    &&& ret == action.encoded()
                },
    {
        let task = Box::new(
            ExportTask {
                future: Some(future),
                write_state: WriteState::Idle,
                return_state: ReturnState::NotStarted,
                id_self,
            },
        );
        ExportTask::poll(task, guest, poll_future).encode()
    }

    /// The `on-event` entry point: something happened to the child `idx`.
    ///
    /// [`GlobalImportState::expects_event`] tells whether the event is in
    /// order.
    pub fn on_event_abi<P: FnOnce(F, ExportWaker, Guest<F>) -> (Option<F>, Guest<F>)>(
        task: Box<ExportTask<F>>,
        guest: &mut Guest<F>,
        cause: u32,
        idx: u32,
        poll_future: P,
    ) -> (ret: (Option<Box<ExportTask<F>>>, u32))
        requires
            import::reported_state(cause) is Some ==> old(guest).imports@.contains_key(idx),
            forall|imports: GlobalImportState|
                imports@ == import::after_event(old(guest).imports@, cause, idx)
                    ==> #[trigger] polls(poll_future, old(guest).with_imports(imports), task@),
        ensures
            final(guest).current == old(guest).current,
            exists|imports: GlobalImportState, action: Action<F>|
                {
                    &&& imports@ == import::after_event(old(guest).imports@, cause, idx)
                    &&& #[trigger] polled(
                        poll_future,
                        old(guest).with_imports(imports),
                        task@,
                        action,
                        final(guest).imports,
                    )
                    &&& ret == action.encoded()
                },
    {
        // Update the state of child tasks first: the future looks at it.
        import::on_event_abi(&mut guest.imports, cause, idx);
        assert(*guest == old(guest).with_imports(guest.imports));
        ExportTask::poll(task, guest, poll_future).encode()
    }

    /// The `post-write` entry point: the host took `amt` of the items on offer.
    ///
    /// [`expects_post_write`](ExportTask::expects_post_write) tells whether the
    /// callback is in order.
    pub fn post_write_abi<P: FnOnce(F, ExportWaker, Guest<F>) -> (Option<F>, Guest<F>)>(
        task: Box<ExportTask<F>>,
        guest: &mut Guest<F>,
        amt: usize,
        poll_future: P,
    ) -> (ret: (Option<Box<ExportTask<F>>>, u32))
        requires
            polls(poll_future, *old(guest), task@.wrote(amt)),
        ensures
            final(guest).current == old(guest).current,
            exists|action: Action<F>|
                {
                    &&& #[trigger] polled(
                        poll_future,
                        *old(guest),
                        task@.wrote(amt),
                        action,
                        final(guest).imports,
                    )
                    &&& ret == action.encoded()
                },
    {
        let mut task = task;
        task.write_state = WriteState::Wrote { amt };
        ExportTask::poll(task, guest, poll_future).encode()
    }

    /// The `post-return` entry point: the host took the return value.
    ///
    /// [`expects_post_return`](ExportTask::expects_post_return) tells whether
    /// the callback is in order.
    pub fn post_return_abi<P: FnOnce(F, ExportWaker, Guest<F>) -> (Option<F>, Guest<F>)>(
        task: Box<ExportTask<F>>,
        guest: &mut Guest<F>,
        poll_future: P,
    ) -> (ret: (Option<Box<ExportTask<F>>>, u32))
        requires
            polls(poll_future, *old(guest), task@.acknowledged()),
        ensures
            final(guest).current == old(guest).current,
            exists|action: Action<F>|
                {
                    &&& #[trigger] polled(
                        poll_future,
                        *old(guest),
                        task@.acknowledged(),
                        action,
                        final(guest).imports,
                    )
                    &&& ret == action.encoded()
                },
    {
        let mut task = task;
        task.return_state = ReturnState::Acknowledged;
        ExportTask::poll(task, guest, poll_future).encode()
    }

    /// Hands the return value at `retptr` over to the host.
    pub fn await_return(guest: &mut Guest<F>, id_self: u32, retptr: usize) -> (ret: (
        TaskReturn,
        HostCall,
    ))
        requires
            old(guest).is_running(id_self),
        ensures
            ret == (TaskReturn { id_self }, HostCall::TaskReturn { ptr: retptr }),
            final(guest).current is Some,
            final(guest).imports == old(guest).imports,
            final(guest).task() == old(guest).task().returning(),
    {
        let task = tls::current_task(guest, id_self);
        task.return_state = ReturnState::Started;
        (TaskReturn { id_self }, HostCall::TaskReturn { ptr: retptr })
    }

    /// The `cancel` entry point: `drop_future` drops what is left of the
    /// task, while the task is current, and the task is finished.
    pub fn cancel_abi<D: FnOnce(F, Guest<F>) -> Guest<F>>(
        task: Box<ExportTask<F>>,
        guest: &mut Guest<F>,
        drop_future: D,
    ) -> (ret: (Option<Box<ExportTask<F>>>, u32))
        requires
            drops(drop_future, *old(guest), task@),
        ensures
            ret == (None::<Box<ExportTask<F>>>, ACTION_FINISH),
            final(guest).current == old(guest).current,
            dropped(drop_future, *old(guest), task@, final(guest).imports),
    {
        let mut task = task;
        match task.future.take() {
            None => {},
            Some(future) => {
                let drop_inner = |inner: Guest<F>| -> (out: ((), Guest<F>))
                    requires
                        call_requires(drop_future, (future, inner)),
                    ensures
                        call_ensures(drop_future, (future, inner), out.1),
                {
                    ((), drop_future(future, inner))
                };
                let (_, lent) = tls::set(guest, task, drop_inner);
                task = lent;
            },
        }
        // Nothing is left to be polled.
        let poll_nothing = |future: F, waker: ExportWaker, inner: Guest<F>| -> (out: (
            Option<F>,
            Guest<F>,
        )) { (Some(future), inner) };
        ExportTask::poll(task, guest, poll_nothing).encode()
    }
}

/// A return value that was handed over to the host.
pub struct TaskReturn {
    /// The task that returns.
    pub id_self: u32,
}

impl TaskReturn {
    /// Resolves once the host has taken the return value.
    pub fn poll<F>(&self, guest: &Guest<F>) -> (poll: Poll<()>)
        requires
            guest.is_running(self.id_self),
        ensures
            poll == (if guest.task().return_state is Acknowledged {
                Poll::Ready(())
            } else {
                Poll::Pending
            }),
    {
        match guest.current.as_ref().unwrap().return_state {
            ReturnState::Acknowledged => Poll::Ready(()),
            _ => Poll::Pending,
        }
    }

    /// Stops waiting.  If the host has not taken the return value yet, it is
    /// withdrawn.
    pub fn cancel<F>(self, guest: &mut Guest<F>) -> (call: Option<HostCall>)
        requires
            old(guest).is_running(self.id_self),
        ensures
            final(guest).current is Some,
            final(guest).imports == old(guest).imports,
            final(guest).task() == old(guest).task().return_cancelled(),
            call == (if old(guest).task().return_state is Acknowledged {
                None
            } else {
                Some(HostCall::TaskUnreturn)
            }),
    {
        let task = tls::current_task(guest, self.id_self);
        match task.return_state {
            // The value is gone: there is nothing to clean up.
            ReturnState::Acknowledged => None,
            _ => {
                task.return_state = ReturnState::NotStarted;
                Some(HostCall::TaskUnreturn)
            },
        }
    }
}

/// The writing end of the stream of the task it was made for.
pub struct WriteStream<T> {
    _marker: core::marker::PhantomData<T>,
    id_self: u32,
}

/// The task that the stream belongs to.
impl<T> View for WriteStream<T> {
    type V = u32;

    closed spec fn view(&self) -> u32 {
        self.id_self
    }
}

impl WriteStream<u8> {
    /// The stream of the task `id_self`.
    ///
    /// Items have to be represented in memory the way the host sees them,
    /// which is why streams of bytes are the only ones there are.
    pub fn new(id_self: u32) -> (stream: WriteStream<u8>)
        ensures
            stream@ == id_self,
    {
        WriteStream { _marker: core::marker::PhantomData, id_self }
    }
}

impl<T> WriteStream<T> {
    /// The task that the stream belongs to.
    pub fn id_self(&self) -> (id_self: u32)
        ensures
            id_self == self@,
    {
        self.id_self
    }

    /// Attaches the items to be written.
    pub fn with_buffer<'buf, 'stream>(&'stream mut self, buf: &'buf [T]) -> (attached:
        WriteStreamWithBuffer<'buf, 'stream, T>)
        ensures
            *attached.stream == *old(self),
            *final(self) == *final(attached.stream),
            attached.buf == buf,
            attached.written == 0,
    {
        WriteStreamWithBuffer::new(self, buf)
    }
}

/// A stream with items to be written to it.
pub struct WriteStreamWithBuffer<'buf, 'stream, T> {
    pub stream: &'stream mut WriteStream<T>,
    pub buf: &'buf [T],
    /// How many items were written by a write that was cancelled, until
    /// [`count`](WriteStreamWithBuffer::count) asks for them.
    pub written: usize,
}

impl<'buf, 'stream, T> WriteStreamWithBuffer<'buf, 'stream, T> {
    fn new(stream: &'stream mut WriteStream<T>, buf: &'buf [T]) -> (attached: Self)
        ensures
            *attached.stream == *old(stream),
            *final(stream) == *final(attached.stream),
            attached.buf == buf,
            attached.written == 0,
    {
        WriteStreamWithBuffer { stream, buf, written: 0 }
    }

    /// Starts to write the items, which stand in memory at `ptr`.
    ///
    /// The amount that an earlier write left behind has to be asked for
    /// first: it would be lost among what this write does.
    pub fn write<'a, F>(&'a mut self, guest: &mut Guest<F>, ptr: usize) -> (ret: (
        ActiveWrite<'a, 'buf, 'stream, T>,
        HostCall,
    ))
        requires
            old(self).written == 0,
            old(guest).is_running(old(self).stream@),
        ensures
            *ret.0.buf == *old(self),
            *final(self) == *final(ret.0.buf),
            ret.1 == (HostCall::TaskWrite { ptr, len: old(self).buf@.len() as usize }),
            final(guest).current is Some,
            final(guest).imports == old(guest).imports,
            final(guest).task() == old(guest).task().with_write_state(WriteState::Writing),
            WriteModel::of(
                WritePhase::Active,
                final(guest).task().write_state,
                ret.0.buf.written,
            ) == WriteModel::of(
                WritePhase::Idle,
                old(guest).task().write_state,
                old(self).written,
            ).next(WriteEvent::Start),
    {
        let task = tls::current_task(guest, self.stream.id_self);
        task.write_state = WriteState::Writing;
        let len: usize = self.buf.len();
        (ActiveWrite { buf: self }, HostCall::TaskWrite { ptr, len })
    }

    /// How many items a cancelled write had written.
    ///
    /// The answer is given once: asked again, this returns zero, and so it
    /// does after a write that was not cancelled.
    pub fn count(&mut self) -> (amt: usize)
        ensures
            amt == old(self).written,
            *final(self) == (WriteStreamWithBuffer { written: 0, ..*old(self) }),
            forall|state: WriteState|
                WriteModel::of(WritePhase::Idle, state, final(self).written)
                    == #[trigger] WriteModel::of(WritePhase::Idle, state, old(self).written).next(
                    WriteEvent::Count,
                ),
            forall|state: WriteState|
                amt == #[trigger] WriteModel::of(
                    WritePhase::Idle,
                    state,
                    old(self).written,
                ).delivered(WriteEvent::Count),
    {
        let amt: usize = self.written;
        self.written = 0;
        amt
    }
}

/// A write in progress.
pub struct ActiveWrite<'a, 'buf, 'stream, T> {
    pub buf: &'a mut WriteStreamWithBuffer<'buf, 'stream, T>,
}

impl<'a, 'buf, 'stream, T> ActiveWrite<'a, 'buf, 'stream, T> {
    /// Claims the items that the host has taken, if it has.
    fn consume_write<F>(&mut self, task: &mut ExportTask<F>) -> (poll: Poll<()>)
        requires
            old(self).buf.written + old(task)@.write_state.unclaimed() <= usize::MAX,
        ensures
            poll == (if old(task)@.write_state is Wrote {
                Poll::Ready(())
            } else {
                Poll::Pending
            }),
            *final(self).buf == (WriteStreamWithBuffer {
                written: (old(self).buf.written + old(task)@.write_state.unclaimed()) as usize,
                ..*old(self).buf
            }),
            *final(final(self).buf) == *final(old(self).buf),
            final(task)@ == old(task)@.with_write_state(old(task)@.write_state.after_poll()),
    {
        match task.write_state {
            WriteState::Wrote { amt } => {
                self.buf.written += amt;
                task.write_state = WriteState::Idle;
                Poll::Ready(())
            },
            _ => Poll::Pending,
        }
    }

    /// Resolves once the host has taken items, which are claimed then.
    pub fn poll<F>(&mut self, guest: &mut Guest<F>) -> (poll: Poll<()>)
        requires
            old(self).buf.written == 0,
            old(guest).is_running(old(self).buf.stream@),
        ensures
            poll == (if old(guest).task().write_state is Wrote {
                Poll::Ready(())
            } else {
                Poll::Pending
            }),
            *final(self).buf == (WriteStreamWithBuffer {
                written: old(guest).task().write_state.unclaimed(),
                ..*old(self).buf
            }),
            *final(final(self).buf) == *final(old(self).buf),
            final(guest).current is Some,
            final(guest).imports == old(guest).imports,
            final(guest).task() == old(guest).task().with_write_state(
                old(guest).task().write_state.after_poll(),
            ),
            WriteModel::of(
                if poll is Ready {
                    WritePhase::Resolved
                } else {
                    WritePhase::Active
                },
                final(guest).task().write_state,
                final(self).buf.written,
            ) == WriteModel::of(
                WritePhase::Active,
                old(guest).task().write_state,
                old(self).buf.written,
            ).next(WriteEvent::Poll),
    {
        let task = tls::current_task(guest, self.buf.stream.id_self);
        self.consume_write(task)
    }

    /// Ends a write that has resolved, and returns how many items it wrote.
    pub fn finish(self) -> (amt: usize)
        ensures
            amt == old(self.buf).written,
            *final(self.buf) == (WriteStreamWithBuffer { written: 0, ..*old(self.buf) }),
            forall|state: WriteState|
                WriteModel::of(WritePhase::Idle, state, final(self.buf).written)
                    == #[trigger] WriteModel::of(
                    WritePhase::Resolved,
                    state,
                    old(self.buf).written,
                ).next(WriteEvent::Finish),
            forall|state: WriteState|
                amt == #[trigger] WriteModel::of(
                    WritePhase::Resolved,
                    state,
                    old(self.buf).written,
                ).delivered(WriteEvent::Finish),
    {
        self.buf.count()
    }

    /// Ends a write that has not resolved.
    ///
    /// If the host has taken items in the meantime, they are counted.
    /// Otherwise the offer is withdrawn, and the host's answer has to be
    /// handed to what this returns.
    pub fn cancel<F>(self, guest: &mut Guest<F>) -> (unwrite: Option<
        (Unwrite<'a, 'buf, 'stream, T>, HostCall),
    >)
        requires
            self.buf.written == 0,
            old(guest).is_running(self.buf.stream@),
        ensures
            final(guest).current is Some,
            final(guest).imports == old(guest).imports,
            final(guest).task() == old(guest).task().with_write_state(WriteState::Idle),
            match old(guest).task().write_state {
                WriteState::Wrote { amt } => {
                    &&& unwrite is None
                    &&& *final(self.buf) == (WriteStreamWithBuffer {
                        written: amt,
                        ..*old(self.buf)
                    })
                },
                _ => {
                    &&& unwrite matches Some((pending, call))
                    &&& call == HostCall::TaskUnwrite
                    &&& *pending.buf == *old(self.buf)
                    &&& *final(self.buf) == *final(pending.buf)
                },
            },
            WriteModel::of(
                WritePhase::Active,
                old(guest).task().write_state,
                old(self.buf).written,
            ).next(WriteEvent::Cancel) == (match unwrite {
                None => WriteModel::of(
                    WritePhase::Idle,
                    final(guest).task().write_state,
                    final(self.buf).written,
                ),
                Some((pending, _)) => WriteModel::of(
                    WritePhase::Withdrawing,
                    final(guest).task().write_state,
                    pending.buf.written,
                ),
            }),
    {
        let task = tls::current_task(guest, self.buf.stream.id_self);
        let prev = task.write_state;
        task.write_state = WriteState::Idle;
        match prev {
            WriteState::Wrote { amt } => {
                self.buf.written += amt;
                None
            },
            _ => Some((Unwrite { buf: self.buf }, HostCall::TaskUnwrite)),
        }
    }
}

/// A write whose offer is being withdrawn.
pub struct Unwrite<'a, 'buf, 'stream, T> {
    pub buf: &'a mut WriteStreamWithBuffer<'buf, 'stream, T>,
}

impl<'a, 'buf, 'stream, T> Unwrite<'a, 'buf, 'stream, T> {
    /// Counts the `amt` items that the host had taken before the offer was
    /// withdrawn.
    pub fn complete(self, amt: usize)
        requires
            self.buf.written == 0,
        ensures
            *final(self.buf) == (WriteStreamWithBuffer { written: amt, ..*old(self.buf) }),
            forall|state: WriteState|
                WriteModel::of(WritePhase::Idle, state, final(self.buf).written)
                    == #[trigger] WriteModel::of(
                    WritePhase::Withdrawing,
                    state,
                    old(self.buf).written,
                ).next(WriteEvent::Unwrote { amt }),
    {
        self.buf.written += amt;
    }
}

} // verus!
