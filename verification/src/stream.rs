//! Calls of imported functions that write a stream of items.
use vstd::prelude::*;

use crate::abi::{HostCall, Poll, Polled};
use crate::call::{ImportView, WasmImport, WasmImportTask};
use crate::import::{ChildState, GlobalImportState, WasmTask};
use crate::ledger::{ReadEvent, ReadModel, ReadPhase};

verus! {

/// The reading end of a stream of `T`s, which ends with a `U`.
pub struct Stream<T, U, D, const N: usize> {
    import: WasmImport<U, D, N>,
    _marker: core::marker::PhantomData<T>,
}

/// The call that writes the stream.
impl<T, U, D, const N: usize> View for Stream<T, U, D, N> {
    type V = WasmImport<U, D, N>;

    closed spec fn view(&self) -> WasmImport<U, D, N> {
        self.import
    }
}

impl<U, D, const N: usize> Stream<u8, U, D, N> {
    /// The stream that `import` writes.
    ///
    /// Items have to be represented in memory the way the host sees them,
    /// which is why streams of bytes are the only ones there are.
    pub fn new(import: WasmImport<U, D, N>) -> (stream: Self)
        ensures
            stream@ == import,
    {
        Stream { import, _marker: core::marker::PhantomData }
    }
}

impl<T, U, D, const N: usize> Stream<T, U, D, N> {
    /// The call that writes the stream.
    pub fn import(&self) -> (import: &WasmImport<U, D, N>)
        ensures
            *import == self@,
    {
        &self.import
    }

    /// Gives the stream up for the call that writes it.
    pub fn into_import(self) -> (import: WasmImport<U, D, N>)
        ensures
            import == self@,
    {
        self.import
    }

    /// Attaches a buffer to read into.
    pub fn with_buffer<'buf, 'stream>(&'stream mut self, buf: &'buf mut [T]) -> (attached:
        StreamWithBuffer<'buf, 'stream, T, U, D, N>)
        ensures
            *attached.stream == *old(self),
            *final(self) == *final(attached.stream),
            attached.buf@ == old(buf)@,
            final(buf)@ == final(attached.buf)@,
            attached.read == 0,
    {
        StreamWithBuffer::new(self, buf)
    }
}

impl<T, U, D: FnOnce(&[usize; N]) -> U, const N: usize> Stream<T, U, D, N> {
    /// Ends the stream: its result, and what is left of the child.
    ///
    /// The result has to be in place, which a read tells by returning zero.
    pub fn result(self, imports: &GlobalImportState) -> (ret: (U, WasmImportTask))
        requires
            self@.can_deserialize(),
            self@@.deserialize is Some,
            self@@.known(imports@),
            self@@.is_ready(imports@),
        ensures
            self@.deserializes_to(ret.0),
            ret.1.task == self@@.task,
    {
        let mut import = self.import;
        import.take_result()
    }
}

/// A stream with a buffer to read into.
pub struct StreamWithBuffer<'buf, 'stream, T, U, D, const N: usize> {
    pub stream: &'stream mut Stream<T, U, D, N>,
    pub buf: &'buf mut [T],
    /// How many items were read by a read that was cancelled, until
    /// [`count`](StreamWithBuffer::count) asks for them.
    pub read: usize,
}

impl<'buf, 'stream, T, U, D, const N: usize> StreamWithBuffer<'buf, 'stream, T, U, D, N> {
    fn new(stream: &'stream mut Stream<T, U, D, N>, buf: &'buf mut [T]) -> (attached: Self)
        ensures
            *attached.stream == *old(stream),
            *final(stream) == *final(attached.stream),
            attached.buf@ == old(buf)@,
            final(buf)@ == final(attached.buf)@,
            attached.read == 0,
    {
        StreamWithBuffer { stream, buf, read: 0 }
    }

    /// Starts to read into the buffer, which stands in memory at `buf_ptr`.
    ///
    /// The amount that an earlier read left behind has to be asked for first:
    /// it would be lost among what this read does.  The call has to be carried
    /// out by a child, which is the child of `current_id` from now on.  `ret`
    /// is the address where the result of the stream is stored.
    pub fn read<'a>(&'a mut self, current_id: u32, buf_ptr: usize, ret: usize) -> (started: (
        ActiveRead<'a, 'a>,
        Option<HostCall>,
        HostCall,
    ))
        requires
            old(self).read == 0,
            old(self).stream@@.task is Some,
        ensures
            old(self).stream@@.task matches Some(task) && {
                &&& *started.0.task == task.reparented(current_id)
                &&& started.1 == task.adoption(current_id)
                &&& started.2 == (HostCall::TaskListenStream {
                    task: task.id,
                    buf: buf_ptr,
                    len: old(self).buf@.len() as usize,
                    ret,
                })
            },
            *started.0.read == 0,
            final(self).stream@@ == (ImportView {
                task: Some(*final(started.0.task)),
                ..old(self).stream@@
            }),
            *final(final(self).stream) == *final(old(self).stream),
            final(self).buf == old(self).buf,
            final(self).read == *final(started.0.read),
            forall|state: ChildState|
                ReadModel::of(ReadPhase::Active, state, *started.0.read)
                    == #[trigger] ReadModel::of(ReadPhase::Idle, state, old(self).read).next(
                    ReadEvent::Start,
                ),
    {
        let len: usize = self.buf.len();
        let task = self.stream.import.task_mut();
        let adopt = task.maybe_reparent(current_id);
        let listen = HostCall::TaskListenStream { task: task.id(), buf: buf_ptr, len, ret };
        (ActiveRead::new(task, &mut self.read), adopt, listen)
    }

    /// How many items a cancelled read had read.
    ///
    /// The answer is given once: asked again, this returns zero, and so it
    /// does after a read that was not cancelled.
    pub fn count(&mut self) -> (amt: usize)
        ensures
            amt == old(self).read,
            *final(self) == (StreamWithBuffer { read: 0, ..*old(self) }),
            forall|state: ChildState|
                ReadModel::of(ReadPhase::Idle, state, final(self).read)
                    == #[trigger] ReadModel::of(ReadPhase::Idle, state, old(self).read).next(
                    ReadEvent::Count,
                ),
            forall|state: ChildState|
                amt == #[trigger] ReadModel::of(ReadPhase::Idle, state, old(self).read).delivered(
                    ReadEvent::Count,
                ),
    {
        let amt: usize = self.read;
        self.read = 0;
        amt
    }
}

/// A read in progress, to which the host listens for the items of a child.
pub struct ActiveRead<'a, 'b> {
    pub task: &'a mut WasmTask,
    pub read: &'b mut usize,
}

impl<'a, 'b> ActiveRead<'a, 'b> {
    /// A read from the child `task`, which counts in `read`.  The child must
    /// not have written anything that an earlier read has left unclaimed.
    fn new(task: &'a mut WasmTask, read: &'b mut usize) -> (active: Self)
        ensures
            *active.task == *old(task),
            *final(task) == *final(active.task),
            *active.read == *old(read),
            *final(read) == *final(active.read),
    {
        ActiveRead { task, read }
    }

    /// Claims the items that were written, if there are any.
    ///
    /// Resolves if there are some, and if there will never be any again.
    fn consume_read(read: &mut usize, state: &mut ChildState) -> (poll: Poll<()>)
        requires
            *old(read) + old(state).unclaimed() <= usize::MAX,
        ensures
            *final(read) == *old(read) + old(state).unclaimed(),
            *final(state) == old(state).after_read(),
            poll == (if *old(state) is Waiting {
                Poll::Pending
            } else {
                Poll::Ready(())
            }),
    {
        match *state {
            ChildState::Waiting => Poll::Pending,
            ChildState::Wrote(n) => {
                *read += n;
                *state = ChildState::Waiting;
                Poll::Ready(())
            },
            ChildState::Returned | ChildState::Done => Poll::Ready(()),
        }
    }

    /// Resolves once items were read, which are claimed then, or once the
    /// child has returned.  The child is the child of `current_id` from now
    /// on.
    pub fn poll(&mut self, imports: &mut GlobalImportState, current_id: u32) -> (polled: Polled<()>)
        requires
            *old(self).read == 0,
            old(imports)@.contains_key(old(self).task.id),
        ensures
            *final(self).task == old(self).task.reparented(current_id),
            *final(final(self).task) == *final(old(self).task),
            *final(self).read == old(imports)@[old(self).task.id].unclaimed(),
            *final(final(self).read) == *final(old(self).read),
            final(imports)@ == after_read(old(imports)@, old(self).task.id),
            polled.call == old(self).task.adoption(current_id),
            polled.poll == (if old(imports)@[old(self).task.id] is Waiting {
                Poll::Pending
            } else {
                Poll::Ready(())
            }),
            ReadModel::of(
                if polled.poll is Ready {
                    ReadPhase::Resolved
                } else {
                    ReadPhase::Active
                },
                final(imports)@[old(self).task.id],
                *final(self).read,
            ) == ReadModel::of(
                ReadPhase::Active,
                old(imports)@[old(self).task.id],
                *old(self).read,
            ).next(ReadEvent::Poll),
    {
        let call = self.task.maybe_reparent(current_id);
        let mut state = imports.child(self.task.id()).unwrap();
        let poll = ActiveRead::consume_read(self.read, &mut state);
        imports.insert(self.task.id(), state);
        Polled { call, poll }
    }

    /// Ends a read that has resolved, and returns how many items it read.
    /// The host has stopped to listen by then.
    pub fn finish(self) -> (amt: usize)
        ensures
            amt == *old(self.read),
            *final(self.read) == 0,
            *final(self.task) == *old(self.task),
            forall|state: ChildState|
                ReadModel::of(ReadPhase::Idle, state, *final(self.read))
                    == #[trigger] ReadModel::of(ReadPhase::Resolved, state, *old(self.read)).next(
                    ReadEvent::Finish,
                ),
            forall|state: ChildState|
                amt == #[trigger] ReadModel::of(
                    ReadPhase::Resolved,
                    state,
                    *old(self.read),
                ).delivered(ReadEvent::Finish),
    {
        let amt: usize = *self.read;
        *self.read = 0;
        amt
    }

    /// Ends a read that has not resolved.
    ///
    /// If items were written in the meantime, they are counted.  The host is
    /// told to stop listening in any case.
    pub fn cancel(self, imports: &mut GlobalImportState) -> (call: HostCall)
        requires
            *self.read == 0,
            old(imports)@.contains_key(self.task.id),
        ensures
            *final(self.read) == old(imports)@[old(self.task).id].unclaimed(),
            *final(self.task) == *old(self.task),
            final(imports)@ == after_read(old(imports)@, old(self.task).id),
            call == (HostCall::TaskUnlisten { task: old(self.task).id }),
            ReadModel::of(
                ReadPhase::Idle,
                final(imports)@[old(self.task).id],
                *final(self.read),
            ) == ReadModel::of(
                ReadPhase::Active,
                old(imports)@[old(self.task).id],
                *old(self.read),
            ).next(ReadEvent::Cancel),
    {
        let id: u32 = self.task.id();
        let mut state = imports.child(id).unwrap();
        ActiveRead::consume_read(self.read, &mut state);
        imports.insert(id, state);
        HostCall::TaskUnlisten { task: id }
    }
}

/// The `children` after a read has looked at the child `id`.
pub open spec fn after_read(children: Map<u32, ChildState>, id: u32) -> Map<u32, ChildState> {
    children.insert(id, children[id].after_read())
}

} // verus!
