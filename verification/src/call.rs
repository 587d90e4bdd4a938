//! Calls of imported functions, which a child task may carry out.
use vstd::prelude::*;

use crate::abi::{HostCall, Poll, Polled};
use crate::import::{ChildState, GlobalImportState, WasmTask};

verus! {

/// A call of an imported function that returns a `T`.
///
/// The host stores the return value as `N` words, from which `D` makes a `T`.
pub struct WasmImport<T, D, const N: usize> {
    space: [usize; N],
    deserialize: Option<D>,
    task: Option<WasmTask>,
    _marker: core::marker::PhantomData<T>,
}

/// What a [`WasmImport`] is made of.
pub struct ImportView<D, const N: usize> {
    /// The words that the host stores.
    pub space: [usize; N],
    /// What turns them into the return value, until it was used.
    pub deserialize: Option<D>,
    /// The child that carries the call out.  There is none if the call was
    /// finished at once, and none after the return value was taken.
    pub task: Option<WasmTask>,
}

impl<T, D, const N: usize> View for WasmImport<T, D, N> {
    type V = ImportView<D, N>;

    closed spec fn view(&self) -> ImportView<D, N> {
        ImportView { space: self.space, deserialize: self.deserialize, task: self.task }
    }
}

/// Whether values of type `T` have to be dropped: `std::mem::needs_drop`.
///
/// Nothing is claimed of the answer: for some types it may be `true` though
/// dropping a value does nothing.
#[verifier::external_body]
fn needs_drop<T>() -> (needed: bool) {
    std::mem::needs_drop::<T>()
}

/// `needed` is an answer that `needs_drop` may give for `T`.
pub closed spec fn may_need_drop<T>(needed: bool) -> bool {
    call_ensures(needs_drop::<T>, (), needed)
}

/// Whether values of a type have to be dropped is asked of that very type.
proof fn law_need_is_asked_of_the_type<T>(needed: bool)
    ensures
        may_need_drop::<T>(needed) <==> call_ensures(needs_drop::<T>, (), needed),
{
}

impl<D, const N: usize> ImportView<D, N> {
    /// The return value was taken.
    pub open spec fn finished(self) -> ImportView<D, N> {
        ImportView { deserialize: None, task: None, ..self }
    }

    /// The child, if there is one, is known.
    pub open spec fn known(self, children: Map<u32, ChildState>) -> bool {
        self.task matches Some(task) ==> children.contains_key(task.id)
    }

    /// The return value is in place.
    pub open spec fn is_ready(self, children: Map<u32, ChildState>) -> bool {
        self.task matches Some(task) ==> children[task.id].has_returned()
    }

    /// The return value is in place and was not taken, as far as can be told:
    /// once a child is done, its value counts as taken.
    pub open spec fn is_undelivered(self, children: Map<u32, ChildState>) -> bool {
        &&& self.deserialize is Some
        &&& self.task matches Some(task) ==> children[task.id] is Returned
    }
}

impl<T, D, const N: usize> WasmImport<T, D, N> {
    /// A call that the task `current_id` has made.  The host answered `task`:
    /// zero if the call is finished and its result is in `space`, and the
    /// identifier of the child that carries it out otherwise.
    pub fn new(
        imports: &mut GlobalImportState,
        task: u32,
        space: [usize; N],
        deserialize: D,
        current_id: u32,
    ) -> (import: WasmImport<T, D, N>)
        ensures
            import@.space == space,
            import@.deserialize == Some(deserialize),
            task == 0 ==> import@.task is None && final(imports)@ == old(imports)@,
            task != 0 ==> {
                &&& import@.task == Some(WasmTask { id: task, parent: current_id })
                &&& final(imports)@ == old(imports)@.insert(task, ChildState::Waiting)
            },
    {
        let task = if task == 0 {
            None
        } else {
            Some(WasmTask::new(imports, task, current_id))
        };
        WasmImport {
            space,
            deserialize: Some(deserialize),
            task,
            _marker: core::marker::PhantomData,
        }
    }

    /// Where the host stores the return value.
    pub fn space(&self) -> (space: &[usize; N])
        ensures
            *space == self@.space,
    {
        &self.space
    }

    /// Whether the return value was taken.
    pub fn is_finished(&self) -> (finished: bool)
        ensures
            finished == self@.deserialize is None,
    {
        self.deserialize.is_none()
    }

    /// The child that carries the call out, if there is one.
    pub fn task_id(&self) -> (id: Option<u32>)
        ensures
            id == (match self@.task {
                Some(task) => Some(task.id),
                None => None,
            }),
    {
        match &self.task {
            Some(task) => Some(task.id()),
            None => None,
        }
    }

    /// The child that carries the call out, which has to be there.
    pub(crate) fn task_mut(&mut self) -> (task: &mut WasmTask)
        requires
            old(self)@.task is Some,
        ensures
            old(self)@.task == Some(*task),
            final(self)@ == (ImportView { task: Some(*final(task)), ..old(self)@ }),
    {
        self.task.as_mut().unwrap()
    }

    /// Makes the child available along with the return value.
    pub fn and_task(self) -> (import: WasmImportAndTask<T, D, N>)
        ensures
            import.0 == self,
    {
        WasmImportAndTask(self)
    }
}

impl<T, D: FnOnce(&[usize; N]) -> T, const N: usize> WasmImport<T, D, N> {
    /// `deserialize` can be used on whatever the host stores.
    pub open spec fn can_deserialize(self) -> bool {
        self@.deserialize matches Some(deserialize) ==> forall|space: &[usize; N]| #[trigger]
            call_requires(deserialize, (space,))
    }

    /// `result` is what the words that the host stored stand for.
    pub open spec fn deserializes_to(self, result: T) -> bool {
        &&& self@.deserialize is Some
        &&& call_ensures(self@.deserialize->0, (&self@.space,), result)
    }

    /// `undelivered` is what there is to be dropped when the call is given up,
    /// `needs_drop` telling whether return values have to be dropped: the
    /// return value, if it is in place and was not taken.
    pub open spec fn gives_up(
        self,
        children: Map<u32, ChildState>,
        needs_drop: bool,
        undelivered: Option<T>,
    ) -> bool {
        &&& undelivered is Some <==> needs_drop && self@.is_undelivered(children)
        &&& undelivered matches Some(result) ==> self.deserializes_to(result)
    }

    /// Resolves to the return value, and to what is left of the child.
    ///
    /// `ret` is the address of [`space`](WasmImport::space): as long as the
    /// value is not in place, the host is asked to store it there.
    pub fn poll_result(&mut self, imports: &GlobalImportState, ret: usize) -> (polled: Polled<
        (T, WasmImportTask),
    >)
        requires
            old(self).can_deserialize(),
            old(self)@.deserialize is Some,
            old(self)@.known(imports@),
            old(self)@.task matches Some(task) ==> !(imports@[task.id] is Wrote),
        ensures
            old(self)@.is_ready(imports@) ==> {
                &&& polled.call is None
                &&& polled.poll matches Poll::Ready((result, task))
                &&& old(self).deserializes_to(result)
                &&& task.task == old(self)@.task
                &&& final(self)@ == old(self)@.finished()
            },
            !old(self)@.is_ready(imports@) ==> {
                &&& polled.call == Some(
                    HostCall::TaskListenFuture { task: old(self)@.task->0.id, ret },
                )
                &&& polled.poll is Pending
                &&& final(self)@ == old(self)@
            },
    {
        if let Some(task) = &self.task {
            match imports.child(task.id()).unwrap() {
                // Listening makes the current task the parent, so the
                // child's events wake the task that polls here.
                ChildState::Waiting => {
                    let call = HostCall::TaskListenFuture { task: task.id(), ret };
                    return Polled { call: Some(call), poll: Poll::Pending };
                },
                _ => {},
            }
        }
        Polled { call: None, poll: Poll::Ready(self.take_result()) }
    }

    /// Takes the return value, which is in place.
    pub(crate) fn take_result(&mut self) -> (ret: (T, WasmImportTask))
        requires
            old(self).can_deserialize(),
            old(self)@.deserialize is Some,
        ensures
            old(self).deserializes_to(ret.0),
            ret.1.task == old(self)@.task,
            final(self)@ == old(self)@.finished(),
    {
        let deserialize = self.deserialize.take().unwrap();
        let result = deserialize(&self.space);
        (result, WasmImportTask { task: self.task.take() })
    }

    /// Resolves to the return value.  The child is given up then, whether or
    /// not it has post-return work to do.
    pub fn poll(&mut self, imports: &mut GlobalImportState, ret: usize) -> (polled: Polled<T>)
        requires
            old(self).can_deserialize(),
            old(self)@.deserialize is Some,
            old(self)@.known(old(imports)@),
            old(self)@.task matches Some(task) ==> !(old(imports)@[task.id] is Wrote),
        ensures
            old(self)@.is_ready(old(imports)@) ==> {
                &&& polled.call == release_call(old(self)@.task)
                &&& polled.poll matches Poll::Ready(result)
                &&& old(self).deserializes_to(result)
                &&& final(self)@ == old(self)@.finished()
                &&& final(imports)@ == after_release(old(imports)@, old(self)@.task)
            },
            !old(self)@.is_ready(old(imports)@) ==> {
                &&& polled.call == Some(
                    HostCall::TaskListenFuture { task: old(self)@.task->0.id, ret },
                )
                &&& polled.poll is Pending
                &&& final(self)@ == old(self)@
                &&& final(imports)@ == old(imports)@
            },
    {
        let polled = self.poll_result(imports, ret);
        match polled.poll {
            Poll::Ready((result, task)) => {
                Polled { call: task.release(imports), poll: Poll::Ready(result) }
            },
            Poll::Pending => Polled { call: polled.call, poll: Poll::Pending },
        }
    }

    /// Gives the call up, as [`discard`](WasmImport::discard) does, if
    /// `needs_drop` tells whether return values have to be dropped.
    pub fn discard_with(self, imports: &mut GlobalImportState, needs_drop: bool) -> (ret: (
        Option<T>,
        Option<HostCall>,
    ))
        requires
            self.can_deserialize(),
            self@.known(old(imports)@),
        ensures
            self.gives_up(old(imports)@, needs_drop, ret.0),
            ret.1 == release_call(self@.task),
            final(imports)@ == after_release(old(imports)@, self@.task),
    {
        let mut import = self;
        let mut undelivered = None;
        if needs_drop {
            if let Some(deserialize) = import.deserialize.take() {
                let needs_deserialize = match &import.task {
                    Some(task) => match imports.child(task.id()).unwrap() {
                        ChildState::Returned => true,
                        _ => false,
                    },
                    // The call was finished at once, and never polled.
                    None => true,
                };
                if needs_deserialize {
                    undelivered = Some(deserialize(&import.space));
                }
            }
        }
        (undelivered, WasmImportTask { task: import.task }.release(imports))
    }

    /// Gives the call up.
    ///
    /// If the return value is in place and was not taken, it is returned for
    /// the caller to drop, unless `std::mem::needs_drop` answers for `T` that
    /// there is nothing to be done for that.
    pub fn discard(self, imports: &mut GlobalImportState) -> (ret: (Option<T>, Option<HostCall>))
        requires
            self.can_deserialize(),
            self@.known(old(imports)@),
        ensures
            exists|needed: bool|
                #[trigger] may_need_drop::<T>(needed) && self.gives_up(
                    old(imports)@,
                    needed,
                    ret.0,
                ),
            ret.1 == release_call(self@.task),
            final(imports)@ == after_release(old(imports)@, self@.task),
    {
        let ask = needs_drop::<T>;
        let needed: bool = ask();
        assert(may_need_drop::<T>(needed));
        self.discard_with(imports, needed)
    }
}

/// What the host has to be told when a child, if there is one, is given up.
pub open spec fn release_call(task: Option<WasmTask>) -> Option<HostCall> {
    match task {
        Some(task) => Some(HostCall::TaskDrop { task: task.id }),
        None => None,
    }
}

/// The `children` after a child, if there is one, was given up.
pub open spec fn after_release(children: Map<u32, ChildState>, task: Option<WasmTask>) -> Map<
    u32,
    ChildState,
> {
    match task {
        Some(task) => children.remove(task.id),
        None => children,
    }
}

/// A call whose child outlives the return value.
pub struct WasmImportAndTask<T, D, const N: usize>(pub WasmImport<T, D, N>);

impl<T, D: FnOnce(&[usize; N]) -> T, const N: usize> WasmImportAndTask<T, D, N> {
    /// Resolves to the return value and to what is left of the child, as
    /// [`WasmImport::poll_result`] does.
    pub fn poll(&mut self, imports: &GlobalImportState, ret: usize) -> (polled: Polled<
        (T, WasmImportTask),
    >)
        requires
            old(self).0.can_deserialize(),
            old(self).0@.deserialize is Some,
            old(self).0@.known(imports@),
            old(self).0@.task matches Some(task) ==> !(imports@[task.id] is Wrote),
        ensures
            old(self).0@.is_ready(imports@) ==> {
                &&& polled.call is None
                &&& polled.poll matches Poll::Ready((result, task))
                &&& old(self).0.deserializes_to(result)
                &&& task.task == old(self).0@.task
                &&& final(self).0@ == old(self).0@.finished()
            },
            !old(self).0@.is_ready(imports@) ==> {
                &&& polled.call == Some(
                    HostCall::TaskListenFuture { task: old(self).0@.task->0.id, ret },
                )
                &&& polled.poll is Pending
                &&& final(self).0@ == old(self).0@
            },
    {
        self.0.poll_result(imports, ret)
    }
}

impl<T, D: FnOnce(&[usize; N]) -> T, const N: usize> WasmImportAndTask<T, D, N> {
    /// Cancels the call, which must not have a child: children cannot be
    /// cancelled.  There is nothing left of it but the return value, if that
    /// was not taken and `std::mem::needs_drop` answers for `T` that it has to
    /// be dropped.
    pub fn cancel(self, imports: &mut GlobalImportState) -> (ret: (
        Option<WasmImportTask>,
        Option<T>,
    ))
        requires
            self.0.can_deserialize(),
            self.0@.task is None,
        ensures
            ret.0 is None,
            exists|needed: bool|
                #[trigger] may_need_drop::<T>(needed) && self.0.gives_up(
                    old(imports)@,
                    needed,
                    ret.1,
                ),
            final(imports)@ == old(imports)@,
    {
        let ask = needs_drop::<T>;
        let needed: bool = ask();
        assert(may_need_drop::<T>(needed));
        self.cancel_with(imports, needed)
    }

    /// Cancels the call, as [`cancel`](WasmImportAndTask::cancel) does, if
    /// `needs_drop` tells whether return values have to be dropped.
    pub fn cancel_with(self, imports: &mut GlobalImportState, needs_drop: bool) -> (ret: (
        Option<WasmImportTask>,
        Option<T>,
    ))
        requires
            self.0.can_deserialize(),
            self.0@.task is None,
        ensures
            ret.0 is None,
            self.0.gives_up(old(imports)@, needs_drop, ret.1),
            final(imports)@ == old(imports)@,
    {
        let (undelivered, _) = self.0.discard_with(imports, needs_drop);
        (None, undelivered)
    }
}

/// What is left of a child after its return value was taken.
pub struct WasmImportTask {
    pub task: Option<WasmTask>,
}

impl WasmImportTask {
    /// Resolves once the post-return work of the child is done, if there is a
    /// child at all.  The child is the child of `current_id` from now on.
    pub fn done(&mut self, imports: &mut GlobalImportState, current_id: u32) -> (polled: Polled<()>)
        requires
            old(self).task matches Some(task) ==> old(imports)@.contains_key(task.id),
        ensures
            final(imports)@ == old(imports)@,
            match old(self).task {
                None => {
                    &&& final(self).task is None
                    &&& polled == Polled { call: None, poll: Poll::Ready(()) }
                },
                Some(task) => {
                    &&& final(self).task == Some(task.reparented(current_id))
                    &&& polled.call == task.adoption(current_id)
                    &&& polled.poll == (if old(imports)@[task.id] is Done {
                        Poll::Ready(())
                    } else {
                        Poll::Pending
                    })
                },
            },
    {
        match self.task.as_mut() {
            None => Polled { call: None, poll: Poll::Ready(()) },
            Some(task) => {
                let is_done = |state: &mut ChildState| -> (poll: Poll<()>)
                    ensures
                        *final(state) == *old(state),
                        poll == (if *old(state) is Done {
                            Poll::Ready(())
                        } else {
                            Poll::Pending
                        }),
                {
                    match *state {
                        ChildState::Done => Poll::Ready(()),
                        _ => Poll::Pending,
                    }
                };
                task.await_child_state(imports, current_id, is_done)
            },
        }
    }

    /// Cancels the child, which must not be there: children cannot be
    /// cancelled.
    pub fn cancel(&mut self)
        requires
            old(self).task is None,
        ensures
            *final(self) == *old(self),
    {
    }

    /// Gives the child up, if there is one.
    pub fn release(self, imports: &mut GlobalImportState) -> (call: Option<HostCall>)
        ensures
            call == release_call(self.task),
            final(imports)@ == after_release(old(imports)@, self.task),
    {
        match self.task {
            Some(task) => Some(task.release(imports)),
            None => None,
        }
    }
}

} // verus!
