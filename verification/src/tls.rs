//! The task whose future is being polled.
use vstd::prelude::*;

use crate::export::{ExportTask, TaskView};
use crate::import::{ChildState, GlobalImportState};

verus! {

/// What the tasks of one wasm module share: the task being polled at the
/// moment, if any, and the children that the module's tasks have started.
pub struct Guest<F> {
    pub current: Option<Box<ExportTask<F>>>,
    pub imports: GlobalImportState,
}

impl<F> Guest<F> {
    /// A module in which nothing runs yet.
    pub fn new() -> (guest: Guest<F>)
        ensures
            guest.current is None,
            guest.imports@ == Map::<u32, ChildState>::empty(),
    {
        Guest { current: None, imports: GlobalImportState::new() }
    }

    /// The task `id_self` is the one being polled.
    pub open spec fn is_running(self, id_self: u32) -> bool {
        &&& self.current is Some
        &&& self.current->0@.id_self == id_self
    }

    /// The task being polled.
    pub open spec fn task(self) -> TaskView<F>
        recommends
            self.current is Some,
    {
        self.current->0@
    }

    /// The same module while `task` is being polled.
    pub open spec fn entered(self, task: Box<ExportTask<F>>) -> Guest<F> {
        Guest { current: Some(task), imports: self.imports }
    }

    /// The same module with other children.
    pub open spec fn with_imports(self, imports: GlobalImportState) -> Guest<F> {
        Guest { current: self.current, imports }
    }
}

/// `after` is still the task `before`, its future untouched; the states of its
/// write and of its return may have changed.
pub open spec fn same_task<F>(before: Box<ExportTask<F>>, after: Box<ExportTask<F>>) -> bool {
    &&& after@.id_self == before@.id_self
    &&& after@.future == before@.future
}

/// `f` can be run while `task` is current, and leaves it current.
pub open spec fn runs_within<F, R, G: FnOnce(Guest<F>) -> (R, Guest<F>)>(
    f: G,
    guest: Guest<F>,
    task: Box<ExportTask<F>>,
) -> bool {
    &&& call_requires(f, (guest.entered(task),))
    &&& forall|out: (R, Guest<F>)| #[trigger]
        call_ensures(f, (guest.entered(task),), out) ==> out.1.current is Some && same_task(
            task,
            out.1.current->0,
        )
}

/// `f`, run while `task` is current, may return `ret`, leaving the task as
/// `task_after` and the children as `imports_after`.
pub open spec fn ran_within<F, R, G: FnOnce(Guest<F>) -> (R, Guest<F>)>(
    f: G,
    guest: Guest<F>,
    task: Box<ExportTask<F>>,
    ret: R,
    task_after: Box<ExportTask<F>>,
    imports_after: GlobalImportState,
) -> bool {
    call_ensures(
        f,
        (guest.entered(task),),
        (ret, Guest { current: Some(task_after), imports: imports_after }),
    )
}

/// Runs `f` while `task` is the current task, and hands the task back.
///
/// Whichever task was current before, if any, is current again afterwards.
pub fn set<F, R, G: FnOnce(Guest<F>) -> (R, Guest<F>)>(
    guest: &mut Guest<F>,
    task: Box<ExportTask<F>>,
    f: G,
) -> (ret: (R, Box<ExportTask<F>>))
    requires
        runs_within(f, *old(guest), task),
    ensures
        final(guest).current == old(guest).current,
        same_task(task, ret.1),
        ran_within(f, *old(guest), task, ret.0, ret.1, final(guest).imports),
{
    let mut imports = GlobalImportState::new();
    std::mem::swap(&mut guest.imports, &mut imports);
    let (ret, inner) = f(Guest { current: Some(task), imports });
    guest.imports = inner.imports;
    (ret, inner.current.unwrap())
}

/// Why the current task cannot be had.
#[derive(Clone, Copy, Debug, PartialEq, Eq, Structural)]
pub enum ContextError {
    /// No task is being polled.
    NoTask,
    /// The task being polled is another one.
    OtherTask,
}

/// Tells whether `expected_id_self` is the task being polled.
pub fn check<F>(guest: &Guest<F>, expected_id_self: u32) -> (found: Result<(), ContextError>)
    ensures
        found is Ok <==> guest.is_running(expected_id_self),
        found == Err::<(), _>(ContextError::NoTask) <==> guest.current is None,
        found == Err::<(), _>(ContextError::OtherTask) <==> guest.current is Some
            && guest.current->0@.id_self != expected_id_self,
{
    match &guest.current {
        None => Err(ContextError::NoTask),
        Some(task) => if task.id_self() == expected_id_self {
            Ok(())
        } else {
            Err(ContextError::OtherTask)
        },
    }
}

/// The task being polled, which has to be `expected_id_self`.
pub fn current_task<F>(guest: &mut Guest<F>, expected_id_self: u32) -> (task: &mut Box<
    ExportTask<F>,
>)
    requires
        old(guest).is_running(expected_id_self),
    ensures
        old(guest).current == Some(*task),
        final(guest).current == Some(*final(task)),
        final(guest).imports == old(guest).imports,
{
    guest.current.as_mut().unwrap()
}

/// Runs `f` on the task being polled, which has to be `expected_id_self`.
pub fn with<F, R, G: FnOnce(&mut Box<ExportTask<F>>) -> R>(
    guest: &mut Guest<F>,
    expected_id_self: u32,
    f: G,
) -> (ret: R)
    requires
        old(guest).is_running(expected_id_self),
        forall|task: &mut Box<ExportTask<F>>|
            Some(*task) == old(guest).current ==> #[trigger] call_requires(f, (task,)),
    ensures
        final(guest).imports == old(guest).imports,
        exists|task: &mut Box<ExportTask<F>>|
            {
                &&& Some(*task) == old(guest).current
                &&& #[trigger] call_ensures(f, (task,), ret)
                &&& final(guest).current == Some(*final(task))
            },
{
    f(current_task(guest, expected_id_self))
}

} // verus!
