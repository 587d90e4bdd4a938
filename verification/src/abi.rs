//! The vocabulary shared with the host: codes, causes and intrinsics.
use vstd::prelude::*;

verus! {

/// Code returned from a callback when the task is to be kept by the host.
pub const ACTION_WAIT: u32 = 0;

/// Code returned from a callback when the task is finished and released.
pub const ACTION_FINISH: u32 = 1;

/// Cause of an `on-event` callback, in its low four bits: a child wrote items
/// into the buffer that listens to it.  The amount stands in the upper bits.
pub const CAUSE_CHILD_WRITE: u32 = 0;

/// Cause of an `on-event` callback: a child's return value is in place.
pub const CAUSE_CHILD_RETURN: u32 = 1;

/// Cause of an `on-event` callback: a child has done its post-return work too.
pub const CAUSE_CHILD_DONE: u32 = 2;

/// Whether an asynchronous operation has its result yet.
#[derive(Debug, PartialEq, Eq)]
pub enum Poll<T> {
    Ready(T),
    Pending,
}

/// An intrinsic of the host, with its arguments, that the caller has to call.
#[derive(Clone, Copy, Debug, PartialEq, Eq, Structural)]
pub enum HostCall {
    /// Offers `len` items at `ptr` to whoever reads the task's stream.
    TaskWrite { ptr: usize, len: usize },
    /// Withdraws the offer; the host answers how many items it had taken.
    TaskUnwrite,
    /// Hands over the return value at `ptr`.
    TaskReturn { ptr: usize },
    /// Withdraws the return value.
    TaskUnreturn,
    /// Asks for a wakeup of `task`.
    TaskNotify { task: u32 },
    /// Releases the child `task`, cancelling it if it is still running.
    TaskDrop { task: u32 },
    /// Makes the current task the parent of `task`.
    TaskAdopt { task: u32 },
    /// Listens for the return value of `task`, to be stored at `ret`.
    TaskListenFuture { task: u32, ret: usize },
    /// Listens for up to `len` items of `task`, to be stored at `buf`, and for
    /// its return value, to be stored at `ret`.
    TaskListenStream { task: u32, buf: usize, len: usize, ret: usize },
    /// Stops listening to `task`.
    TaskUnlisten { task: u32 },
}

/// The outcome of a poll that may need the host: `call` has to be made,
/// whether or not the result is there.
#[derive(Debug, PartialEq, Eq)]
pub struct Polled<T> {
    pub call: Option<HostCall>,
    pub poll: Poll<T>,
}

} // verus!
