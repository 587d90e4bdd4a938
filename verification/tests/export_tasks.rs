use wasm_task::abi::{HostCall, Poll, ACTION_FINISH, ACTION_WAIT};
use wasm_task::export::{
    Action, ExportTask, ExportWaker, ReturnState, TaskReturn, WriteState, WriteStream,
};
use wasm_task::import::{ChildState, WasmTask};
use wasm_task::tls;
use wasm_task::tls::{ContextError, Guest};

/// The futures of these tests: a number that says how many polls are left.
type Countdown = u32;

fn tick(left: Countdown, _waker: ExportWaker, guest: Guest<Countdown>) -> (Option<Countdown>, Guest<Countdown>) {
    if left <= 1 {
        (None, guest)
    } else {
        (Some(left - 1), guest)
    }
}

/// A task `id` that waits with `left` polls to go.
fn waiting(guest: &mut Guest<Countdown>, id: u32, left: Countdown) -> Box<ExportTask<Countdown>> {
    let (task, code) = ExportTask::run(guest, id, left + 1, tick);
    assert_eq!(code, ACTION_WAIT);
    task.unwrap()
}

/// Runs `f` while a new task `id` is current.
fn within<R>(
    guest: &mut Guest<Countdown>,
    id: u32,
    f: impl FnOnce(&mut Guest<Countdown>) -> R,
) -> (R, Box<ExportTask<Countdown>>) {
    let task = waiting(guest, id, 1);
    tls::set(guest, task, |mut inner| {
        let ret = f(&mut inner);
        (ret, inner)
    })
}

#[test]
fn action_codes() {
    assert_eq!(ACTION_WAIT, 0);
    assert_eq!(ACTION_FINISH, 1);
}

#[test]
fn run_to_completion_at_once() {
    let mut guest = Guest::new();
    let (task, code) = ExportTask::run(&mut guest, 7, 1, tick);
    assert!(task.is_none());
    assert_eq!(code, ACTION_FINISH);
}

#[test]
fn run_keeps_a_pending_task() {
    let mut guest = Guest::new();
    let (task, code) = ExportTask::run(&mut guest, 7, 3, tick);
    assert_eq!(code, ACTION_WAIT);
    let task = task.unwrap();
    assert_eq!(task.id_self(), 7);
    assert_eq!(task.write_state(), WriteState::Idle);
    assert_eq!(task.return_state(), ReturnState::NotStarted);

    let (task, code) = ExportTask::post_return_abi(task, &mut guest, tick);
    assert_eq!(code, ACTION_WAIT);
    let task = task.unwrap();
    assert_eq!(task.return_state(), ReturnState::Acknowledged);

    let (task, code) = ExportTask::post_write_abi(task, &mut guest, 5, tick);
    assert!(task.is_none());
    assert_eq!(code, ACTION_FINISH);
}

#[test]
fn poll_makes_the_task_current() {
    let mut guest: Guest<Countdown> = Guest::new();
    let (_, code) = ExportTask::run(&mut guest, 9, 1, |_, waker, inner| {
        assert_eq!(tls::check(&inner, 9), Ok(()));
        assert_eq!(waker.id_self, 9);
        assert!(!waker.notified);
        (None, inner)
    });
    assert_eq!(code, ACTION_FINISH);
    assert!(guest.current.is_none());
}

#[test]
fn nested_tasks_restore_the_outer_one() {
    let mut guest: Guest<Countdown> = Guest::new();
    let (_, outer) = within(&mut guest, 1, |inner| {
        assert_eq!(tls::check(inner, 1), Ok(()));
        let (_, task) = within(inner, 2, |innermost| {
            assert_eq!(tls::check(innermost, 2), Ok(()));
            assert_eq!(tls::check(innermost, 1), Err(ContextError::OtherTask));
        });
        assert_eq!(task.id_self(), 2);
        assert_eq!(tls::check(inner, 1), Ok(()));
    });
    assert_eq!(outer.id_self(), 1);
    assert_eq!(tls::check(&guest, 1), Err(ContextError::NoTask));
}

#[test]
fn with_reaches_the_current_task() {
    let mut guest = Guest::new();
    let (id, _) = within(&mut guest, 4, |inner| tls::with(inner, 4, |task| task.id_self()));
    assert_eq!(id, 4);
}

#[test]
fn resume_waits_or_finishes() {
    let mut guest = Guest::new();
    let task = waiting(&mut guest, 3, 1);
    match ExportTask::resume(task, Some(8)) {
        Action::Wait(task) => assert_eq!(task.id_self(), 3),
        Action::Finish => panic!("the future is pending"),
    }
    let task = waiting(&mut guest, 3, 1);
    assert!(matches!(ExportTask::resume(task, None), Action::Finish));
}

#[test]
fn a_poll_without_a_future_finishes() {
    let mut guest = Guest::new();
    let task = waiting(&mut guest, 3, 1);
    let (finished, _) = tls::set(&mut guest, task, |mut inner| {
        // The task is lent as it is, so take its future away by polling it to the end.
        let task = inner.current.take().unwrap();
        let done = matches!(ExportTask::poll(task, &mut inner, tick), Action::Finish);
        inner.current = Some(waiting(&mut inner, 3, 1));
        (done, inner)
    });
    assert!(finished);
}

#[test]
fn on_event_updates_the_child_before_the_poll() {
    let mut guest = Guest::new();
    let child = WasmTask::new(&mut guest.imports, 20, 7);
    let task = waiting(&mut guest, 7, 1);
    let (task, code) = ExportTask::on_event_abi(task, &mut guest, 1, 20, |_, _, inner: Guest<Countdown>| {
        assert_eq!(inner.imports.child(20), Some(ChildState::Returned));
        (None, inner)
    });
    assert!(task.is_none());
    assert_eq!(code, ACTION_FINISH);
    assert_eq!(child.release(&mut guest.imports), HostCall::TaskDrop { task: 20 });
}

#[test]
fn post_write_is_seen_by_the_poll() {
    let mut guest = Guest::new();
    let task = waiting(&mut guest, 7, 1);
    let (_, code) = ExportTask::post_write_abi(task, &mut guest, 12, |left, _, inner: Guest<Countdown>| {
        assert_eq!(
            inner.current.as_ref().unwrap().write_state(),
            WriteState::Wrote { amt: 12 }
        );
        (Some(left), inner)
    });
    assert_eq!(code, ACTION_WAIT);
}

#[test]
fn cancel_drops_the_future_within_the_task() {
    let mut guest = Guest::new();
    let task = waiting(&mut guest, 7, 4);
    let mut dropped = None;
    let (task, code) = ExportTask::cancel_abi(task, &mut guest, |future, inner: Guest<Countdown>| {
        assert_eq!(tls::check(&inner, 7), Ok(()));
        dropped = Some(future);
        inner
    });
    assert!(task.is_none());
    assert_eq!(code, ACTION_FINISH);
    assert_eq!(dropped, Some(4));
    assert!(guest.current.is_none());
}

#[test]
fn one_notification_per_poll() {
    let mut waker = ExportWaker::new(5);
    assert_eq!(waker.wake(), Some(HostCall::TaskNotify { task: 5 }));
    assert_eq!(waker.wake(), None);
    assert_eq!(waker.wake(), None);
    assert!(waker.notified);
    let mut waker = ExportWaker::new(5);
    assert_eq!(waker.wake(), Some(HostCall::TaskNotify { task: 5 }));
}

#[test]
fn return_is_acknowledged() {
    let mut guest = Guest::new();
    let (ret, task) = within(&mut guest, 7, |inner| {
        let (ret, call) = ExportTask::await_return(inner, 7, 0x1234);
        assert_eq!(call, HostCall::TaskReturn { ptr: 0x1234 });
        assert_eq!(ret.poll(inner), Poll::Pending);
        ret
    });
    assert_eq!(task.return_state(), ReturnState::Started);
    let (_, code) = ExportTask::post_return_abi(task, &mut guest, |_, _, inner| {
        assert_eq!(ret.poll(&inner), Poll::Ready(()));
        (None, inner)
    });
    assert_eq!(code, ACTION_FINISH);
}

#[test]
fn cancelled_return_is_undone() {
    let mut guest = Guest::new();
    let (call, task) = within(&mut guest, 7, |inner| {
        let (ret, _) = ExportTask::await_return(inner, 7, 0);
        ret.cancel(inner)
    });
    assert_eq!(call, Some(HostCall::TaskUnreturn));
    assert_eq!(task.return_state(), ReturnState::NotStarted);
}

#[test]
fn acknowledged_return_stays() {
    let mut guest = Guest::new();
    let task = waiting(&mut guest, 7, 2);
    let (task, _) = ExportTask::post_return_abi(task, &mut guest, tick);
    let (call, task) = tls::set(&mut guest, task.unwrap(), |mut inner| {
        let call = TaskReturn { id_self: 7 }.cancel(&mut inner);
        (call, inner)
    });
    assert_eq!(call, None);
    assert_eq!(task.return_state(), ReturnState::Acknowledged);
}

#[test]
fn write_resolves_with_the_amount() {
    let mut guest: Guest<Countdown> = Guest::new();
    let mut stream = WriteStream::new(7);
    let items = [1u8, 2, 3, 4];
    let mut attached = stream.with_buffer(&items);
    let task = waiting(&mut guest, 7, 9);
    let (mut active, task) = tls::set(&mut guest, task, |mut inner| {
        let (mut active, call) = attached.write(&mut inner, 0x100);
        assert_eq!(call, HostCall::TaskWrite { ptr: 0x100, len: 4 });
        assert_eq!(active.poll(&mut inner), Poll::Pending);
        (active, inner)
    });
    assert_eq!(task.write_state(), WriteState::Writing);
    let (task, _) = ExportTask::post_write_abi(task, &mut guest, 3, |left, _, mut inner: Guest<Countdown>| {
        assert_eq!(active.poll(&mut inner), Poll::Ready(()));
        (Some(left), inner)
    });
    assert_eq!(task.unwrap().write_state(), WriteState::Idle);
    assert_eq!(active.finish(), 3);
    assert_eq!(attached.count(), 0);
}

#[test]
fn cancelled_write_asks_the_host() {
    let mut guest = Guest::new();
    let mut stream = WriteStream::new(7);
    let items = [0u8; 6];
    let mut attached = stream.with_buffer(&items);
    let (unwrite, task) = within(&mut guest, 7, |inner| {
        let (active, _) = attached.write(inner, 0x100);
        active.cancel(inner)
    });
    assert_eq!(task.write_state(), WriteState::Idle);
    let (pending, call) = unwrite.unwrap();
    assert_eq!(call, HostCall::TaskUnwrite);
    pending.complete(2);
    assert_eq!(attached.count(), 2);
    assert_eq!(attached.count(), 0);
}

#[test]
fn write_cancelled_after_the_callback_is_counted() {
    let mut guest: Guest<Countdown> = Guest::new();
    let mut stream = WriteStream::new(7);
    let items = [0u8; 6];
    let mut attached = stream.with_buffer(&items);
    let (active, task) = within(&mut guest, 7, |inner| attached.write(inner, 0x100).0);
    let (task, _) = ExportTask::post_write_abi(task, &mut guest, 5, |left, _, mut inner: Guest<Countdown>| {
        assert!(active.cancel(&mut inner).is_none());
        (Some(left), inner)
    });
    assert_eq!(task.unwrap().write_state(), WriteState::Idle);
    assert_eq!(attached.count(), 5);
    assert_eq!(attached.count(), 0);
}

#[test]
fn empty_writes_are_offered() {
    let mut guest = Guest::new();
    let mut stream = WriteStream::new(7);
    let mut attached = stream.with_buffer(&[]);
    let (call, _) = within(&mut guest, 7, |inner| attached.write(inner, 0x80).1);
    assert_eq!(call, HostCall::TaskWrite { ptr: 0x80, len: 0 });
}

#[test]
fn callbacks_are_in_order() {
    let mut guest = Guest::new();
    let mut stream = WriteStream::new(7);
    let items = [0u8; 2];
    let mut attached = stream.with_buffer(&items);
    let task = waiting(&mut guest, 7, 9);
    assert!(!task.expects_post_write());
    assert!(!task.expects_post_return());
    let (_, task) = tls::set(&mut guest, task, |mut inner| {
        attached.write(&mut inner, 0x100);
        ExportTask::await_return(&mut inner, 7, 0x200);
        ((), inner)
    });
    assert!(task.expects_post_write());
    assert!(task.expects_post_return());
    let (task, _) = ExportTask::post_write_abi(task, &mut guest, 1, tick);
    let task = task.unwrap();
    assert!(!task.expects_post_write());
    assert!(task.expects_post_return());
    let (task, _) = ExportTask::post_return_abi(task, &mut guest, tick);
    assert!(!task.unwrap().expects_post_return());
}
