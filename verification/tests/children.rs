use wasm_task::abi::{
    HostCall, Poll, Polled, CAUSE_CHILD_DONE, CAUSE_CHILD_RETURN, CAUSE_CHILD_WRITE,
};
use wasm_task::call::{WasmImport, WasmImportTask};
use wasm_task::import::{decode_cause, on_event_abi, ChildState, GlobalImportState, WasmTask};

fn first(space: &[usize; 2]) -> usize {
    space[0]
}

fn spelled(space: &[usize; 2]) -> String {
    format!("{}-{}", space[0], space[1])
}

#[test]
fn causes() {
    assert_eq!(CAUSE_CHILD_WRITE, 0);
    assert_eq!(CAUSE_CHILD_RETURN, 1);
    assert_eq!(CAUSE_CHILD_DONE, 2);
    assert_eq!(decode_cause(0), Some(ChildState::Wrote(0)));
    assert_eq!(decode_cause(0x10), Some(ChildState::Wrote(1)));
    assert_eq!(decode_cause(0xffff_fff0), Some(ChildState::Wrote(0x0fff_ffff)));
    assert_eq!(decode_cause(1), Some(ChildState::Returned));
    assert_eq!(decode_cause(2), Some(ChildState::Done));
    assert_eq!(decode_cause(3), None);
    assert_eq!(decode_cause(0x11), None);
    assert_eq!(decode_cause(0x12), None);
    assert_eq!(decode_cause(u32::MAX), None);
}

#[test]
fn cause_roundtrip() {
    for amt in [0u32, 1, 15, 16, 1000, 0x0fff_ffff] {
        assert_eq!(
            decode_cause((amt << 4) | CAUSE_CHILD_WRITE),
            Some(ChildState::Wrote(amt as usize))
        );
    }
}

#[test]
fn order_of_states() {
    let states = [
        ChildState::Waiting,
        ChildState::Wrote(3),
        ChildState::Returned,
        ChildState::Done,
    ];
    for state in states {
        for new_state in states {
            let expected = match new_state {
                ChildState::Done => state == ChildState::Returned,
                _ => state == ChildState::Waiting,
            };
            assert_eq!(state.expects(&new_state), expected);
            let mut moved = state;
            moved.update_to(new_state);
            assert_eq!(moved, new_state);
            let mut moved = state;
            assert_eq!(moved.update_in_order(new_state), expected);
            assert_eq!(moved, if expected { new_state } else { state });
        }
    }
}

#[test]
fn events_reach_their_child_only() {
    let mut imports = GlobalImportState::new();
    let a = WasmTask::new(&mut imports, 1, 9);
    let b = WasmTask::new(&mut imports, 2, 9);
    assert!(imports.expects_event(0x20, 1));
    on_event_abi(&mut imports, 0x20, 1);
    assert_eq!(imports.child(1), Some(ChildState::Wrote(2)));
    assert_eq!(imports.child(2), Some(ChildState::Waiting));
    assert!(!imports.expects_event(CAUSE_CHILD_RETURN, 1));
    assert!(!imports.expects_event(CAUSE_CHILD_DONE, 2));
    assert!(!imports.expects_event(CAUSE_CHILD_RETURN, 3));
    assert!(!imports.expects_event(7, 2));
    on_event_abi(&mut imports, CAUSE_CHILD_RETURN, 2);
    on_event_abi(&mut imports, CAUSE_CHILD_DONE, 2);
    assert_eq!(imports.child(2), Some(ChildState::Done));
    assert_eq!(a.release(&mut imports), HostCall::TaskDrop { task: 1 });
    assert_eq!(b.release(&mut imports), HostCall::TaskDrop { task: 2 });
    assert_eq!(imports.child(1), None);
    assert_eq!(imports.child(2), None);
}

#[test]
fn unknown_causes_change_nothing() {
    let mut imports = GlobalImportState::new();
    let _child = WasmTask::new(&mut imports, 1, 9);
    on_event_abi(&mut imports, 5, 1);
    on_event_abi(&mut imports, 5, 77);
    assert_eq!(imports.child(1), Some(ChildState::Waiting));
    assert_eq!(imports.child(77), None);
}

#[test]
fn with_state_changes_the_state() {
    let mut imports = GlobalImportState::new();
    let task = WasmTask::new(&mut imports, 1, 9);
    assert_eq!(task.id(), 1);
    let seen = task.with_state(&mut imports, |state| {
        let seen = *state;
        *state = ChildState::Done;
        seen
    });
    assert_eq!(seen, ChildState::Waiting);
    assert_eq!(imports.child(1), Some(ChildState::Done));
}

#[test]
fn one_adoption_per_task() {
    let mut imports = GlobalImportState::new();
    let mut task = WasmTask::new(&mut imports, 1, 9);
    assert_eq!(task.maybe_reparent(9), None);
    assert_eq!(task.maybe_reparent(4), Some(HostCall::TaskAdopt { task: 1 }));
    assert_eq!(task.maybe_reparent(4), None);
    assert_eq!(task.parent, 4);
}

#[test]
fn await_child_state_reparents_and_tests() {
    let mut imports = GlobalImportState::new();
    let mut task = WasmTask::new(&mut imports, 1, 9);
    let polled = task.await_child_state(&mut imports, 3, |state| match *state {
        ChildState::Waiting => Poll::Ready(42),
        _ => Poll::Pending,
    });
    assert_eq!(
        polled,
        Polled {
            call: Some(HostCall::TaskAdopt { task: 1 }),
            poll: Poll::Ready(42)
        }
    );
}

#[test]
fn call_finished_at_once() {
    let mut imports = GlobalImportState::new();
    let mut import = WasmImport::new(&mut imports, 0, [11, 22], first, 9);
    assert_eq!(import.task_id(), None);
    assert!(!import.is_finished());
    assert_eq!(
        import.poll(&mut imports, 0x40),
        Polled {
            call: None,
            poll: Poll::Ready(11)
        }
    );
    assert!(import.is_finished());
}

#[test]
fn call_carried_out_by_a_child() {
    let mut imports = GlobalImportState::new();
    let mut import = WasmImport::new(&mut imports, 6, [11, 22], spelled, 9);
    assert_eq!(import.task_id(), Some(6));
    assert_eq!(import.space(), &[11, 22]);
    let listen = HostCall::TaskListenFuture { task: 6, ret: 0x40 };
    for _ in 0..2 {
        assert_eq!(
            import.poll(&mut imports, 0x40),
            Polled {
                call: Some(listen),
                poll: Poll::Pending
            }
        );
    }
    on_event_abi(&mut imports, CAUSE_CHILD_RETURN, 6);
    assert_eq!(
        import.poll(&mut imports, 0x40),
        Polled {
            call: Some(HostCall::TaskDrop { task: 6 }),
            poll: Poll::Ready("11-22".to_string())
        }
    );
    assert!(import.is_finished());
    assert_eq!(imports.child(6), None);
}

#[test]
fn child_outlives_the_return_value() {
    let mut imports = GlobalImportState::new();
    let mut import = WasmImport::new(&mut imports, 6, [11, 22], first, 9).and_task();
    on_event_abi(&mut imports, CAUSE_CHILD_RETURN, 6);
    let polled = import.poll(&imports, 0x40);
    assert_eq!(polled.call, None);
    let mut task = match polled.poll {
        Poll::Ready((result, task)) => {
            assert_eq!(result, 11);
            task
        }
        Poll::Pending => panic!("the child has returned"),
    };
    assert_eq!(
        task.done(&mut imports, 9),
        Polled {
            call: None,
            poll: Poll::Pending
        }
    );
    on_event_abi(&mut imports, CAUSE_CHILD_DONE, 6);
    assert_eq!(
        task.done(&mut imports, 8),
        Polled {
            call: Some(HostCall::TaskAdopt { task: 6 }),
            poll: Poll::Ready(())
        }
    );
    assert_eq!(task.release(&mut imports), Some(HostCall::TaskDrop { task: 6 }));
    assert_eq!(imports.child(6), None);
}

#[test]
fn done_child_still_has_its_value() {
    let mut imports = GlobalImportState::new();
    let mut import = WasmImport::new(&mut imports, 6, [11, 22], first, 9);
    on_event_abi(&mut imports, CAUSE_CHILD_RETURN, 6);
    on_event_abi(&mut imports, CAUSE_CHILD_DONE, 6);
    assert_eq!(import.poll(&mut imports, 0).poll, Poll::Ready(11));
}

#[test]
fn no_child_is_done() {
    let mut imports = GlobalImportState::new();
    let mut task = WasmImportTask { task: None };
    assert_eq!(
        task.done(&mut imports, 9),
        Polled {
            call: None,
            poll: Poll::Ready(())
        }
    );
    task.cancel();
    assert!(task.task.is_none());
    assert_eq!(task.release(&mut imports), None);
}

#[test]
fn unread_result_is_dropped() {
    let mut imports = GlobalImportState::new();
    let import = WasmImport::new(&mut imports, 6, [11, 22], spelled, 9);
    on_event_abi(&mut imports, CAUSE_CHILD_RETURN, 6);
    let (result, call) = import.discard(&mut imports);
    assert_eq!(result, Some("11-22".to_string()));
    assert_eq!(call, Some(HostCall::TaskDrop { task: 6 }));
    assert_eq!(imports.child(6), None);

    let import = WasmImport::new(&mut imports, 0, [11, 22], spelled, 9);
    let (result, call) = import.discard(&mut imports);
    assert_eq!(result, Some("11-22".to_string()));
    assert_eq!(call, None);
}

#[test]
fn plain_results_need_no_drop() {
    let mut imports = GlobalImportState::new();
    let import = WasmImport::new(&mut imports, 0, [11, 22], first, 9);
    assert_eq!(import.discard(&mut imports), (None, None));
    let import = WasmImport::new(&mut imports, 0, [11, 22], first, 9);
    assert_eq!(import.discard_with(&mut imports, true), (Some(11), None));
}

#[test]
fn nothing_to_drop_before_the_return_or_after_the_child_is_done() {
    let mut imports = GlobalImportState::new();
    let import = WasmImport::new(&mut imports, 6, [11, 22], spelled, 9);
    assert_eq!(
        import.discard(&mut imports),
        (None, Some(HostCall::TaskDrop { task: 6 }))
    );

    let import = WasmImport::new(&mut imports, 6, [11, 22], spelled, 9);
    on_event_abi(&mut imports, CAUSE_CHILD_RETURN, 6);
    on_event_abi(&mut imports, CAUSE_CHILD_DONE, 6);
    assert_eq!(
        import.discard(&mut imports),
        (None, Some(HostCall::TaskDrop { task: 6 }))
    );
}

#[test]
fn result_is_taken_once() {
    let mut imports = GlobalImportState::new();
    let mut import = WasmImport::new(&mut imports, 0, [11, 22], spelled, 9);
    assert_eq!(import.poll(&mut imports, 0).poll, Poll::Ready("11-22".to_string()));
    assert_eq!(import.discard(&mut imports), (None, None));
}

#[test]
fn cancelled_call_without_a_child() {
    let mut imports = GlobalImportState::new();
    let import = WasmImport::new(&mut imports, 0, [11, 22], spelled, 9).and_task();
    let (task, result) = import.cancel(&mut imports);
    assert!(task.is_none());
    assert_eq!(result, Some("11-22".to_string()));
}

#[test]
fn cancelled_call_hands_over_what_has_to_be_dropped() {
    let mut imports = GlobalImportState::new();
    let import = WasmImport::new(&mut imports, 0, [11, 22], first, 9).and_task();
    assert_eq!(import.cancel_with(&mut imports, true).1, Some(11));
    let import = WasmImport::new(&mut imports, 0, [11, 22], first, 9).and_task();
    assert_eq!(import.cancel_with(&mut imports, false).1, None);
    let import = WasmImport::new(&mut imports, 0, [11, 22], first, 9).and_task();
    assert_eq!(import.cancel(&mut imports).1, None);

    let mut import = WasmImport::new(&mut imports, 0, [11, 22], spelled, 9).and_task();
    assert!(matches!(import.poll(&imports, 0).poll, Poll::Ready(_)));
    assert_eq!(import.cancel_with(&mut imports, true).1, None);
}

#[test]
fn done_comes_after_returned() {
    let mut state = ChildState::Waiting;
    assert!(!state.update_in_order(ChildState::Done));
    assert_eq!(state, ChildState::Waiting);
    assert!(state.update_in_order(ChildState::Returned));
    assert!(state.update_in_order(ChildState::Done));
    assert_eq!(state, ChildState::Done);
    assert!(!state.update_in_order(ChildState::Wrote(1)));
    assert_eq!(state, ChildState::Done);
}

#[test]
fn unclaimed_items_are_not_overwritten_in_order() {
    let mut state = ChildState::Wrote(3);
    assert!(!state.update_in_order(ChildState::Wrote(4)));
    assert_eq!(state, ChildState::Wrote(3));
}
