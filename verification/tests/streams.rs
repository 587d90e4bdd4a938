use wasm_task::abi::{HostCall, Poll, Polled, CAUSE_CHILD_DONE, CAUSE_CHILD_RETURN};
use wasm_task::call::WasmImport;
use wasm_task::import::{on_event_abi, ChildState, GlobalImportState};
use wasm_task::stream::Stream;

fn sum(space: &[usize; 2]) -> usize {
    space[0] + space[1]
}

type Sum = fn(&[usize; 2]) -> usize;

fn bytes(imports: &mut GlobalImportState, id: u32) -> Stream<u8, usize, Sum, 2> {
    let deserialize: Sum = sum;
    Stream::new(WasmImport::new(imports, id, [3, 4], deserialize, 1))
}

#[test]
fn read_resolves_with_the_amount() {
    let mut imports = GlobalImportState::new();
    let mut stream = bytes(&mut imports, 5);
    assert_eq!(stream.import().space(), &[3, 4]);
    let mut buf = [0u8; 16];
    let mut attached = stream.with_buffer(&mut buf);
    let (mut active, adopt, listen) = attached.read(1, 0x200, 0x300);
    assert_eq!(adopt, None);
    assert_eq!(
        listen,
        HostCall::TaskListenStream {
            task: 5,
            buf: 0x200,
            len: 16,
            ret: 0x300
        }
    );
    assert_eq!(
        active.poll(&mut imports, 1),
        Polled {
            call: None,
            poll: Poll::Pending
        }
    );
    on_event_abi(&mut imports, 9 << 4, 5);
    assert_eq!(active.poll(&mut imports, 1).poll, Poll::Ready(()));
    assert_eq!(active.finish(), 9);
    assert_eq!(imports.child(5), Some(ChildState::Waiting));
    assert_eq!(attached.count(), 0);
}

#[test]
fn read_adopts_the_child() {
    let mut imports = GlobalImportState::new();
    let mut stream = bytes(&mut imports, 5);
    let mut buf = [0u8; 1];
    let mut attached = stream.with_buffer(&mut buf);
    let (mut active, adopt, _) = attached.read(2, 0, 0);
    assert_eq!(adopt, Some(HostCall::TaskAdopt { task: 5 }));
    assert_eq!(active.poll(&mut imports, 2).call, None);
    assert_eq!(
        active.poll(&mut imports, 3).call,
        Some(HostCall::TaskAdopt { task: 5 })
    );
}

#[test]
fn cancelled_read_stops_listening() {
    let mut imports = GlobalImportState::new();
    let mut stream = bytes(&mut imports, 5);
    let mut buf = [0u8; 16];
    let mut attached = stream.with_buffer(&mut buf);
    let (active, _, _) = attached.read(1, 0, 0);
    assert_eq!(active.cancel(&mut imports), HostCall::TaskUnlisten { task: 5 });
    assert_eq!(attached.count(), 0);
}

#[test]
fn items_of_a_cancelled_read_are_counted() {
    let mut imports = GlobalImportState::new();
    let mut stream = bytes(&mut imports, 5);
    let mut buf = [0u8; 16];
    let mut attached = stream.with_buffer(&mut buf);
    let (active, _, _) = attached.read(1, 0, 0);
    on_event_abi(&mut imports, 7 << 4, 5);
    assert_eq!(active.cancel(&mut imports), HostCall::TaskUnlisten { task: 5 });
    assert_eq!(imports.child(5), Some(ChildState::Waiting));
    assert_eq!(attached.count(), 7);
    assert_eq!(attached.count(), 0);
}

#[test]
fn zero_read_tells_return() {
    let mut imports = GlobalImportState::new();
    let mut stream = bytes(&mut imports, 5);
    let mut buf = [0u8; 16];
    on_event_abi(&mut imports, CAUSE_CHILD_RETURN, 5);
    let mut attached = stream.with_buffer(&mut buf);
    let (mut active, _, _) = attached.read(1, 0, 0);
    assert_eq!(active.poll(&mut imports, 1).poll, Poll::Ready(()));
    assert_eq!(active.finish(), 0);
    let (result, task) = stream.result(&imports);
    assert_eq!(result, 7);
    assert_eq!(task.release(&mut imports), Some(HostCall::TaskDrop { task: 5 }));
}

#[test]
fn result_of_a_done_child() {
    let mut imports = GlobalImportState::new();
    let stream = bytes(&mut imports, 5);
    on_event_abi(&mut imports, CAUSE_CHILD_RETURN, 5);
    on_event_abi(&mut imports, CAUSE_CHILD_DONE, 5);
    let (result, mut task) = stream.result(&imports);
    assert_eq!(result, 7);
    assert_eq!(task.done(&mut imports, 1).poll, Poll::Ready(()));
}

#[test]
fn result_without_a_child() {
    let mut imports = GlobalImportState::new();
    let stream = bytes(&mut imports, 0);
    let (result, task) = stream.result(&imports);
    assert_eq!(result, 7);
    assert!(task.task.is_none());
}

#[test]
fn a_written_amount_of_zero_also_reads_zero() {
    let mut imports = GlobalImportState::new();
    let mut stream = bytes(&mut imports, 5);
    let mut buf = [0u8; 16];
    let mut attached = stream.with_buffer(&mut buf);
    let (mut active, _, _) = attached.read(1, 0, 0);
    on_event_abi(&mut imports, 0, 5);
    assert_eq!(active.poll(&mut imports, 1).poll, Poll::Ready(()));
    assert_eq!(active.finish(), 0);
    assert_eq!(imports.child(5), Some(ChildState::Waiting));
}

#[test]
fn two_reads_add_up() {
    let mut imports = GlobalImportState::new();
    let mut stream = bytes(&mut imports, 5);
    let mut buf = [0u8; 16];
    let mut attached = stream.with_buffer(&mut buf);
    let mut total = 0;
    for amt in [3u32, 5] {
        let (mut active, _, _) = attached.read(1, 0, 0);
        on_event_abi(&mut imports, amt << 4, 5);
        assert_eq!(active.poll(&mut imports, 1).poll, Poll::Ready(()));
        total += active.finish();
    }
    assert_eq!(total, 8);
}
