//! What callers are promised of children, of calls and of the streams that
//! children write, call by call.
use vstd::prelude::*;

use crate::abi::{HostCall, Poll, Polled};
use crate::call::{WasmImport, WasmImportAndTask, WasmImportTask};
use crate::import::{ChildState, GlobalImportState, WasmTask};
use crate::stream::{ActiveRead, Stream, StreamWithBuffer};

verus! {

/// A cause is read by its low four bits: zero is a write, of the amount that
/// stands above them; one, with nothing above it, is a return, and two the end
/// of the child.  Nothing else is a cause.
pub proof fn law_cause_is_decoded(cause: u32, state: Option<ChildState>)
    requires
        call_ensures(crate::import::decode_cause, (cause,), state),
    ensures
        cause % 16 == 0 ==> state is Some && state->0 is Wrote,
        state matches Some(ChildState::Wrote(amt)) ==> cause == 16 * amt,
        state == Some(ChildState::Returned) <==> cause == 1,
        state == Some(ChildState::Done) <==> cause == 2,
        state is None <==> cause % 16 != 0 && cause != 1 && cause != 2,
        state != Some(ChildState::Waiting),
{
}

/// A child is done only after it has returned, and anything else is reported
/// of a waiting child only.  A move that is made in order is made, and one
/// that is not leaves the child as it is.
pub proof fn law_states_move_in_order(state: ChildState, new_state: ChildState)
    ensures
        forall|in_order: bool| #[trigger]
            call_ensures(ChildState::expects, (&state, &new_state), in_order) ==> (in_order <==> (
            new_state == ChildState::Done && state == ChildState::Returned) || (new_state
                != ChildState::Done && state == ChildState::Waiting)),
        forall|child: &mut ChildState, in_order: bool| #[trigger]
            call_ensures(ChildState::update_in_order, (child, new_state), in_order) ==> {
                &&& in_order <==> (new_state == ChildState::Done && *child == ChildState::Returned)
                    || (new_state != ChildState::Done && *child == ChildState::Waiting)
                &&& in_order ==> *final(child) == new_state
                &&& !in_order ==> *final(child) == *child
            },
        forall|child: &mut ChildState|
            #![trigger call_ensures(ChildState::update_to, (child, new_state), ())]
            call_ensures(ChildState::update_to, (child, new_state), ()) ==> *final(child)
                == new_state,
{
}

/// An event is in order exactly if its cause is known, its child is known, and
/// the child may move to what is reported.
pub proof fn law_event_order_is_told(
    imports: GlobalImportState,
    cause: u32,
    idx: u32,
    in_order: bool,
)
    requires
        call_ensures(GlobalImportState::expects_event, (&imports, cause, idx), in_order),
    ensures
        in_order <==> {
            &&& imports@.contains_key(idx)
            &&& (cause % 16 == 0 || cause == 1) && imports@[idx] == ChildState::Waiting || cause
                == 2 && imports@[idx] == ChildState::Returned
        },
{
}

/// A child that was started is known, and waits; it is the child of the task
/// that started it.  Once it is given up the host is told to drop that child,
/// and everything known is what was known before it was started.
pub proof fn law_child_comes_and_goes(id: u32, current_id: u32)
    ensures
        forall|
            before: &mut GlobalImportState,
            task: WasmTask,
            after: &mut GlobalImportState,
            call: HostCall,
        |
            #![trigger
                call_ensures(WasmTask::new, (before, id, current_id), task),
                call_ensures(WasmTask::release, (task, after), call)]
            {
                &&& call_ensures(WasmTask::new, (before, id, current_id), task)
                &&& call_ensures(WasmTask::release, (task, after), call)
                &&& after@ == final(before)@
                &&& !before@.contains_key(id)
            } ==> {
                &&& task.parent == current_id
                &&& after@.contains_key(id) && after@[id] == ChildState::Waiting
                &&& call == (HostCall::TaskDrop { task: id })
                &&& final(after)@ =~= before@
            },
        forall|before: &mut GlobalImportState, task: WasmTask, other: u32|
            #![trigger
                call_ensures(WasmTask::new, (before, id, current_id), task),
                before@.contains_key(other)]
            call_ensures(WasmTask::new, (before, id, current_id), task) && other != id
                && before@.contains_key(other) ==> {
                &&& final(before)@.contains_key(other)
                &&& final(before)@[other] == before@[other]
            },
{
}

/// What is known of a child can be asked for by its identifier.
pub proof fn law_child_is_found(imports: GlobalImportState, id: u32, state: Option<ChildState>)
    requires
        call_ensures(GlobalImportState::child, (&imports, id), state),
    ensures
        state is Some <==> imports@.contains_key(id),
        state matches Some(known) ==> known == imports@[id],
{
}

/// Code that looks at a child is given what is known of that very child, and
/// what it leaves is known afterwards; no other child is touched.
pub proof fn law_state_is_lent<R, G: FnOnce(&mut ChildState) -> R>(task: WasmTask, with: G)
    ensures
        forall|imports: &mut GlobalImportState, ret: R| #[trigger]
            call_ensures(WasmTask::with_state::<R, G>, (&task, imports, with), ret) ==> exists|
                state: &mut ChildState,
            |
                {
                    &&& #[trigger] call_ensures(with, (state,), ret)
                    &&& *state == imports@[task.id]
                    &&& final(imports)@ == imports@.insert(task.id, *final(state))
                },
{
}

/// A child is adopted exactly if the task that waits for it is not its parent,
/// and is that task's child afterwards, so that the next wait adopts nothing.
pub proof fn law_waiting_adopts<T, G: FnOnce(&mut ChildState) -> Poll<T>>(
    current_id: u32,
    test: G,
)
    ensures
        forall|task: &mut WasmTask, call: Option<HostCall>| #[trigger]
            call_ensures(WasmTask::maybe_reparent, (task, current_id), call) ==> {
                &&& task.parent == current_id ==> call is None
                &&& task.parent != current_id ==> call == Some(
                    HostCall::TaskAdopt { task: task.id },
                )
                &&& final(task).id == task.id
                &&& final(task).parent == current_id
            },
        forall|task: &mut WasmTask, imports: &mut GlobalImportState, ret: Polled<T>| #[trigger]
            call_ensures(
                WasmTask::await_child_state::<T, G>,
                (task, imports, current_id, test),
                ret,
            ) ==> {
                &&& task.parent == current_id ==> ret.call is None
                &&& task.parent != current_id ==> ret.call == Some(
                    HostCall::TaskAdopt { task: task.id },
                )
                &&& final(task).id == task.id
                &&& final(task).parent == current_id
                &&& exists|state: &mut ChildState|
                    {
                        &&& #[trigger] call_ensures(test, (state,), ret.poll)
                        &&& *state == imports@[task.id]
                        &&& final(imports)@ == imports@.insert(task.id, *final(state))
                    }
            },
{
}

/// A call that is finished at once gives what `deserialize` makes of exactly
/// the words that came with it, and asks nothing of the host.
pub proof fn law_finished_call_gives_its_words<
    T,
    D: FnOnce(&[usize; N]) -> T,
    const N: usize,
>(space: [usize; N], deserialize: D, current_id: u32, ret: usize)
    ensures
        forall|
            before: &mut GlobalImportState,
            made: WasmImport<T, D, N>,
            import: &mut WasmImport<T, D, N>,
            imports: &mut GlobalImportState,
            polled: Polled<T>,
        |
            #![trigger
                call_ensures(
                    WasmImport::<T, D, N>::new,
                    (before, 0u32, space, deserialize, current_id),
                    made,
                ),
                call_ensures(WasmImport::<T, D, N>::poll, (import, imports, ret), polled)]
            {
                &&& call_ensures(
                    WasmImport::<T, D, N>::new,
                    (before, 0u32, space, deserialize, current_id),
                    made,
                )
                &&& *import == made
                &&& call_ensures(WasmImport::<T, D, N>::poll, (import, imports, ret), polled)
            } ==> {
                &&& final(before)@ == before@
                &&& polled.call is None
                &&& polled.poll matches Poll::Ready(result)
                &&& call_ensures(deserialize, (&space,), result)
                &&& final(imports)@ == imports@
            },
{
}

/// A call that a child carries out is the child of the task that made it.  As
/// long as the child waits, the host is asked to store the return value at the
/// given address; once it has returned, the call gives what `deserialize` makes
/// of exactly the stored words, and the child is given up.
pub proof fn law_call_waits_for_its_child<T, D: FnOnce(&[usize; N]) -> T, const N: usize>(
    id: u32,
    space: [usize; N],
    deserialize: D,
    current_id: u32,
    ret: usize,
)
    requires
        id != 0,
    ensures
        forall|
            before: &mut GlobalImportState,
            made: WasmImport<T, D, N>,
            import: &mut WasmImport<T, D, N>,
            imports: &mut GlobalImportState,
            polled: Polled<T>,
        |
            #![trigger
                call_ensures(
                    WasmImport::<T, D, N>::new,
                    (before, id, space, deserialize, current_id),
                    made,
                ),
                call_ensures(WasmImport::<T, D, N>::poll, (import, imports, ret), polled)]
            {
                &&& call_ensures(
                    WasmImport::<T, D, N>::new,
                    (before, id, space, deserialize, current_id),
                    made,
                )
                &&& *import == made
                &&& call_ensures(WasmImport::<T, D, N>::poll, (import, imports, ret), polled)
            } ==> {
                &&& final(before)@ == before@.insert(id, ChildState::Waiting)
                &&& made@.task == Some(WasmTask { id, parent: current_id })
                &&& imports@[id] == ChildState::Waiting ==> {
                    &&& polled.call == Some(HostCall::TaskListenFuture { task: id, ret })
                    &&& polled.poll is Pending
                    &&& final(import)@ == import@
                    &&& final(imports)@ == imports@
                }
                &&& imports@[id] == ChildState::Returned || imports@[id] == ChildState::Done ==> {
                    &&& polled.call == Some(HostCall::TaskDrop { task: id })
                    &&& polled.poll matches Poll::Ready(result)
                    &&& call_ensures(deserialize, (&space,), result)
                    &&& final(import)@.deserialize is None
                    &&& final(import)@.task is None
                    &&& final(imports)@ == imports@.remove(id)
                }
            },
{
}

/// Whichever way the return value of a call is had, it is what the call's own
/// `deserialize` makes of exactly the words that are stored: by polling, with
/// or without the child, as the result of a stream, and when it is handed over
/// to be dropped.
pub proof fn law_result_is_made_from_the_words<T, D: FnOnce(&[usize; N]) -> T, const N: usize>(
    deserialize: D,
    ret: usize,
)
    ensures
        forall|
            import: &mut WasmImport<T, D, N>,
            imports: &mut GlobalImportState,
            polled: Polled<T>,
        | #[trigger]
            call_ensures(WasmImport::<T, D, N>::poll, (import, imports, ret), polled)
                && import@.deserialize == Some(deserialize) ==> (polled.poll matches Poll::Ready(
                result,
            ) ==> call_ensures(deserialize, (&import@.space,), result)),
        forall|
            import: &mut WasmImport<T, D, N>,
            imports: GlobalImportState,
            polled: Polled<(T, WasmImportTask)>,
        | #[trigger]
            call_ensures(WasmImport::<T, D, N>::poll_result, (import, &imports, ret), polled)
                && import@.deserialize == Some(deserialize) ==> (polled.poll matches Poll::Ready(
                ready,
            ) ==> call_ensures(deserialize, (&import@.space,), ready.0)),
        forall|
            import: &mut WasmImportAndTask<T, D, N>,
            imports: GlobalImportState,
            polled: Polled<(T, WasmImportTask)>,
        | #[trigger]
            call_ensures(WasmImportAndTask::<T, D, N>::poll, (import, &imports, ret), polled)
                && import.0@.deserialize == Some(deserialize) ==> (polled.poll matches Poll::Ready(
                ready,
            ) ==> call_ensures(deserialize, (&import.0@.space,), ready.0)),
        forall|
            stream: Stream<u8, T, D, N>,
            imports: GlobalImportState,
            ended: (T, WasmImportTask),
        | #[trigger]
            call_ensures(Stream::<u8, T, D, N>::result, (stream, &imports), ended)
                && stream@@.deserialize == Some(deserialize) ==> call_ensures(
                deserialize,
                (&stream@@.space,),
                ended.0,
            ) && ended.1.task == stream@@.task,
        forall|
            import: WasmImport<T, D, N>,
            imports: &mut GlobalImportState,
            needs_drop: bool,
            given_up: (Option<T>, Option<HostCall>),
        | #[trigger]
            call_ensures(
                WasmImport::<T, D, N>::discard_with,
                (import, imports, needs_drop),
                given_up,
            ) && import@.deserialize == Some(deserialize) ==> (given_up.0 matches Some(result)
                ==> call_ensures(deserialize, (&import@.space,), result)),
        forall|
            import: WasmImport<T, D, N>,
            imports: &mut GlobalImportState,
            given_up: (Option<T>, Option<HostCall>),
        | #[trigger]
            call_ensures(WasmImport::<T, D, N>::discard, (import, imports), given_up)
                && import@.deserialize == Some(deserialize) ==> (given_up.0 matches Some(result)
                ==> call_ensures(deserialize, (&import@.space,), result)),
{
}

/// A call resolves exactly if its return value is in place, which it is if
/// there is no child or the child has returned.  A value that was taken along
/// with the child leaves the child as it was.
pub proof fn law_call_resolves_with_its_child<T, D: FnOnce(&[usize; N]) -> T, const N: usize>(
    ret: usize,
)
    ensures
        forall|
            import: &mut WasmImport<T, D, N>,
            imports: GlobalImportState,
            polled: Polled<(T, WasmImportTask)>,
        | #[trigger]
            call_ensures(WasmImport::<T, D, N>::poll_result, (import, &imports, ret), polled) ==> {
                &&& import@.task is None ==> polled.poll is Ready
                &&& import@.task matches Some(task) ==> (polled.poll is Ready <==> imports@[task.id]
                    == ChildState::Returned || imports@[task.id] == ChildState::Done)
                &&& polled.poll matches Poll::Ready(ready) ==> {
                    &&& ready.1.task == import@.task
                    &&& polled.call is None
                    &&& final(import)@.deserialize is None
                    &&& final(import)@.task is None
                }
                &&& polled.poll is Pending ==> {
                    &&& import@.task matches Some(task) && polled.call == Some(
                        HostCall::TaskListenFuture { task: task.id, ret },
                    )
                    &&& final(import)@ == import@
                }
            },
        forall|
            import: &mut WasmImportAndTask<T, D, N>,
            imports: GlobalImportState,
            polled: Polled<(T, WasmImportTask)>,
        | #[trigger]
            call_ensures(
                WasmImportAndTask::<T, D, N>::poll,
                (import, &imports, ret),
                polled,
            ) ==> {
                &&& import.0@.task is None ==> polled.poll is Ready
                &&& import.0@.task matches Some(task) ==> (polled.poll is Ready
                    <==> imports@[task.id] == ChildState::Returned || imports@[task.id]
                    == ChildState::Done)
                &&& polled.poll matches Poll::Ready(ready) ==> {
                    &&& ready.1.task == import.0@.task
                    &&& polled.call is None
                    &&& final(import).0@.deserialize is None
                    &&& final(import).0@.task is None
                }
                &&& polled.poll is Pending ==> {
                    &&& import.0@.task matches Some(task) && polled.call == Some(
                        HostCall::TaskListenFuture { task: task.id, ret },
                    )
                    &&& final(import).0@ == import.0@
                }
            },
{
}

/// When a call is given up, its child is dropped and forgotten if it has one.
/// The return value is handed over to be dropped exactly if it was not taken,
/// values of its type have to be dropped, and it has just come: there is no
/// child, or the child is in the returned state.
pub proof fn law_given_up_call_leaves_nothing<T, D: FnOnce(&[usize; N]) -> T, const N: usize>(
    import: WasmImport<T, D, N>,
    needs_drop: bool,
)
    ensures
        forall|imports: &mut GlobalImportState, given_up: (Option<T>, Option<HostCall>)| #[trigger]
            call_ensures(
                WasmImport::<T, D, N>::discard_with,
                (import, imports, needs_drop),
                given_up,
            ) ==> {
                &&& import@.task is None ==> {
                    &&& given_up.0 is Some <==> needs_drop && import@.deserialize is Some
                    &&& given_up.1 is None
                    &&& final(imports)@ == imports@
                }
                &&& import@.task matches Some(task) ==> {
                    &&& given_up.0 is Some <==> needs_drop && import@.deserialize is Some
                        && imports@[task.id] == ChildState::Returned
                    &&& given_up.1 == Some(HostCall::TaskDrop { task: task.id })
                    &&& final(imports)@ == imports@.remove(task.id)
                }
            },
        forall|imports: &mut GlobalImportState, given_up: (Option<T>, Option<HostCall>)| #[trigger]
            call_ensures(WasmImport::<T, D, N>::discard, (import, imports), given_up) ==> {
                &&& import@.deserialize is None ==> given_up.0 is None
                &&& exists|needed: bool| #[trigger]
                    crate::call::may_need_drop::<T>(needed) && (given_up.0 is Some <==> needed
                        && import@.deserialize is Some && (import@.task matches Some(task)
                        ==> imports@[task.id] == ChildState::Returned))
                &&& import@.task is None ==> {
                    &&& given_up.1 is None
                    &&& final(imports)@ == imports@
                }
                &&& import@.task matches Some(task) ==> {
                    &&& given_up.1 == Some(HostCall::TaskDrop { task: task.id })
                    &&& final(imports)@ == imports@.remove(task.id)
                }
            },
{
}

/// A call without a child is cancelled by handing over its return value, if it
/// was not taken and has to be dropped.
pub proof fn law_cancelled_call_hands_its_value_over<
    T,
    D: FnOnce(&[usize; N]) -> T,
    const N: usize,
>(import: WasmImportAndTask<T, D, N>, needs_drop: bool)
    requires
        import.0@.task is None,
    ensures
        forall|imports: &mut GlobalImportState, ret: (Option<WasmImportTask>, Option<T>)| #[trigger]
            call_ensures(
                WasmImportAndTask::<T, D, N>::cancel_with,
                (import, imports, needs_drop),
                ret,
            ) ==> {
                &&& ret.0 is None
                &&& ret.1 is Some <==> needs_drop && import.0@.deserialize is Some
                &&& ret.1 matches Some(result) ==> call_ensures(
                    import.0@.deserialize->0,
                    (&import.0@.space,),
                    result,
                )
                &&& final(imports)@ == imports@
            },
        forall|imports: &mut GlobalImportState, ret: (Option<WasmImportTask>, Option<T>)| #[trigger]
            call_ensures(WasmImportAndTask::<T, D, N>::cancel, (import, imports), ret) ==> {
                &&& ret.0 is None
                &&& exists|needed: bool| #[trigger]
                    crate::call::may_need_drop::<T>(needed) && (ret.1 is Some <==> needed
                        && import.0@.deserialize is Some)
                &&& ret.1 matches Some(result) ==> call_ensures(
                    import.0@.deserialize->0,
                    (&import.0@.space,),
                    result,
                )
                &&& final(imports)@ == imports@
            },
{
}

/// The wait for a child's post-return work resolves exactly if there is no
/// child or the child is done; it changes nothing that is known.  A child that
/// is given up then is dropped and forgotten.
pub proof fn law_done_waits_for_the_end(current_id: u32)
    ensures
        forall|left: &mut WasmImportTask, imports: &mut GlobalImportState, polled: Polled<()>|
            #[trigger]
            call_ensures(WasmImportTask::done, (left, imports, current_id), polled) ==> {
                &&& final(imports)@ =~= imports@
                &&& left.task is None ==> {
                    &&& polled.poll is Ready
                    &&& polled.call is None
                    &&& final(left).task is None
                }
                &&& left.task matches Some(task) ==> {
                    &&& polled.poll is Ready <==> imports@[task.id] == ChildState::Done
                    &&& polled.call == (if task.parent == current_id {
                        None
                    } else {
                        Some(HostCall::TaskAdopt { task: task.id })
                    })
                    &&& final(left).task == Some(WasmTask { id: task.id, parent: current_id })
                }
            },
        forall|left: WasmImportTask, imports: &mut GlobalImportState, call: Option<HostCall>|
            #[trigger]
            call_ensures(WasmImportTask::release, (left, imports), call) ==> {
                &&& left.task is None ==> call is None && final(imports)@ == imports@
                &&& left.task matches Some(task) ==> {
                    &&& call == Some(HostCall::TaskDrop { task: task.id })
                    &&& final(imports)@ == imports@.remove(task.id)
                }
            },
{
}

/// A read delivers what was reported: if a child waits and a multiple of
/// sixteen comes as the cause of an event, the read that is polled next
/// resolves, and gives exactly a sixteenth of the cause, whatever that is.  The
/// child waits again then, and nothing is left to be asked for.
pub proof fn law_read_delivers_what_was_reported<'a, 'b>(cause: u32, current_id: u32)
    requires
        cause % 16 == 0,
    ensures
        forall|
            before: &mut GlobalImportState,
            active: &mut ActiveRead<'a, 'b>,
            imports: &mut GlobalImportState,
            polled: Polled<()>,
            amt: usize,
        |
            #![trigger
                call_ensures(crate::import::on_event_abi, (before, cause, active.task.id), ()),
                call_ensures(
                    ActiveRead::<'a, 'b>::poll,
                    (active, imports, current_id),
                    polled,
                ),
                call_ensures(ActiveRead::<'a, 'b>::finish, (*final(active),), amt)]
            {
                &&& call_ensures(
                    crate::import::on_event_abi,
                    (before, cause, active.task.id),
                    (),
                )
                &&& imports@ == final(before)@
                &&& call_ensures(
                    ActiveRead::<'a, 'b>::poll,
                    (active, imports, current_id),
                    polled,
                )
                &&& call_ensures(ActiveRead::<'a, 'b>::finish, (*final(active),), amt)
            } ==> {
                &&& polled.poll == Poll::Ready(())
                &&& 16 * amt == cause
                &&& *final(active.read) == 0
                &&& final(imports)@[active.task.id] == ChildState::Waiting
            },
{
}

/// A read of a child in any state: it resolves exactly if the child does not
/// wait, counts exactly the items that the child is known to have written, and
/// leaves a child that wrote waiting, and any other as it is.  No other child
/// is touched.
pub proof fn law_read_claims_what_is_known<'a, 'b>(current_id: u32)
    ensures
        forall|
            active: &mut ActiveRead<'a, 'b>,
            imports: &mut GlobalImportState,
            polled: Polled<()>,
        | #[trigger]
            call_ensures(
                ActiveRead::<'a, 'b>::poll,
                (active, imports, current_id),
                polled,
            ) ==> {
                let id = active.task.id;
                &&& polled.poll is Pending <==> imports@[id] == ChildState::Waiting
                &&& polled.call == (if active.task.parent == current_id {
                    None
                } else {
                    Some(HostCall::TaskAdopt { task: id })
                })
                &&& *final(active).task == (WasmTask { id, parent: current_id })
                &&& match imports@[id] {
                    ChildState::Wrote(amt) => *final(active).read == amt && final(imports)@
                        == imports@.insert(id, ChildState::Waiting),
                    unchanged => *final(active).read == 0 && final(imports)@ == imports@.insert(
                        id,
                        unchanged,
                    ),
                }
            },
        forall|active: ActiveRead<'a, 'b>, imports: &mut GlobalImportState, call: HostCall|
            #[trigger]
            call_ensures(ActiveRead::<'a, 'b>::cancel, (active, imports), call) ==> {
                let id = active.task.id;
                &&& call == (HostCall::TaskUnlisten { task: id })
                &&& match imports@[id] {
                    ChildState::Wrote(amt) => *final(active.read) == amt && final(imports)@
                        == imports@.insert(id, ChildState::Waiting),
                    unchanged => *final(active.read) == 0 && final(imports)@ == imports@.insert(
                        id,
                        unchanged,
                    ),
                }
            },
        forall|active: ActiveRead<'a, 'b>, amt: usize| #[trigger]
            call_ensures(ActiveRead::<'a, 'b>::finish, (active,), amt) ==> {
                &&& amt == *active.read
                &&& *final(active.read) == 0
                &&& *final(active.task) == *active.task
            },
{
}

/// Items that come in while a read is cancelled are not lost: the next count
/// is exactly a sixteenth of the cause that reported them, and the count after
/// that is zero.
pub proof fn law_cancelled_read_is_counted<'a, 'buf, 'stream, U, D, const N: usize>(
    cause: u32,
    current_id: u32,
    buf_ptr: usize,
    ret: usize,
)
    requires
        cause % 16 == 0,
    ensures
        forall|
            attached: &'a mut StreamWithBuffer<'buf, 'stream, u8, U, D, N>,
            started: (ActiveRead<'a, 'a>, Option<HostCall>, HostCall),
            before: &mut GlobalImportState,
            imports: &mut GlobalImportState,
            call: HostCall,
            asked: &mut StreamWithBuffer<'buf, 'stream, u8, U, D, N>,
            amt: usize,
        |
            #![trigger
                call_ensures(
                    StreamWithBuffer::<'buf, 'stream, u8, U, D, N>::read,
                    (attached, current_id, buf_ptr, ret),
                    started,
                ),
                call_ensures(
                    crate::import::on_event_abi,
                    (before, cause, started.0.task.id),
                    (),
                ),
                call_ensures(ActiveRead::<'a, 'a>::cancel, (started.0, imports), call),
                call_ensures(
                    StreamWithBuffer::<'buf, 'stream, u8, U, D, N>::count,
                    (asked,),
                    amt,
                )]
            {
                &&& call_ensures(
                    StreamWithBuffer::<'buf, 'stream, u8, U, D, N>::read,
                    (attached, current_id, buf_ptr, ret),
                    started,
                )
                &&& call_ensures(
                    crate::import::on_event_abi,
                    (before, cause, started.0.task.id),
                    (),
                )
                &&& imports@ == final(before)@
                &&& call_ensures(ActiveRead::<'a, 'a>::cancel, (started.0, imports), call)
                &&& *asked == *final(attached)
                &&& call_ensures(
                    StreamWithBuffer::<'buf, 'stream, u8, U, D, N>::count,
                    (asked,),
                    amt,
                )
            } ==> {
                &&& 16 * amt == cause
                &&& call == (HostCall::TaskUnlisten { task: started.0.task.id })
                &&& final(asked).read == 0
            },
{
}

/// A read listens to the stream's own child, for as many items as the buffer
/// holds, at the addresses that were given; the child is adopted if the reading
/// task is not its parent.  It starts from a count of zero.
pub proof fn law_read_listens_to_the_child<'a, 'buf, 'stream, T, U, D, const N: usize>(
    current_id: u32,
    buf_ptr: usize,
    ret: usize,
)
    ensures
        forall|
            attached: &'a mut StreamWithBuffer<'buf, 'stream, T, U, D, N>,
            started: (ActiveRead<'a, 'a>, Option<HostCall>, HostCall),
        | #[trigger]
            call_ensures(
                StreamWithBuffer::<'buf, 'stream, T, U, D, N>::read,
                (attached, current_id, buf_ptr, ret),
                started,
            ) ==> {
                &&& attached.stream@@.task matches Some(task)
                &&& started.1 == (if task.parent == current_id {
                    None
                } else {
                    Some(HostCall::TaskAdopt { task: task.id })
                })
                &&& started.2 == (HostCall::TaskListenStream {
                    task: task.id,
                    buf: buf_ptr,
                    len: attached.buf@.len() as usize,
                    ret,
                })
                &&& *started.0.task == (WasmTask { id: task.id, parent: current_id })
                &&& *started.0.read == 0
                &&& final(attached).read == *final(started.0.read)
            },
        forall|attached: &mut StreamWithBuffer<'buf, 'stream, T, U, D, N>, amt: usize| #[trigger]
            call_ensures(
                StreamWithBuffer::<'buf, 'stream, T, U, D, N>::count,
                (attached,),
                amt,
            ) ==> amt == attached.read && final(attached).read == 0,
{
}

/// A stream is read from the call that it was made of, and is that call again
/// when it is given up.  A buffer that is attached to it is the one that was
/// given, with nothing counted.
pub proof fn law_stream_is_its_call<'buf, 'stream, U, D, const N: usize>(
    import: WasmImport<U, D, N>,
)
    ensures
        forall|stream: Stream<u8, U, D, N>, given_up: WasmImport<U, D, N>|
            #![trigger
                call_ensures(Stream::<u8, U, D, N>::new, (import,), stream),
                call_ensures(Stream::<u8, U, D, N>::into_import, (stream,), given_up)]
            call_ensures(Stream::<u8, U, D, N>::new, (import,), stream) && call_ensures(
                Stream::<u8, U, D, N>::into_import,
                (stream,),
                given_up,
            ) ==> given_up == import,
        forall|
            stream: &'stream mut Stream<u8, U, D, N>,
            buf: &'buf mut [u8],
            attached: StreamWithBuffer<'buf, 'stream, u8, U, D, N>,
        | #[trigger]
            call_ensures(
                Stream::<u8, U, D, N>::with_buffer,
                (stream, buf),
                attached,
            ) ==> {
                &&& *attached.stream == *stream
                &&& attached.buf@ == buf@
                &&& final(buf)@ == final(attached.buf)@
                &&& attached.read == 0
            },
{
}

} // verus!
