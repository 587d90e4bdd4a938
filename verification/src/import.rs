//! Child tasks: the imports that this module's tasks have called.
use std::collections::HashMap;

use vstd::prelude::*;

use crate::abi::{
    HostCall, Poll, Polled, CAUSE_CHILD_DONE, CAUSE_CHILD_RETURN, CAUSE_CHILD_WRITE,
};

verus! {

/// What is known of a child task.
#[derive(Clone, Copy, Debug, PartialEq, Eq, Structural)]
pub enum ChildState {
    /// Nothing has been reported since the last time this was looked at.
    Waiting,
    /// So many items were written into the buffer, and nobody has claimed them.
    Wrote(usize),
    /// The return value is in place.
    Returned,
    /// The post-return work is done as well.
    Done,
}

impl ChildState {
    /// A child in state `self` may be reported to be in `new_state` next.
    pub open spec fn spec_expects(self, new_state: ChildState) -> bool {
        match new_state {
            ChildState::Done => self is Returned,
            _ => self is Waiting,
        }
    }

    /// How many items were written and not claimed.
    pub open spec fn unclaimed(self) -> usize {
        match self {
            ChildState::Wrote(n) => n,
            _ => 0,
        }
    }

    /// The state after a read has looked at it: what could be claimed is
    /// claimed.
    pub open spec fn after_read(self) -> ChildState {
        match self {
            ChildState::Wrote(_) => ChildState::Waiting,
            _ => self,
        }
    }

    /// The return value of the child is in place.
    pub open spec fn has_returned(self) -> bool {
        self is Returned || self is Done
    }

    /// Whether a report of `new_state` is in order: a child is done only after
    /// it has returned, and everything else is reported of a waiting child.
    pub fn expects(&self, new_state: &ChildState) -> (in_order: bool)
        ensures
            in_order == self.spec_expects(*new_state),
    {
        let expected_prev = match *new_state {
            ChildState::Done => ChildState::Returned,
            _ => ChildState::Waiting,
        };
        *self == expected_prev
    }

    /// Moves to `new_state` if that is in order, and tells whether it is.  A
    /// child that is done stays so, and items that nobody has claimed are not
    /// overwritten.
    pub fn update_in_order(&mut self, new_state: ChildState) -> (in_order: bool)
        ensures
            in_order == old(self).spec_expects(new_state),
            *final(self) == (if in_order { new_state } else { *old(self) }),
            *old(self) is Done ==> *final(self) == *old(self),
            *old(self) is Wrote ==> *final(self) == *old(self),
    {
        let in_order = self.expects(&new_state);
        if in_order {
            self.update_to(new_state);
        }
        in_order
    }

    /// Moves to `new_state`, whether or not that is in order, which
    /// [`expects`](ChildState::expects) tells.
    pub fn update_to(&mut self, new_state: ChildState)
        ensures
            *final(self) == new_state,
    {
        *self = new_state;
    }
}

/// The state that the `cause` of an `on-event` callback reports, if the cause
/// is a known one: the low four bits name the kind of event, and for a write
/// the bits above them give the amount.
pub open spec fn reported_state(cause: u32) -> Option<ChildState> {
    if cause % 16 == CAUSE_CHILD_WRITE {
        Some(ChildState::Wrote((cause / 16) as usize))
    } else if cause == CAUSE_CHILD_RETURN {
        Some(ChildState::Returned)
    } else if cause == CAUSE_CHILD_DONE {
        Some(ChildState::Done)
    } else {
        None
    }
}

/// Decodes the `cause` of an `on-event` callback.
pub fn decode_cause(cause: u32) -> (state: Option<ChildState>)
    ensures
        state == reported_state(cause),
{
    assert(cause & 0xf == cause % 16) by (bit_vector);
    assert(cause >> 4 == cause / 16) by (bit_vector);
    if cause & 0xf == CAUSE_CHILD_WRITE {
        let amt: u32 = cause >> 4;
        Some(ChildState::Wrote(amt as usize))
    } else if cause == CAUSE_CHILD_RETURN {
        Some(ChildState::Returned)
    } else if cause == CAUSE_CHILD_DONE {
        Some(ChildState::Done)
    } else {
        None
    }
}

/// The `children` after an `on-event` callback.
pub open spec fn after_event(
    children: Map<u32, ChildState>,
    cause: u32,
    idx: u32,
) -> Map<u32, ChildState> {
    match reported_state(cause) {
        Some(new_state) => children.insert(idx, new_state),
        None => children,
    }
}

/// The `on-event` callback is in order: the cause is known, and so is the
/// child, which may move to the state that is reported.
pub open spec fn event_in_order(children: Map<u32, ChildState>, cause: u32, idx: u32) -> bool {
    &&& reported_state(cause) is Some
    &&& children.contains_key(idx)
    &&& children[idx].spec_expects(reported_state(cause)->0)
}

/// The children of all tasks of this module, by the host's identifier.
pub struct GlobalImportState {
    children: HashMap<u32, ChildState>,
}

impl View for GlobalImportState {
    type V = Map<u32, ChildState>;

    closed spec fn view(&self) -> Map<u32, ChildState> {
        self.children@
    }
}

impl GlobalImportState {
    /// No children yet.
    pub fn new() -> (state: GlobalImportState)
        ensures
            state@ == Map::<u32, ChildState>::empty(),
    {
        GlobalImportState { children: HashMap::new() }
    }

    /// What is known of the child `id`, if there is such a child.
    pub fn child(&self, id: u32) -> (state: Option<ChildState>)
        ensures
            state == (if self@.contains_key(id) { Some(self@[id]) } else { None }),
    {
        broadcast use vstd::std_specs::hash::group_hash_axioms;

        match self.children.get(&id) {
            Some(state) => Some(*state),
            None => None,
        }
    }

    /// Whether an `on-event` callback is in order.
    pub fn expects_event(&self, cause: u32, idx: u32) -> (in_order: bool)
        ensures
            in_order == event_in_order(self@, cause, idx),
    {
        match (decode_cause(cause), self.child(idx)) {
            (Some(new_state), Some(state)) => state.expects(&new_state),
            _ => false,
        }
    }

    /// Records `state` for the child `id`, and returns what was known before.
    pub(crate) fn insert(&mut self, id: u32, state: ChildState) -> (prev: Option<ChildState>)
        ensures
            final(self)@ == old(self)@.insert(id, state),
            prev == (if old(self)@.contains_key(id) { Some(old(self)@[id]) } else { None }),
    {
        broadcast use vstd::std_specs::hash::group_hash_axioms;

        self.children.insert(id, state)
    }

    /// Forgets the child `id`, and returns what was known of it.
    fn remove(&mut self, id: u32) -> (prev: Option<ChildState>)
        ensures
            final(self)@ == old(self)@.remove(id),
            prev == (if old(self)@.contains_key(id) { Some(old(self)@[id]) } else { None }),
    {
        broadcast use vstd::std_specs::hash::group_hash_axioms;

        self.children.remove(&id)
    }
}

/// Takes in the `on-event` callback: the child `idx` moves to the state that
/// `cause` reports.  A cause that is not known changes nothing.
pub fn on_event_abi(state: &mut GlobalImportState, cause: u32, idx: u32)
    requires
        reported_state(cause) is Some ==> old(state)@.contains_key(idx),
    ensures
        final(state)@ == after_event(old(state)@, cause, idx),
{
    if let Some(new_state) = decode_cause(cause) {
        let mut child = state.child(idx).unwrap();
        child.update_to(new_state);
        state.insert(idx, child);
    }
}

/// A child task, owned by whoever holds this.
pub struct WasmTask {
    /// The host's identifier of the child.
    pub id: u32,
    /// The task that hears of the child's events.
    pub parent: u32,
}

impl WasmTask {
    /// Takes ownership of the child `id`, which the task `current_id` has
    /// started.  The identifier has to be a new one.
    pub fn new(imports: &mut GlobalImportState, id: u32, current_id: u32) -> (task: WasmTask)
        ensures
            task == (WasmTask { id, parent: current_id }),
            final(imports)@ == old(imports)@.insert(id, ChildState::Waiting),
    {
        imports.insert(id, ChildState::Waiting);
        WasmTask { id, parent: current_id }
    }

    /// The host's identifier of the child.
    pub fn id(&self) -> (id: u32)
        ensures
            id == self.id,
    {
        self.id
    }

    /// Runs `with` on what is known of the child.
    pub fn with_state<R, G: FnOnce(&mut ChildState) -> R>(
        &self,
        imports: &mut GlobalImportState,
        with: G,
    ) -> (ret: R)
        requires
            old(imports)@.contains_key(self.id),
            forall|state: &mut ChildState|
                *state == old(imports)@[self.id] ==> #[trigger] call_requires(with, (state,)),
        ensures
            exists|state: &mut ChildState|
                {
                    &&& *state == old(imports)@[self.id]
                    &&& #[trigger] call_ensures(with, (state,), ret)
                    &&& final(imports)@ == old(imports)@.insert(self.id, *final(state))
                },
    {
        let mut state = imports.child(self.id).unwrap();
        let ret = with(&mut state);
        imports.insert(self.id, state);
        ret
    }

    /// The same child with `current_id` for its parent.
    pub open spec fn reparented(self, current_id: u32) -> WasmTask {
        WasmTask { id: self.id, parent: current_id }
    }

    /// What the host has to be told for `current_id` to be the parent.
    pub open spec fn adoption(self, current_id: u32) -> Option<HostCall> {
        if self.parent == current_id {
            None
        } else {
            Some(HostCall::TaskAdopt { task: self.id })
        }
    }

    /// Makes the task `current_id` the parent, so that the child's events wake
    /// that task.
    pub fn maybe_reparent(&mut self, current_id: u32) -> (call: Option<HostCall>)
        ensures
            *final(self) == old(self).reparented(current_id),
            call == old(self).adoption(current_id),
    {
        if current_id != self.parent {
            self.parent = current_id;
            return Some(HostCall::TaskAdopt { task: self.id });
        }
        None
    }

    /// Polls for what `test` waits for: `test` looks at what is known of the
    /// child, which is the child of `current_id` from now on.
    pub fn await_child_state<T, G: FnOnce(&mut ChildState) -> Poll<T>>(
        &mut self,
        imports: &mut GlobalImportState,
        current_id: u32,
        test: G,
    ) -> (ret: Polled<T>)
        requires
            old(imports)@.contains_key(old(self).id),
            forall|state: &mut ChildState|
                *state == old(imports)@[old(self).id] ==> #[trigger] call_requires(test, (state,)),
        ensures
            *final(self) == old(self).reparented(current_id),
            ret.call == old(self).adoption(current_id),
            exists|state: &mut ChildState|
                {
                    &&& *state == old(imports)@[old(self).id]
                    &&& #[trigger] call_ensures(test, (state,), ret.poll)
                    &&& final(imports)@ == old(imports)@.insert(old(self).id, *final(state))
                },
    {
        let call = self.maybe_reparent(current_id);
        let poll = self.with_state(imports, test);
        Polled { call, poll }
    }

    /// Gives the child up: nothing is known of it any more, and the host
    /// cancels it if it is still running.
    pub fn release(self, imports: &mut GlobalImportState) -> (call: HostCall)
        ensures
            final(imports)@ == old(imports)@.remove(self.id),
            call == (HostCall::TaskDrop { task: self.id }),
    {
        imports.remove(self.id);
        HostCall::TaskDrop { task: self.id }
    }
}

} // verus!
