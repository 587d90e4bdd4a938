# wasm_task

The guest side of asynchronous wasm tasks, as verified state machines, and a conformance script for
modules that are driven through generated bindings.

* `src/` is the library. Nothing in it calls the host: a function that needs an intrinsic returns it
  as a `HostCall`, and the host's answer comes back as an argument. Verus proves every contract in
  it, and the laws in `ledger`, `laws`, `session` and `exports`, which speak of whole series of
  events.
* `app/` turns the state machines into futures, wakers and destructors, makes the host calls, and
  runs the conformance script on an instance.
* `tests/` runs the library on concrete values.

The one thing that is taken on trust is `std::mem::needs_drop`, of whose answer nothing is claimed.
