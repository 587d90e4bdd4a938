//! The guest side of asynchronous wasm tasks, as a set of state machines.
//!
//! A wasm module that exports asynchronous functions is entered through a
//! handful of callbacks, and talks back to its host through a handful of
//! intrinsics.  The modules here hold every decision that is made in between:
//! which state a task, a stream or a child task moves to, what is handed to
//! the user's code, and which intrinsic is to be called next.  Intrinsics are
//! never called from here: a function that needs one returns it as a
//! [`HostCall`](abi::HostCall), and what the host answers comes back as an
//! argument.
//!
//! * [`export`] runs the tasks that this module exports, with their streams of
//!   written items; [`tls`] keeps track of the one that is running.
//! * [`import`] follows the child tasks that this module calls, [`call`] the
//!   calls themselves and [`stream`] the items that the children write.
//! * [`ledger`] and [`laws`] state what holds of all of these together.
//! * [`promises`] and [`child_promises`] state what callers are promised of
//!   each call, and [`reply_promises`] and [`script_promises`] the same of
//!   replies and of the conformance script.
//! * [`session`] and [`exports`] hold a conformance script for modules, and
//!   the rules by which replies are judged.
pub mod abi;
pub mod call;
pub mod child_promises;
pub mod export;
pub mod exports;
pub mod import;
pub mod laws;
pub mod ledger;
pub mod promises;
pub mod reply_promises;
pub mod script_promises;
pub mod session;
pub mod stream;
pub mod tls;
