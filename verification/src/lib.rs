//! Supervision core for an external "builder" worker process: translating its
//! output lines into typed progress events, keeping a capacity-bounded log of
//! progress text, and driving the run/cancel state machine that the
//! surrounding application executes.

pub mod config;
pub mod controller;
pub mod progress;
pub mod sink;
pub mod supervisor;

use vstd::prelude::*;

verus! {

/// The marker substring whose presence in an output line signals that the
/// builder finished its work.
pub open spec fn completion_marker() -> Seq<char> {
    "done"@
}

} // verus!
