//! A small library behind an HTTP façade for an external task-queue daemon.
//!
//! Clients enqueue a verification job, poll aggregate queue status, and fetch
//! a single job's status and log. All queueing and execution is delegated to
//! the external daemon, reached through its command-line interface. This
//! library holds the parts with real logic: validating the user-supplied
//! repository, commit and optimizer-version fields, building the argument
//! vectors for the daemon's command-line program, and reshaping the daemon's
//! status output into the façade's smaller response shape.

use vstd::prelude::*;

pub mod gateway;
pub mod shaper;
pub mod task;
pub mod validate;

verus! {

/// The view of the plain-text usage hint served at the root path.
pub open spec fn usage_text() -> Seq<char> {
    "
    /status - Get status of all tasks
    /status/<id> - Get status of a task
    /enqueue/<id> - Enqueue a task
        "@
}

/// The plain-text usage hint served at the root path.
pub fn root() -> (r: &'static str)
    ensures
        r@ == usage_text(),
{
    "
    /status - Get status of all tasks
    /status/<id> - Get status of a task
    /enqueue/<id> - Enqueue a task
        "
}

} // verus!
