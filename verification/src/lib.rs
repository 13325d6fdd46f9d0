//! A computational job runner: a process-group session supervisor with
//! timeout and guaranteed teardown, and an in-memory job registry that owns
//! each job's scratch directory and I/O files.

use vstd::prelude::*;

pub mod client;
pub mod error;
pub mod fsio;
pub mod job;
pub mod process;
pub mod registry;
pub mod server;
pub mod session;
pub mod text;

verus! {

/// Relies on `chrono::Local::now` and its `Display` rendering; the result
/// depends on the wall clock, so nothing is promised of it.
#[verifier::external_body]
pub fn timestamp_now() -> String {
    let now: chrono::DateTime<chrono::Local> = chrono::Local::now();
    format!("{}", now)
}

} // verus!
