//! The trace bridge's records.
//!
//! Traces are one-way notifications to the embedding host at three
//! severities. The library never talks to the host itself: every function
//! that has something to report returns the records, and the host shim
//! forwards them. A failure record keeps its error code and status code as
//! fields, so that contracts can speak of them without committing to a
//! rendering.

use vstd::prelude::*;

verus! {

/// One outbound notification to the host.
pub enum TraceRecord {
    Info { message: String },
    Warning { message: String },
    Error { code: String, message: String, status_code: i32 },
}

} // verus!
