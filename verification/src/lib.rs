//! Time-windowed retrieval of structured log records from heterogeneous
//! log-search backends: query translation, record-stream normalization,
//! follow-window advancement, and a shared error taxonomy.

use vstd::prelude::*;

pub mod config;
pub mod follow;
pub mod datetime;
pub mod query;
pub mod records;
pub mod text;

verus! {

/// A half-open time window `[from, to)` in milliseconds since the Unix epoch.
#[derive(Clone, Copy, Debug, PartialEq, Eq, Structural)]
pub struct TimeWindow {
    pub from_ms: u64,
    pub to_ms: u64,
}

impl TimeWindow {
    /// A window is well formed when its start does not lie after its end.
    pub open spec fn wf(self) -> bool {
        self.from_ms <= self.to_ms
    }
}

} // verus!
