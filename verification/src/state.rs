//! What the host as a whole keeps: when it started and what its top
//! line says.

use vstd::prelude::*;
use crate::clock::{elapsed, Moment, Span};

verus! {

/// The status line of a host that has just started.
pub const INITIAL_STATUS: &'static str = "DE-EVOLUTION IN PROGRESS.";

/// The state of the host.
#[derive(Debug, Clone, PartialEq, Eq)]
pub struct AppState {
    /// When the host started.
    pub started_at: Moment,
    /// The text of the top line.
    pub status_line: String,
}

impl AppState {
    /// The state of a host that starts at `now`.
    pub fn new(now: Moment) -> (state: AppState)
        ensures
            state.started_at == now,
            state.status_line@ == INITIAL_STATUS@,
    {
        AppState { started_at: now, status_line: INITIAL_STATUS.to_owned() }
    }

    /// The time the host has run at `now`.
    pub fn uptime(&self, now: Moment) -> (span: Span)
        ensures
            span.nanos == elapsed(now, self.started_at),
    {
        now.since(self.started_at)
    }
}

} // verus!
