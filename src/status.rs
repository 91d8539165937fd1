//! The values that the filter hands to its callers.
use vstd::prelude::*;

verus! {

/// Why a filter operation did not take place.
#[derive(Clone, Debug, PartialEq, Eq)]
pub enum FilterError {
    /// The hook is already installed.
    AlreadyRunning,
    /// There is no running filter to stop.
    NotRunning,
    /// This platform has no global input hook.
    Unsupported,
    /// An internal precondition is missing, such as a notification target.
    ServiceUnavailable,
    /// The operating system refused or failed to install the hook.
    Platform(String),
}

/// A snapshot of the filter, produced on demand.
#[derive(Clone, Copy, Debug, PartialEq, Eq, Structural)]
pub struct FilterStatus {
    pub running: bool,
    pub threshold_ms: u64,
    pub blocked_clicks: u64,
}

/// What is reported for each suppressed click.
#[derive(Clone, Copy, Debug, PartialEq, Eq, Structural)]
pub struct BlockedEventPayload {
    pub delta_ms: u64,
}

/// The threshold that a filter starts out with.
pub const DEFAULT_THRESHOLD_MS: u64 = 100;

impl FilterStatus {
    /// The status reported when the service itself cannot be reached.
    pub open spec fn fallback_spec() -> FilterStatus {
        FilterStatus { running: false, threshold_ms: DEFAULT_THRESHOLD_MS, blocked_clicks: 0 }
    }

    pub fn fallback() -> (r: FilterStatus)
        ensures
            r == FilterStatus::fallback_spec(),
    {
        FilterStatus { running: false, threshold_ms: DEFAULT_THRESHOLD_MS, blocked_clicks: 0 }
    }
}

} // verus!
