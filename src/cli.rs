//! The startup settings of the dashboard.
use vstd::prelude::*;

verus! {

/// Refresh interval used when none is given, in milliseconds.
pub const DEFAULT_INTERVAL_MS: u64 = 300;

/// What the dashboard is started with.
#[derive(Debug, Clone)]
pub struct Cli {
    /// Path of the configuration file.
    pub config: Option<String>,
    /// Target to select first, such as `session:window.pane`.
    pub target: Option<String>,
    /// Refresh interval in milliseconds.
    pub interval: u64,
}

} // verus!
