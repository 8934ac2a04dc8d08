//! Settings and the errors that stop a session before it starts.
use vstd::prelude::*;

verus! {

/// The dashboard's settings.
pub struct Config {
    /// Pause between two ticks, in milliseconds.
    pub refresh_rate_in_millis: u64,
    /// Where the timer list is kept.
    pub timer_config_path: String,
}

/// A configuration that cannot run.
#[derive(Clone, Copy, Debug, PartialEq, Eq, Structural)]
pub enum ConfigError {
    /// The timer list is empty.
    NoTimers,
    /// The timer at this index has a time that is not `HH:MM`.
    BadTimerTime { index: usize },
    /// The time block at this index has a start or end that is not `HH:MM`.
    BadBlockTime { index: usize },
    /// The time block at this index does not end after it starts.
    EmptyBlock { index: usize },
}

} // verus!
