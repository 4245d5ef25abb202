//! Which timers to collect.

use vstd::prelude::*;

use crate::names::NameSet;

verus! {

/// What is collected about timers.
pub struct TimersConfig {
    /// Whether timers are collected at all.
    pub enabled: bool,
    /// The only timers to collect, unless it is empty.
    pub allowlist: NameSet,
    /// Timers to leave out.
    pub blocklist: NameSet,
}

/// What is collected.
pub struct Config {
    pub timers: TimersConfig,
}

} // verus!
