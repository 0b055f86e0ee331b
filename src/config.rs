//! Configuration of oneshot measurements and of garbage collection
use vstd::prelude::*;

use crate::util::{Nanos, NANOS_PER_MILLI, NANOS_PER_SEC};

verus! {

/// Whether oneshot measurements are enabled unless configured otherwise
pub const DEFAULT_ONESHOT_ENABLE: bool = false;

/// Duration of a oneshot measurement that does not name one
pub const DEFAULT_ONESHOT_DURATION: Nanos = 500 * NANOS_PER_MILLI;

/// Age at which a campaign may be collected unless configured otherwise
pub const DEFAULT_GC_MIN_AGE: Nanos = 24 * 60 * 60 * NANOS_PER_SEC;

/// Number of campaigns at which collection starts unless configured otherwise
pub const DEFAULT_GC_MIN_CAMPAIGNS: usize = 65536;

/// Oneshot measurement configuration
#[derive(Clone, Copy, Debug, PartialEq, Eq, Structural)]
pub struct Oneshot {
    /// Enable potentially blocking oneshot end-points
    pub enable: bool,
    /// Default duration for oneshot measurements
    pub duration: Nanos,
}

impl Default for Oneshot {
    fn default() -> (r: Self)
        ensures
            r.enable == DEFAULT_ONESHOT_ENABLE,
            r.duration == DEFAULT_ONESHOT_DURATION,
    {
        Oneshot { enable: DEFAULT_ONESHOT_ENABLE, duration: DEFAULT_ONESHOT_DURATION }
    }
}

impl Oneshot {
    /// The duration of a oneshot measurement: the one requested, else the
    /// configured default
    pub fn duration_for(&self, requested: Option<Nanos>) -> (r: Nanos)
        ensures
            r == match requested {
                Some(d) => d,
                None => self.duration,
            },
    {
        match requested {
            Some(d) => d,
            None => self.duration,
        }
    }
}

/// Garbage collection configuration
#[derive(Clone, Copy, Debug, PartialEq, Eq, Structural)]
pub struct GC {
    /// Age at which a campaign might be collected
    pub min_age: Nanos,
    /// Number of campaigns at which collection will start
    pub min_campaigns: usize,
}

impl Default for GC {
    fn default() -> (r: Self)
        ensures
            r.min_age == DEFAULT_GC_MIN_AGE,
            r.min_campaigns == DEFAULT_GC_MIN_CAMPAIGNS,
    {
        GC { min_age: DEFAULT_GC_MIN_AGE, min_campaigns: DEFAULT_GC_MIN_CAMPAIGNS }
    }
}

} // verus!
