//! A time span with second-level granularity. Timeouts in this crate are
//! whole numbers of seconds, so a duration is modelled as its second count.

use vstd::prelude::*;

verus! {

/// A non-negative time span, counted in whole seconds.
#[derive(Clone, Copy, Debug, PartialEq, Eq, Structural)]
pub struct Duration {
    pub secs: u64,
}

impl Duration {
    /// Builds a duration spanning exactly `secs` seconds.
    pub fn from_secs(secs: u64) -> (r: Duration)
        ensures
            r.secs == secs,
    {
        Duration { secs }
    }

    /// Returns the number of whole seconds this duration spans.
    pub fn as_secs(&self) -> (r: u64)
        ensures
            r == self.secs,
    {
        self.secs
    }
}

} // verus!
