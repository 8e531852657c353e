//! Points in time, in milliseconds.

use vstd::prelude::*;

verus! {

/// A point in time: milliseconds since the Unix epoch.
#[derive(Clone, Copy, Debug, PartialEq, Eq, Structural)]
pub struct Timestamp(pub u128);

impl Timestamp {
    /// The point in time `millis` milliseconds after the epoch.
    pub fn from_millis(millis: u128) -> (stamp: Timestamp)
        ensures
            stamp.0 == millis,
    {
        Timestamp(millis)
    }

    /// Milliseconds since the epoch.
    pub fn as_millis(&self) -> (millis: u128)
        ensures
            millis == self.0,
    {
        self.0
    }

    /// Milliseconds that have passed since `relative_to`, which must not
    /// lie after this point in time.
    pub fn millis_since(&self, relative_to: Timestamp) -> (millis: u128)
        requires
            relative_to.0 <= self.0,
        ensures
            millis == self.0 - relative_to.0,
    {
        self.0 - relative_to.0
    }
}

} // verus!
