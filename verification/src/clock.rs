//! What the rest of a firmware may ask of a clock.

use vstd::prelude::*;

verus! {

/// A clock that runs at a known, fixed rate.
pub trait Frequency {
    /// The rate of the clock, in Hertz.
    spec fn frequency(&self) -> u32;

    /// The rate of the clock, in Hertz.
    fn hz(&self) -> (hz: u32)
        ensures
            hz == self.frequency(),
    ;
}

/// A clock that is known to be running.
///
/// Only types whose values cannot exist unless the clock has been switched on
/// implement this trait, so that a peripheral which asks for `Enabled` cannot
/// be handed a clock that stands still.
pub trait Enabled {
}

} // verus!
