//! How a gun paces its shots.

use vstd::prelude::*;

verus! {

/// The pacing discipline of a rate timer, fixed when the timer is made.
#[derive(Clone, Copy, Debug, PartialEq, Eq, Structural)]
pub enum FireMode {
    /// One shot per fixed interval.
    Normal,
    /// Quick shots inside a bounded window, then a mandatory cooldown.
    Burst,
}

} // verus!
