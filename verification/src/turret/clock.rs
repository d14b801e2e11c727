//! Elapsed-time counters.

use vstd::prelude::*;

verus! {

/// The length of a tick that is measured as `millis` milliseconds: a tick of no length
/// where the measure is negative, and the longest tick there is where it is longer than
/// that.
pub open spec fn clamped_tick(millis: int) -> nat {
    if millis <= 0 {
        0
    } else if millis >= u32::MAX as int {
        u32::MAX as nat
    } else {
        millis as nat
    }
}

/// The length of a tick that is measured as `millis` milliseconds. A measure that runs
/// backwards counts as no time at all.
pub fn tick_length(millis: i64) -> (dt: u32)
    ensures
        dt as nat == clamped_tick(millis as int),
{
    if millis <= 0 {
        0
    } else if millis >= u32::MAX as i64 {
        u32::MAX
    } else {
        millis as u32
    }
}

/// The time elapsed since some event, in milliseconds.
///
/// A clock counts without bound: its value, `self@`, is a natural number. The machine word
/// behind it stops at `u64::MAX`, which no comparison against a `u64` mark can tell apart
/// from the true value, so every answer a clock gives is the answer of the unbounded count.
pub struct Clock {
    shown: u64,
    elapsed: Ghost<nat>,
}

impl View for Clock {
    type V = nat;

    closed spec fn view(&self) -> nat {
        self.elapsed@
    }
}

impl Clock {
    #[verifier::type_invariant]
    spec fn faithful(self) -> bool {
        self.shown as nat == if self.elapsed@ <= u64::MAX as nat {
            self.elapsed@
        } else {
            u64::MAX as nat
        }
    }

    /// A clock that reads zero.
    pub fn new() -> (clock: Self)
        ensures
            clock@ == 0,
    {
        Clock { shown: 0, elapsed: Ghost(0) }
    }

    /// Lets `dt` milliseconds pass.
    pub fn advance(&mut self, dt: u32)
        ensures
            final(self)@ == old(self)@ + dt as nat,
    {
        proof {
            use_type_invariant(&*self);
        }
        let shown: u64 = self.shown.saturating_add(dt as u64);
        let ghost elapsed: nat = self.elapsed@ + dt as nat;
        *self = Clock { shown, elapsed: Ghost(elapsed) };
    }

    /// Sets the clock back to zero.
    pub fn restart(&mut self)
        ensures
            final(self)@ == 0,
    {
        *self = Clock { shown: 0, elapsed: Ghost(0) };
    }

    /// Whether at least `mark` milliseconds have passed.
    pub fn has_reached(&self, mark: u64) -> (reached: bool)
        ensures
            reached == (self@ >= mark as nat),
    {
        proof {
            use_type_invariant(self);
        }
        self.shown >= mark
    }
}

} // verus!
