//! The held controls of one simulation step and the steering factors they
//! stand for.

use vstd::prelude::*;

verus! {

/// How many quarters make up a full thrust factor.
pub const THRUST_SCALE: i8 = 4;

/// Which of the five logical controls are held.
#[derive(Clone, Copy, Debug, PartialEq, Eq, Structural)]
pub struct Controls {
    pub rotate_left: bool,
    pub rotate_right: bool,
    pub thrust_forward: bool,
    pub thrust_reverse: bool,
    pub fire: bool,
}

impl Controls {
    /// Turning direction: one for left alone, minus one for right alone, zero
    /// when both or neither are held.
    pub open spec fn spec_rotation_factor(self) -> int {
        (if self.rotate_left { 1int } else { 0 }) - (if self.rotate_right { 1int } else { 0 })
    }

    /// Thrust in quarters: forward adds a whole (four quarters), reverse takes
    /// one quarter away.
    pub open spec fn spec_thrust_quarters(self) -> int {
        (if self.thrust_forward { 4int } else { 0 }) - (if self.thrust_reverse { 1int } else { 0 })
    }

    /// The turning direction of this step, in `-1 ..= 1`.
    pub fn rotation_factor(&self) -> (f: i8)
        ensures
            f == self.spec_rotation_factor(),
            -1 <= f <= 1,
            self.rotate_left == self.rotate_right ==> f == 0,
    {
        let mut factor: i8 = 0;
        if self.rotate_left {
            factor = factor + 1;
        }
        if self.rotate_right {
            factor = factor - 1;
        }
        factor
    }

    /// The thrust of this step in quarters of full thrust, in `-1 ..= 4`.
    /// Dividing by [`THRUST_SCALE`] gives the factor that scales the craft's
    /// acceleration.
    pub fn thrust_quarters(&self) -> (q: i8)
        ensures
            q == self.spec_thrust_quarters(),
            -1 <= q <= THRUST_SCALE,
            q < 0 <==> (self.thrust_reverse && !self.thrust_forward),
    {
        let mut quarters: i8 = 0;
        if self.thrust_forward {
            quarters = quarters + THRUST_SCALE;
        }
        if self.thrust_reverse {
            quarters = quarters - 1;
        }
        quarters
    }
}

} // verus!
