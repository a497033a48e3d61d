//! Arena-wide constants, fixed at startup.

use vstd::prelude::*;

verus! {

/// True when an integer value fits the machine coordinate type.
pub open spec fn fits_i64(v: int) -> bool {
    i64::MIN <= v <= i64::MAX
}

/// The arena configuration: all dimensions and rates that the systems read.
/// It is created once at startup and passed explicitly into every system
/// call; nothing in the library mutates it.
#[derive(Clone, Copy)]
pub struct ArenaConfig {
    /// Half the arena width; the goal lines sit at `x = ±half_width`.
    pub half_width: i64,
    /// Half the arena height; the walls sit at `y = ±half_height`.
    pub half_height: i64,
    /// Radius of the ball, used by wall collision.
    pub ball_radius: i64,
    /// Displacement a paddle gains per unit time while a key is held.
    pub paddle_speed: i64,
    /// A paddle centre never leaves `[-paddle_travel_limit, paddle_travel_limit]`.
    pub paddle_travel_limit: i64,
    /// Scale applied to a directional force each unit of time.
    pub gravity: i64,
}

impl ArenaConfig {
    /// Every dimension and rate is a non-negative magnitude.
    pub open spec fn wf(self) -> bool {
        &&& self.half_width >= 0
        &&& self.half_height >= 0
        &&& self.ball_radius >= 0
        &&& self.paddle_speed >= 0
        &&& self.paddle_travel_limit >= 0
        &&& self.gravity >= 0
    }

    /// Startup validation: reports whether the configuration is usable,
    /// so a host can abort before running any system on a bad one.
    pub fn is_well_formed(&self) -> (r: bool)
        ensures
            r == self.wf(),
    {
        self.half_width >= 0 && self.half_height >= 0 && self.ball_radius >= 0
            && self.paddle_speed >= 0 && self.paddle_travel_limit >= 0 && self.gravity >= 0
    }
}

} // verus!
