//! The input-to-motion system: translates the held keys into a bounded
//! vertical paddle displacement.

use vstd::prelude::*;

use crate::components::Side;
use crate::config::{fits_i64, ArenaConfig};

verus! {

/// A snapshot of the held movement keys, taken once per tick by the host.
/// Each paddle is bound to its own key pair (the left paddle's pair is
/// distinct from the right paddle's).
#[derive(Clone, Copy, Debug, PartialEq, Eq, Structural)]
pub struct KeySnapshot {
    pub left_up: bool,
    pub left_down: bool,
    pub right_up: bool,
    pub right_down: bool,
}

impl KeySnapshot {
    /// Whether the "move up" key of the given side's pair is held.
    pub open spec fn spec_up_held(self, side: Side) -> bool {
        match side {
            Side::Left => self.left_up,
            Side::Right => self.right_up,
        }
    }

    /// Whether the "move down" key of the given side's pair is held.
    pub open spec fn spec_down_held(self, side: Side) -> bool {
        match side {
            Side::Left => self.left_down,
            Side::Right => self.right_down,
        }
    }

    /// Reads the held state of the given side's "move up" key.
    pub fn up_held(&self, side: Side) -> (r: bool)
        ensures
            r == self.spec_up_held(side),
    {
        match side {
            Side::Left => self.left_up,
            Side::Right => self.right_up,
        }
    }

    /// Reads the held state of the given side's "move down" key.
    pub fn down_held(&self, side: Side) -> (r: bool)
        ensures
            r == self.spec_down_held(side),
    {
        match side {
            Side::Left => self.left_down,
            Side::Right => self.right_down,
        }
    }
}

/// Where one paddle stands after one input tick. The candidate position is
/// checked against the travel limit before the move is applied, so a move
/// that would overshoot is not made at all. When both keys are held, "up"
/// is checked first and wins; the "down" branch is reached only when the
/// up move is not taken.
pub open spec fn paddle_step(y: int, up: bool, down: bool, dt: int, speed: int, limit: int) -> int {
    let step = speed * dt;
    if up && y + step <= limit {
        y + step
    } else if down && -limit <= y - step {
        y - step
    } else {
        y
    }
}

/// The machine limits under which one input tick stays in range.
pub open spec fn paddle_step_fits(y: int, dt: int, speed: int) -> bool {
    &&& speed * dt <= i64::MAX
    &&& fits_i64(y + speed * dt)
    &&& fits_i64(y - speed * dt)
}

/// Moves one paddle for one tick from its side's held keys. A paddle that
/// starts inside the travel limit never leaves it.
pub fn move_paddle(y: &mut i64, up: bool, down: bool, dt: i64, cfg: &ArenaConfig)
    requires
        dt >= 0,
        cfg.wf(),
        paddle_step_fits(*old(y) as int, dt as int, cfg.paddle_speed as int),
    ensures
        *final(y) == paddle_step(
            *old(y) as int,
            up,
            down,
            dt as int,
            cfg.paddle_speed as int,
            cfg.paddle_travel_limit as int,
        ),
        -cfg.paddle_travel_limit <= *old(y) <= cfg.paddle_travel_limit ==> -cfg.paddle_travel_limit
            <= *final(y) <= cfg.paddle_travel_limit,
{
    proof {
        assert(cfg.paddle_speed * dt >= 0) by (nonlinear_arith)
            requires
                cfg.paddle_speed >= 0,
                dt >= 0,
        ;
    }
    let step: i64 = cfg.paddle_speed * dt;
    if up && *y + step <= cfg.paddle_travel_limit {
        *y = *y + step;
    } else if down && -cfg.paddle_travel_limit <= *y - step {
        *y = *y - step;
    }
}

/// One input tick for both paddles: each follows its own key pair, bounded
/// by the travel limit.
pub fn input_system(
    left_y: &mut i64,
    right_y: &mut i64,
    keys: &KeySnapshot,
    dt: i64,
    cfg: &ArenaConfig,
)
    requires
        dt >= 0,
        cfg.wf(),
        paddle_step_fits(*old(left_y) as int, dt as int, cfg.paddle_speed as int),
        paddle_step_fits(*old(right_y) as int, dt as int, cfg.paddle_speed as int),
    ensures
        *final(left_y) == paddle_step(
            *old(left_y) as int,
            keys.spec_up_held(Side::Left),
            keys.spec_down_held(Side::Left),
            dt as int,
            cfg.paddle_speed as int,
            cfg.paddle_travel_limit as int,
        ),
        *final(right_y) == paddle_step(
            *old(right_y) as int,
            keys.spec_up_held(Side::Right),
            keys.spec_down_held(Side::Right),
            dt as int,
            cfg.paddle_speed as int,
            cfg.paddle_travel_limit as int,
        ),
        -cfg.paddle_travel_limit <= *old(left_y) <= cfg.paddle_travel_limit
            ==> -cfg.paddle_travel_limit <= *final(left_y) <= cfg.paddle_travel_limit,
        -cfg.paddle_travel_limit <= *old(right_y) <= cfg.paddle_travel_limit
            ==> -cfg.paddle_travel_limit <= *final(right_y) <= cfg.paddle_travel_limit,
{
    move_paddle(left_y, keys.up_held(Side::Left), keys.down_held(Side::Left), dt, cfg);
    move_paddle(right_y, keys.up_held(Side::Right), keys.down_held(Side::Right), dt, cfg);
}

} // verus!
