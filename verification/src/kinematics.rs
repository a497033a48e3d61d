//! The kinematics system: advances a position from a directional force and
//! from a linear velocity, in that fixed order, once per tick.

use vstd::prelude::*;

use crate::components::{DirectionalForce, Position, Velocity};
use crate::config::{fits_i64, ArenaConfig};

verus! {

/// How far the directional force moves a position downward in `dt` units of
/// time: the elapsed time, the gravity scale and the signed strength,
/// multiplied.
pub open spec fn force_displacement(dt: int, gravity: int, force: DirectionalForce) -> int {
    dt * gravity * force.signed()
}

/// The position after the directional-force pass: only `y` moves, by the
/// force displacement.
pub open spec fn spec_force_pass(
    pos: Position,
    dt: int,
    gravity: int,
    force: DirectionalForce,
) -> Position {
    Position { x: pos.x, y: (pos.y - force_displacement(dt, gravity, force)) as i64 }
}

/// The position after the velocity pass: each axis moves by rate times
/// elapsed time.
pub open spec fn spec_velocity_pass(pos: Position, vel: Velocity, dt: int) -> Position {
    Position { x: (pos.x + vel.x * dt) as i64, y: (pos.y + vel.y * dt) as i64 }
}

/// The position after a whole kinematics tick: the force pass, then the
/// velocity pass.
pub open spec fn spec_kinematics(
    pos: Position,
    vel: Velocity,
    force: DirectionalForce,
    dt: int,
    gravity: int,
) -> Position {
    spec_velocity_pass(spec_force_pass(pos, dt, gravity, force), vel, dt)
}

/// The machine limits under which the force pass stays in range.
pub open spec fn force_pass_fits(
    pos: Position,
    dt: int,
    gravity: int,
    force: DirectionalForce,
) -> bool {
    &&& dt * gravity <= i64::MAX
    &&& dt * gravity * force.magnitude <= i64::MAX
    &&& fits_i64(pos.y - force_displacement(dt, gravity, force))
}

/// The machine limits under which the velocity pass stays in range.
pub open spec fn velocity_pass_fits(pos: Position, vel: Velocity, dt: int) -> bool {
    &&& fits_i64(vel.x * dt)
    &&& fits_i64(vel.y * dt)
    &&& fits_i64(pos.x + vel.x * dt)
    &&& fits_i64(pos.y + vel.y * dt)
}

/// The machine limits for a whole kinematics tick: the force pass fits, and
/// the velocity pass fits on the force pass's result.
pub open spec fn kinematics_fits(
    pos: Position,
    vel: Velocity,
    force: DirectionalForce,
    dt: int,
    gravity: int,
) -> bool {
    &&& force_pass_fits(pos, dt, gravity, force)
    &&& velocity_pass_fits(spec_force_pass(pos, dt, gravity, force), vel, dt)
}

/// Directional-force pass: moves `pos.y` by exactly
/// `-(dt * gravity * force.signed())` and leaves `pos.x` unchanged.
pub fn apply_directional_force(
    pos: &mut Position,
    force: &DirectionalForce,
    dt: i64,
    cfg: &ArenaConfig,
)
    requires
        dt >= 0,
        cfg.wf(),
        force.wf(),
        force_pass_fits(*old(pos), dt as int, cfg.gravity as int, *force),
    ensures
        *final(pos) == spec_force_pass(*old(pos), dt as int, cfg.gravity as int, *force),
        final(pos).x == old(pos).x,
        final(pos).y == old(pos).y - force_displacement(dt as int, cfg.gravity as int, *force),
{
    proof {
        assert(dt * cfg.gravity >= 0) by (nonlinear_arith)
            requires
                dt >= 0,
                cfg.gravity >= 0,
        ;
    }
    let rate: i64 = dt * cfg.gravity;
    proof {
        assert(rate * force.magnitude >= 0) by (nonlinear_arith)
            requires
                rate >= 0,
                force.magnitude >= 0,
        ;
    }
    let shift: i64 = rate * force.magnitude;
    match force.direction {
        crate::components::VerticalDir::Down => {
            pos.y = pos.y - shift;
        },
        crate::components::VerticalDir::Up => {
            proof {
                assert(dt * cfg.gravity * force.signed() == -(dt * cfg.gravity
                    * force.magnitude)) by (nonlinear_arith)
                    requires
                        force.signed() == -(force.magnitude as int),
                ;
            }
            pos.y = pos.y + shift;
        },
    }
}

/// Velocity pass: moves each axis by rate times elapsed time.
pub fn apply_velocity(pos: &mut Position, vel: &Velocity, dt: i64)
    requires
        dt >= 0,
        velocity_pass_fits(*old(pos), *vel, dt as int),
    ensures
        *final(pos) == spec_velocity_pass(*old(pos), *vel, dt as int),
        final(pos).x == old(pos).x + vel.x * dt,
        final(pos).y == old(pos).y + vel.y * dt,
{
    pos.x = pos.x + vel.x * dt;
    pos.y = pos.y + vel.y * dt;
}

/// One kinematics tick on the ball: the directional-force pass, then the
/// velocity pass, in the fixed per-tick order.
pub fn kinematics_system(
    pos: &mut Position,
    vel: &Velocity,
    force: &DirectionalForce,
    dt: i64,
    cfg: &ArenaConfig,
)
    requires
        dt >= 0,
        cfg.wf(),
        force.wf(),
        kinematics_fits(*old(pos), *vel, *force, dt as int, cfg.gravity as int),
    ensures
        *final(pos) == spec_kinematics(*old(pos), *vel, *force, dt as int, cfg.gravity as int),
{
    apply_directional_force(pos, force, dt, cfg);
    apply_velocity(pos, vel, dt);
}

} // verus!
