//! Laws that relate several systems across a tick, proved once and for
//! all states.

use vstd::prelude::*;

use crate::boundary::boundary_emission;
use crate::collision::spec_collision;
use crate::components::{DirectionalForce, Position, Side};
use crate::config::ArenaConfig;
use crate::input::KeySnapshot;
use crate::kinematics::spec_kinematics;
use crate::tick::{clamped_dt, spec_tick, tick_fits, GameState};

verus! {

/// Running the collision system twice on the same ball position restores
/// the directional force it started with: a double negation of the push
/// direction, with the strength untouched both times.
pub proof fn lemma_collision_twice_restores_force(
    force: DirectionalForce,
    pos: Position,
    radius: int,
    half_height: int,
)
    ensures
        spec_collision(
            spec_collision(force, pos, radius, half_height),
            pos,
            radius,
            half_height,
        ) == force,
{
}

/// A tick in which the boundary system emits no event changes no score and
/// resets no ball: the ball ends exactly where kinematics moved it.
pub proof fn lemma_no_event_no_score_no_reset(
    s: GameState,
    dt: int,
    keys: KeySnapshot,
    cfg: ArenaConfig,
)
    requires
        ({
            let moved = spec_kinematics(
                s.ball_pos,
                s.ball_vel,
                s.ball_force,
                clamped_dt(dt),
                cfg.gravity as int,
            );
            boundary_emission(moved.x as int, cfg.half_width as int) is None
        }),
    ensures
        spec_tick(s, dt, keys, cfg).scores == s.scores,
        spec_tick(s, dt, keys, cfg).ball_pos == spec_kinematics(
            s.ball_pos,
            s.ball_vel,
            s.ball_force,
            clamped_dt(dt),
            cfg.gravity as int,
        ),
{
}

/// Over any tick that fits the machine limits, each score counter never
/// decreases; the counter of the side named by the emitted event grows by
/// exactly one and the other side's counter stays, and with no event both
/// stay.
pub proof fn lemma_scores_monotonic(s: GameState, dt: int, keys: KeySnapshot, cfg: ArenaConfig)
    requires
        tick_fits(s, dt, cfg),
    ensures
        spec_tick(s, dt, keys, cfg).scores.left.value >= s.scores.left.value,
        spec_tick(s, dt, keys, cfg).scores.right.value >= s.scores.right.value,
        ({
            let moved = spec_kinematics(
                s.ball_pos,
                s.ball_vel,
                s.ball_force,
                clamped_dt(dt),
                cfg.gravity as int,
            );
            match boundary_emission(moved.x as int, cfg.half_width as int) {
                Some(side) => spec_tick(s, dt, keys, cfg).scores.spec_of(side).value
                    == s.scores.spec_of(side).value + 1 && match side {
                    Side::Left => spec_tick(s, dt, keys, cfg).scores.right == s.scores.right,
                    Side::Right => spec_tick(s, dt, keys, cfg).scores.left == s.scores.left,
                },
                None => spec_tick(s, dt, keys, cfg).scores == s.scores,
            }
        }),
{
}

} // verus!
