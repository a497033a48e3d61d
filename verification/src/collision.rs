//! The collision system: reverses the ball's vertical push when the ball
//! touches the top or bottom arena edge.

use vstd::prelude::*;

use crate::components::{DirectionalForce, Position};
use crate::config::{fits_i64, ArenaConfig};

verus! {

/// Whether a ball of the given radius at vertical coordinate `y` overlaps
/// the top or bottom arena edge.
pub open spec fn touches_wall(y: int, radius: int, half_height: int) -> bool {
    y + radius > half_height || y - radius < -half_height
}

/// The ball's directional force after one collision tick: reversed exactly
/// when the ball overlaps a horizontal wall, untouched otherwise. The
/// position is never corrected; the ball may sit inside the wall for up to
/// one tick's motion before its push carries it back, an accepted
/// discrete-time approximation.
pub open spec fn spec_collision(
    force: DirectionalForce,
    pos: Position,
    radius: int,
    half_height: int,
) -> DirectionalForce {
    if touches_wall(pos.y as int, radius, half_height) {
        force.spec_flipped()
    } else {
        force
    }
}

/// One collision tick on the single ball: flips the force direction at
/// most once, whichever wall (or both bounds at once) the test matched.
pub fn collision_system(force: &mut DirectionalForce, ball: &Position, cfg: &ArenaConfig)
    requires
        cfg.wf(),
        fits_i64(ball.y + cfg.ball_radius),
        fits_i64(ball.y - cfg.ball_radius),
    ensures
        *final(force) == spec_collision(
            *old(force),
            *ball,
            cfg.ball_radius as int,
            cfg.half_height as int,
        ),
{
    if ball.y + cfg.ball_radius > cfg.half_height || ball.y - cfg.ball_radius
        < -cfg.half_height {
        force.flip();
    }
}

} // verus!
