//! The boundary system: detects the ball leaving the arena past a goal
//! line, emits a scoring event and recentres the ball.

use vstd::prelude::*;

use crate::components::{Position, ScoreEvent, Side};
use crate::config::ArenaConfig;

verus! {

/// Which side scores for a ball at horizontal coordinate `x`: the right
/// side when the ball is out past the right goal line, the left side when
/// out past the left one, nobody while the ball is inside.
pub open spec fn boundary_emission(x: int, half_width: int) -> Option<Side> {
    if x > half_width {
        Some(Side::Right)
    } else if x < -half_width {
        Some(Side::Left)
    } else {
        None
    }
}

/// The ball's position after the boundary system ran on it: recentred on
/// the origin exactly when an event was emitted, untouched otherwise.
pub open spec fn spec_boundary_pos(pos: Position, half_width: int) -> Position {
    if boundary_emission(pos.x as int, half_width) is Some {
        Position { x: 0, y: 0 }
    } else {
        pos
    }
}

/// One boundary tick on the single ball. When the ball is out past a goal
/// line, exactly one event for the scoring side is appended to the tick's
/// queue and the ball is recentred; otherwise neither the queue nor the
/// ball changes. Velocity and directional force are deliberately left
/// alone, so the next rally resumes at the previous speed and push.
pub fn boundary_system(ball: &mut Position, events: &mut Vec<ScoreEvent>, cfg: &ArenaConfig)
    requires
        cfg.wf(),
    ensures
        *final(ball) == spec_boundary_pos(*old(ball), cfg.half_width as int),
        match boundary_emission(old(ball).x as int, cfg.half_width as int) {
            Some(side) => final(events)@ == old(events)@.push((ScoreEvent { side: side })),
            None => final(events)@ == old(events)@,
        },
{
    if ball.x > cfg.half_width {
        events.push(ScoreEvent { side: Side::Right });
    } else if ball.x < -cfg.half_width {
        events.push(ScoreEvent { side: Side::Left });
    } else {
        return ;
    }
    ball.x = 0;
    ball.y = 0;
}

} // verus!
