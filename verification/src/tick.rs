//! The game state and the per-tick driver that runs every system once, in
//! the fixed order: kinematics, input-to-motion, boundary, collision,
//! scoring.

use vstd::prelude::*;

use crate::boundary::{boundary_emission, boundary_system, spec_boundary_pos};
use crate::collision::{collision_system, spec_collision};
use crate::components::{DirectionalForce, Position, Score, ScoreEvent, Side, Velocity, VerticalDir};
use crate::config::{fits_i64, ArenaConfig};
use crate::input::{input_system, paddle_step, paddle_step_fits, KeySnapshot};
use crate::kinematics::{kinematics_fits, kinematics_system, spec_kinematics};
use crate::scoring::{count_side, lemma_count_side_push, scoring_system, Scoreboard};

verus! {

/// The whole mutable simulation state: exactly one ball and one paddle per
/// side, fixed at startup and never created or destroyed afterwards. The
/// counts are enforced by construction, so no system can find zero or two
/// balls at runtime.
#[derive(Clone, Copy, Debug, PartialEq, Eq, Structural)]
pub struct GameState {
    /// The ball's world-space position.
    pub ball_pos: Position,
    /// The ball's linear displacement rate.
    pub ball_vel: Velocity,
    /// The constant vertical push on the ball and its current direction.
    pub ball_force: DirectionalForce,
    /// The left paddle's centre. Paddles carry no velocity; input edits
    /// their vertical coordinate directly and nothing moves them sideways.
    pub left_paddle: Position,
    /// The right paddle's centre.
    pub right_paddle: Position,
    /// The two per-side point counters.
    pub scores: Scoreboard,
}

impl GameState {
    /// The state invariant every tick preserves: the force strength is a
    /// magnitude and both paddles sit inside the travel limit.
    pub open spec fn wf(self, cfg: ArenaConfig) -> bool {
        &&& self.ball_force.wf()
        &&& -cfg.paddle_travel_limit <= self.left_paddle.y <= cfg.paddle_travel_limit
        &&& -cfg.paddle_travel_limit <= self.right_paddle.y <= cfg.paddle_travel_limit
    }

    /// The starting state: ball centred with the given velocity and a
    /// downward push of the given strength, paddles vertically centred at
    /// the given distance from the centre line on their own sides, no
    /// points.
    pub fn new(
        ball_vel: Velocity,
        force_magnitude: i64,
        paddle_offset: i64,
        cfg: &ArenaConfig,
    ) -> (s: GameState)
        requires
            cfg.wf(),
            force_magnitude >= 0,
            paddle_offset >= 0,
        ensures
            s.wf(*cfg),
            s.ball_pos == (Position { x: 0, y: 0 }),
            s.ball_vel == ball_vel,
            s.ball_force == (DirectionalForce {
                magnitude: force_magnitude,
                direction: VerticalDir::Down,
            }),
            s.left_paddle.x == -paddle_offset,
            s.left_paddle.y == 0,
            s.right_paddle.x == paddle_offset,
            s.right_paddle.y == 0,
            s.scores.left.value == 0,
            s.scores.right.value == 0,
    {
        GameState {
            ball_pos: Position { x: 0, y: 0 },
            ball_vel,
            ball_force: DirectionalForce {
                magnitude: force_magnitude,
                direction: VerticalDir::Down,
            },
            left_paddle: Position { x: -paddle_offset, y: 0 },
            right_paddle: Position { x: paddle_offset, y: 0 },
            scores: Scoreboard { left: Score { value: 0 }, right: Score { value: 0 } },
        }
    }

    /// Reports whether the state invariant holds, so a host that built a
    /// state by hand can validate it before the first tick. The
    /// configuration must already have passed its own validation.
    pub fn is_well_formed(&self, cfg: &ArenaConfig) -> (r: bool)
        requires
            cfg.wf(),
        ensures
            r == self.wf(*cfg),
    {
        self.ball_force.magnitude >= 0 && -cfg.paddle_travel_limit <= self.left_paddle.y
            && self.left_paddle.y <= cfg.paddle_travel_limit && -cfg.paddle_travel_limit
            <= self.right_paddle.y && self.right_paddle.y <= cfg.paddle_travel_limit
    }

    /// Reads the ball's position, for display.
    pub fn ball_position(&self) -> (r: Position)
        ensures
            r == self.ball_pos,
    {
        self.ball_pos
    }

    /// The given side's paddle position.
    pub open spec fn spec_paddle(self, side: Side) -> Position {
        match side {
            Side::Left => self.left_paddle,
            Side::Right => self.right_paddle,
        }
    }

    /// Reads the given side's paddle position, for display.
    pub fn paddle_position(&self, side: Side) -> (r: Position)
        ensures
            r == self.spec_paddle(side),
    {
        match side {
            Side::Left => self.left_paddle,
            Side::Right => self.right_paddle,
        }
    }

    /// Reads the given side's point count, for display.
    pub fn score(&self, side: Side) -> (r: u64)
        ensures
            r == self.scores.spec_of(side).value,
    {
        self.scores.of(side).value
    }
}

/// The elapsed time a tick actually uses: a negative value supplied by the
/// host is clamped to zero rather than letting time run backwards.
pub open spec fn clamped_dt(dt: int) -> int {
    if dt < 0 {
        0
    } else {
        dt
    }
}

/// The scoreboard with one point added for the given side and the other
/// side untouched.
pub open spec fn spec_award(scores: Scoreboard, side: Side) -> Scoreboard {
    match side {
        Side::Left => Scoreboard {
            left: Score { value: (scores.left.value + 1) as u64 },
            right: scores.right,
        },
        Side::Right => Scoreboard {
            left: scores.left,
            right: Score { value: (scores.right.value + 1) as u64 },
        },
    }
}

/// The whole state one tick later: the ball moved by force and velocity,
/// the paddles moved by the held keys within the travel limit, the ball
/// recentred and a point awarded exactly when it left past a goal line,
/// and the vertical push reversed exactly when the settled ball overlaps a
/// horizontal wall.
pub open spec fn spec_tick(s: GameState, dt: int, keys: KeySnapshot, cfg: ArenaConfig) -> GameState {
    let d = clamped_dt(dt);
    let moved = spec_kinematics(s.ball_pos, s.ball_vel, s.ball_force, d, cfg.gravity as int);
    let settled = spec_boundary_pos(moved, cfg.half_width as int);
    GameState {
        ball_pos: settled,
        ball_vel: s.ball_vel,
        ball_force: spec_collision(
            s.ball_force,
            settled,
            cfg.ball_radius as int,
            cfg.half_height as int,
        ),
        left_paddle: Position {
            x: s.left_paddle.x,
            y: paddle_step(
                s.left_paddle.y as int,
                keys.spec_up_held(Side::Left),
                keys.spec_down_held(Side::Left),
                d,
                cfg.paddle_speed as int,
                cfg.paddle_travel_limit as int,
            ) as i64,
        },
        right_paddle: Position {
            x: s.right_paddle.x,
            y: paddle_step(
                s.right_paddle.y as int,
                keys.spec_up_held(Side::Right),
                keys.spec_down_held(Side::Right),
                d,
                cfg.paddle_speed as int,
                cfg.paddle_travel_limit as int,
            ) as i64,
        },
        scores: match boundary_emission(moved.x as int, cfg.half_width as int) {
            Some(side) => spec_award(s.scores, side),
            None => s.scores,
        },
    }
}

/// The machine limits under which one whole tick stays in range: each
/// pass fits on the state the preceding passes hand it, and the counter of
/// a side about to score has room for one more point. The held keys play
/// no part: a paddle move must fit whether or not it is taken.
pub open spec fn tick_fits(s: GameState, dt: int, cfg: ArenaConfig) -> bool {
    let d = clamped_dt(dt);
    let moved = spec_kinematics(s.ball_pos, s.ball_vel, s.ball_force, d, cfg.gravity as int);
    let settled = spec_boundary_pos(moved, cfg.half_width as int);
    &&& kinematics_fits(s.ball_pos, s.ball_vel, s.ball_force, d, cfg.gravity as int)
    &&& paddle_step_fits(s.left_paddle.y as int, d, cfg.paddle_speed as int)
    &&& paddle_step_fits(s.right_paddle.y as int, d, cfg.paddle_speed as int)
    &&& fits_i64(settled.y + cfg.ball_radius)
    &&& fits_i64(settled.y - cfg.ball_radius)
    &&& match boundary_emission(moved.x as int, cfg.half_width as int) {
        Some(Side::Left) => s.scores.left.value < u64::MAX,
        Some(Side::Right) => s.scores.right.value < u64::MAX,
        None => true,
    }
}

/// Decides `tick_fits` on plain values, so a host — which cannot evaluate
/// the contracts itself — can test the one precondition of `tick` that is
/// not already an invariant, and refuse the tick instead of feeding the
/// core values the library makes no promise about.
pub fn tick_fits_check(s: &GameState, dt: i64, cfg: &ArenaConfig) -> (r: bool)
    requires
        cfg.wf(),
        s.ball_force.wf(),
    ensures
        r == tick_fits(*s, dt as int, *cfg),
{
    let d: i64 = if dt < 0 {
        0
    } else {
        dt
    };
    proof {
        assert(d * cfg.gravity >= 0) by (nonlinear_arith)
            requires
                d >= 0,
                cfg.gravity >= 0,
        ;
    }
    let rate: i64 = match d.checked_mul(cfg.gravity) {
        Some(v) => v,
        None => {
            return false;
        },
    };
    proof {
        assert(rate * s.ball_force.magnitude >= 0) by (nonlinear_arith)
            requires
                rate >= 0,
                s.ball_force.magnitude >= 0,
        ;
        if s.ball_force.direction is Up {
            assert(d * cfg.gravity * s.ball_force.signed() == -(d * cfg.gravity
                * s.ball_force.magnitude)) by (nonlinear_arith)
                requires
                    s.ball_force.signed() == -(s.ball_force.magnitude as int),
            ;
        }
    }
    let push: i64 = match rate.checked_mul(s.ball_force.magnitude) {
        Some(v) => v,
        None => {
            return false;
        },
    };
    let moved_y: i64 = match (match s.ball_force.direction {
        VerticalDir::Down => s.ball_pos.y.checked_sub(push),
        VerticalDir::Up => s.ball_pos.y.checked_add(push),
    }) {
        Some(v) => v,
        None => {
            return false;
        },
    };
    let dx: i64 = match s.ball_vel.x.checked_mul(d) {
        Some(v) => v,
        None => {
            return false;
        },
    };
    let dy: i64 = match s.ball_vel.y.checked_mul(d) {
        Some(v) => v,
        None => {
            return false;
        },
    };
    let moved_x: i64 = match s.ball_pos.x.checked_add(dx) {
        Some(v) => v,
        None => {
            return false;
        },
    };
    let moved_y: i64 = match moved_y.checked_add(dy) {
        Some(v) => v,
        None => {
            return false;
        },
    };
    proof {
        assert(cfg.paddle_speed * d >= 0) by (nonlinear_arith)
            requires
                cfg.paddle_speed >= 0,
                d >= 0,
        ;
    }
    let step: i64 = match cfg.paddle_speed.checked_mul(d) {
        Some(v) => v,
        None => {
            return false;
        },
    };
    if s.left_paddle.y.checked_add(step).is_none() || s.left_paddle.y.checked_sub(step).is_none()
        || s.right_paddle.y.checked_add(step).is_none() || s.right_paddle.y.checked_sub(
        step,
    ).is_none() {
        return false;
    }
    let settled_y: i64 = if moved_x > cfg.half_width || moved_x < -cfg.half_width {
        0
    } else {
        moved_y
    };
    if settled_y.checked_add(cfg.ball_radius).is_none() || settled_y.checked_sub(
        cfg.ball_radius,
    ).is_none() {
        return false;
    }
    if moved_x > cfg.half_width {
        s.scores.right.value < u64::MAX
    } else if moved_x < -cfg.half_width {
        s.scores.left.value < u64::MAX
    } else {
        true
    }
}

/// One full simulation tick, every system once in the fixed order. The
/// event queue is created empty, filled by the boundary system and drained
/// fully by the scoring system: no event survives into the next tick. A
/// negative elapsed time is clamped to zero, a legal no-motion tick.
pub fn tick(state: &mut GameState, dt: i64, keys: &KeySnapshot, cfg: &ArenaConfig)
    requires
        cfg.wf(),
        old(state).wf(*cfg),
        tick_fits(*old(state), dt as int, *cfg),
    ensures
        *final(state) == spec_tick(*old(state), dt as int, *keys, *cfg),
        final(state).wf(*cfg),
{
    let d: i64 = if dt < 0 {
        0
    } else {
        dt
    };
    kinematics_system(&mut state.ball_pos, &state.ball_vel, &state.ball_force, d, cfg);
    input_system(&mut state.left_paddle.y, &mut state.right_paddle.y, keys, d, cfg);
    let mut events: Vec<ScoreEvent> = Vec::new();
    boundary_system(&mut state.ball_pos, &mut events, cfg);
    collision_system(&mut state.ball_force, &state.ball_pos, cfg);
    proof {
        assert(count_side(Seq::<ScoreEvent>::empty(), Side::Left) == 0);
        assert(count_side(Seq::<ScoreEvent>::empty(), Side::Right) == 0);
        if events@.len() > 0 {
            lemma_count_side_push(Seq::<ScoreEvent>::empty(), events@[0], Side::Left);
            lemma_count_side_push(Seq::<ScoreEvent>::empty(), events@[0], Side::Right);
        }
    }
    scoring_system(&mut state.scores, &mut events);
}

} // verus!
