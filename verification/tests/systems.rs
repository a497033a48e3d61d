use pong::boundary::boundary_system;
use pong::collision::collision_system;
use pong::components::{DirectionalForce, Position, Score, ScoreEvent, Side, Velocity, VerticalDir};
use pong::config::ArenaConfig;
use pong::input::move_paddle;
use pong::kinematics::{apply_directional_force, apply_velocity};
use pong::scoring::{scoring_system, Scoreboard};

fn arena() -> ArenaConfig {
    ArenaConfig {
        half_width: 426,
        half_height: 240,
        ball_radius: 8,
        paddle_speed: 100,
        paddle_travel_limit: 140,
        gravity: 10,
    }
}

#[test]
fn config_validation_accepts_arena() {
    assert!(arena().is_well_formed());
}

#[test]
fn config_validation_rejects_negative_dimension() {
    let mut cfg = arena();
    cfg.half_height = -1;
    assert!(!cfg.is_well_formed());
}

#[test]
fn force_pass_moves_y_down_by_dt_g_m() {
    let cfg = arena();
    let mut pos = Position { x: 5, y: 100 };
    let force = DirectionalForce { magnitude: 4, direction: VerticalDir::Down };
    apply_directional_force(&mut pos, &force, 2, &cfg);
    // y changes by exactly -(dt * gravity * magnitude) = -(2 * 10 * 4)
    assert_eq!(pos.y, 20);
    assert_eq!(pos.x, 5);
}

#[test]
fn force_pass_moves_y_up_when_direction_up() {
    let cfg = arena();
    let mut pos = Position { x: -7, y: 100 };
    let force = DirectionalForce { magnitude: 4, direction: VerticalDir::Up };
    apply_directional_force(&mut pos, &force, 2, &cfg);
    assert_eq!(pos.y, 180);
    assert_eq!(pos.x, -7);
}

#[test]
fn force_pass_zero_dt_is_a_no_op() {
    let cfg = arena();
    let mut pos = Position { x: 3, y: 9 };
    let force = DirectionalForce { magnitude: 10, direction: VerticalDir::Down };
    apply_directional_force(&mut pos, &force, 0, &cfg);
    assert_eq!(pos, Position { x: 3, y: 9 });
}

#[test]
fn velocity_pass_moves_both_axes() {
    let mut pos = Position { x: 10, y: -20 };
    let vel = Velocity { x: 50, y: -3 };
    apply_velocity(&mut pos, &vel, 2);
    assert_eq!(pos.x, 110);
    assert_eq!(pos.y, -26);
}

#[test]
fn paddle_moves_up_inside_limit() {
    let cfg = arena();
    let mut y: i64 = 30;
    move_paddle(&mut y, true, false, 1, &cfg);
    assert_eq!(y, 130);
}

#[test]
fn paddle_blocked_at_limit_stays_inside() {
    let cfg = arena();
    // A move from here would overshoot the 140 limit, so it is not made.
    let mut y: i64 = 100;
    move_paddle(&mut y, true, false, 1, &cfg);
    assert_eq!(y, 100);
    assert!(-140 <= y && y <= 140);
}

#[test]
fn paddle_reaches_limit_exactly() {
    let cfg = arena();
    let mut y: i64 = 40;
    move_paddle(&mut y, true, false, 1, &cfg);
    assert_eq!(y, 140);
}

#[test]
fn paddle_moves_down_inside_limit() {
    let cfg = arena();
    let mut y: i64 = -30;
    move_paddle(&mut y, false, true, 1, &cfg);
    assert_eq!(y, -130);
}

#[test]
fn paddle_up_wins_when_both_keys_held() {
    let cfg = arena();
    let mut y: i64 = 0;
    move_paddle(&mut y, true, true, 1, &cfg);
    assert_eq!(y, 100);
}

#[test]
fn paddle_blocked_up_falls_through_to_down() {
    let cfg = arena();
    // The up move would overshoot, so the down branch is evaluated next.
    let mut y: i64 = 100;
    move_paddle(&mut y, true, true, 1, &cfg);
    assert_eq!(y, 0);
}

#[test]
fn ball_out_right_emits_right_event_and_recenters() {
    let cfg = arena();
    let mut ball = Position { x: cfg.half_width + 1, y: 5 };
    let mut events: Vec<ScoreEvent> = Vec::new();
    boundary_system(&mut ball, &mut events, &cfg);
    assert_eq!(events.len(), 1);
    assert_eq!(events[0], ScoreEvent { side: Side::Right });
    assert_eq!(ball, Position { x: 0, y: 0 });
}

#[test]
fn ball_out_left_emits_left_event_and_recenters() {
    let cfg = arena();
    let mut ball = Position { x: -cfg.half_width - 1, y: -3 };
    let mut events: Vec<ScoreEvent> = Vec::new();
    boundary_system(&mut ball, &mut events, &cfg);
    assert_eq!(events.len(), 1);
    assert_eq!(events[0], ScoreEvent { side: Side::Left });
    assert_eq!(ball, Position { x: 0, y: 0 });
}

#[test]
fn ball_on_goal_line_stays_in_play() {
    let cfg = arena();
    let mut ball = Position { x: cfg.half_width, y: 12 };
    let mut events: Vec<ScoreEvent> = Vec::new();
    boundary_system(&mut ball, &mut events, &cfg);
    assert!(events.is_empty());
    assert_eq!(ball, Position { x: cfg.half_width, y: 12 });
}

#[test]
fn collision_at_top_flips_direction_once() {
    let cfg = arena();
    // radius 8 and y just under the top edge: y + 8 > half_height.
    let ball = Position { x: 0, y: cfg.half_height - 1 };
    let mut force = DirectionalForce { magnitude: 10, direction: VerticalDir::Down };
    collision_system(&mut force, &ball, &cfg);
    // Flipped exactly once: the opposite bound did not trigger a second flip.
    assert_eq!(force.direction, VerticalDir::Up);
    assert_eq!(force.magnitude, 10);
}

#[test]
fn collision_at_bottom_flips_direction() {
    let cfg = arena();
    let ball = Position { x: 0, y: -(cfg.half_height - 1) };
    let mut force = DirectionalForce { magnitude: 10, direction: VerticalDir::Up };
    collision_system(&mut force, &ball, &cfg);
    assert_eq!(force.direction, VerticalDir::Down);
}

#[test]
fn collision_away_from_walls_changes_nothing() {
    let cfg = arena();
    let ball = Position { x: 0, y: 0 };
    let mut force = DirectionalForce { magnitude: 10, direction: VerticalDir::Down };
    collision_system(&mut force, &ball, &cfg);
    assert_eq!(force, DirectionalForce { magnitude: 10, direction: VerticalDir::Down });
}

#[test]
fn collision_twice_restores_direction() {
    let cfg = arena();
    let ball = Position { x: 0, y: cfg.half_height };
    let mut force = DirectionalForce { magnitude: 10, direction: VerticalDir::Down };
    collision_system(&mut force, &ball, &cfg);
    collision_system(&mut force, &ball, &cfg);
    assert_eq!(force.direction, VerticalDir::Down);
}

#[test]
fn two_left_events_add_two_left_points() {
    let mut scores = Scoreboard { left: Score { value: 3 }, right: Score { value: 7 } };
    let mut queue = vec![
        ScoreEvent { side: Side::Left },
        ScoreEvent { side: Side::Left },
    ];
    scoring_system(&mut scores, &mut queue);
    assert_eq!(scores.left.value, 5);
    assert_eq!(scores.right.value, 7);
    assert!(queue.is_empty());
}

#[test]
fn mixed_events_score_their_own_sides() {
    let mut scores = Scoreboard { left: Score { value: 0 }, right: Score { value: 0 } };
    let mut queue = vec![
        ScoreEvent { side: Side::Right },
        ScoreEvent { side: Side::Left },
        ScoreEvent { side: Side::Right },
    ];
    scoring_system(&mut scores, &mut queue);
    assert_eq!(scores.left.value, 1);
    assert_eq!(scores.right.value, 2);
}

#[test]
fn empty_queue_changes_no_score() {
    let mut scores = Scoreboard { left: Score { value: 4 }, right: Score { value: 9 } };
    let mut queue: Vec<ScoreEvent> = Vec::new();
    scoring_system(&mut scores, &mut queue);
    assert_eq!(scores.left.value, 4);
    assert_eq!(scores.right.value, 9);
}
