use pong_core::input::{ControlMode, TeamKeys};
use pong_core::rational::Rat;
use pong_core::sim::{Ball, CombineRule, ConfigError, Goal, Paddle, Sim, StepError, Team, Wall,
    combine_restitution};
use pong_core::vec3::Vec3r;

fn rat(n: i64, d: i64) -> Rat {
    Rat::new(n, d).expect("valid rational")
}

fn vi(x: i64, y: i64, z: i64) -> Vec3r {
    Vec3r::new(rat(x, 1), rat(y, 1), rat(z, 1))
}

fn no_keys() -> TeamKeys {
    TeamKeys { up: false, down: false, left: false, right: false }
}

/// The standard arena: walls at y = -40 and y = +40 facing inward, goal
/// planes at x = -60 and x = +60 facing inward, one tick per time unit.
fn arena(ball: Ball, pl: Option<Paddle>, pr: Option<Paddle>) -> Sim {
    let wall_low = Wall::new(vi(0, -40, 0), vi(0, 1, 0), rat(1, 1)).expect("low wall");
    let wall_high = Wall::new(vi(0, 40, 0), vi(0, -1, 0), rat(1, 1)).expect("high wall");
    let goal_left = Goal::new(Team::Left, vi(-60, 0, 0), vi(1, 0, 0)).expect("left goal");
    let goal_right = Goal::new(Team::Right, vi(60, 0, 0), vi(-1, 0, 0)).expect("right goal");
    Sim::new(
        rat(1, 1),
        ControlMode::PositionDelta,
        rat(1, 1),
        ball,
        pl,
        pr,
        wall_low,
        wall_high,
        goal_left,
        goal_right,
    )
}

fn lively_ball(position: Vec3r, velocity: Vec3r) -> Ball {
    Ball::new(position, velocity, rat(3, 1), rat(21, 20), CombineRule::Max)
}

#[test]
fn ball_flies_straight_without_wall_contact() {
    // A ball moving purely in X between walls at y = +-40 never touches
    // them: it leaves the field in X in a straight line.
    let mut sim = arena(lively_ball(vi(0, 0, 0), vi(-40, 0, 0)), None, None);
    for k in 1..5i64 {
        let events = sim.step(no_keys(), no_keys()).expect("tick");
        assert_eq!(sim.ball.velocity, vi(-40, 0, 0));
        assert_eq!(sim.ball.position, vi(-40 * k, 0, 0));
        // Crossing the left goal plane at x = -60 happens on tick 2 and is
        // reported exactly once.
        assert_eq!(events.len(), if k == 2 { 1 } else { 0 });
    }
}

#[test]
fn wall_bounce_reflects_with_combined_restitution() {
    // Ball at y = 39.5 falling at 5 per tick toward the wall at y = -40;
    // restitution combine Max of ball 1.05 and wall 1.0. On the first tick
    // where the radius penetrates the wall plane, the Y velocity becomes
    // exactly +5.25.
    let start = Vec3r::new(rat(0, 1), rat(79, 2), rat(0, 1));
    let mut sim = arena(lively_ball(start, vi(0, -5, 0)), None, None);
    for k in 1..16i64 {
        sim.step(no_keys(), no_keys()).expect("tick");
        assert_eq!(sim.ball.velocity, vi(0, -5, 0));
        assert_eq!(sim.ball.position.y, rat(79 - 10 * k, 2));
    }
    sim.step(no_keys(), no_keys()).expect("tick");
    assert_eq!(sim.ball.position.y, rat(-81, 2));
    assert_eq!(sim.ball.velocity.x, rat(0, 1));
    assert_eq!(sim.ball.velocity.y, rat(21, 4));
    assert_eq!(sim.ball.velocity.z, rat(0, 1));
}

#[test]
fn consecutive_bounces_compound_the_restitution() {
    // Two wall bounces under Max with ball restitution 21/20 against rigid
    // walls: the speed is the initial 20 times (21/20)^2 = 441/20.
    let mut sim = arena(lively_ball(vi(0, 0, 0), vi(0, -20, 0)), None, None);
    sim.step(no_keys(), no_keys()).expect("tick");
    assert_eq!(sim.ball.velocity.y, rat(-20, 1));
    sim.step(no_keys(), no_keys()).expect("tick");
    assert_eq!(sim.ball.position.y, rat(-40, 1));
    assert_eq!(sim.ball.velocity.y, rat(21, 1));
    for _ in 0..3 {
        sim.step(no_keys(), no_keys()).expect("tick");
        assert_eq!(sim.ball.velocity.y, rat(21, 1));
    }
    sim.step(no_keys(), no_keys()).expect("tick");
    assert_eq!(sim.ball.position.y, rat(44, 1));
    assert_eq!(sim.ball.velocity.y, rat(-441, 20));
}

#[test]
fn goal_crossing_emits_exactly_one_event() {
    let ball = Ball::new(vi(-55, 0, 0), vi(-10, 0, 0), rat(1, 1), rat(1, 1), CombineRule::Max);
    let mut sim = arena(ball, None, None);
    let events = sim.step(no_keys(), no_keys()).expect("tick");
    assert_eq!(events.len(), 1);
    assert_eq!(events[0].goal_team, Team::Left);
    assert_eq!(events[0].scorer, Team::Right);
    // The ball stays beyond the plane for several more ticks: no further
    // event fires.
    for _ in 0..3 {
        let later = sim.step(no_keys(), no_keys()).expect("tick");
        assert_eq!(later.len(), 0);
    }
}

#[test]
fn goal_rearms_when_ball_reenters() {
    let ball = Ball::new(vi(-55, 0, 0), vi(-10, 0, 0), rat(1, 1), rat(1, 1), CombineRule::Max);
    let mut sim = arena(ball, None, None);
    assert_eq!(sim.step(no_keys(), no_keys()).expect("tick").len(), 1);
    // Serve from the center: the ball re-enters the play field, the latch
    // clears, and a second crossing scores again.
    sim.serve(vi(0, 0, 0), vi(-30, 0, 0));
    assert_eq!(sim.step(no_keys(), no_keys()).expect("tick").len(), 0);
    let again = sim.step(no_keys(), no_keys()).expect("tick");
    assert_eq!(sim.ball.position.x, rat(-60, 1));
    assert_eq!(again.len(), 1);
    assert_eq!(again[0].scorer, Team::Right);
}

#[test]
fn paddle_deflects_ball_and_is_not_knocked_back() {
    let paddle = Paddle::new(
        Team::Left,
        vi(-50, 0, 0),
        Vec3r::new(rat(2, 1), rat(6, 1), rat(5, 2)),
        rat(1, 1),
    );
    let mut sim = arena(lively_ball(vi(-44, 0, 0), vi(-4, 0, 0)), Some(paddle), None);
    sim.step(no_keys(), no_keys()).expect("tick");
    // The ball reaches x = -48, overlaps the paddle's +X face, and leaves
    // with velocity -(21/20 * -4) = +21/5; the contact does not move it.
    assert_eq!(sim.ball.position, vi(-48, 0, 0));
    assert_eq!(sim.ball.velocity.x, rat(21, 5));
    assert_eq!(sim.ball.velocity.y, rat(0, 1));
    // The paddle itself is unmoved by the contact.
    let after = sim.paddle_left.expect("paddle present");
    assert_eq!(after.position, vi(-50, 0, 0));
}

#[test]
fn paddle_stays_in_its_plane_over_alternating_input() {
    let paddle = Paddle::new(
        Team::Left,
        vi(-50, 0, 0),
        Vec3r::new(rat(2, 1), rat(6, 1), rat(5, 2)),
        rat(1, 1),
    );
    let ball = Ball::new(vi(0, 0, 0), vi(0, 0, 0), rat(1, 1), rat(1, 1), CombineRule::Max);
    let mut sim = arena(ball, Some(paddle), None);
    for k in 0..10i64 {
        let up = k % 2 == 0;
        let keys = TeamKeys { up, down: !up, left: false, right: false };
        sim.step(keys, no_keys()).expect("tick");
        let p = sim.paddle_left.expect("paddle present");
        // No Z drift, ever: the commanded motion has an exactly zero Z
        // component and the Z position keeps its value.
        assert_eq!(p.control_velocity.z, Rat { num: 0, den: 1 });
        assert_eq!(p.position.z, rat(0, 1));
        assert_eq!(p.position.x, rat(-50, 1));
        assert_eq!(p.position.y, rat(if up { 1 } else { 0 }, 1));
    }
}

#[test]
fn both_vertical_keys_move_the_paddle_up() {
    let paddle = Paddle::new(
        Team::Left,
        vi(-50, 0, 0),
        Vec3r::new(rat(2, 1), rat(6, 1), rat(5, 2)),
        rat(1, 1),
    );
    let ball = Ball::new(vi(0, 0, 0), vi(0, 0, 0), rat(1, 1), rat(1, 1), CombineRule::Max);
    let mut sim = arena(ball, Some(paddle), None);
    let keys = TeamKeys { up: true, down: true, left: false, right: false };
    sim.step(keys, no_keys()).expect("tick");
    assert_eq!(sim.paddle_left.expect("paddle present").position.y, rat(1, 1));
}

#[test]
fn velocity_mode_scales_motion_by_speed_and_dt() {
    let paddle = Paddle::new(
        Team::Right,
        vi(50, 0, 0),
        Vec3r::new(rat(2, 1), rat(6, 1), rat(5, 2)),
        rat(1, 1),
    );
    let ball = Ball::new(vi(0, 0, 0), vi(0, 0, 0), rat(1, 1), rat(1, 1), CombineRule::Max);
    let wall_low = Wall::new(vi(0, -40, 0), vi(0, 1, 0), rat(1, 1)).expect("low wall");
    let wall_high = Wall::new(vi(0, 40, 0), vi(0, -1, 0), rat(1, 1)).expect("high wall");
    let goal_left = Goal::new(Team::Left, vi(-60, 0, 0), vi(1, 0, 0)).expect("left goal");
    let goal_right = Goal::new(Team::Right, vi(60, 0, 0), vi(-1, 0, 0)).expect("right goal");
    let mut sim = Sim::new(
        rat(1, 2),
        ControlMode::Velocity,
        rat(10, 1),
        ball,
        None,
        Some(paddle),
        wall_low,
        wall_high,
        goal_left,
        goal_right,
    );
    let keys = TeamKeys { up: true, down: false, left: false, right: false };
    for k in 1..4i64 {
        sim.step(no_keys(), keys).expect("tick");
        // Speed 10 over half a time unit: 5 per tick.
        assert_eq!(sim.paddle_right.expect("paddle present").position.y, rat(5 * k, 1));
    }
}

#[test]
fn overflowing_tick_reports_and_changes_nothing() {
    let huge = Rat::new(i64::MAX, 1).expect("representable");
    let pos = Vec3r::new(huge, rat(0, 1), rat(0, 1));
    let vel = Vec3r::new(huge, rat(0, 1), rat(0, 1));
    let ball = Ball::new(pos, vel, rat(1, 1), rat(1, 1), CombineRule::Max);
    let mut sim = arena(ball, None, None);
    let before = sim;
    let r = sim.step(no_keys(), no_keys());
    assert_eq!(r, Err(StepError::NumericOverflow));
    assert_eq!(sim, before);
}

#[test]
fn degenerate_normals_fail_fast() {
    assert_eq!(
        Wall::new(vi(0, -40, 0), vi(0, 0, 0), rat(1, 1)),
        Err(ConfigError::ZeroNormal)
    );
    assert_eq!(
        Wall::new(vi(0, -40, 0), vi(1, 1, 0), rat(1, 1)),
        Err(ConfigError::NotAxisAligned)
    );
    assert_eq!(
        Goal::new(Team::Left, vi(-60, 0, 0), vi(0, 0, 0)),
        Err(ConfigError::ZeroNormal)
    );
    assert_eq!(
        Goal::new(Team::Left, vi(-60, 0, 0), vi(-1, 1, 0)),
        Err(ConfigError::NotAxisAligned)
    );
    assert!(Wall::new(vi(0, -40, 0), vi(0, 1, 0), rat(1, 1)).is_ok());
}

#[test]
fn combine_rules_merge_coefficients() {
    let ball_e = rat(21, 20);
    let wall_e = rat(1, 1);
    assert_eq!(combine_restitution(CombineRule::Max, ball_e, wall_e), Some(rat(21, 20)));
    assert_eq!(combine_restitution(CombineRule::Min, ball_e, wall_e), Some(rat(1, 1)));
    assert_eq!(combine_restitution(CombineRule::Average, ball_e, wall_e), Some(rat(41, 40)));
    assert_eq!(combine_restitution(CombineRule::Multiply, ball_e, wall_e), Some(rat(21, 20)));
    assert_eq!(
        combine_restitution(CombineRule::Multiply, rat(1, 2), rat(1, 2)),
        Some(rat(1, 4))
    );
}

#[test]
fn serve_resets_ball_and_nothing_else() {
    let mut sim = arena(lively_ball(vi(-55, 0, 0), vi(-10, 0, 0)), None, None);
    let before = sim;
    sim.serve(vi(0, 0, 0), vi(25, 3, 0));
    assert_eq!(sim.ball.position, vi(0, 0, 0));
    assert_eq!(sim.ball.velocity, vi(25, 3, 0));
    assert_eq!(sim.ball.radius, before.ball.radius);
    assert_eq!(sim.wall_low, before.wall_low);
    assert_eq!(sim.goal_left, before.goal_left);
    assert_eq!(sim.paddle_left, before.paddle_left);
}
