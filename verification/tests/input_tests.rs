use pong_core::input::{AxisIntent, ControlMode, PaddleIntent, TeamKeys, control_velocity,
    map_input};
use pong_core::rational::Rat;

fn rat(n: i64, d: i64) -> Rat {
    Rat::new(n, d).expect("valid rational")
}

fn keys(up: bool, down: bool, left: bool, right: bool) -> TeamKeys {
    TeamKeys { up, down, left, right }
}

#[test]
fn single_keys_map_to_their_axes() {
    assert_eq!(
        map_input(keys(true, false, false, false)),
        PaddleIntent { x: AxisIntent::Neutral, y: AxisIntent::Positive }
    );
    assert_eq!(
        map_input(keys(false, true, false, false)),
        PaddleIntent { x: AxisIntent::Neutral, y: AxisIntent::Negative }
    );
    assert_eq!(
        map_input(keys(false, false, true, false)),
        PaddleIntent { x: AxisIntent::Negative, y: AxisIntent::Neutral }
    );
    assert_eq!(
        map_input(keys(false, false, false, true)),
        PaddleIntent { x: AxisIntent::Positive, y: AxisIntent::Neutral }
    );
}

#[test]
fn tie_break_first_branch_wins() {
    // Up and down held together: up wins, every time.
    let both_vertical = map_input(keys(true, true, false, false));
    assert_eq!(both_vertical.y, AxisIntent::Positive);
    // Left and right held together: left wins.
    let both_horizontal = map_input(keys(false, false, true, true));
    assert_eq!(both_horizontal.x, AxisIntent::Negative);
    // The outcome is a pure function of the key state: it repeats.
    for _ in 0..10 {
        assert_eq!(map_input(keys(true, true, true, true)).y, AxisIntent::Positive);
        assert_eq!(map_input(keys(true, true, true, true)).x, AxisIntent::Negative);
    }
}

#[test]
fn velocity_mode_scales_by_speed() {
    let intent = PaddleIntent { x: AxisIntent::Negative, y: AxisIntent::Positive };
    let cv = control_velocity(ControlMode::Velocity, intent, rat(3, 1));
    assert_eq!(cv.x, rat(-3, 1));
    assert_eq!(cv.y, rat(3, 1));
    assert_eq!(cv.z, Rat { num: 0, den: 1 });
}

#[test]
fn position_delta_mode_has_unit_magnitude() {
    let intent = PaddleIntent { x: AxisIntent::Positive, y: AxisIntent::Negative };
    let cv = control_velocity(ControlMode::PositionDelta, intent, rat(3, 1));
    assert_eq!(cv.x, Rat { num: 1, den: 1 });
    assert_eq!(cv.y, Rat { num: -1, den: 1 });
    assert_eq!(cv.z, Rat { num: 0, den: 1 });
}

#[test]
fn neutral_intent_commands_rest() {
    let intent = PaddleIntent { x: AxisIntent::Neutral, y: AxisIntent::Neutral };
    let cv = control_velocity(ControlMode::Velocity, intent, rat(7, 2));
    assert_eq!(cv.x, Rat { num: 0, den: 1 });
    assert_eq!(cv.y, Rat { num: 0, den: 1 });
    assert_eq!(cv.z, Rat { num: 0, den: 1 });
}
