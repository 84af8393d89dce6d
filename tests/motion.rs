use player_control::vector::{arrest_velocity, scale_fixed, FIXED_ONE};
use player_control::{compute_next_horizontal_velocity, HorizontalControlParams, Normal, Side, Vec2i};

fn run_params() -> HorizontalControlParams {
    HorizontalControlParams { max_speed: 100, acceleration: 30, deceleration: 40 }
}

#[test]
fn horizontal_from_rest_accelerates() {
    assert_eq!(compute_next_horizontal_velocity(0, Some(Side::Right), run_params()), 30);
    assert_eq!(compute_next_horizontal_velocity(0, Some(Side::Left), run_params()), -30);
}

#[test]
fn horizontal_converges_to_target_and_holds() {
    let p = run_params();
    let mut v = 0;
    let expected = [30, 60, 90, 100, 100, 100];
    for e in expected {
        v = compute_next_horizontal_velocity(v, Some(Side::Right), p);
        assert_eq!(v, e);
    }
}

#[test]
fn horizontal_snaps_instead_of_overshooting() {
    let p = run_params();
    // gap of 10 with acceleration 30: snap to the target exactly
    assert_eq!(compute_next_horizontal_velocity(90, Some(Side::Right), p), 100);
    // gap of 20 with deceleration 40 and no input: snap to 0
    assert_eq!(compute_next_horizontal_velocity(-20, None, p), 0);
}

#[test]
fn horizontal_no_input_decelerates() {
    assert_eq!(compute_next_horizontal_velocity(100, None, run_params()), 60);
    assert_eq!(compute_next_horizontal_velocity(-100, None, run_params()), -60);
}

#[test]
fn horizontal_reversal_decelerates_first() {
    assert_eq!(compute_next_horizontal_velocity(100, Some(Side::Left), run_params()), 60);
}

#[test]
fn horizontal_keeps_momentum_above_limit() {
    assert_eq!(compute_next_horizontal_velocity(150, Some(Side::Right), run_params()), 150);
    assert_eq!(compute_next_horizontal_velocity(-150, Some(Side::Left), run_params()), -150);
}

#[test]
fn horizontal_reaches_target_from_the_other_side() {
    let p = run_params();
    let mut v = -100;
    for _ in 0..200 {
        v = compute_next_horizontal_velocity(v, Some(Side::Right), p);
    }
    assert_eq!(v, 100);
}

#[test]
fn collision_with_wall_normal_stops_horizontal_motion() {
    let v = arrest_velocity(Vec2i { x: -50, y: 7 }, Normal { x: 1, y: 0 });
    assert_eq!(v, Vec2i { x: 0, y: 7 });
}

#[test]
fn collision_with_scaled_normal_is_the_same() {
    let v = arrest_velocity(Vec2i { x: -50, y: 7 }, Normal { x: 65536, y: 0 });
    assert_eq!(v, Vec2i { x: 0, y: 7 });
}

#[test]
fn collision_with_ceiling_stops_rise() {
    let v = arrest_velocity(Vec2i { x: 12, y: 80 }, Normal { x: 0, y: -1 });
    assert_eq!(v, Vec2i { x: 12, y: 0 });
}

#[test]
fn collision_with_diagonal_normal_removes_component() {
    // normal (1, 1): dot = -100 + 0 = -100, |n|^2 = 2, removed = (-50, -50)
    let v = arrest_velocity(Vec2i { x: -100, y: 0 }, Normal { x: 1, y: 1 });
    assert_eq!(v, Vec2i { x: -50, y: 50 });
}

#[test]
fn collision_with_zero_normal_keeps_velocity() {
    let v = arrest_velocity(Vec2i { x: -50, y: 7 }, Normal { x: 0, y: 0 });
    assert_eq!(v, Vec2i { x: -50, y: 7 });
}

#[test]
fn fixed_point_scaling_rounds_toward_zero() {
    assert_eq!(scale_fixed(100, FIXED_ONE / 2), 50);
    assert_eq!(scale_fixed(-3, FIXED_ONE / 2), -1);
    assert_eq!(scale_fixed(3, FIXED_ONE / 2), 1);
    assert_eq!(scale_fixed(1000, FIXED_ONE), 1000);
}
