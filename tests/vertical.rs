use player_control::control::{
    compute_next_vertical_velocity, horizontal_input, momentum_side, vertical_input,
};
use player_control::{
    ForceDecayCurve, FrameCount, HorizontalControlParams, PlayerControlParams,
    PlayerWallControlParams, PlayerWallState, Side, YSide,
};

fn params() -> PlayerControlParams {
    PlayerControlParams {
        run: HorizontalControlParams { max_speed: 30_000, acceleration: 3_000, deceleration: 6_000 },
        float: HorizontalControlParams { max_speed: 20_000, acceleration: 1_000, deceleration: 1_000 },
        jump_speed: 50_000,
        gravity: -2_000,
        coyote_time: FrameCount(3),
        jump_input_buffer: FrameCount(2),
        max_jumps: 1,
        jump_cooldown: FrameCount(5),
        wall_jump_force_decay: ForceDecayCurve { duration: FrameCount(0), samples: Vec::new() },
        wall_jump_input_cooldown: FrameCount(6),
        wall_control_params: PlayerWallControlParams {
            push_away_duration: FrameCount(3),
            slide_max_speed: 5_000,
            slide_acceleration: 500,
            climb_max_speed: 8_000,
            climb_acceleration: 1_000,
            detection_length: 500,
        },
    }
}

#[test]
fn vertical_on_ground_is_zero() {
    assert_eq!(compute_next_vertical_velocity(-9_000, true, None, &params()), 0);
}

#[test]
fn vertical_free_fall_adds_gravity() {
    assert_eq!(compute_next_vertical_velocity(1_000, false, None, &params()), -1_000);
}

#[test]
fn vertical_grabbed_never_falls() {
    let g = Some(PlayerWallState::Grabbed(Side::Left));
    assert_eq!(compute_next_vertical_velocity(5_000, false, g, &params()), 3_000);
    assert_eq!(compute_next_vertical_velocity(1_000, false, g, &params()), 0);
    assert_eq!(compute_next_vertical_velocity(-3_000, false, g, &params()), 0);
}

#[test]
fn vertical_sliding_rules() {
    let s = Some(PlayerWallState::Sliding(Side::Right));
    // rising fast: gravity applies
    assert_eq!(compute_next_vertical_velocity(3_000, false, s, &params()), 1_000);
    assert_eq!(compute_next_vertical_velocity(1_000, false, s, &params()), -1_000);
    // at rest: gravity applies
    assert_eq!(compute_next_vertical_velocity(0, false, s, &params()), -2_000);
    // falling: slide acceleration, capped at the slide speed
    assert_eq!(compute_next_vertical_velocity(-1_000, false, s, &params()), -1_500);
    assert_eq!(compute_next_vertical_velocity(-4_800, false, s, &params()), -5_000);
    assert_eq!(compute_next_vertical_velocity(-9_000, false, s, &params()), -5_000);
}

#[test]
fn vertical_climbing_rules() {
    let c = Some(PlayerWallState::Climbing(Side::Left));
    assert_eq!(compute_next_vertical_velocity(-3_000, false, c, &params()), 0);
    assert_eq!(compute_next_vertical_velocity(2_000, false, c, &params()), 3_000);
    assert_eq!(compute_next_vertical_velocity(7_500, false, c, &params()), 8_000);
    // faster than the climb speed: gravity bleeds it down to the cap
    assert_eq!(compute_next_vertical_velocity(12_000, false, c, &params()), 10_000);
    assert_eq!(compute_next_vertical_velocity(9_000, false, c, &params()), 8_000);
    assert_eq!(compute_next_vertical_velocity(8_000, false, c, &params()), 8_000);
}

#[test]
fn input_helpers() {
    assert_eq!(horizontal_input(true, false), Some(Side::Left));
    assert_eq!(horizontal_input(false, true), Some(Side::Right));
    assert_eq!(horizontal_input(true, true), None);
    assert_eq!(horizontal_input(false, false), None);
    assert_eq!(vertical_input(true, false), Some(YSide::Up));
    assert_eq!(vertical_input(false, true), Some(YSide::Down));
    assert_eq!(vertical_input(true, true), None);
    assert_eq!(momentum_side(0), None);
    assert_eq!(momentum_side(-1), Some(Side::Left));
    assert_eq!(momentum_side(3), Some(Side::Right));
}
