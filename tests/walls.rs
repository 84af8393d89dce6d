use player_control::{
    FrameCount, PlayerWallControlParams, PlayerWallControlState, PlayerWallState, Side, SideMap,
    WallSensorResult, WallSensors, YSide,
};

fn bits(pattern: u8) -> [bool; 4] {
    [pattern & 1 != 0, pattern & 2 != 0, pattern & 4 != 0, pattern & 8 != 0]
}

fn wall_params() -> PlayerWallControlParams {
    PlayerWallControlParams {
        push_away_duration: FrameCount(3),
        slide_max_speed: 5_000,
        slide_acceleration: 500,
        climb_max_speed: 8_000,
        climb_acceleration: 1_000,
        detection_length: 500,
    }
}

fn results(left: WallSensorResult, right: WallSensorResult) -> SideMap<WallSensorResult> {
    SideMap { right, left }
}

#[test]
fn sensor_table_is_exhaustive() {
    for pattern in 0u8..16 {
        let mut sensors = WallSensors::default();
        sensors.update(&SideMap { right: bits(pattern), left: bits(0) });
        let expected = match pattern {
            0b0001 => WallSensorResult::Step,
            0b0011 => WallSensorResult::Ledge,
            0b0111 | 0b1111 | 0b1110 => WallSensorResult::Wall,
            _ => WallSensorResult::NotAWall,
        };
        assert_eq!(sensors.hit_pattern(Side::Right), pattern);
        assert_eq!(sensors.interpret(Side::Right), expected);
        assert_eq!(sensors.interpret(Side::Left), WallSensorResult::NotAWall);
    }
}

#[test]
fn sensor_gappy_patterns_are_not_walls() {
    let mut sensors = WallSensors::default();
    sensors.update(&SideMap { right: bits(0b1101), left: bits(0b1011) });
    assert_eq!(sensors.interpret(Side::Right), WallSensorResult::NotAWall);
    assert_eq!(sensors.interpret(Side::Left), WallSensorResult::NotAWall);
}

#[test]
fn sensors_default_heights_and_no_hits() {
    let sensors = WallSensors::default();
    let heights: Vec<u8> = (0..4).map(|i| sensors.sensor(i).offset_eighths).collect();
    assert_eq!(heights, vec![1, 3, 5, 7]);
    assert_eq!(sensors.hit_pattern(Side::Left), 0);
    assert_eq!(sensors.hit_pattern(Side::Right), 0);
}

#[test]
fn wall_state_side() {
    assert_eq!(PlayerWallState::Grabbed(Side::Left).side(), Side::Left);
    assert_eq!(PlayerWallState::Sliding(Side::Right).side(), Side::Right);
    assert_eq!(PlayerWallState::Climbing(Side::Left).side(), Side::Left);
}

#[test]
fn ledge_held_toward_is_climbing() {
    let mut w = PlayerWallControlState::default();
    let r = w.tick(
        &results(WallSensorResult::Ledge, WallSensorResult::NotAWall),
        true,
        &wall_params(),
        Some(Side::Left),
        None,
        None,
    );
    assert_eq!(r, Some(PlayerWallState::Climbing(Side::Left)));
}

#[test]
fn wall_held_toward_is_grabbed_and_otherwise_sliding() {
    let mut w = PlayerWallControlState::default();
    let sensors = results(WallSensorResult::NotAWall, WallSensorResult::Wall);
    let r = w.tick(&sensors, true, &wall_params(), Some(Side::Right), None, None);
    assert_eq!(r, Some(PlayerWallState::Grabbed(Side::Right)));
    let r = w.tick(&sensors, true, &wall_params(), None, None, None);
    assert_eq!(r, Some(PlayerWallState::Sliding(Side::Right)));
    let r = w.tick(&sensors, true, &wall_params(), None, None, Some(YSide::Up));
    assert_eq!(r, Some(PlayerWallState::Sliding(Side::Right)));
}

#[test]
fn no_attach_on_ground_or_to_steps() {
    let mut w = PlayerWallControlState::default();
    let sensors = results(WallSensorResult::Wall, WallSensorResult::Step);
    assert_eq!(w.tick(&sensors, false, &wall_params(), Some(Side::Left), None, None), None);
    assert_eq!(w.tick(&sensors, true, &wall_params(), Some(Side::Right), None, None), None);
}

#[test]
fn momentum_decides_the_side_before_input() {
    let mut w = PlayerWallControlState::default();
    let sensors = results(WallSensorResult::NotAWall, WallSensorResult::Wall);
    let r = w.tick(&sensors, true, &wall_params(), Some(Side::Left), Some(Side::Right), None);
    // attached on the right by momentum; input to the left is pushing away
    assert_eq!(r, Some(PlayerWallState::Sliding(Side::Right)));
}

#[test]
fn push_away_releases_after_duration() {
    let mut w = PlayerWallControlState::default();
    let sensors = results(WallSensorResult::Wall, WallSensorResult::NotAWall);
    let p = wall_params();
    assert!(w.tick(&sensors, true, &p, Some(Side::Left), None, None).is_some());
    assert!(w.tick(&sensors, true, &p, Some(Side::Right), None, None).is_some());
    assert!(w.tick(&sensors, true, &p, Some(Side::Right), None, None).is_some());
    assert_eq!(w.tick(&sensors, true, &p, Some(Side::Right), Some(Side::Right), None), None);
}

#[test]
fn push_away_timer_resets_when_not_pushing() {
    let mut w = PlayerWallControlState::default();
    let sensors = results(WallSensorResult::Wall, WallSensorResult::NotAWall);
    let p = wall_params();
    assert!(w.tick(&sensors, true, &p, Some(Side::Left), None, None).is_some());
    assert!(w.tick(&sensors, true, &p, Some(Side::Right), None, None).is_some());
    assert!(w.tick(&sensors, true, &p, Some(Side::Right), None, None).is_some());
    assert!(w.tick(&sensors, true, &p, None, None, None).is_some());
    assert_eq!(w.current().unwrap().push_away_timer, FrameCount(0));
    assert!(w.tick(&sensors, true, &p, Some(Side::Right), None, None).is_some());
}

#[test]
fn down_sensor_loss_and_landing_release() {
    let p = wall_params();
    let wall_left = results(WallSensorResult::Wall, WallSensorResult::NotAWall);
    let mut w = PlayerWallControlState::default();
    assert!(w.tick(&wall_left, true, &p, Some(Side::Left), None, None).is_some());
    assert_eq!(w.tick(&wall_left, true, &p, None, None, Some(YSide::Down)), None);

    let mut w = PlayerWallControlState::default();
    assert!(w.tick(&wall_left, true, &p, Some(Side::Left), None, None).is_some());
    let step_left = results(WallSensorResult::Step, WallSensorResult::NotAWall);
    assert_eq!(w.tick(&step_left, true, &p, None, None, None), None);

    let mut w = PlayerWallControlState::default();
    assert!(w.tick(&wall_left, true, &p, Some(Side::Left), None, None).is_some());
    assert_eq!(w.tick(&wall_left, false, &p, Some(Side::Left), None, None), None);
}

#[test]
fn release_detaches() {
    let mut w = PlayerWallControlState::default();
    let sensors = results(WallSensorResult::Wall, WallSensorResult::NotAWall);
    assert!(w.tick(&sensors, true, &wall_params(), Some(Side::Left), None, None).is_some());
    w.release();
    assert!(w.current().is_none());
}

#[test]
fn side_helpers() {
    assert_eq!(Side::Left.opposite(), Side::Right);
    assert_eq!(Side::Left.sign(), -1);
    assert_eq!(Side::Right.sign(), 1);
    assert_eq!(YSide::Up.opposite(), YSide::Down);
    assert_eq!(YSide::Down.sign(), -1);
    let mut m = SideMap { right: 1, left: 2 };
    m.set(Side::Left, 5);
    assert_eq!(*m.get(Side::Left), 5);
    assert_eq!(*m.get(Side::Right), 1);
}
