use player_control::{CapacitiveFlag, Cooldown, FrameCount};

#[test]
fn frame_count_increment_saturates() {
    let mut c = FrameCount(usize::MAX - 1);
    c.increment();
    assert_eq!(c, FrameCount(usize::MAX));
    c.increment();
    assert_eq!(c, FrameCount(usize::MAX));
}

#[test]
fn frame_count_decrement_saturates_at_zero() {
    let mut c = FrameCount(1);
    c.decrement();
    assert_eq!(c, FrameCount(0));
    c.decrement();
    assert_eq!(c, FrameCount(0));
}

#[test]
fn frame_count_reset_clears() {
    let mut c = FrameCount(42);
    c.reset();
    assert_eq!(c, FrameCount(0));
}

#[test]
fn cooldown_is_ready_by_default() {
    let c = Cooldown::default();
    assert!(c.is_ready());
}

#[test]
fn cooldown_not_ready_for_exactly_duration_ticks() {
    let mut c = Cooldown::default();
    c.reset(FrameCount(3));
    assert!(!c.is_ready());
    c.tick();
    assert!(!c.is_ready());
    c.tick();
    assert!(!c.is_ready());
    c.tick();
    assert!(c.is_ready());
    for _ in 0..10 {
        c.tick();
        assert!(c.is_ready());
    }
}

#[test]
fn cooldown_zero_duration_is_ready_at_once() {
    let mut c = Cooldown::default();
    c.reset(FrameCount(0));
    assert!(c.is_ready());
}

#[test]
fn capacitive_flag_default_was_never_set() {
    let f = CapacitiveFlag::default();
    assert!(!f.is_set());
    assert!(!f.was_set_within(FrameCount(0)));
    assert!(!f.was_set_within(FrameCount(1000)));
}

#[test]
fn capacitive_flag_within_zero_matches_is_set_while_set() {
    let mut f = CapacitiveFlag::default();
    f.tick(true);
    assert!(f.is_set());
    assert!(f.was_set_within(FrameCount(0)));
}

#[test]
fn capacitive_flag_within_zero_is_false_once_cleared() {
    let mut f = CapacitiveFlag::default();
    f.tick(true);
    f.tick(false);
    assert!(!f.is_set());
    assert!(!f.was_set_within(FrameCount(0)));
    assert!(f.was_set_within(FrameCount(1)));
}

#[test]
fn capacitive_flag_release_window() {
    let mut f = CapacitiveFlag::default();
    f.tick(true);
    for _ in 0..3 {
        f.tick(false);
    }
    assert!(f.was_set_within(FrameCount(3)));
    assert!(!f.was_set_within(FrameCount(2)));
    assert!(!f.was_set_within(FrameCount(0)));
}

#[test]
fn capacitive_flag_set_again_resets_window() {
    let mut f = CapacitiveFlag::default();
    f.tick(true);
    for _ in 0..5 {
        f.tick(false);
    }
    assert!(!f.was_set_within(FrameCount(3)));
    f.tick(true);
    assert!(f.was_set_within(FrameCount(0)));
}
