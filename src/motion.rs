use vstd::prelude::*;
use crate::side::Side;
use crate::vector::SPEED_LIMIT;

verus! {

/// Speed limit and rates for one horizontal control mode (running or floating).
#[derive(Debug, Clone, Copy, PartialEq, Eq, Structural)]
pub struct HorizontalControlParams {
    pub max_speed: i64,
    pub acceleration: i64,
    pub deceleration: i64,
}

impl HorizontalControlParams {
    /// The speed limit and both rates are magnitudes within the speed range.
    pub open spec fn wf(self) -> bool {
        &&& 0 <= self.max_speed <= SPEED_LIMIT
        &&& 0 <= self.acceleration <= SPEED_LIMIT
        &&& 0 <= self.deceleration <= SPEED_LIMIT
    }
}

/// `|x|`.
pub open spec fn abs(x: int) -> int {
    if x < 0 {
        -x
    } else {
        x
    }
}

/// The velocity that the input asks for: zero, or the speed limit toward the input side.
pub open spec fn target_velocity(input: Option<Side>, p: HorizontalControlParams) -> int {
    match input {
        None => 0,
        Some(side) => side.spec_sign() * p.max_speed,
    }
}

/// The rate applied this tick, by the first case that holds: starting from rest
/// accelerates; no input decelerates; input against the motion decelerates; below the
/// speed limit accelerates; otherwise momentum is kept (rate 0).
pub open spec fn applied_rate(current: int, input: Option<Side>, p: HorizontalControlParams) -> int {
    if current == 0 {
        p.acceleration as int
    } else if input is None {
        p.deceleration as int
    } else if input.unwrap().spec_sign() * current < 0 {
        p.deceleration as int
    } else if p.max_speed > abs(current) {
        p.acceleration as int
    } else {
        0
    }
}

/// The next horizontal velocity: the target when the rate covers the whole gap,
/// otherwise one step of the rate toward the target.
pub open spec fn next_horizontal_velocity(
    current: int,
    input: Option<Side>,
    p: HorizontalControlParams,
) -> int {
    let target = target_velocity(input, p);
    let rate = applied_rate(current, input, p);
    let goal = target - current;
    if abs(goal) < rate {
        target
    } else if goal >= 0 {
        current + rate
    } else {
        current - rate
    }
}

/// Solve for a new horizontal velocity by accelerating or decelerating the current
/// velocity toward the velocity that the input asks for.
pub fn compute_next_horizontal_velocity(
    current_vel: i64,
    input_direction: Option<Side>,
    params: HorizontalControlParams,
) -> (r: i64)
    requires
        params.wf(),
    ensures
        r == next_horizontal_velocity(current_vel as int, input_direction, params),
{
    let max_speed = params.max_speed as i128;
    let current = current_vel as i128;
    let target: i128 = match input_direction {
        None => 0,
        Some(Side::Left) => -max_speed,
        Some(Side::Right) => max_speed,
    };
    let against_motion: bool = match input_direction {
        None => false,
        Some(Side::Left) => current > 0,
        Some(Side::Right) => current < 0,
    };
    let magnitude: i128 = if current < 0 {
        -current
    } else {
        current
    };
    let rate: i128 = if current == 0 {
        params.acceleration as i128
    } else if input_direction.is_none() {
        params.deceleration as i128
    } else if against_motion {
        params.deceleration as i128
    } else if max_speed > magnitude {
        params.acceleration as i128
    } else {
        0
    };
    let goal = target - current;
    let goal_magnitude: i128 = if goal < 0 {
        -goal
    } else {
        goal
    };
    if goal_magnitude < rate {
        target as i64
    } else if goal >= 0 {
        (current + rate) as i64
    } else {
        (current - rate) as i64
    }
}

/// The velocity after `n` ticks of constant input.
pub open spec fn iterate_horizontal(
    current: int,
    input: Option<Side>,
    p: HorizontalControlParams,
    n: nat,
) -> int
    decreases n,
{
    if n == 0 {
        current
    } else {
        iterate_horizontal(next_horizontal_velocity(current, input, p), input, p, (n - 1) as nat)
    }
}

/// Whether `current` is past the speed limit in the direction of the input, where
/// momentum is kept rather than reduced.
pub open spec fn keeps_momentum(current: int, input: Option<Side>, p: HorizontalControlParams) -> bool {
    match input {
        None => false,
        Some(side) => side.spec_sign() * current > p.max_speed,
    }
}

/// One step never passes the target: the new velocity lies between the current
/// velocity and the target, and is the target itself whenever the step would
/// have gone past it.
pub proof fn lemma_horizontal_never_overshoots(current: int, input: Option<Side>, p: HorizontalControlParams)
    requires
        p.wf(),
    ensures
        ({
            let t = target_velocity(input, p);
            let r = next_horizontal_velocity(current, input, p);
            (current <= r <= t || t <= r <= current)
        }),
{
}

/// At the target, the velocity stays there.
pub proof fn lemma_horizontal_holds_target(input: Option<Side>, p: HorizontalControlParams, n: nat)
    requires
        p.wf(),
    ensures
        next_horizontal_velocity(target_velocity(input, p), input, p) == target_velocity(input, p),
        iterate_horizontal(target_velocity(input, p), input, p, n) == target_velocity(input, p),
    decreases n,
{
    if n > 0 {
        lemma_horizontal_holds_target(input, p, (n - 1) as nat);
    }
}

/// With both rates positive, and unless the velocity starts past the speed limit in the
/// input's direction (where momentum is kept), constant input reaches the target
/// exactly within `|current - target|` ticks, and stays there.
pub proof fn lemma_horizontal_converges(
    current: int,
    input: Option<Side>,
    p: HorizontalControlParams,
    n: nat,
)
    requires
        p.wf(),
        p.acceleration > 0,
        p.deceleration > 0,
        !keeps_momentum(current, input, p),
        n >= abs(current - target_velocity(input, p)),
    ensures
        iterate_horizontal(current, input, p, n) == target_velocity(input, p),
    decreases n,
{
    let t = target_velocity(input, p);
    if n > 0 {
        let next = next_horizontal_velocity(current, input, p);
        if current == t {
            lemma_horizontal_holds_target(input, p, n);
        } else {
            lemma_horizontal_never_overshoots(current, input, p);
            assert(applied_rate(current, input, p) > 0);
            lemma_horizontal_converges(next, input, p, (n - 1) as nat);
        }
    }
}

} // verus!
