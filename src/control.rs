use vstd::prelude::*;
use crate::force::{force_value, TemporaryForce};
use crate::motion::{
    compute_next_horizontal_velocity, lemma_horizontal_never_overshoots, next_horizontal_velocity,
};
use crate::params::PlayerControlParams;
use crate::side::{Side, SideMap, YSide};
use crate::timers::{remaining_after_ticks, CapacitiveFlag, Cooldown};
use crate::vector::{
    add_speed, arrest, arrest_velocity, clamp_speed, scale_by, scale_fixed, Normal, Vec2i, DIAGONAL,
};
use crate::walls::{
    classify_hits, hit_pattern, wall_classify, wall_next, PlayerWallControlState, PlayerWallState,
    WallSensorResult, WallSensors,
};

verus! {

/// What a player's update reads from the world on one tick.
#[derive(Debug, Clone)]
pub struct TickInput {
    /// The jump key was pressed on this tick.
    pub jump_just_pressed: bool,
    pub left_pressed: bool,
    pub right_pressed: bool,
    pub up_pressed: bool,
    pub down_pressed: bool,
    /// The physics engine found the body on the ground after the previous tick's move.
    pub grounded: bool,
    /// Contact normals of the obstacles touched during the previous tick's move, in the
    /// order reported.
    pub collision_normals: Vec<Normal>,
    /// Ray-cast results of the four wall sensors on each side, lowest first.
    pub sensor_hits: SideMap<[bool; 4]>,
}

/// The horizontal direction held: one of the two keys alone, or none.
pub open spec fn horizontal_of(left: bool, right: bool) -> Option<Side> {
    if left && !right {
        Some(Side::Left)
    } else if right && !left {
        Some(Side::Right)
    } else {
        None
    }
}

/// The vertical direction held: one of the two keys alone, or none.
pub open spec fn vertical_of(up: bool, down: bool) -> Option<YSide> {
    if up && !down {
        Some(YSide::Up)
    } else if down && !up {
        Some(YSide::Down)
    } else {
        None
    }
}

/// The side toward which a horizontal velocity points, if it is not zero.
pub open spec fn momentum_of(x: int) -> Option<Side> {
    if x == 0 {
        None
    } else if x < 0 {
        Some(Side::Left)
    } else {
        Some(Side::Right)
    }
}

/// `v` after the correction for each contact normal in turn.
pub open spec fn arrest_all(v: Vec2i, normals: Seq<Normal>) -> Vec2i
    decreases normals.len(),
{
    if normals.len() == 0 {
        v
    } else {
        arrest(arrest_all(v, normals.drop_last()), normals.last())
    }
}

/// Jumps remaining, jumping, and lost-jump flags after the ground check: landing
/// refunds all jumps; falling past the coyote time without a jump costs one jump, once.
pub open spec fn jump_refund(
    jumps: u8,
    jumping: bool,
    lost: bool,
    grounded: bool,
    within_coyote_time: bool,
    max_jumps: u8,
) -> (u8, bool, bool) {
    if grounded {
        (max_jumps, false, false)
    } else if !within_coyote_time && !lost && !jumping {
        (if jumps == 0 { 0u8 } else { (jumps - 1) as u8 }, jumping, true)
    } else {
        (jumps, jumping, lost)
    }
}

/// `max(a, b)`.
pub open spec fn max_int(a: int, b: int) -> int {
    if a >= b {
        a
    } else {
        b
    }
}

/// `min(a, b)`.
pub open spec fn min_int(a: int, b: int) -> int {
    if a <= b {
        a
    } else {
        b
    }
}

/// The vertical velocity after gravity and the wall interaction: zero on the ground;
/// on a grabbed wall, gravity only slows a rise; sliding takes gravity while rising or at
/// rest and, once falling, speeds up by the slide acceleration to at most the slide
/// speed; climbing accelerates up to the climb speed, and gravity bleeds any excess above
/// it down to that speed; free flight adds gravity.
pub open spec fn next_vertical_velocity(
    vy: int,
    grounded: bool,
    wall: Option<PlayerWallState>,
    p: PlayerControlParams,
) -> int {
    let g = p.gravity as int;
    let w = p.wall_control_params;
    if grounded {
        0
    } else {
        match wall {
            Some(PlayerWallState::Grabbed(_)) => max_int(clamp_speed(vy + g), 0),
            Some(PlayerWallState::Sliding(_)) => {
                if vy >= 0 {
                    clamp_speed(vy + g)
                } else {
                    max_int(vy - w.slide_acceleration, -w.slide_max_speed)
                }
            },
            Some(PlayerWallState::Climbing(_)) => {
                if vy < w.climb_max_speed {
                    max_int(min_int(vy + w.climb_acceleration, w.climb_max_speed as int), 0)
                } else {
                    max_int(clamp_speed(vy + g), w.climb_max_speed as int)
                }
            },
            None => clamp_speed(vy + g),
        }
    }
}

/// The horizontal kick of a jump off a wall on `side`: the running speed on the
/// diagonal, away from the wall.
pub open spec fn wall_jump_kick(side: Side, p: PlayerControlParams) -> Vec2i {
    Vec2i {
        x: (scale_by(p.run.max_speed as int, DIAGONAL as int) * side.spec_opposite().spec_sign()) as i64,
        y: 0,
    }
}

/// The held horizontal direction.
pub fn horizontal_input(left: bool, right: bool) -> (r: Option<Side>)
    ensures
        r == horizontal_of(left, right),
{
    match (left, right) {
        (true, false) => Some(Side::Left),
        (false, true) => Some(Side::Right),
        _ => None,
    }
}

/// The held vertical direction.
pub fn vertical_input(up: bool, down: bool) -> (r: Option<YSide>)
    ensures
        r == vertical_of(up, down),
{
    match (up, down) {
        (true, false) => Some(YSide::Up),
        (false, true) => Some(YSide::Down),
        _ => None,
    }
}

/// The side toward which a horizontal velocity points, if it is not zero.
pub fn momentum_side(x: i64) -> (r: Option<Side>)
    ensures
        r == momentum_of(x as int),
{
    if x == 0 {
        None
    } else if x < 0 {
        Some(Side::Left)
    } else {
        Some(Side::Right)
    }
}

/// Apply the collision correction for each contact normal in turn.
pub fn apply_collisions(v: Vec2i, normals: &Vec<Normal>) -> (r: Vec2i)
    requires
        v.in_range(),
    ensures
        r == arrest_all(v, normals@),
        r.in_range(),
{
    let n = normals.len();
    let mut out = v;
    let mut i: usize = 0;
    while i < n
        invariant
            i <= n,
            n == normals@.len(),
            out == arrest_all(v, normals@.subrange(0, i as int)),
            out.in_range(),
        decreases n - i,
    {
        out = arrest_velocity(out, normals[i]);
        proof {
            assert(normals@.subrange(0, i + 1).drop_last() =~= normals@.subrange(0, i as int));
        }
        i = i + 1;
    }
    proof {
        assert(normals@.subrange(0, n as int) =~= normals@);
    }
    out
}

/// The vertical velocity after gravity and the wall interaction.
pub fn compute_next_vertical_velocity(
    vy: i64,
    grounded: bool,
    wall: Option<PlayerWallState>,
    params: &PlayerControlParams,
) -> (r: i64)
    requires
        params.wf(),
        -crate::vector::SPEED_LIMIT <= vy <= crate::vector::SPEED_LIMIT,
    ensures
        r == next_vertical_velocity(vy as int, grounded, wall, *params),
        -crate::vector::SPEED_LIMIT <= r <= crate::vector::SPEED_LIMIT,
{
    let g = params.gravity;
    let w = &params.wall_control_params;
    if grounded {
        0
    } else {
        match wall {
            Some(PlayerWallState::Grabbed(_)) => {
                let v = add_speed(vy, g);
                if v >= 0 {
                    v
                } else {
                    0
                }
            },
            Some(PlayerWallState::Sliding(_)) => {
                if vy >= 0 {
                    add_speed(vy, g)
                } else {
                    let v = vy - w.slide_acceleration;
                    if v >= -w.slide_max_speed {
                        v
                    } else {
                        -w.slide_max_speed
                    }
                }
            },
            Some(PlayerWallState::Climbing(_)) => {
                if vy < w.climb_max_speed {
                    let v = vy + w.climb_acceleration;
                    let v = if v <= w.climb_max_speed {
                        v
                    } else {
                        w.climb_max_speed
                    };
                    if v >= 0 {
                        v
                    } else {
                        0
                    }
                } else {
                    let v = add_speed(vy, g);
                    if v >= w.climb_max_speed {
                        v
                    } else {
                        w.climb_max_speed
                    }
                }
            },
            None => add_speed(vy, g),
        }
    }
}


/// Falling costs at most one jump per stretch in the air: once the lost-jump flag is
/// set, further airborne ticks leave the jump count and the flag as they are; past the
/// coyote time, a fall that is not a jump costs one jump and sets the flag; and
/// landing refunds every jump and clears both flags.
pub proof fn lemma_fall_costs_one_jump(
    jumps: u8,
    jumping: bool,
    within_coyote_time: bool,
    max_jumps: u8,
)
    ensures
        jump_refund(jumps, jumping, true, false, within_coyote_time, max_jumps) == (
            jumps,
            jumping,
            true,
        ),
        !jumping ==> jump_refund(jumps, jumping, false, false, false, max_jumps).2,
        !jumping ==> jump_refund(jumps, jumping, false, false, false, max_jumps).0 == (if jumps
            == 0 {
            0
        } else {
            jumps - 1
        }),
        jump_refund(jumps, jumping, true, true, within_coyote_time, max_jumps) == (
            max_jumps,
            false,
            false,
        ),
{
}

/// The movement state of one player, carried from tick to tick.
#[derive(Debug)]
pub struct PlayerControlState {
    /// Whether the player is on the ground, or how recently they were.
    pub grounded: CapacitiveFlag,
    /// Whether the player is airborne because of a jump (as opposed to falling).
    pub jumping: bool,
    /// Keeps falling from costing more than one jump while in mid-air.
    pub lost_jump_due_to_falling: bool,
    /// Velocity from the directional inputs and gravity, without outside forces.
    pub own_velocity: Vec2i,
    /// Input buffer for jumping.
    pub jump_requested: CapacitiveFlag,
    /// Jumps left before landing again.
    pub jumps_remaining: u8,
    pub jump_cooldown: Cooldown,
    /// Detects walls, ledges and steps beside the player.
    pub wall_sensors: WallSensors,
    /// The fading kick of the latest wall jump.
    pub wall_jump_force: TemporaryForce,
    /// While running, input back toward the wall just jumped from is ignored.
    pub wall_jump_input_cooldown: Cooldown,
    /// The side the wall was on at the latest wall jump.
    pub wall_jump_latest_side: Option<Side>,
    pub wall_control_state: PlayerWallControlState,
    /// What the player did with a wall on the latest tick (before any wall jump).
    pub wall_state: Option<PlayerWallState>,
    /// The total velocity computed on the previous tick.
    pub previous_total_velocity: Vec2i,
}

impl Default for PlayerControlState {
    fn default() -> (r: PlayerControlState)
        ensures
            r.wf(),
            !r.grounded.value(),
            r.grounded.time_since_released() == usize::MAX,
            !r.jump_requested.value(),
            r.jump_requested.time_since_released() == usize::MAX,
            !r.jumping,
            !r.lost_jump_due_to_falling,
            r.own_velocity == (Vec2i { x: 0, y: 0 }),
            r.jumps_remaining == 0,
            r.jump_cooldown.remaining() == 0,
            r.wall_jump_force.age.0 == 0,
            r.wall_jump_force.max == (Vec2i { x: 0, y: 0 }),
            r.wall_jump_input_cooldown.remaining() == 0,
            r.wall_jump_latest_side is None,
            r.wall_control_state.attachment() is None,
            r.wall_state is None,
            r.previous_total_velocity == (Vec2i { x: 0, y: 0 }),
    {
        PlayerControlState {
            grounded: CapacitiveFlag::default(),
            jumping: false,
            lost_jump_due_to_falling: false,
            own_velocity: Vec2i { x: 0, y: 0 },
            jump_requested: CapacitiveFlag::default(),
            jumps_remaining: 0,
            jump_cooldown: Cooldown::default(),
            wall_sensors: WallSensors::default(),
            wall_jump_force: TemporaryForce::default(),
            wall_jump_input_cooldown: Cooldown::default(),
            wall_jump_latest_side: None,
            wall_control_state: PlayerWallControlState::default(),
            wall_state: None,
            previous_total_velocity: Vec2i { x: 0, y: 0 },
        }
    }
}

/// The sensor classification on both sides for the given hits.
pub open spec fn sensor_results(hits: SideMap<[bool; 4]>) -> SideMap<WallSensorResult> {
    SideMap {
        right: classify_hits(hit_pattern(hits.right@)),
        left: classify_hits(hit_pattern(hits.left@)),
    }
}

/// The horizontal input after the wall-jump filter: while the input cooldown runs,
/// input toward the wall just jumped from counts as none.
pub open spec fn filtered_horizontal(
    desired: Option<Side>,
    input_cooldown_left: nat,
    latest_side: Option<Side>,
) -> Option<Side> {
    if input_cooldown_left != 0 && desired == latest_side {
        None
    } else {
        desired
    }
}

impl PlayerControlState {
    /// The own velocity lies in the speed range.
    pub open spec fn wf(&self) -> bool {
        self.own_velocity.in_range()
    }

    /// Advance the player by one tick: read the input, update the timers, correct the
    /// velocity for last tick's collisions, read the wall sensors, settle jumps and the
    /// wall interaction, integrate the velocity, and resolve a jump. Returns the total
    /// velocity (own velocity plus the wall-jump force), to be moved by over the tick.
    pub fn update(&mut self, params: &PlayerControlParams, input: &TickInput) -> (r: Vec2i)
        requires
            old(self).wf(),
            params.wf(),
        ensures
            final(self).wf(),
            ({
                let jr = old(self).jump_requested.ticked(input.jump_just_pressed);
                let wants_to_jump = jr.1 <= params.jump_input_buffer.0;
                let cooldown = remaining_after_ticks(old(self).jump_cooldown.remaining(), 1);
                let gr = old(self).grounded.ticked(input.grounded);
                let grounded = gr.0;
                let age = old(self).wall_jump_force.age.0;
                let force_age = if age == usize::MAX { age } else { (age + 1) as usize };
                let input_cooldown = remaining_after_ticks(old(self).wall_jump_input_cooldown.remaining(), 1);
                let h_in = filtered_horizontal(
                    horizontal_of(input.left_pressed, input.right_pressed),
                    input_cooldown,
                    old(self).wall_jump_latest_side,
                );
                let v_in = vertical_of(input.up_pressed, input.down_pressed);
                let v1 = arrest_all(old(self).own_velocity, input.collision_normals@);
                let refund = jump_refund(
                    old(self).jumps_remaining,
                    old(self).jumping,
                    old(self).lost_jump_due_to_falling,
                    grounded,
                    gr.1 <= params.coyote_time.0,
                    params.max_jumps,
                );
                let attachment = wall_next(
                    old(self).wall_control_state.attachment(),
                    sensor_results(input.sensor_hits),
                    !grounded,
                    params.wall_control_params,
                    h_in,
                    momentum_of(old(self).previous_total_velocity.x as int),
                    v_in,
                );
                let wall = wall_classify(attachment, h_in, v_in);
                let vx = next_horizontal_velocity(
                    v1.x as int,
                    if wall is Some { None } else { h_in },
                    if grounded { params.run } else { params.float },
                );
                let vy = next_vertical_velocity(v1.y as int, grounded, wall, *params);
                let fires = wants_to_jump && cooldown == 0;
                let wall_jump = fires && wall is Some;
                let normal_jump = fires && wall is None && refund.0 > 0;
                &&& (final(self).jump_requested.value(), final(self).jump_requested.time_since_released()) == jr
                &&& (final(self).grounded.value(), final(self).grounded.time_since_released()) == gr
                &&& final(self).wall_sensors.hits_on(Side::Right) == input.sensor_hits.right@
                &&& final(self).wall_sensors.hits_on(Side::Left) == input.sensor_hits.left@
                &&& final(self).wall_sensors.offsets() == old(self).wall_sensors.offsets()
                &&& final(self).lost_jump_due_to_falling == refund.2
                &&& final(self).wall_state == wall
                &&& final(self).own_velocity.x == vx
                &&& if wall_jump {
                    let side = wall.unwrap().spec_side();
                    &&& final(self).own_velocity.y == scale_by(params.jump_speed as int, DIAGONAL as int)
                    &&& final(self).wall_jump_force.max == wall_jump_kick(side, *params)
                    &&& final(self).wall_jump_force.age.0 == 0
                    &&& final(self).jumps_remaining == refund.0
                    &&& final(self).jumping
                    &&& final(self).jump_cooldown.remaining() == params.jump_cooldown.0
                    &&& final(self).wall_jump_input_cooldown.remaining() == params.wall_jump_input_cooldown.0
                    &&& final(self).wall_jump_latest_side == Some(side)
                    &&& final(self).wall_control_state.attachment() is None
                } else {
                    &&& final(self).wall_jump_force.max == old(self).wall_jump_force.max
                    &&& final(self).wall_jump_force.age.0 == force_age
                    &&& final(self).wall_jump_input_cooldown.remaining() == input_cooldown
                    &&& final(self).wall_jump_latest_side == old(self).wall_jump_latest_side
                    &&& final(self).wall_control_state.attachment() == attachment
                    &&& if normal_jump {
                        &&& final(self).own_velocity.y == params.jump_speed
                        &&& final(self).jumps_remaining == refund.0 - 1
                        &&& final(self).jumping
                        &&& final(self).jump_cooldown.remaining() == params.jump_cooldown.0
                    } else {
                        &&& final(self).own_velocity.y == vy
                        &&& final(self).jumps_remaining == refund.0
                        &&& final(self).jumping == refund.1
                        &&& final(self).jump_cooldown.remaining() == cooldown
                    }
                }
                &&& r == (Vec2i {
                    x: (final(self).own_velocity.x + force_value(
                        final(self).wall_jump_force.age,
                        final(self).wall_jump_force.max,
                        params.wall_jump_force_decay,
                    ).x) as i64,
                    y: (final(self).own_velocity.y + force_value(
                        final(self).wall_jump_force.age,
                        final(self).wall_jump_force.max,
                        params.wall_jump_force_decay,
                    ).y) as i64,
                })
                &&& final(self).previous_total_velocity == r
            }),
    {
        // jump buffer
        self.jump_requested.tick(input.jump_just_pressed);
        let wants_to_jump = self.jump_requested.was_set_within(params.jump_input_buffer);
        // timers
        self.jump_cooldown.tick();
        self.grounded.tick(input.grounded);
        self.wall_jump_force.tick();
        self.wall_jump_input_cooldown.tick();
        // inputs; ignore input back toward a wall just jumped from
        let desired = horizontal_input(input.left_pressed, input.right_pressed);
        let horizontal = if !self.wall_jump_input_cooldown.is_ready() && desired == self.wall_jump_latest_side {
            None
        } else {
            desired
        };
        let vertical = vertical_input(input.up_pressed, input.down_pressed);
        // stop the motion into obstacles touched on the previous tick
        self.own_velocity = apply_collisions(self.own_velocity, &input.collision_normals);
        // wall sensors
        self.wall_sensors.update(&input.sensor_hits);
        let sensors = SideMap {
            right: self.wall_sensors.interpret(Side::Right),
            left: self.wall_sensors.interpret(Side::Left),
        };
        // refund jumps on the ground; lose one when falling past the coyote time
        let grounded = self.grounded.is_set();
        if grounded {
            self.jumps_remaining = params.max_jumps;
            self.jumping = false;
            self.lost_jump_due_to_falling = false;
        } else if !self.grounded.was_set_within(params.coyote_time) {
            if !self.lost_jump_due_to_falling && !self.jumping {
                self.jumps_remaining = self.jumps_remaining.saturating_sub(1);
                self.lost_jump_due_to_falling = true;
            }
        }
        // wall interaction
        let momentum = momentum_side(self.previous_total_velocity.x);
        let wall = self.wall_control_state.tick(
            &sensors,
            !grounded,
            &params.wall_control_params,
            horizontal,
            momentum,
            vertical,
        );
        self.wall_state = wall;
        // horizontal control; the wall interaction overrides the input
        let filtered = if wall.is_some() {
            None
        } else {
            horizontal
        };
        let mode = if grounded {
            params.run
        } else {
            params.float
        };
        proof {
            lemma_horizontal_never_overshoots(self.own_velocity.x as int, filtered, mode);
        }
        self.own_velocity.x = compute_next_horizontal_velocity(self.own_velocity.x, filtered, mode);
        // gravity and the wall interaction
        self.own_velocity.y = compute_next_vertical_velocity(self.own_velocity.y, grounded, wall, params);
        // jump
        if wants_to_jump && self.jump_cooldown.is_ready() {
            if let Some(wall_state) = wall {
                let side = wall_state.side();
                let kick = scale_fixed(params.run.max_speed, DIAGONAL);
                let jump_vx = kick * side.opposite().sign();
                self.wall_jump_force.reset(Vec2i { x: jump_vx, y: 0 });
                self.own_velocity.y = scale_fixed(params.jump_speed, DIAGONAL);
                self.jumping = true;
                self.jump_cooldown.reset(params.jump_cooldown);
                self.wall_jump_input_cooldown.reset(params.wall_jump_input_cooldown);
                self.wall_jump_latest_side = Some(side);
                self.wall_control_state.release();
            } else if self.jumps_remaining > 0 {
                self.own_velocity.y = params.jump_speed;
                self.jumps_remaining = self.jumps_remaining - 1;
                self.jumping = true;
                self.jump_cooldown.reset(params.jump_cooldown);
            }
        }
        // total velocity
        let force = self.wall_jump_force.eval(&params.wall_jump_force_decay);
        let total = Vec2i { x: self.own_velocity.x + force.x, y: self.own_velocity.y + force.y };
        self.previous_total_velocity = total;
        total
    }
}

} // verus!
