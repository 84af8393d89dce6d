use vstd::prelude::*;
use crate::side::{Side, SideMap, YSide};
use crate::timers::FrameCount;
use crate::vector::SPEED_LIMIT;

verus! {

/// What a player is doing with a wall it is attached to.
#[derive(Debug, Clone, Copy, PartialEq, Eq, Structural)]
pub enum PlayerWallState {
    Grabbed(Side),
    Sliding(Side),
    Climbing(Side),
}

impl PlayerWallState {
    /// The side of the player that the wall is on.
    pub open spec fn spec_side(self) -> Side {
        match self {
            PlayerWallState::Grabbed(side) => side,
            PlayerWallState::Sliding(side) => side,
            PlayerWallState::Climbing(side) => side,
        }
    }

    /// The side of the player that the wall is on.
    pub fn side(&self) -> (r: Side)
        ensures
            r == self.spec_side(),
    {
        match *self {
            PlayerWallState::Grabbed(side) => side,
            PlayerWallState::Sliding(side) => side,
            PlayerWallState::Climbing(side) => side,
        }
    }
}

/// A sensor-based interpretation of what is beside the player, as decided by
/// [`WallSensors::interpret`].
#[derive(Debug, Clone, Copy, PartialEq, Eq, Structural)]
pub enum WallSensorResult {
    /// Empty space, or a small obstacle that doesn't seem to be a wall.
    NotAWall,
    /// A small obstacle that only impedes the lower quarter of the player,
    /// for example a stair that the player could step onto.
    Step,
    /// A medium obstacle that only impedes the lower half of the player,
    /// for example a ledge that the player could climb onto.
    Ledge,
    /// A large obstacle that impedes most or all of the player.
    Wall,
}

impl WallSensorResult {
    /// Whether a player can attach to this obstacle (a wall or a ledge).
    pub open spec fn spec_is_grabbable(self) -> bool {
        self == WallSensorResult::Wall || self == WallSensorResult::Ledge
    }

    /// Whether a player can attach to this obstacle (a wall or a ledge).
    pub fn is_grabbable(&self) -> (r: bool)
        ensures
            r == self.spec_is_grabbable(),
    {
        match *self {
            WallSensorResult::Wall | WallSensorResult::Ledge => true,
            _ => false,
        }
    }
}

/// The classification of a 4-bit hit pattern, where bit `i` is set when the
/// sensor at height index `i` (0 is the lowest) hit something.
pub open spec fn classify_hits(pattern: nat) -> WallSensorResult {
    if pattern == 0b0001 {
        WallSensorResult::Step
    } else if pattern == 0b0011 {
        WallSensorResult::Ledge
    } else if pattern == 0b0111 || pattern == 0b1111 || pattern == 0b1110 {
        WallSensorResult::Wall
    } else {
        WallSensorResult::NotAWall
    }
}

/// Tunable parameters of the wall interaction.
#[derive(Debug, Clone, Copy, PartialEq, Eq, Structural)]
pub struct PlayerWallControlParams {
    /// Duration that the player needs to hold the directional input away from the wall
    /// before they actually let go and start falling.
    pub push_away_duration: FrameCount,
    pub slide_max_speed: i64,
    pub slide_acceleration: i64,
    pub climb_max_speed: i64,
    pub climb_acceleration: i64,
    /// Length of the ray-casts used to detect walls adjacent to the player.
    pub detection_length: i64,
}

impl PlayerWallControlParams {
    /// Speeds and rates are magnitudes within the speed range.
    pub open spec fn wf(self) -> bool {
        &&& 0 <= self.slide_max_speed <= SPEED_LIMIT
        &&& 0 <= self.slide_acceleration <= SPEED_LIMIT
        &&& 0 <= self.climb_max_speed <= SPEED_LIMIT
        &&& 0 <= self.climb_acceleration <= SPEED_LIMIT
        &&& 0 <= self.detection_length
    }
}

/// The wall that a player is attached to.
#[derive(Debug, Clone, Copy, PartialEq, Eq, Structural)]
pub struct WallAttachment {
    /// The direction from the player to the wall.
    pub side: Side,
    /// Ticks the player has been pressing the horizontal input *away* from the wall.
    pub push_away_timer: FrameCount,
    /// The type of wall (`Wall` or `Ledge`) captured when attaching.
    pub wall_type: WallSensorResult,
}

/// Wall interaction of one player: detached, or attached to a wall on one side.
#[derive(Debug)]
pub struct PlayerWallControlState {
    wall_state: Option<WallAttachment>,
}

/// Step 1: attach while airborne, to a wall or ledge on the side of the momentum
/// (or, without momentum, of the input).
pub open spec fn wall_step_attach(
    s: Option<WallAttachment>,
    sensors: SideMap<WallSensorResult>,
    airborne: bool,
    horizontal_input: Option<Side>,
    horizontal_momentum: Option<Side>,
) -> Option<WallAttachment> {
    let dir = if horizontal_momentum is Some { horizontal_momentum } else { horizontal_input };
    if s is None && airborne && dir is Some && sensors.spec_get(dir.unwrap()).spec_is_grabbable() {
        Some(
            WallAttachment {
                side: dir.unwrap(),
                push_away_timer: FrameCount(0),
                wall_type: sensors.spec_get(dir.unwrap()),
            },
        )
    } else {
        s
    }
}

/// Step 2: pushing away counts up and releases at `push_away_duration`; not pushing
/// away resets the count.
pub open spec fn wall_step_push_away(
    s: Option<WallAttachment>,
    params: PlayerWallControlParams,
    horizontal_input: Option<Side>,
) -> Option<WallAttachment> {
    match s {
        None => None,
        Some(a) => {
            if horizontal_input is Some && horizontal_input.unwrap() != a.side {
                let t: usize = if a.push_away_timer.0 == usize::MAX {
                    usize::MAX
                } else {
                    (a.push_away_timer.0 + 1) as usize
                };
                if t >= params.push_away_duration.0 {
                    None
                } else {
                    Some(WallAttachment { push_away_timer: FrameCount(t), ..a })
                }
            } else {
                Some(WallAttachment { push_away_timer: FrameCount(0), ..a })
            }
        },
    }
}

/// Steps 3 to 5: release on Down, when the sensor on the wall's side no longer sees a
/// wall or ledge, and on the ground.
pub open spec fn wall_step_release(
    s: Option<WallAttachment>,
    sensors: SideMap<WallSensorResult>,
    airborne: bool,
    vertical_input: Option<YSide>,
) -> Option<WallAttachment> {
    if vertical_input == Some(YSide::Down) {
        None
    } else if s is Some && !sensors.spec_get(s.unwrap().side).spec_is_grabbable() {
        None
    } else if !airborne {
        None
    } else {
        s
    }
}

/// The attachment after one tick.
pub open spec fn wall_next(
    s: Option<WallAttachment>,
    sensors: SideMap<WallSensorResult>,
    airborne: bool,
    params: PlayerWallControlParams,
    horizontal_input: Option<Side>,
    horizontal_momentum: Option<Side>,
    vertical_input: Option<YSide>,
) -> Option<WallAttachment> {
    let s1 = wall_step_attach(s, sensors, airborne, horizontal_input, horizontal_momentum);
    let s2 = wall_step_push_away(s1, params, horizontal_input);
    wall_step_release(s2, sensors, airborne, vertical_input)
}

/// What an attached player does: climb a ledge when holding Up or toward it, grab
/// when holding toward the wall, slide otherwise.
pub open spec fn wall_classify(
    s: Option<WallAttachment>,
    horizontal_input: Option<Side>,
    vertical_input: Option<YSide>,
) -> Option<PlayerWallState> {
    match s {
        None => None,
        Some(a) => {
            if a.wall_type == WallSensorResult::Ledge && (vertical_input == Some(YSide::Up)
                || horizontal_input == Some(a.side)) {
                Some(PlayerWallState::Climbing(a.side))
            } else if horizontal_input == Some(a.side) {
                Some(PlayerWallState::Grabbed(a.side))
            } else {
                Some(PlayerWallState::Sliding(a.side))
            }
        },
    }
}

impl Default for PlayerWallControlState {
    fn default() -> (r: PlayerWallControlState)
        ensures
            r.attachment() is None,
    {
        PlayerWallControlState { wall_state: None }
    }
}

impl PlayerWallControlState {
    /// The wall the player is attached to, if any.
    pub closed spec fn attachment(&self) -> Option<WallAttachment> {
        self.wall_state
    }

    /// The wall the player is attached to, if any.
    pub fn current(&self) -> (r: Option<WallAttachment>)
        ensures
            r == self.attachment(),
    {
        self.wall_state
    }

    /// Force the player to release the wall, if they were interacting with one
    /// (used by wall jumps, so that the player does not attach again at once).
    pub fn release(&mut self)
        ensures
            final(self).attachment() is None,
    {
        self.wall_state = None;
    }

    /// Advance the wall interaction by one tick, given the sensor results on both
    /// sides, whether the player is airborne, and the directional inputs; returns what
    /// the player is doing with the wall, if attached.
    pub fn tick(
        &mut self,
        wall_sensor_results: &SideMap<WallSensorResult>,
        player_is_airborne: bool,
        control_params: &PlayerWallControlParams,
        horizontal_input: Option<Side>,
        horizontal_momentum: Option<Side>,
        vertical_input: Option<YSide>,
    ) -> (r: Option<PlayerWallState>)
        ensures
            final(self).attachment() == wall_next(
                old(self).attachment(),
                *wall_sensor_results,
                player_is_airborne,
                *control_params,
                horizontal_input,
                horizontal_momentum,
                vertical_input,
            ),
            r == wall_classify(final(self).attachment(), horizontal_input, vertical_input),
    {
        // attach when touching a wall or ledge in the direction of travel
        if self.wall_state.is_none() && player_is_airborne {
            let dir = match horizontal_momentum {
                Some(m) => Some(m),
                None => horizontal_input,
            };
            if let Some(player_side) = dir {
                let t = *wall_sensor_results.get(player_side);
                if t.is_grabbable() {
                    self.wall_state = Some(
                        WallAttachment { side: player_side, push_away_timer: FrameCount(0), wall_type: t },
                    );
                }
            }
        }
        // release after pushing away for long enough
        if let Some(a) = self.wall_state {
            let pushing_away = match horizontal_input {
                Some(pushing_side) => pushing_side != a.side,
                None => false,
            };
            if pushing_away {
                let mut timer = a.push_away_timer;
                timer.increment();
                if timer.0 >= control_params.push_away_duration.0 {
                    self.wall_state = None;
                } else {
                    self.wall_state = Some(WallAttachment { push_away_timer: timer, ..a });
                }
            } else {
                self.wall_state = Some(WallAttachment { push_away_timer: FrameCount(0), ..a });
            }
        }
        // release on Down
        if vertical_input == Some(YSide::Down) {
            self.wall_state = None;
        }
        // release when the sensor no longer sees a wall
        if let Some(a) = self.wall_state {
            if !wall_sensor_results.get(a.side).is_grabbable() {
                self.wall_state = None;
            }
        }
        // release on the ground
        if !player_is_airborne {
            self.wall_state = None;
        }
        match self.wall_state {
            None => None,
            Some(a) => {
                let is_ledge = match a.wall_type {
                    WallSensorResult::Ledge => true,
                    _ => false,
                };
                if is_ledge && (vertical_input == Some(YSide::Up) || horizontal_input == Some(a.side)) {
                    Some(PlayerWallState::Climbing(a.side))
                } else if horizontal_input == Some(a.side) {
                    Some(PlayerWallState::Grabbed(a.side))
                } else {
                    Some(PlayerWallState::Sliding(a.side))
                }
            },
        }
    }
}

/// The 4-bit pattern of four hit flags, lowest sensor first: bit `i` is flag `i`.
pub open spec fn hit_pattern(hits: Seq<bool>) -> nat {
    (if hits[0] { 1nat } else { 0nat }) + (if hits[1] { 2nat } else { 0nat }) + (if hits[2] {
        4nat
    } else {
        0nat
    }) + (if hits[3] { 8nat } else { 0nat })
}

/// One ray probe on the sides of a player's collider.
#[derive(Debug, Clone, Copy, PartialEq, Eq)]
pub struct WallSensor {
    /// Height of the probe above the bottom of the collider, in eighths of its height.
    pub offset_eighths: u8,
    /// Whether the ray-cast on each side has hit something.
    pub hits: SideMap<bool>,
}

impl WallSensor {
    /// A probe at the given height (in eighths of the collider's height), with no hits.
    pub fn at_offset(offset_eighths: u8) -> (r: WallSensor)
        ensures
            r.offset_eighths == offset_eighths,
            !r.hits.right && !r.hits.left,
    {
        WallSensor { offset_eighths, hits: SideMap { right: false, left: false } }
    }

}

/// Four [`WallSensor`]s at heights 1/8, 3/8, 5/8 and 7/8 of the collider, lowest first.
///
/// Together they tell walls apart from ledges and steps.
#[derive(Debug)]
pub struct WallSensors {
    sensors: [WallSensor; 4],
}

impl Default for WallSensors {
    fn default() -> (r: WallSensors)
        ensures
            r.hits_on(Side::Left) == seq![false, false, false, false],
            r.hits_on(Side::Right) == seq![false, false, false, false],
            r.offsets() == seq![1u8, 3u8, 5u8, 7u8],
    {
        let r = WallSensors {
            sensors: [
                WallSensor::at_offset(1),
                WallSensor::at_offset(3),
                WallSensor::at_offset(5),
                WallSensor::at_offset(7),
            ],
        };
        assert(r.hits_on(Side::Left) =~= seq![false, false, false, false]);
        assert(r.hits_on(Side::Right) =~= seq![false, false, false, false]);
        assert(r.offsets() =~= seq![1u8, 3u8, 5u8, 7u8]);
        r
    }
}

impl WallSensors {
    /// The last recorded hit flags on `side`, lowest sensor first.
    pub closed spec fn hits_on(&self, side: Side) -> Seq<bool> {
        Seq::new(4, |i: int| self.sensors[i].hits.spec_get(side))
    }

    /// The probe heights in eighths of the collider's height, lowest first.
    pub closed spec fn offsets(&self) -> Seq<u8> {
        Seq::new(4, |i: int| self.sensors[i].offset_eighths)
    }

    /// The probe at height index `i` (0 is the lowest).
    pub fn sensor(&self, i: usize) -> (r: &WallSensor)
        requires
            i < 4,
        ensures
            r.offset_eighths == self.offsets()[i as int],
            r.hits.right == self.hits_on(Side::Right)[i as int],
            r.hits.left == self.hits_on(Side::Left)[i as int],
    {
        &self.sensors[i]
    }

    /// Record the results of the ray-casts of all four probes, lowest first on each
    /// side; the probe heights are kept.
    pub fn update(&mut self, hits: &SideMap<[bool; 4]>)
        ensures
            final(self).hits_on(Side::Right) == hits.right@,
            final(self).hits_on(Side::Left) == hits.left@,
            final(self).offsets() == old(self).offsets(),
    {
        let s = self.sensors;
        self.sensors = [
            WallSensor { offset_eighths: s[0].offset_eighths, hits: SideMap { right: hits.right[0], left: hits.left[0] } },
            WallSensor { offset_eighths: s[1].offset_eighths, hits: SideMap { right: hits.right[1], left: hits.left[1] } },
            WallSensor { offset_eighths: s[2].offset_eighths, hits: SideMap { right: hits.right[2], left: hits.left[2] } },
            WallSensor { offset_eighths: s[3].offset_eighths, hits: SideMap { right: hits.right[3], left: hits.left[3] } },
        ];
        assert(self.hits_on(Side::Right) =~= hits.right@);
        assert(self.hits_on(Side::Left) =~= hits.left@);
        assert(self.offsets() =~= old(self).offsets());
    }

    /// The 4-bit pattern of the last recorded hits on `side` (bit 0 is the lowest sensor).
    pub fn hit_pattern(&self, side: Side) -> (r: u8)
        ensures
            r == hit_pattern(self.hits_on(side)),
    {
        let mut flags: u8 = 0;
        if *self.sensors[0].hits.get(side) {
            flags = flags + 1;
        }
        if *self.sensors[1].hits.get(side) {
            flags = flags + 2;
        }
        if *self.sensors[2].hits.get(side) {
            flags = flags + 4;
        }
        if *self.sensors[3].hits.get(side) {
            flags = flags + 8;
        }
        flags
    }

    /// Whether there is a wall, a ledge, a step or nothing on `side`: a fixed table on
    /// the 4-bit hit pattern.
    pub fn interpret(&self, side: Side) -> (r: WallSensorResult)
        ensures
            r == classify_hits(hit_pattern(self.hits_on(side))),
    {
        let hit_flags = self.hit_pattern(side);
        match hit_flags {
            0b0001 => WallSensorResult::Step,
            0b0011 => WallSensorResult::Ledge,
            0b0111 => WallSensorResult::Wall,
            0b1111 => WallSensorResult::Wall,
            0b1110 => WallSensorResult::Wall,
            _ => WallSensorResult::NotAWall,
        }
    }
}

/// The classification of a side is a function of its 4-bit hit pattern alone, by a
/// fixed table: 0b0001 is a step, 0b0011 a ledge, 0b0111, 0b1111 and 0b1110 are walls,
/// and each of the ten other patterns is no wall.
pub proof fn lemma_sensor_table(a: WallSensors, b: WallSensors, side: Side, pattern: nat)
    requires
        pattern < 16,
    ensures
        hit_pattern(a.hits_on(side)) == hit_pattern(b.hits_on(side)) ==> classify_hits(
            hit_pattern(a.hits_on(side)),
        ) == classify_hits(hit_pattern(b.hits_on(side))),
        classify_hits(pattern) == WallSensorResult::Step <==> pattern == 0b0001,
        classify_hits(pattern) == WallSensorResult::Ledge <==> pattern == 0b0011,
        classify_hits(pattern) == WallSensorResult::Wall <==> (pattern == 0b0111 || pattern == 0b1111
            || pattern == 0b1110),
        classify_hits(pattern) == WallSensorResult::NotAWall <==> !(pattern == 0b0001 || pattern
            == 0b0011 || pattern == 0b0111 || pattern == 0b1111 || pattern == 0b1110),
{
}

} // verus!
