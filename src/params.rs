use vstd::prelude::*;
use crate::force::ForceDecayCurve;
use crate::motion::HorizontalControlParams;
use crate::timers::FrameCount;
use crate::vector::speed_in_range;
use crate::walls::PlayerWallControlParams;

verus! {

/// The tunable parameters of a player's movement.
#[derive(Debug, Clone)]
pub struct PlayerControlParams {
    /// Horizontal control on the ground.
    pub run: HorizontalControlParams,
    /// Horizontal control in the air.
    pub float: HorizontalControlParams,
    pub jump_speed: i64,
    /// Change of vertical speed per tick (negative pulls down).
    pub gravity: i64,
    pub coyote_time: FrameCount,
    pub jump_input_buffer: FrameCount,
    pub max_jumps: u8,
    pub jump_cooldown: FrameCount,
    pub wall_jump_force_decay: ForceDecayCurve,
    pub wall_jump_input_cooldown: FrameCount,
    pub wall_control_params: PlayerWallControlParams,
}

impl PlayerControlParams {
    /// Speeds and rates lie in the speed range, magnitudes are not negative, and the
    /// decay curve holds one sample per tick of its duration.
    pub open spec fn wf(&self) -> bool {
        &&& self.run.wf()
        &&& self.float.wf()
        &&& speed_in_range(self.jump_speed as int)
        &&& speed_in_range(self.gravity as int)
        &&& self.wall_jump_force_decay.wf()
        &&& self.wall_control_params.wf()
    }
}

} // verus!
