//! Fixed-timestep movement control for a 2D platformer character.
//!
//! Speeds, accelerations and distances are integers in a fixed-point unit
//! chosen by the caller; fractions (easing samples, the diagonal of a wall
//! jump) are expressed over [`vector::FIXED_ONE`].
pub mod control;
pub mod force;
pub mod motion;
pub mod params;
pub mod side;
pub mod timers;
pub mod vector;
pub mod walls;

pub use control::{PlayerControlState, TickInput};
pub use force::{ForceDecayCurve, TemporaryForce};
pub use motion::{compute_next_horizontal_velocity, HorizontalControlParams};
pub use params::PlayerControlParams;
pub use side::{Side, SideMap, YSide, YSideMap};
pub use timers::{CapacitiveFlag, Cooldown, FrameCount};
pub use vector::{Normal, Vec2i};
pub use walls::{
    PlayerWallControlParams, PlayerWallControlState, PlayerWallState, WallAttachment,
    WallSensor, WallSensorResult, WallSensors,
};
