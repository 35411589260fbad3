//! Entity and event types of the simulation core.
//!
//! Coordinates and velocities are `i32` milli-pixels (see [`crate::geom`]).

use vstd::prelude::*;

verus! {

/// Screen width in milli-pixels (384 pixels).
pub const SCREEN_W: i32 = 384_000;

/// Screen height in milli-pixels (216 pixels).
pub const SCREEN_H: i32 = 216_000;

/// Fixed horizontal position of the player's sleigh (60 pixels).
pub const PLAYER_X: i32 = 60_000;

/// Vertical travel speed of the sleigh (3 pixels per frame).
pub const PLAYER_SPEED: i32 = 3_000;

/// Ground line: 78% of the screen height.
pub const GROUND_Y: i32 = 168_480;

/// Largest value `health` can reach through power-ups.
pub const HEALTH_CAP: u32 = 5;

/// Gold, the celebration color (RGBA).
pub const COLOR_GOLD: u32 = 0xffd700ff;

/// Star yellow (RGBA).
pub const COLOR_STAR: u32 = 0xffff00ff;

/// The game-mode state machine.
///
/// `Paused` freezes every subsystem and remembers the interrupted mode;
/// `GameOver` is entered only when health reaches zero and left only by an
/// explicit restart.
#[derive(Clone, Copy, Debug, PartialEq, Eq, Structural)]
pub enum Mode {
    Title,
    Delivering,
    KrampusWarning,
    KrampusAttack,
    GameOver,
    Paused,
}

/// Background music selection derived from the current mode.
#[derive(Clone, Copy, Debug, PartialEq, Eq, Structural)]
pub enum MusicTrack {
    Title,
    Delivering,
    Krampus,
    GameOver,
}

/// A discrete sound event emitted by the core during one frame.
/// The host's audio layer interprets these; the core never plays anything.
#[derive(Clone, Copy, Debug, PartialEq, Eq, Structural)]
pub enum AudioCue {
    Start,
    Drop,
    Delivery,
    Hit,
    Warning,
    Krampus,
    Survive,
    GameOver,
}

/// One frame's worth of input, already reduced to edges and levels by the
/// host: the core never polls hardware.
#[derive(Clone, Copy, Debug, PartialEq, Eq, Structural, Default)]
pub struct FrameInput {
    /// Move the sleigh up (level).
    pub up: bool,
    /// Move the sleigh down (level).
    pub down: bool,
    /// Drop a gift (edge).
    pub drop: bool,
    /// Confirm / start / restart (edge).
    pub confirm: bool,
    /// Toggle pause (edge).
    pub pause: bool,
}

/// A delivery target scrolling toward the player.
#[derive(Clone, Copy, Debug, PartialEq)]
pub struct Chimney {
    pub x: i32,
    pub y: i32,
    /// Monotonic: set once on delivery, never cleared while the chimney exists.
    pub delivered: bool,
    /// Visual variant in `0..=2`; no gameplay effect.
    pub style: u8,
}

/// A dropped gift in free fall.
#[derive(Clone, Copy, Debug, PartialEq)]
pub struct FallingGift {
    pub x: i32,
    pub y: i32,
    pub vel_y: i32,
    /// Advisory assist target chosen at drop time; never dereferenced by the
    /// collision rule, which checks every undelivered chimney.
    pub target_chimney: Option<usize>,
    pub active: bool,
}

/// A Krampus projectile.
#[derive(Clone, Copy, Debug, PartialEq)]
pub struct Projectile {
    pub x: i32,
    pub y: i32,
    pub vel_x: i32,
    pub vel_y: i32,
    pub active: bool,
}

/// The two power-up kinds.
#[derive(Clone, Copy, Debug, PartialEq, Eq, Structural)]
pub enum PowerKind {
    /// Restores one health point, up to [`HEALTH_CAP`].
    Health,
    /// Grants a 300-frame star-power window.
    Invincible,
}

/// A drifting power-up item.
#[derive(Clone, Copy, Debug, PartialEq)]
pub struct PowerUp {
    pub x: i32,
    pub y: i32,
    pub kind: PowerKind,
    pub active: bool,
    /// Phase of the vertical bob, one step per frame (period 64).
    pub bob_phase: u32,
}

/// A cosmetic particle; no gameplay rule reads these.
#[derive(Clone, Copy, Debug, PartialEq)]
pub struct Particle {
    pub x: i32,
    pub y: i32,
    pub vel_x: i32,
    pub vel_y: i32,
    pub life: u32,
    pub color: u32,
    pub size: u32,
}

/// A cosmetic snowflake; no gameplay rule reads these.
#[derive(Clone, Copy, Debug, PartialEq)]
pub struct Snowflake {
    pub x: i32,
    pub y: i32,
    pub speed: i32,
    pub size: u32,
}

/// A fixed trap point, the hazard of the ground-walking phases:
/// contact is a plain radius check (`stepped_on_trap`).
#[derive(Clone, Copy, Debug, PartialEq)]
pub struct TrapPoint {
    pub x: i32,
    pub y: i32,
}

/// The music track the host should loop for a mode, or `None` while paused.
pub open spec fn mode_track_spec(mode: Mode) -> Option<MusicTrack> {
    match mode {
        Mode::Title => Some(MusicTrack::Title),
        Mode::Delivering => Some(MusicTrack::Delivering),
        Mode::KrampusWarning => Some(MusicTrack::Delivering),
        Mode::KrampusAttack => Some(MusicTrack::Krampus),
        Mode::GameOver => Some(MusicTrack::GameOver),
        Mode::Paused => None,
    }
}

/// Select the background music for a mode. The warning phase keeps the
/// delivery music; pausing silences everything.
pub fn mode_track(mode: Mode) -> (r: Option<MusicTrack>)
    ensures
        r == mode_track_spec(mode),
{
    match mode {
        Mode::Title => Some(MusicTrack::Title),
        Mode::Delivering => Some(MusicTrack::Delivering),
        Mode::KrampusWarning => Some(MusicTrack::Delivering),
        Mode::KrampusAttack => Some(MusicTrack::Krampus),
        Mode::GameOver => Some(MusicTrack::GameOver),
        Mode::Paused => None,
    }
}

} // verus!
