//! Simulation core of a fixed-timestep arcade delivery game.
//!
//! The library owns the whole per-frame state machine: mode transitions,
//! procedural spawning, collision resolution, the combo/score ledger,
//! progressive difficulty and the periodic Krampus threat. It does no I/O:
//! a host shell polls input, hands a [`types::FrameInput`] to
//! [`state::GameState::update`] once per tick, renders the resulting state
//! snapshot and plays the audio cues the core emitted.
//!
//! All world coordinates are fixed-point integers in milli-pixels
//! (one pixel = 1000 units), so every frame step is exact and two runs from
//! the same seed and input trace agree bit for bit.

pub mod geom;
pub mod types;
pub mod state;
pub mod rng;
pub mod effects;
pub mod combo;
pub mod particles;
pub mod difficulty;
pub mod chimneys;
pub mod gifts;
pub mod powerups;
pub mod krampus;
pub mod step;
pub mod laws;
pub mod persist;
