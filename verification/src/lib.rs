//! Simulation core of a top-down arcade defense game: a player-controlled
//! mech defends a constellation of stars against waves of homing enemies,
//! with melee, ranged and charge-gated area attacks, a round scheduler that
//! escalates difficulty, and a win/loss evaluator.
//!
//! All simulation state is held in plain integer fixed-point values
//! (milli-units: one spatial unit is 1000 milli-units, one second is 1000
//! milliseconds), so that every rule of the game can be stated and checked
//! exactly.  Presentation, audio and input devices live outside this crate
//! and communicate with it through snapshots and event lists.

pub mod actions;
pub mod combat;
pub mod config;
pub mod enemy;
pub mod geom;
pub mod mech;
pub mod menus;
pub mod model;
pub mod outcome;
pub mod rng;
pub mod scheduler;
pub mod timer;
pub mod trig;
pub mod world;
