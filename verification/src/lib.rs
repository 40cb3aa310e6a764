//! Simulation core of a top-down arcade survival game: molecules built from
//! destructible atoms, proximity collisions, damage, enemy waves and the
//! menu / playing / death life cycle.
//!
//! All quantities are integers. Health is counted in tenths of a point,
//! positions and radii in whole world units, times in milliseconds.

pub mod clock;
pub mod collision;
pub mod combat;
pub mod elements;
pub mod energy;
pub mod game;
pub mod health;
pub mod layout;
pub mod molecule;
pub mod powerup;
pub mod random;
pub mod registry;
pub mod shooting;
pub mod state;
pub mod tick;
pub mod timer;
pub mod wave;
