//! A small arcade simulation: a player dodges falling obstacles while a
//! score accrues with survival time.
//!
//! All quantities are integers in fixed units: positions in nano-units,
//! rates in milli-units per second, scale factors in thousandths, and time
//! in microseconds. A rate applied over a time span is then an exact
//! number of nano-units.
//!
//! Obstacles that fall past the bottom edge stay alive (and keep being
//! tested for collisions) until the round ends, and the player may walk off
//! either side: nothing is despawned or clamped.

pub mod geometry;
pub mod entity;
pub mod input;
pub mod motion;
pub mod collision;
pub mod spawn;
pub mod score;
pub mod game;
pub mod theorems;
