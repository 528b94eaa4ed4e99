//! Combat core of a two-actor sprite fighting game: frame animation, and the
//! per-frame action state machines of the player and the enemy.
//!
//! Time is counted in whole microseconds and positions in thousandths of a
//! pixel, so that every rule of the fight is exact integer arithmetic.

pub mod enemy;
pub mod motion;
pub mod player;
pub mod util;
