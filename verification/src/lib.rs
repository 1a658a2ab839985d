//! A snake game as a verified state machine: the creature, its food, the
//! simulation step, the input mapping and the autoplay policy.

pub mod app;
pub mod autoplay;
pub mod geometry;
pub mod input;
pub mod laws;
pub mod model;
mod random;
pub mod record;

pub use crate::app::App;
pub use crate::autoplay::autorun;
pub use crate::geometry::{check_blocked, check_if_equal, food_spot, Direction, Position};
pub use crate::input::{Command, InputEvent, Key, KeyKind, Outcome};
