//! Game rules of a Flappy Bird style game: the round state machine, scoring,
//! the best score and its text form, and the window icon pixels.

pub mod digits;
pub mod game;
pub mod icon;
pub mod input;
pub mod pipes;
pub mod random;
