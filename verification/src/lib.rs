//! Single-elimination tournament bracket construction.
//!
//! From an ordered roster of 64 teams (four regions of sixteen seeds each),
//! this library validates the roster's structure and wires the full 63-game
//! bracket tree: every game knows its round, the two games that feed it, and
//! the game its winner advances to, all through indices into one flat array.

pub mod bracket;
pub mod errors;
pub mod game;
pub mod round;
pub mod team;
pub mod tournament;
pub mod tournament_data;
pub mod tournament_field;
