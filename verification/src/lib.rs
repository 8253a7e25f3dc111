//! Core of a terminal word-guessing game: difficulty tiers with fixed guess
//! budgets and word-length buckets, random word selection from a catalog,
//! the per-round guess state machine, and the textual progress display
//! (masked word and gallows figure).
//!
//! All game rules live here and are verified; reading lines and printing
//! belong to the surrounding binary.

pub mod difficulty;
pub mod render;
pub mod round;
pub mod select;
pub mod session;
