//! A verified core for a round-based rock-paper-scissors game.
//!
//! The library models the three legal throws (plus a sentinel for
//! unparseable input), parses free-form text into a throw, draws a
//! random opponent throw, and evaluates a pair of throws under the
//! cyclic dominance order (rock beats scissors, scissors beats paper,
//! paper beats rock).

pub mod game;
pub mod text;
