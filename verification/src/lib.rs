//! A dice challenge: roll a number of dice, trial after trial, until all of
//! them show the same face, with progress that survives an interruption.
//!
//! The library holds the rules: the dice, the text that a trial is drawn with,
//! the saved progress and the engine that moves a run from its start to its
//! end. Reading the clock, sleeping and touching the checkpoint file are left
//! to the program around it.

pub mod dice;
pub mod display;
pub mod engine;
pub mod errors;
pub mod odds;
pub mod state;
