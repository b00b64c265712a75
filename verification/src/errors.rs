//! What can go wrong in a run.

use vstd::prelude::*;

verus! {

/// The faults of a run. Only the first ends it before it starts: the others
/// are told to the user and the run goes on, or ends as it would have.
#[derive(Debug, Clone, PartialEq, Eq)]
pub enum AppError {
    /// The run was asked for with fewer than two dice, or with an interval
    /// that is no positive number of seconds.
    InvalidConfiguration { num_dice: usize, interval_bits: u64 },
    /// A checkpoint was found that holds no valid progress.
    CheckpointCorrupt { reason: String },
    /// A checkpoint was found that was saved for another number of dice.
    CheckpointMismatch { saved: usize, requested: usize },
    /// The progress could not be written.
    CheckpointWriteFailed { reason: String },
}

impl AppError {
    /// Whether the fault keeps a run from starting.
    pub open spec fn fatal(&self) -> bool {
        self is InvalidConfiguration
    }

    /// Whether the fault keeps a run from starting. Every other fault is
    /// recovered from.
    pub fn is_fatal(&self) -> (fatal: bool)
        ensures
            fatal == self.fatal(),
    {
        match self {
            AppError::InvalidConfiguration { .. } => true,
            _ => false,
        }
    }
}

} // verus!
