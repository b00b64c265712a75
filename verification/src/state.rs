//! The progress of a run, in the shape in which it is saved.

use vstd::prelude::*;
use crate::dice::{all_faces, MAX_FACE, MIN_FACE};
use crate::errors::AppError;

verus! {

/// A second in nanoseconds: the sub-second part of a time stays below it.
pub const NANOS_PER_SEC: u32 = 1_000_000_000;

/// The bit pattern of positive infinity as a double. The patterns of the
/// positive finite doubles are those above zero and below this one.
pub const INFINITY_BITS: u64 = 0x7FF0_0000_0000_0000;

/// Whether `bits` is the pattern of a double that is finite and above zero.
pub open spec fn positive_finite(bits: u64) -> bool {
    0 < bits < 0x7FF0_0000_0000_0000
}

/// Whether a run may be asked for with these dice and this interval.
pub open spec fn valid_config(num_dice: usize, interval_bits: u64) -> bool {
    num_dice >= 2 && positive_finite(interval_bits)
}

/// Whether `dice` is one roll of `num_dice` dice.
pub open spec fn valid_roll(dice: Seq<u8>, num_dice: usize) -> bool {
    dice.len() == num_dice && all_faces(dice)
}

/// The progress of a run.
///
/// The interval between two trials is a number of seconds with a fraction; it
/// is held as the bit pattern of that double, which keeps it exact.
#[derive(Debug, Clone)]
pub struct GameState {
    /// The number of dice in a trial.
    pub num_dice: usize,
    /// The seconds between two trials, as the bit pattern of a double.
    pub interval_bits: u64,
    /// The trials made so far.
    pub trials_completed: u64,
    /// The whole seconds spent so far.
    pub elapsed_secs: u64,
    /// The nanoseconds spent beyond the whole seconds.
    pub elapsed_nanos: u32,
    /// The latest roll; empty before the first.
    pub last_dice: Vec<u8>,
}

/// What a state holds, as plain values.
pub struct GameStateView {
    pub num_dice: usize,
    pub interval_bits: u64,
    pub trials_completed: u64,
    pub elapsed_secs: u64,
    pub elapsed_nanos: u32,
    pub last_dice: Seq<u8>,
}

impl View for GameState {
    type V = GameStateView;

    open spec fn view(&self) -> GameStateView {
        GameStateView {
            num_dice: self.num_dice,
            interval_bits: self.interval_bits,
            trials_completed: self.trials_completed,
            elapsed_secs: self.elapsed_secs,
            elapsed_nanos: self.elapsed_nanos,
            last_dice: self.last_dice@,
        }
    }
}

impl GameStateView {
    /// The state of a run that has made no trial yet.
    pub open spec fn fresh(num_dice: usize, interval_bits: u64) -> GameStateView {
        GameStateView {
            num_dice,
            interval_bits,
            trials_completed: 0,
            elapsed_secs: 0,
            elapsed_nanos: 0,
            last_dice: Seq::empty(),
        }
    }

    /// A state is well formed when a run can have left it: at least two dice,
    /// a positive interval, less than a second beyond the whole seconds, and a
    /// latest roll that is empty or one roll of its dice.
    pub open spec fn wf(self) -> bool {
        &&& valid_config(self.num_dice, self.interval_bits)
        &&& self.elapsed_nanos < 1_000_000_000
        &&& (self.last_dice.len() == 0 || valid_roll(self.last_dice, self.num_dice))
    }

    /// The time spent, in nanoseconds.
    pub open spec fn elapsed_total(self) -> nat {
        (self.elapsed_secs * 1_000_000_000 + self.elapsed_nanos) as nat
    }
}

impl GameState {
    /// Whether the state is well formed.
    pub open spec fn wf(&self) -> bool {
        self@.wf()
    }

    /// The state of a run that has made no trial yet.
    pub fn new(num_dice: usize, interval_bits: u64) -> (state: GameState)
        ensures
            state@ == GameStateView::fresh(num_dice, interval_bits),
            state.wf() == valid_config(num_dice, interval_bits),
    {
        GameState {
            num_dice,
            interval_bits,
            trials_completed: 0,
            elapsed_secs: 0,
            elapsed_nanos: 0,
            last_dice: Vec::new(),
        }
    }

    /// Records where the run stands: the trials made, the time spent and the
    /// latest roll. The dice and the interval stay as they are.
    pub fn update(&mut self, trials: u64, elapsed_secs: u64, elapsed_nanos: u32, dice: Vec<u8>)
        ensures
            final(self)@ == (GameStateView {
                trials_completed: trials,
                elapsed_secs: elapsed_secs,
                elapsed_nanos: elapsed_nanos,
                last_dice: dice@,
                ..old(self)@
            }),
    {
        self.trials_completed = trials;
        self.elapsed_secs = elapsed_secs;
        self.elapsed_nanos = elapsed_nanos;
        self.last_dice = dice;
    }

    /// Whether the state is well formed.
    pub fn is_valid(&self) -> (valid: bool)
        ensures
            valid == self.wf(),
    {
        if self.num_dice < 2 || self.interval_bits == 0 || self.interval_bits >= INFINITY_BITS {
            return false;
        }
        if self.elapsed_nanos >= NANOS_PER_SEC {
            return false;
        }
        if self.last_dice.len() == 0 {
            return true;
        }
        if self.last_dice.len() != self.num_dice {
            return false;
        }
        let mut at: usize = 0;
        while at < self.last_dice.len()
            invariant
                at <= self.last_dice@.len(),
                all_faces(self.last_dice@.take(at as int)),
            decreases self.last_dice@.len() - at,
        {
            let value = self.last_dice[at];
            if value < MIN_FACE || value > MAX_FACE {
                return false;
            }
            proof {
                let seen = self.last_dice@.take(at + 1);
                assert forall|i: int| 0 <= i < seen.len() implies crate::dice::is_face(
                    #[trigger] seen[i],
                ) by {
                    if i < at {
                        assert(seen[i] == self.last_dice@.take(at as int)[i]);
                    }
                }
            }
            at = at + 1;
        }
        proof {
            assert(self.last_dice@.take(self.last_dice@.len() as int) == self.last_dice@);
        }
        true
    }
}

/// What looking for a checkpoint gave.
#[derive(Debug, Clone)]
pub enum LoadOutcome {
    /// There is no checkpoint.
    Absent,
    /// There is one, and it holds no valid progress; the reason, in words.
    Corrupt(String),
    /// There is one, and this is the progress it holds.
    Present(GameState),
}

impl LoadOutcome {
    /// Whether the outcome is a checkpoint that a run can go on from.
    pub open spec fn usable(&self) -> bool {
        self matches LoadOutcome::Present(state) && state.wf()
    }

    /// Sorts what was read: nothing where no checkpoint was there, the reason
    /// where its text could not be read as a state, and the state where it
    /// could. A state that is read and is not well formed counts as corrupt.
    pub fn from_read(read: Option<Result<GameState, String>>) -> (outcome: LoadOutcome)
        ensures
            read is None ==> outcome is Absent,
            read matches Some(Err(reason)) ==> outcome == LoadOutcome::Corrupt(reason),
            read matches Some(Ok(state)) ==> (if state.wf() {
                outcome == LoadOutcome::Present(state)
            } else {
                outcome matches LoadOutcome::Corrupt(reason) && reason@ == INVALID_STATE@
            }),
    {
        match read {
            None => LoadOutcome::Absent,
            Some(Err(reason)) => LoadOutcome::Corrupt(reason),
            Some(Ok(state)) => {
                if state.is_valid() {
                    LoadOutcome::Present(state)
                } else {
                    LoadOutcome::Corrupt(invalid_state_reason())
                }
            },
        }
    }

    /// Whether `fault` is what the user is told when a run that was asked to
    /// go on from a checkpoint for `num_dice` dice cannot: nothing where the
    /// outcome can be gone on from, and nothing where no checkpoint was there.
    pub open spec fn explains(&self, num_dice: usize, fault: Option<AppError>) -> bool {
        match *self {
            LoadOutcome::Absent => fault is None,
            LoadOutcome::Corrupt(reason) => fault == Some(AppError::CheckpointCorrupt { reason }),
            LoadOutcome::Present(state) => if !state.wf() {
                fault matches Some(AppError::CheckpointCorrupt { reason })
                    && reason@ == INVALID_STATE@
            } else if state.num_dice != num_dice {
                fault == Some(
                    AppError::CheckpointMismatch { saved: state.num_dice, requested: num_dice },
                )
            } else {
                fault is None
            },
        }
    }
}

/// The reason given for a checkpoint that reads as a state and is not well
/// formed.
pub const INVALID_STATE: &'static str = "checkpoint holds an invalid state";

/// The reason given for a checkpoint that reads as a state and is not well
/// formed, as a text of its own.
pub fn invalid_state_reason() -> (reason: String)
    ensures
        reason@ == INVALID_STATE@,
{
    INVALID_STATE.to_owned()
}

} // verus!
