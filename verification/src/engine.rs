//! The engine of a run: from its start, trial by trial, to a match or to an
//! interruption.
//!
//! The engine decides and keeps count. Its caller reads the clock, sleeps,
//! watches for an interruption and keeps the checkpoint, and tells the engine
//! what happened.

use vstd::prelude::*;
use crate::dice::{all_same, display_text, is_all_same, roll_multiple_dice};
use crate::display::{render_frame, stats_text, Frame};
use crate::errors::AppError;
use crate::state::{
    valid_config, valid_roll, GameState, GameStateView, LoadOutcome, INFINITY_BITS, NANOS_PER_SEC,
};

verus! {

/// The progress is saved whenever the number of trials is a multiple of this.
pub const SAVE_INTERVAL: u64 = 10;

/// A time of whole seconds and nanoseconds, in nanoseconds.
pub open spec fn clock_nanos(secs: u64, nanos: u32) -> nat {
    (secs as nat) * 1_000_000_000 + nanos as nat
}

/// Whether the sum of two times has whole seconds that fit 64 bits.
pub open spec fn clock_fits(a_secs: u64, a_nanos: u32, b_secs: u64, b_nanos: u32) -> bool {
    (clock_nanos(a_secs, a_nanos) + clock_nanos(b_secs, b_nanos)) / 1_000_000_000 <= u64::MAX
}

/// The whole seconds of the sum of two times.
pub open spec fn clock_sum_secs(a_secs: u64, a_nanos: u32, b_secs: u64, b_nanos: u32) -> nat {
    (clock_nanos(a_secs, a_nanos) + clock_nanos(b_secs, b_nanos)) / 1_000_000_000
}

/// The nanoseconds that the sum of two times has beyond its whole seconds.
pub open spec fn clock_sum_nanos(a_secs: u64, a_nanos: u32, b_secs: u64, b_nanos: u32) -> nat {
    (clock_nanos(a_secs, a_nanos) + clock_nanos(b_secs, b_nanos)) % 1_000_000_000
}

/// The sum of two times, where its whole seconds fit.
pub fn add_clock(a_secs: u64, a_nanos: u32, b_secs: u64, b_nanos: u32) -> (sum: Option<(u64, u32)>)
    requires
        a_nanos < 1_000_000_000,
        b_nanos < 1_000_000_000,
    ensures
        sum is Some <==> clock_fits(a_secs, a_nanos, b_secs, b_nanos),
        sum matches Some((secs, nanos)) ==> secs == clock_sum_secs(a_secs, a_nanos, b_secs, b_nanos)
            && nanos == clock_sum_nanos(a_secs, a_nanos, b_secs, b_nanos),
{
    let nanos: u32 = a_nanos + b_nanos;
    let carry: u64 = if nanos >= NANOS_PER_SEC {
        1
    } else {
        0
    };
    let rest: u32 = if nanos >= NANOS_PER_SEC {
        nanos - NANOS_PER_SEC
    } else {
        nanos
    };
    assert(clock_nanos(a_secs, a_nanos) + clock_nanos(b_secs, b_nanos) == (a_secs + b_secs + carry)
        * 1_000_000_000 + rest);
    match a_secs.checked_add(b_secs) {
        None => None,
        Some(whole) => match whole.checked_add(carry) {
            None => None,
            Some(secs) => Some((secs, rest)),
        },
    }
}

/// Where a run stands.
#[derive(Debug, Clone, Copy, PartialEq, Eq, Structural)]
pub enum Phase {
    /// Made, and not begun: it is not yet known whether it goes on from a
    /// checkpoint.
    Initializing,
    /// Making trials.
    Running,
    /// Ended by a match.
    Succeeded,
    /// Ended from outside.
    Interrupted,
}

/// A run.
#[derive(Debug)]
pub struct TrialEngine {
    /// The progress, as it would be saved now.
    pub state: GameState,
    /// The whole seconds that the run took over from a checkpoint.
    pub carried_secs: u64,
    /// The nanoseconds that it took over beyond them.
    pub carried_nanos: u32,
    /// Where the run stands.
    pub phase: Phase,
}

/// How a run began.
#[derive(Debug)]
pub struct Startup {
    /// Whether the run goes on from the checkpoint.
    pub resumed: bool,
    /// Whether the checkpoint, if there is one, is to be removed before the
    /// first trial.
    pub discard_checkpoint: bool,
    /// What kept the run from going on from the checkpoint it was asked to go
    /// on from, where that is a fault to tell of.
    pub fault: Option<AppError>,
}

/// What one trial gave.
#[derive(Debug)]
pub struct TickOutcome {
    /// The number of the trial, counted from one over the whole run.
    pub trial: u64,
    /// Whether the dice match. The run has then ended.
    pub is_match: bool,
    /// Whether the progress is to be saved now.
    pub save_checkpoint: bool,
    /// Whether the checkpoint is to be removed, after any saving.
    pub delete_checkpoint: bool,
    /// The lines to show.
    pub frame: Frame,
}

/// What follows a sleep.
#[derive(Debug, Clone, Copy, PartialEq, Eq, Structural)]
pub enum Wake {
    /// The next trial.
    Continue,
    /// The run has ended: the progress is to be saved, and the user told how
    /// to take it up again.
    SaveAndStop,
}

/// How `begin` takes a run from `pre` to `post`.
pub open spec fn began(
    pre: TrialEngine,
    resume: bool,
    loaded: LoadOutcome,
    post: TrialEngine,
    startup: Startup,
) -> bool {
    let goes_on = resume && loaded.usable() && loaded->Present_0.num_dice == pre.state.num_dice;
    &&& post.phase == Phase::Running
    &&& startup.resumed == goes_on
    &&& startup.discard_checkpoint == !goes_on
    &&& if resume {
        loaded.explains(pre.state.num_dice, startup.fault)
    } else {
        startup.fault is None
    }
    &&& if goes_on {
        let saved = loaded->Present_0;
        &&& post.state@ == (GameStateView { interval_bits: pre.state.interval_bits, ..saved@ })
        &&& post.carried_secs == saved.elapsed_secs
        &&& post.carried_nanos == saved.elapsed_nanos
    } else {
        &&& post.state@ == GameStateView::fresh(pre.state.num_dice, pre.state.interval_bits)
        &&& post.carried_secs == 0
        &&& post.carried_nanos == 0
    }
}

/// How the trial in which `dice` were rolled, `seg_secs` seconds and
/// `seg_nanos` nanoseconds after the run began or went on, takes a run from
/// `pre` to `post`.
pub open spec fn rolled(
    pre: TrialEngine,
    dice: Seq<u8>,
    seg_secs: u64,
    seg_nanos: u32,
    post: TrialEngine,
    outcome: TickOutcome,
) -> bool {
    let secs = clock_sum_secs(pre.carried_secs, pre.carried_nanos, seg_secs, seg_nanos);
    let nanos = clock_sum_nanos(pre.carried_secs, pre.carried_nanos, seg_secs, seg_nanos);
    &&& post.state.trials_completed == pre.state.trials_completed + 1
    &&& post.state.elapsed_secs == secs
    &&& post.state.elapsed_nanos == nanos
    &&& post.state.last_dice@ == dice
    &&& post.state.num_dice == pre.state.num_dice
    &&& post.state.interval_bits == pre.state.interval_bits
    &&& post.carried_secs == pre.carried_secs
    &&& post.carried_nanos == pre.carried_nanos
    &&& post.phase == if all_same(dice) {
        Phase::Succeeded
    } else {
        Phase::Running
    }
    &&& outcome.trial == pre.state.trials_completed + 1
    &&& outcome.is_match == all_same(dice)
    &&& outcome.save_checkpoint == (outcome.trial % 10 == 0)
    &&& outcome.delete_checkpoint == all_same(dice)
    &&& outcome.frame.dice_line@ == display_text(dice, all_same(dice))
    &&& outcome.frame.stats_lead@ == stats_text(outcome.trial as nat, secs)
    &&& outcome.frame.rewind == !all_same(dice)
}

impl TrialEngine {
    /// A run is well formed when its progress is, when the time it took over
    /// is a time and no more than the time it has spent, and when it has made
    /// no trial before it has begun.
    pub open spec fn wf(&self) -> bool {
        &&& self.state.wf()
        &&& self.carried_nanos < 1_000_000_000
        &&& clock_nanos(self.carried_secs, self.carried_nanos) <= self.state@.elapsed_total()
        &&& self.phase == Phase::Initializing ==> self.state@ == GameStateView::fresh(
            self.state.num_dice,
            self.state.interval_bits,
        ) && self.carried_secs == 0 && self.carried_nanos == 0
    }

    /// Whether the run can take an event at `seg_secs` seconds and
    /// `seg_nanos` nanoseconds after it began or went on: it is making
    /// trials, the time is a time, and the time spent in all still fits.
    pub open spec fn ready(&self, seg_secs: u64, seg_nanos: u32) -> bool {
        &&& self.wf()
        &&& self.phase == Phase::Running
        &&& seg_nanos < 1_000_000_000
        &&& clock_fits(self.carried_secs, self.carried_nanos, seg_secs, seg_nanos)
    }

    /// Whether the run can make one more trial at that time, with `dice` as
    /// its roll: it can take an event then, it can still count the trial, and
    /// `dice` is one roll of its dice.
    pub open spec fn ready_for(&self, dice: Seq<u8>, seg_secs: u64, seg_nanos: u32) -> bool {
        &&& self.ready(seg_secs, seg_nanos)
        &&& self.state.trials_completed < u64::MAX
        &&& valid_roll(dice, self.state.num_dice)
    }

    /// A run of `num_dice` dice with `interval_bits` between its trials, not
    /// yet begun. A run needs two dice or more, and a positive interval.
    pub fn new(num_dice: usize, interval_bits: u64) -> (made: Result<TrialEngine, AppError>)
        ensures
            made is Ok <==> valid_config(num_dice, interval_bits),
            made matches Err(fault) ==> fault == (AppError::InvalidConfiguration {
                num_dice,
                interval_bits,
            }),
            made matches Ok(engine) ==> engine.wf() && engine.phase == Phase::Initializing
                && engine.state@ == GameStateView::fresh(num_dice, interval_bits),
    {
        if num_dice < 2 || interval_bits == 0 || interval_bits >= INFINITY_BITS {
            return Err(AppError::InvalidConfiguration { num_dice, interval_bits });
        }
        Ok(
            TrialEngine {
                state: GameState::new(num_dice, interval_bits),
                carried_secs: 0,
                carried_nanos: 0,
                phase: Phase::Initializing,
            },
        )
    }

    /// Begins the run. Asked to resume, it goes on from the checkpoint where
    /// one was found that is well formed and was saved for the same number of
    /// dice: it takes over the trials made, the time spent and the latest
    /// roll, and keeps its own interval. In every other case it starts from
    /// nothing, and any checkpoint is to be removed.
    pub fn begin(&mut self, resume: bool, loaded: LoadOutcome) -> (startup: Startup)
        requires
            old(self).wf(),
            old(self).phase == Phase::Initializing,
        ensures
            final(self).wf(),
            began(*old(self), resume, loaded, *final(self), startup),
    {
        self.phase = Phase::Running;
        if !resume {
            return Startup { resumed: false, discard_checkpoint: true, fault: None };
        }
        match loaded {
            LoadOutcome::Absent => Startup { resumed: false, discard_checkpoint: true, fault: None },
            LoadOutcome::Corrupt(reason) => Startup {
                resumed: false,
                discard_checkpoint: true,
                fault: Some(AppError::CheckpointCorrupt { reason }),
            },
            LoadOutcome::Present(saved) => {
                if !saved.is_valid() {
                    Startup {
                        resumed: false,
                        discard_checkpoint: true,
                        fault: Some(
                            AppError::CheckpointCorrupt {
                                reason: crate::state::invalid_state_reason(),
                            },
                        ),
                    }
                } else if saved.num_dice != self.state.num_dice {
                    Startup {
                        resumed: false,
                        discard_checkpoint: true,
                        fault: Some(
                            AppError::CheckpointMismatch {
                                saved: saved.num_dice,
                                requested: self.state.num_dice,
                            },
                        ),
                    }
                } else {
                    self.carried_secs = saved.elapsed_secs;
                    self.carried_nanos = saved.elapsed_nanos;
                    self.state.trials_completed = saved.trials_completed;
                    self.state.elapsed_secs = saved.elapsed_secs;
                    self.state.elapsed_nanos = saved.elapsed_nanos;
                    self.state.last_dice = saved.last_dice;
                    Startup { resumed: true, discard_checkpoint: false, fault: None }
                }
            },
        }
    }

    /// Whether the run can take an event at that time.
    pub fn is_ready(&self, seg_secs: u64, seg_nanos: u32) -> (ready: bool)
        ensures
            ready == self.ready(seg_secs, seg_nanos),
    {
        if !self.is_well_formed() || self.phase != Phase::Running || seg_nanos >= NANOS_PER_SEC {
            return false;
        }
        add_clock(self.carried_secs, self.carried_nanos, seg_secs, seg_nanos).is_some()
    }

    /// Whether the run is well formed.
    pub fn is_well_formed(&self) -> (valid: bool)
        ensures
            valid == self.wf(),
    {
        if !self.state.is_valid() || self.carried_nanos >= NANOS_PER_SEC {
            return false;
        }
        let carried_first = self.carried_secs < self.state.elapsed_secs || (self.carried_secs
            == self.state.elapsed_secs && self.carried_nanos <= self.state.elapsed_nanos);
        if !carried_first {
            return false;
        }
        proof {
            if self.state.last_dice@.len() == 0 {
                assert(self.state.last_dice@ =~= Seq::<u8>::empty());
            }
        }
        if self.phase == Phase::Initializing {
            self.state.trials_completed == 0 && self.state.elapsed_secs == 0
                && self.state.elapsed_nanos == 0 && self.state.last_dice.len() == 0
                && self.carried_secs == 0 && self.carried_nanos == 0
        } else {
            true
        }
    }

    /// Makes one trial with `dice` as its roll: counts it, records the roll
    /// and the time spent in all, and draws it. A match ends the run.
    pub fn apply_roll(&mut self, dice: Vec<u8>, seg_secs: u64, seg_nanos: u32) -> (outcome:
        TickOutcome)
        requires
            old(self).ready_for(dice@, seg_secs, seg_nanos),
        ensures
            final(self).wf(),
            rolled(*old(self), dice@, seg_secs, seg_nanos, *final(self), outcome),
    {
        let trial: u64 = self.state.trials_completed + 1;
        let (secs, nanos) = add_clock(
            self.carried_secs,
            self.carried_nanos,
            seg_secs,
            seg_nanos,
        ).unwrap();
        let frame = render_frame(dice.as_slice(), trial, secs);
        let is_match = is_all_same(dice.as_slice());
        self.state.trials_completed = trial;
        self.state.elapsed_secs = secs;
        self.state.elapsed_nanos = nanos;
        self.state.last_dice = dice;
        if is_match {
            self.phase = Phase::Succeeded;
        }
        TickOutcome {
            trial,
            is_match,
            save_checkpoint: trial % SAVE_INTERVAL == 0,
            delete_checkpoint: is_match,
            frame,
        }
    }

    /// Makes one trial: rolls the dice of the run and goes on as `apply_roll`
    /// does with that roll, which is then the latest roll of the progress.
    pub fn tick(&mut self, seg_secs: u64, seg_nanos: u32) -> (outcome: TickOutcome)
        requires
            old(self).ready(seg_secs, seg_nanos),
            old(self).state.trials_completed < u64::MAX,
        ensures
            final(self).wf(),
            valid_roll(final(self).state.last_dice@, old(self).state.num_dice),
            rolled(
                *old(self),
                final(self).state.last_dice@,
                seg_secs,
                seg_nanos,
                *final(self),
                outcome,
            ),
    {
        let dice = roll_multiple_dice(self.state.num_dice);
        self.apply_roll(dice, seg_secs, seg_nanos)
    }

    /// Takes up the run after a sleep. Where an interruption was signalled
    /// the run ends: the time spent in all is recorded, and the progress is to
    /// be saved. Else nothing changes and the next trial follows.
    pub fn wake(&mut self, interrupted: bool, seg_secs: u64, seg_nanos: u32) -> (next: Wake)
        requires
            old(self).ready(seg_secs, seg_nanos),
        ensures
            final(self).wf(),
            !interrupted ==> next == Wake::Continue && *final(self) == *old(self),
            interrupted ==> next == Wake::SaveAndStop && final(self).phase == Phase::Interrupted
                && final(self).carried_secs == old(self).carried_secs && final(self).carried_nanos
                == old(self).carried_nanos && final(self).state@ == (GameStateView {
                elapsed_secs: clock_sum_secs(
                    old(self).carried_secs,
                    old(self).carried_nanos,
                    seg_secs,
                    seg_nanos,
                ) as u64,
                elapsed_nanos: clock_sum_nanos(
                    old(self).carried_secs,
                    old(self).carried_nanos,
                    seg_secs,
                    seg_nanos,
                ) as u32,
                ..old(self).state@
            }),
    {
        if !interrupted {
            return Wake::Continue;
        }
        let (secs, nanos) = add_clock(
            self.carried_secs,
            self.carried_nanos,
            seg_secs,
            seg_nanos,
        ).unwrap();
        self.state.elapsed_secs = secs;
        self.state.elapsed_nanos = nanos;
        self.phase = Phase::Interrupted;
        Wake::SaveAndStop
    }
}

/// The time spent in all is the time taken over and the time since the run
/// began or went on, so it is never less than the time taken over.
pub proof fn lemma_time_spent_adds_up(
    pre: TrialEngine,
    dice: Seq<u8>,
    seg_secs: u64,
    seg_nanos: u32,
    post: TrialEngine,
    outcome: TickOutcome,
)
    requires
        rolled(pre, dice, seg_secs, seg_nanos, post, outcome),
    ensures
        post.state@.elapsed_total() == clock_nanos(pre.carried_secs, pre.carried_nanos)
            + clock_nanos(seg_secs, seg_nanos),
        post.state@.elapsed_total() >= clock_nanos(pre.carried_secs, pre.carried_nanos),
        post.state.elapsed_nanos < 1_000_000_000,
{
}

/// Time only grows: of two trials of a run, the later leaves no less time
/// spent than the earlier, as long as the clock it is read from does not run
/// back.
pub proof fn lemma_elapsed_only_grows(
    pre: TrialEngine,
    first_dice: Seq<u8>,
    first_secs: u64,
    first_nanos: u32,
    mid: TrialEngine,
    first: TickOutcome,
    later_dice: Seq<u8>,
    later_secs: u64,
    later_nanos: u32,
    post: TrialEngine,
    later: TickOutcome,
)
    requires
        rolled(pre, first_dice, first_secs, first_nanos, mid, first),
        rolled(mid, later_dice, later_secs, later_nanos, post, later),
        clock_nanos(first_secs, first_nanos) <= clock_nanos(later_secs, later_nanos),
    ensures
        mid.state@.elapsed_total() <= post.state@.elapsed_total(),
        mid.state.trials_completed < post.state.trials_completed,
{
    lemma_time_spent_adds_up(pre, first_dice, first_secs, first_nanos, mid, first);
    lemma_time_spent_adds_up(mid, later_dice, later_secs, later_nanos, post, later);
}

/// A trial adds one to the count of trials, whatever the dice show, and the
/// progress is saved exactly at every tenth trial.
pub proof fn lemma_trial_counts_once(
    pre: TrialEngine,
    dice: Seq<u8>,
    seg_secs: u64,
    seg_nanos: u32,
    post: TrialEngine,
    outcome: TickOutcome,
)
    requires
        rolled(pre, dice, seg_secs, seg_nanos, post, outcome),
    ensures
        post.state.trials_completed == pre.state.trials_completed + 1,
        outcome.trial == post.state.trials_completed,
        outcome.save_checkpoint <==> post.state.trials_completed % 10 == 0,
{
}

/// A run ends once: a match ends it, and a run that has ended in a match or
/// in an interruption takes no further event. A trial without a match leaves
/// the run making trials.
pub proof fn lemma_run_ends_once(
    pre: TrialEngine,
    dice: Seq<u8>,
    seg_secs: u64,
    seg_nanos: u32,
    post: TrialEngine,
    outcome: TickOutcome,
    next_secs: u64,
    next_nanos: u32,
)
    requires
        rolled(pre, dice, seg_secs, seg_nanos, post, outcome),
    ensures
        outcome.is_match <==> post.phase == Phase::Succeeded,
        outcome.is_match ==> outcome.delete_checkpoint && !post.ready(next_secs, next_nanos),
        !outcome.is_match ==> post.phase == Phase::Running && !outcome.delete_checkpoint,
{
}

/// A run that has ended takes no further event.
pub proof fn lemma_ended_run_is_not_ready(engine: TrialEngine, seg_secs: u64, seg_nanos: u32)
    requires
        engine.phase == Phase::Succeeded || engine.phase == Phase::Interrupted,
    ensures
        !engine.ready(seg_secs, seg_nanos),
        forall|dice: Seq<u8>| !engine.ready_for(dice, seg_secs, seg_nanos),
{
}

/// A run that goes on from a checkpoint saved for its number of dice counts
/// on from the trials saved there: its first trial has the next number, the
/// checkpoint is kept, and the time spent is the time saved and the time since.
pub proof fn lemma_resumed_run_counts_on(
    pre: TrialEngine,
    saved: GameState,
    mid: TrialEngine,
    startup: Startup,
    dice: Seq<u8>,
    seg_secs: u64,
    seg_nanos: u32,
    post: TrialEngine,
    outcome: TickOutcome,
)
    requires
        saved.wf(),
        saved.num_dice == pre.state.num_dice,
        began(pre, true, LoadOutcome::Present(saved), mid, startup),
        rolled(mid, dice, seg_secs, seg_nanos, post, outcome),
    ensures
        startup.resumed,
        !startup.discard_checkpoint,
        startup.fault is None,
        outcome.trial == saved.trials_completed + 1,
        post.state@.elapsed_total() == saved@.elapsed_total() + clock_nanos(seg_secs, seg_nanos),
{
}

/// Nothing is lost between two runs: a run that goes on from the progress
/// that an earlier run of as many dice left has made the trials, spent the
/// time and rolled the latest roll that the earlier run had.
pub proof fn lemma_saved_progress_is_taken_up(
    earlier: TrialEngine,
    pre: TrialEngine,
    post: TrialEngine,
    startup: Startup,
)
    requires
        earlier.wf(),
        pre.state.num_dice == earlier.state.num_dice,
        began(pre, true, LoadOutcome::Present(earlier.state), post, startup),
    ensures
        startup.resumed,
        post.state.trials_completed == earlier.state.trials_completed,
        post.state@.elapsed_total() == earlier.state@.elapsed_total(),
        post.state.last_dice@ == earlier.state.last_dice@,
        clock_nanos(post.carried_secs, post.carried_nanos) == earlier.state@.elapsed_total(),
{
}

/// A run that is asked to go on from a checkpoint saved for another number of
/// dice starts from nothing: the checkpoint is to be removed, the user is told
/// of both numbers, and the first trial has number one.
pub proof fn lemma_mismatched_run_starts_over(
    pre: TrialEngine,
    saved: GameState,
    mid: TrialEngine,
    startup: Startup,
    dice: Seq<u8>,
    seg_secs: u64,
    seg_nanos: u32,
    post: TrialEngine,
    outcome: TickOutcome,
)
    requires
        saved.wf(),
        saved.num_dice != pre.state.num_dice,
        began(pre, true, LoadOutcome::Present(saved), mid, startup),
        rolled(mid, dice, seg_secs, seg_nanos, post, outcome),
    ensures
        !startup.resumed,
        startup.discard_checkpoint,
        startup.fault == Some(
            AppError::CheckpointMismatch { saved: saved.num_dice, requested: pre.state.num_dice },
        ),
        outcome.trial == 1,
{
}

/// A run that is not asked to go on starts from nothing whatever the
/// checkpoint holds: the checkpoint is to be removed before the first trial,
/// which has number one.
pub proof fn lemma_fresh_run_discards_checkpoint(
    pre: TrialEngine,
    loaded: LoadOutcome,
    mid: TrialEngine,
    startup: Startup,
    dice: Seq<u8>,
    seg_secs: u64,
    seg_nanos: u32,
    post: TrialEngine,
    outcome: TickOutcome,
)
    requires
        began(pre, false, loaded, mid, startup),
        rolled(mid, dice, seg_secs, seg_nanos, post, outcome),
    ensures
        !startup.resumed,
        startup.discard_checkpoint,
        startup.fault is None,
        mid.state@ == GameStateView::fresh(pre.state.num_dice, pre.state.interval_bits),
        outcome.trial == 1,
{
}

} // verus!
