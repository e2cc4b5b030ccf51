//! The Noam schedule: the rate rises in proportion to the step count for
//! `warmup_steps` steps and falls with the inverse square root of the step
//! count from then on, both scaled by the inverse square root of the model's
//! width.

use crate::base::{
    advance, count_after, count_after_many, LearningRate, LrScheduler, Rate, RateView,
};
use vstd::prelude::*;

verus! {

/// The length of the rise that a configuration has unless it is given
/// another.
pub const DEFAULT_WARMUP_STEPS: usize = 4000;

/// The width of the model that a configuration has unless it is given
/// another.
pub const DEFAULT_MODEL_SIZE: usize = 512;

/// Configuration of a [`NoamLrScheduler`].
#[derive(Clone, Copy, Debug)]
pub struct NoamLrSchedulerConfig {
    init_lr: LearningRate,
    warmup_steps: usize,
    model_size: usize,
}

/// What a [`NoamLrSchedulerConfig`] holds.
pub struct NoamLrSchedulerConfigView {
    /// The rate that the schedule scales.
    pub init_lr: LearningRate,
    /// The number of steps for which the rate rises.
    pub warmup_steps: nat,
    /// The width of the model.
    pub model_size: nat,
}

impl View for NoamLrSchedulerConfig {
    type V = NoamLrSchedulerConfigView;

    closed spec fn view(&self) -> NoamLrSchedulerConfigView {
        NoamLrSchedulerConfigView {
            init_lr: self.init_lr,
            warmup_steps: self.warmup_steps as nat,
            model_size: self.model_size as nat,
        }
    }
}

/// Lets the rate rise for `warmup_steps` steps and fall from then on.
#[derive(Clone, Copy, Debug)]
pub struct NoamLrScheduler {
    init_lr: LearningRate,
    warmup_steps: usize,
    model_size: usize,
    step: usize,
}

/// What a [`NoamLrScheduler`] holds: its configuration and the number of
/// steps done.
pub struct NoamLrSchedulerView {
    pub init_lr: LearningRate,
    pub warmup_steps: nat,
    pub model_size: nat,
    pub step: nat,
}

impl NoamLrSchedulerView {
    /// The configuration and the counter are ones that a scheduler holds.
    pub open spec fn wf(self) -> bool {
        &&& self.warmup_steps <= usize::MAX
        &&& self.model_size <= usize::MAX
        &&& self.step <= usize::MAX
    }

    /// The scheduler that `config` gives, with no step done.
    pub open spec fn fresh(config: NoamLrSchedulerConfigView) -> Self {
        NoamLrSchedulerView {
            init_lr: config.init_lr,
            warmup_steps: config.warmup_steps,
            model_size: config.model_size,
            step: 0,
        }
    }

    /// The state after one more step.
    pub open spec fn advanced(self) -> Self {
        NoamLrSchedulerView { step: count_after(self.step), ..self }
    }

    /// The state after `n` more steps.
    pub open spec fn after(self, n: nat) -> Self {
        NoamLrSchedulerView { step: count_after_many(self.step, n), ..self }
    }

    /// The rate still rises: fewer than `warmup_steps` steps are done.
    pub open spec fn rising(self) -> bool {
        self.step < self.warmup_steps
    }

    /// The rate of the step that was done last. While it rises it is
    /// `init_lr * model_size^-0.5 * (step * warmup_steps^-1.5)`; from step
    /// `warmup_steps` on, where the two formulas meet, it is
    /// `init_lr * model_size^-0.5 * step^-0.5`.
    pub open spec fn rate(self) -> RateView {
        if self.rising() {
            RateView::NoamRise {
                init_lr: self.init_lr,
                model_size: self.model_size,
                warmup_steps: self.warmup_steps,
                counter: self.step,
            }
        } else {
            RateView::NoamFall {
                init_lr: self.init_lr,
                model_size: self.model_size,
                counter: self.step,
            }
        }
    }

    /// The snapshot of progress: the number of steps done.
    pub open spec fn record(self) -> nat {
        self.step
    }

    /// The state that resumes from `record`.
    pub open spec fn restored(self, record: nat) -> Self {
        NoamLrSchedulerView { step: record, ..self }
    }

    /// Both have the same configuration.
    pub open spec fn same_policy(self, other: Self) -> bool {
        &&& self.init_lr == other.init_lr
        &&& self.warmup_steps == other.warmup_steps
        &&& self.model_size == other.model_size
    }
}

impl View for NoamLrScheduler {
    type V = NoamLrSchedulerView;

    closed spec fn view(&self) -> NoamLrSchedulerView {
        NoamLrSchedulerView {
            init_lr: self.init_lr,
            warmup_steps: self.warmup_steps as nat,
            model_size: self.model_size as nat,
            step: self.step as nat,
        }
    }
}

impl NoamLrSchedulerConfig {
    /// A configuration with the rate `init_lr`, the default length of the
    /// rise and the default width.
    pub fn new(init_lr: LearningRate) -> (config: Self)
        ensures
            config@ == (NoamLrSchedulerConfigView {
                init_lr,
                warmup_steps: DEFAULT_WARMUP_STEPS as nat,
                model_size: DEFAULT_MODEL_SIZE as nat,
            }),
    {
        NoamLrSchedulerConfig {
            init_lr,
            warmup_steps: DEFAULT_WARMUP_STEPS,
            model_size: DEFAULT_MODEL_SIZE,
        }
    }

    /// The same configuration with a rise of `warmup_steps` steps.
    pub fn with_warmup_steps(self, warmup_steps: usize) -> (config: Self)
        ensures
            config@ == (NoamLrSchedulerConfigView { warmup_steps: warmup_steps as nat, ..self@ }),
    {
        NoamLrSchedulerConfig { warmup_steps, ..self }
    }

    /// The same configuration with the width `model_size`.
    pub fn with_model_size(self, model_size: usize) -> (config: Self)
        ensures
            config@ == (NoamLrSchedulerConfigView { model_size: model_size as nat, ..self@ }),
    {
        NoamLrSchedulerConfig { model_size, ..self }
    }

    /// A scheduler with this configuration and no step done.
    pub fn init(&self) -> (scheduler: NoamLrScheduler)
        ensures
            scheduler@ == NoamLrSchedulerView::fresh(self@),
            scheduler@.wf(),
    {
        NoamLrScheduler {
            init_lr: self.init_lr,
            warmup_steps: self.warmup_steps,
            model_size: self.model_size,
            step: 0,
        }
    }
}

impl LrScheduler for NoamLrScheduler {
    type Record = usize;

    open spec fn steps_done(&self) -> nat {
        self@.step
    }

    open spec fn last_rate(&self) -> RateView {
        self@.rate()
    }

    open spec fn same_policy(&self, other: &Self) -> bool {
        self@.same_policy(other@)
    }

    open spec fn record_steps(record: &usize) -> nat {
        *record as nat
    }

    /// Counts one step and gives its rate. The first step done is step 1.
    fn step(&mut self) -> (rate: Rate)
        ensures
            final(self)@ == old(self)@.advanced(),
            final(self)@.wf(),
            rate@ == final(self)@.rate(),
    {
        self.step = advance(self.step);
        if self.step < self.warmup_steps {
            Rate::NoamRise {
                init_lr: self.init_lr,
                model_size: self.model_size,
                warmup_steps: self.warmup_steps,
                counter: self.step,
            }
        } else {
            Rate::NoamFall {
                init_lr: self.init_lr,
                model_size: self.model_size,
                counter: self.step,
            }
        }
    }

    /// The snapshot of progress: the number of steps done. The scheduler is
    /// left as it is.
    fn to_record(&self) -> (record: usize)
        ensures
            record == self@.record(),
    {
        self.step
    }

    /// The scheduler that goes on from `record` steps, with this one's
    /// configuration. The record is taken as it is.
    fn load_record(self, record: usize) -> (restored: Self)
        ensures
            restored@ == self@.restored(record as nat),
            restored@.wf(),
    {
        NoamLrScheduler { step: record, ..self }
    }

    proof fn lemma_rate_follows_progress(&self, other: &Self) {
    }

    proof fn lemma_same_policy_is_equivalence(&self, other: &Self, third: &Self) {
    }
}

/// `n + 1` steps are `n` steps and one more.
pub proof fn lemma_noam_after_unfolds(v: NoamLrSchedulerView, n: nat)
    ensures
        v.after(0) == v,
        v.after(n + 1) == v.after(n).advanced(),
{
}

/// While fewer than `warmup_steps` steps are done, each step's rate is on
/// the rise, and the counter that it is in proportion to goes up by exactly
/// one from each step to the next.
pub proof fn lemma_noam_rises(v: NoamLrSchedulerView, n: nat)
    requires
        v.wf(),
        v.step + n < v.warmup_steps,
    ensures
        v.after(n).rate() == (RateView::NoamRise {
            init_lr: v.init_lr,
            model_size: v.model_size,
            warmup_steps: v.warmup_steps,
            counter: v.step + n,
        }),
{
}

/// Once `warmup_steps` steps are done, every step's rate is on the fall,
/// and the counter whose inverse square root it is in proportion to never
/// goes down.
pub proof fn lemma_noam_then_falls(v: NoamLrSchedulerView, n: nat)
    requires
        v.wf(),
        v.step + n >= v.warmup_steps,
    ensures
        v.after(n).rate() == (RateView::NoamFall {
            init_lr: v.init_lr,
            model_size: v.model_size,
            counter: count_after_many(v.step, n),
        }),
        count_after_many(v.step, n) <= count_after_many(v.step, n + 1),
{
}

/// Saving and restoring changes nothing: a scheduler restored from its own
/// record, and a scheduler of the same configuration restored from that
/// record, are both in the state that was saved, and so is every state and
/// every rate that follows.
pub proof fn lemma_noam_restore_round_trip(
    v: NoamLrSchedulerView,
    other: NoamLrSchedulerView,
    n: nat,
)
    requires
        other.same_policy(v),
    ensures
        v.restored(v.record()) == v,
        other.restored(v.record()) == v,
        other.restored(v.record()).after(n) == v.after(n),
        other.restored(v.record()).after(n).rate() == v.after(n).rate(),
{
}

} // verus!
