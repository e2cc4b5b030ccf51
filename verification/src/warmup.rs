//! Warmup: the rate climbs a polynomial ramp for `num_warmup_steps` steps and
//! is the full rate from then on.

use crate::base::{
    advance, count_after, count_after_many, LearningRate, LrScheduler, Rate, RateView, Scalar,
};
use vstd::prelude::*;

verus! {

/// The length of the warmup that a configuration has unless it is given
/// another.
pub const DEFAULT_NUM_WARMUP_STEPS: usize = 5;

/// The bit pattern of the power that a configuration has unless it is given
/// another: one, which makes the ramp linear.
pub const DEFAULT_POWER_BITS: u64 = 0x3FF0_0000_0000_0000;

/// Configuration of a [`WarmUpScheduler`].
#[derive(Clone, Copy, Debug)]
pub struct WarmUpSchedulerConfig {
    init_lr: LearningRate,
    num_warmup_steps: usize,
    power: Scalar,
}

/// What a [`WarmUpSchedulerConfig`] holds.
pub struct WarmUpSchedulerConfigView {
    /// The rate once the warmup is over.
    pub init_lr: LearningRate,
    /// The number of steps that the warmup takes.
    pub num_warmup_steps: nat,
    /// The power of the ramp.
    pub power: Scalar,
}

impl View for WarmUpSchedulerConfig {
    type V = WarmUpSchedulerConfigView;

    closed spec fn view(&self) -> WarmUpSchedulerConfigView {
        WarmUpSchedulerConfigView {
            init_lr: self.init_lr,
            num_warmup_steps: self.num_warmup_steps as nat,
            power: self.power,
        }
    }
}

/// Ramps the rate up to `init_lr` over the first `num_warmup_steps` steps.
#[derive(Clone, Copy, Debug)]
pub struct WarmUpScheduler {
    init_lr: LearningRate,
    num_warmup_steps: usize,
    power: Scalar,
    step: usize,
}

/// What a [`WarmUpScheduler`] holds: its configuration and the number of
/// steps done.
pub struct WarmUpSchedulerView {
    pub init_lr: LearningRate,
    pub num_warmup_steps: nat,
    pub power: Scalar,
    pub step: nat,
}

impl WarmUpSchedulerView {
    /// The warmup's length and the counter are ones that a scheduler holds.
    pub open spec fn wf(self) -> bool {
        &&& self.num_warmup_steps <= usize::MAX
        &&& self.step <= usize::MAX
    }

    /// The scheduler that `config` gives, with no step done.
    pub open spec fn fresh(config: WarmUpSchedulerConfigView) -> Self {
        WarmUpSchedulerView {
            init_lr: config.init_lr,
            num_warmup_steps: config.num_warmup_steps,
            power: config.power,
            step: 0,
        }
    }

    /// The state after one more step.
    pub open spec fn advanced(self) -> Self {
        WarmUpSchedulerView { step: count_after(self.step), ..self }
    }

    /// The state after `n` more steps.
    pub open spec fn after(self, n: nat) -> Self {
        WarmUpSchedulerView { step: count_after_many(self.step, n), ..self }
    }

    /// The warmup is not over: fewer than `num_warmup_steps` steps are done.
    pub open spec fn warming_up(self) -> bool {
        self.step < self.num_warmup_steps
    }

    /// The rate of the step that was done last: during the warmup
    /// `init_lr * (step / num_warmup_steps^power)`, where the counter is not
    /// raised to the power; from step `num_warmup_steps` on, `init_lr`
    /// itself.
    pub open spec fn rate(self) -> RateView {
        if self.warming_up() {
            RateView::Ramp {
                init_lr: self.init_lr,
                counter: self.step,
                num_warmup_steps: self.num_warmup_steps,
                power: self.power,
            }
        } else {
            RateView::Fixed { lr: self.init_lr }
        }
    }

    /// The snapshot of progress: the number of steps done.
    pub open spec fn record(self) -> nat {
        self.step
    }

    /// The state that resumes from `record`.
    pub open spec fn restored(self, record: nat) -> Self {
        WarmUpSchedulerView { step: record, ..self }
    }

    /// Both have the same configuration.
    pub open spec fn same_policy(self, other: Self) -> bool {
        &&& self.init_lr == other.init_lr
        &&& self.num_warmup_steps == other.num_warmup_steps
        &&& self.power == other.power
    }
}

impl View for WarmUpScheduler {
    type V = WarmUpSchedulerView;

    closed spec fn view(&self) -> WarmUpSchedulerView {
        WarmUpSchedulerView {
            init_lr: self.init_lr,
            num_warmup_steps: self.num_warmup_steps as nat,
            power: self.power,
            step: self.step as nat,
        }
    }
}

impl WarmUpSchedulerConfig {
    /// A configuration with the rate `init_lr` after the warmup, the default
    /// length and the default power.
    pub fn new(init_lr: LearningRate) -> (config: Self)
        ensures
            config@ == (WarmUpSchedulerConfigView {
                init_lr,
                num_warmup_steps: DEFAULT_NUM_WARMUP_STEPS as nat,
                power: Scalar { bits: DEFAULT_POWER_BITS },
            }),
    {
        WarmUpSchedulerConfig {
            init_lr,
            num_warmup_steps: DEFAULT_NUM_WARMUP_STEPS,
            power: Scalar { bits: DEFAULT_POWER_BITS },
        }
    }

    /// The same configuration with a warmup of `num_warmup_steps` steps.
    pub fn with_num_warmup_steps(self, num_warmup_steps: usize) -> (config: Self)
        ensures
            config@ == (WarmUpSchedulerConfigView {
                num_warmup_steps: num_warmup_steps as nat,
                ..self@
            }),
    {
        WarmUpSchedulerConfig { num_warmup_steps, ..self }
    }

    /// The same configuration with the power `power`.
    pub fn with_power(self, power: Scalar) -> (config: Self)
        ensures
            config@ == (WarmUpSchedulerConfigView { power, ..self@ }),
    {
        WarmUpSchedulerConfig { power, ..self }
    }

    /// A scheduler with this configuration and no step done.
    pub fn init(&self) -> (scheduler: WarmUpScheduler)
        ensures
            scheduler@ == WarmUpSchedulerView::fresh(self@),
            scheduler@.wf(),
    {
        WarmUpScheduler {
            init_lr: self.init_lr,
            num_warmup_steps: self.num_warmup_steps,
            power: self.power,
            step: 0,
        }
    }
}

impl LrScheduler for WarmUpScheduler {
    type Record = usize;

    open spec fn steps_done(&self) -> nat {
        self@.step
    }

    open spec fn last_rate(&self) -> RateView {
        self@.rate()
    }

    open spec fn same_policy(&self, other: &Self) -> bool {
        self@.same_policy(other@)
    }

    open spec fn record_steps(record: &usize) -> nat {
        *record as nat
    }

    /// Counts one step and gives its rate. The first step done is step 1.
    /// At step `num_warmup_steps` the rate is already `init_lr` itself, not
    /// the ramp's value there.
    fn step(&mut self) -> (rate: Rate)
        ensures
            final(self)@ == old(self)@.advanced(),
            final(self)@.wf(),
            rate@ == final(self)@.rate(),
    {
        self.step = advance(self.step);
        if self.step < self.num_warmup_steps {
            Rate::Ramp {
                init_lr: self.init_lr,
                counter: self.step,
                num_warmup_steps: self.num_warmup_steps,
                power: self.power,
            }
        } else {
            Rate::Fixed { lr: self.init_lr }
        }
    }

    /// The snapshot of progress: the number of steps done. The scheduler is
    /// left as it is.
    fn to_record(&self) -> (record: usize)
        ensures
            record == self@.record(),
    {
        self.step
    }

    /// The scheduler that goes on from `record` steps, with this one's
    /// configuration. The record is taken as it is.
    fn load_record(self, record: usize) -> (restored: Self)
        ensures
            restored@ == self@.restored(record as nat),
            restored@.wf(),
    {
        WarmUpScheduler { step: record, ..self }
    }

    proof fn lemma_rate_follows_progress(&self, other: &Self) {
    }

    proof fn lemma_same_policy_is_equivalence(&self, other: &Self, third: &Self) {
    }
}

/// `n + 1` steps are `n` steps and one more.
pub proof fn lemma_warmup_after_unfolds(v: WarmUpSchedulerView, n: nat)
    ensures
        v.after(0) == v,
        v.after(n + 1) == v.after(n).advanced(),
{
}

/// While fewer than `num_warmup_steps` steps are done, each step's rate is
/// on the ramp. Its counter is the number of steps done, so it goes up by
/// exactly one from each step to the next and stays below
/// `num_warmup_steps`; everything else in the formula stays as it is.
pub proof fn lemma_warmup_ramp_rises(v: WarmUpSchedulerView, n: nat)
    requires
        v.wf(),
        v.step + n < v.num_warmup_steps,
    ensures
        v.after(n).rate() == (RateView::Ramp {
            init_lr: v.init_lr,
            counter: v.step + n,
            num_warmup_steps: v.num_warmup_steps,
            power: v.power,
        }),
        v.step + n < v.num_warmup_steps,
{
}

/// Once `num_warmup_steps` steps are done, this step's rate and the rate of
/// every later step is `init_lr` itself; the step that ends the warmup is
/// the first of them.
pub proof fn lemma_warmup_then_holds(v: WarmUpSchedulerView, n: nat)
    requires
        v.wf(),
        v.step + n >= v.num_warmup_steps,
    ensures
        v.after(n).rate() == (RateView::Fixed { lr: v.init_lr }),
{
}

/// Saving and restoring changes nothing: a scheduler restored from its own
/// record, and a scheduler of the same configuration restored from that
/// record, are both in the state that was saved, and so is every state and
/// every rate that follows.
pub proof fn lemma_warmup_restore_round_trip(
    v: WarmUpSchedulerView,
    other: WarmUpSchedulerView,
    n: nat,
)
    requires
        other.same_policy(v),
    ensures
        v.restored(v.record()) == v,
        other.restored(v.record()) == v,
        other.restored(v.record()).after(n) == v.after(n),
        other.restored(v.record()).after(n).rate() == v.after(n).rate(),
{
}

} // verus!
