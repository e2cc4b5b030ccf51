//! Step decay: the rate drops by a constant factor once every `step_size`
//! steps and is constant in between.

use crate::base::{
    advance, count_after, count_after_many, LearningRate, LrScheduler, Rate, RateView, Scalar,
};
use vstd::prelude::*;

verus! {

/// The period of decay that a configuration has unless it is given another.
pub const DEFAULT_STEP_SIZE: i64 = 10;

/// The bit pattern of the decay factor that a configuration has unless it is
/// given another: one tenth, rounded to double precision.
pub const DEFAULT_GAMMA_BITS: u64 = 0x3FB9_9999_9999_999A;

/// How often the rate has been decayed once `steps` steps are done: the whole
/// part of `steps / step_size`.
pub open spec fn decay_exponent(steps: nat, step_size: int) -> nat
    recommends
        step_size > 0,
{
    (steps as int / step_size) as nat
}

/// Configuration of a [`StepLrScheduler`].
#[derive(Clone, Copy, Debug)]
pub struct StepLrSchedulerConfig {
    init_lr: LearningRate,
    step_size: i64,
    gamma: Scalar,
}

/// What a [`StepLrSchedulerConfig`] holds.
pub struct StepLrSchedulerConfigView {
    /// The rate before any decay.
    pub init_lr: LearningRate,
    /// The number of steps between two decays.
    pub step_size: int,
    /// The factor of one decay.
    pub gamma: Scalar,
}

impl StepLrSchedulerConfigView {
    /// A scheduler can be made from the configuration: the period is positive.
    pub open spec fn valid(self) -> bool {
        self.step_size > 0
    }
}

impl View for StepLrSchedulerConfig {
    type V = StepLrSchedulerConfigView;

    closed spec fn view(&self) -> StepLrSchedulerConfigView {
        StepLrSchedulerConfigView {
            init_lr: self.init_lr,
            step_size: self.step_size as int,
            gamma: self.gamma,
        }
    }
}

/// Decays the rate by `gamma` once every `step_size` steps.
#[derive(Clone, Copy, Debug)]
pub struct StepLrScheduler {
    init_lr: LearningRate,
    step_size: i64,
    gamma: Scalar,
    step: usize,
}

/// What a [`StepLrScheduler`] holds: its configuration and the number of
/// steps done.
pub struct StepLrSchedulerView {
    pub init_lr: LearningRate,
    pub step_size: int,
    pub gamma: Scalar,
    pub step: nat,
}

impl StepLrSchedulerView {
    /// The period is positive and the counter is one that a scheduler holds.
    pub open spec fn wf(self) -> bool {
        &&& self.step_size > 0
        &&& self.step <= usize::MAX
    }

    /// The scheduler that `config` gives, with no step done.
    pub open spec fn fresh(config: StepLrSchedulerConfigView) -> Self {
        StepLrSchedulerView {
            init_lr: config.init_lr,
            step_size: config.step_size,
            gamma: config.gamma,
            step: 0,
        }
    }

    /// The state after one more step.
    pub open spec fn advanced(self) -> Self {
        StepLrSchedulerView { step: count_after(self.step), ..self }
    }

    /// The state after `n` more steps.
    pub open spec fn after(self, n: nat) -> Self {
        StepLrSchedulerView { step: count_after_many(self.step, n), ..self }
    }

    /// The rate of the step that was done last:
    /// `init_lr * gamma^(step / step_size)`.
    pub open spec fn rate(self) -> RateView {
        RateView::Decayed {
            init_lr: self.init_lr,
            gamma: self.gamma,
            exponent: decay_exponent(self.step, self.step_size),
        }
    }

    /// The snapshot of progress: the number of steps done.
    pub open spec fn record(self) -> nat {
        self.step
    }

    /// The state that resumes from `record`.
    pub open spec fn restored(self, record: nat) -> Self {
        StepLrSchedulerView { step: record, ..self }
    }

    /// Both have the same configuration.
    pub open spec fn same_policy(self, other: Self) -> bool {
        &&& self.init_lr == other.init_lr
        &&& self.step_size == other.step_size
        &&& self.gamma == other.gamma
    }
}

impl View for StepLrScheduler {
    type V = StepLrSchedulerView;

    closed spec fn view(&self) -> StepLrSchedulerView {
        StepLrSchedulerView {
            init_lr: self.init_lr,
            step_size: self.step_size as int,
            gamma: self.gamma,
            step: self.step as nat,
        }
    }
}

impl StepLrSchedulerConfig {
    /// A configuration with the initial rate `init_lr`, the default period
    /// and the default factor.
    pub fn new(init_lr: LearningRate) -> (config: Self)
        ensures
            config@ == (StepLrSchedulerConfigView {
                init_lr,
                step_size: DEFAULT_STEP_SIZE as int,
                gamma: Scalar { bits: DEFAULT_GAMMA_BITS },
            }),
    {
        StepLrSchedulerConfig {
            init_lr,
            step_size: DEFAULT_STEP_SIZE,
            gamma: Scalar { bits: DEFAULT_GAMMA_BITS },
        }
    }

    /// The same configuration with the period `step_size`.
    pub fn with_step_size(self, step_size: i64) -> (config: Self)
        ensures
            config@ == (StepLrSchedulerConfigView { step_size: step_size as int, ..self@ }),
    {
        StepLrSchedulerConfig { step_size, ..self }
    }

    /// The same configuration with the factor `gamma`.
    pub fn with_gamma(self, gamma: Scalar) -> (config: Self)
        ensures
            config@ == (StepLrSchedulerConfigView { gamma, ..self@ }),
    {
        StepLrSchedulerConfig { gamma, ..self }
    }

    /// Whether a scheduler can be made from this configuration.
    pub fn is_valid(&self) -> (ok: bool)
        ensures
            ok == self@.valid(),
    {
        self.step_size > 0
    }

    /// A scheduler with this configuration and no step done.
    pub fn init(&self) -> (scheduler: StepLrScheduler)
        requires
            self@.valid(),
        ensures
            scheduler@ == StepLrSchedulerView::fresh(self@),
            scheduler@.wf(),
    {
        StepLrScheduler {
            init_lr: self.init_lr,
            step_size: self.step_size,
            gamma: self.gamma,
            step: 0,
        }
    }
}

impl StepLrScheduler {
    #[verifier::type_invariant]
    spec fn inv(self) -> bool {
        self.step_size > 0
    }
}

impl LrScheduler for StepLrScheduler {
    type Record = usize;

    open spec fn steps_done(&self) -> nat {
        self@.step
    }

    open spec fn last_rate(&self) -> RateView {
        self@.rate()
    }

    open spec fn same_policy(&self, other: &Self) -> bool {
        self@.same_policy(other@)
    }

    open spec fn record_steps(record: &usize) -> nat {
        *record as nat
    }

    /// Counts one step and gives its rate. The first step done is step 1; the
    /// exponent is taken from the counter each time, so a restored scheduler
    /// goes on as the one that was saved.
    fn step(&mut self) -> (rate: Rate)
        ensures
            final(self)@ == old(self)@.advanced(),
            final(self)@.wf(),
            rate@ == final(self)@.rate(),
    {
        proof {
            use_type_invariant(&*self);
        }
        self.step = advance(self.step);
        let exponent: u64 = (self.step as u64) / (self.step_size as u64);
        Rate::Decayed { init_lr: self.init_lr, gamma: self.gamma, exponent }
    }

    /// The snapshot of progress: the number of steps done.
    fn to_record(&self) -> (record: usize)
        ensures
            record == self@.record(),
    {
        self.step
    }

    /// The scheduler that goes on from `record` steps, with this one's
    /// configuration.
    fn load_record(self, record: usize) -> (restored: Self)
        ensures
            restored@ == self@.restored(record as nat),
            restored@.wf(),
    {
        proof {
            use_type_invariant(&self);
        }
        StepLrScheduler { step: record, ..self }
    }

    proof fn lemma_rate_follows_progress(&self, other: &Self) {
    }

    proof fn lemma_same_policy_is_equivalence(&self, other: &Self, third: &Self) {
    }
}

/// Within one period the exponent is the number of whole periods done: after
/// `periods * step_size + offset` steps, with `offset < step_size`, it is
/// `periods`. So it is 0 for the first `step_size - 1` steps, and goes up by
/// one exactly at each multiple of `step_size`.
pub proof fn lemma_exponent_counts_periods(step_size: int, periods: nat, offset: nat)
    requires
        step_size > 0,
        offset < step_size,
    ensures
        decay_exponent((periods * step_size + offset) as nat, step_size) == periods,
{
    vstd::arithmetic::div_mod::lemma_fundamental_div_mod_converse(
        periods * step_size + offset,
        step_size,
        periods as int,
        offset as int,
    );
}

/// The exponent never goes down as steps are done, so the rate is decayed
/// more, never less.
pub proof fn lemma_exponent_never_decreases(step_size: int, earlier: nat, later: nat)
    requires
        step_size > 0,
        earlier <= later,
    ensures
        decay_exponent(earlier, step_size) <= decay_exponent(later, step_size),
{
    vstd::arithmetic::div_mod::lemma_div_is_ordered(earlier as int, later as int, step_size);
}

/// `n + 1` steps are `n` steps and one more.
pub proof fn lemma_step_after_unfolds(v: StepLrSchedulerView, n: nat)
    ensures
        v.after(0) == v,
        v.after(n + 1) == v.after(n).advanced(),
{
}

/// Saving and restoring changes nothing: a scheduler restored from its own
/// record, and a scheduler of the same configuration restored from that
/// record, are both in the state that was saved, and so is every state and
/// every rate that follows.
pub proof fn lemma_step_restore_round_trip(
    v: StepLrSchedulerView,
    other: StepLrSchedulerView,
    n: nat,
)
    requires
        other.same_policy(v),
    ensures
        v.restored(v.record()) == v,
        other.restored(v.record()) == v,
        other.restored(v.record()).after(n) == v.after(n),
        other.restored(v.record()).after(n).rate() == v.after(n).rate(),
{
}

} // verus!
