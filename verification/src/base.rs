//! Values shared by every schedule: scalars, rates and the step counter.

use vstd::prelude::*;

verus! {

/// A double-precision scalar, held as its 64-bit pattern.
///
/// The schedulers move scalars around and hand them back unchanged; they never
/// do arithmetic on one. Two scalars are equal when their patterns are.
#[derive(Clone, Copy, Debug, PartialEq, Eq)]
pub struct Scalar {
    pub bits: u64,
}

/// The scalar by which an optimizer scales an update.
pub type LearningRate = Scalar;

/// The rate that applies to one step, as the formula that yields it.
#[derive(Clone, Copy, Debug, PartialEq, Eq)]
pub enum Rate {
    /// The rate is `lr` itself.
    Fixed { lr: LearningRate },
    /// The rate is `init_lr * gamma^exponent`.
    Decayed { init_lr: LearningRate, gamma: Scalar, exponent: u64 },
    /// The rate is `init_lr * (counter / num_warmup_steps^power)`.
    Ramp { init_lr: LearningRate, counter: usize, num_warmup_steps: usize, power: Scalar },
    /// The rate is `init_lr * model_size^-0.5 * (counter * warmup_steps^-1.5)`.
    NoamRise { init_lr: LearningRate, model_size: usize, warmup_steps: usize, counter: usize },
    /// The rate is `init_lr * model_size^-0.5 * counter^-0.5`.
    NoamFall { init_lr: LearningRate, model_size: usize, counter: usize },
}

/// A rate with its integers taken as mathematical ones.
pub enum RateView {
    Fixed { lr: LearningRate },
    Decayed { init_lr: LearningRate, gamma: Scalar, exponent: nat },
    Ramp { init_lr: LearningRate, counter: nat, num_warmup_steps: nat, power: Scalar },
    NoamRise { init_lr: LearningRate, model_size: nat, warmup_steps: nat, counter: nat },
    NoamFall { init_lr: LearningRate, model_size: nat, counter: nat },
}

impl View for Rate {
    type V = RateView;

    open spec fn view(&self) -> RateView {
        match *self {
            Rate::Fixed { lr } => RateView::Fixed { lr },
            Rate::Decayed { init_lr, gamma, exponent } => RateView::Decayed {
                init_lr,
                gamma,
                exponent: exponent as nat,
            },
            Rate::Ramp { init_lr, counter, num_warmup_steps, power } => RateView::Ramp {
                init_lr,
                counter: counter as nat,
                num_warmup_steps: num_warmup_steps as nat,
                power,
            },
            Rate::NoamRise { init_lr, model_size, warmup_steps, counter } => RateView::NoamRise {
                init_lr,
                model_size: model_size as nat,
                warmup_steps: warmup_steps as nat,
                counter: counter as nat,
            },
            Rate::NoamFall { init_lr, model_size, counter } => RateView::NoamFall {
                init_lr,
                model_size: model_size as nat,
                counter: counter as nat,
            },
        }
    }
}

/// The largest number of steps that a scheduler counts.
pub open spec fn max_steps() -> nat {
    usize::MAX as nat
}

/// The step count after one more step: one more than `steps`, except that a
/// counter that has reached `max_steps()` stays there.
pub open spec fn count_after(steps: nat) -> nat {
    if steps < max_steps() {
        steps + 1
    } else {
        steps
    }
}

/// The step count after `n` more steps.
pub open spec fn count_after_many(steps: nat, n: nat) -> nat {
    if steps + n <= max_steps() {
        steps + n
    } else if steps <= max_steps() {
        max_steps()
    } else {
        steps
    }
}

/// Counting `n + 1` steps is counting `n` steps and then one more.
pub proof fn lemma_count_after_many_unfolds(steps: nat, n: nat)
    ensures
        count_after_many(steps, 0) == steps,
        count_after_many(steps, n + 1) == count_after(count_after_many(steps, n)),
{
}

/// A step counter never decreases.
pub proof fn lemma_count_never_decreases(steps: nat, n: nat)
    ensures
        steps <= count_after(steps),
        steps <= count_after_many(steps, n),
{
}

/// What every schedule offers: it counts steps, gives each step's rate, and
/// can save its progress and take it up again.
pub trait LrScheduler: Sized {
    /// The snapshot of progress that this schedule saves.
    type Record;

    /// The number of steps done.
    spec fn steps_done(&self) -> nat;

    /// The rate of the step that was done last.
    spec fn last_rate(&self) -> RateView;

    /// Both schedulers have the same configuration.
    spec fn same_policy(&self, other: &Self) -> bool;

    /// The number of steps that a record stands for.
    spec fn record_steps(record: &Self::Record) -> nat;

    /// Counts one step and gives its rate. Nothing but the counter changes.
    fn step(&mut self) -> (rate: Rate)
        ensures
            final(self).steps_done() == count_after(old(self).steps_done()),
            final(self).same_policy(old(self)),
            rate@ == final(self).last_rate(),
    ;

    /// Saves the number of steps done. The scheduler is left as it is.
    fn to_record(&self) -> (record: Self::Record)
        ensures
            Self::record_steps(&record) == self.steps_done(),
    ;

    /// The scheduler of this configuration that goes on from `record`. The
    /// record is taken as it is.
    fn load_record(self, record: Self::Record) -> (restored: Self)
        ensures
            restored.steps_done() == Self::record_steps(&record),
            restored.same_policy(&self),
    ;

    /// The configuration and the number of steps done decide the rate.
    proof fn lemma_rate_follows_progress(&self, other: &Self)
        requires
            self.same_policy(other),
            self.steps_done() == other.steps_done(),
        ensures
            self.last_rate() == other.last_rate(),
    ;

    /// Having the same configuration is an equivalence.
    proof fn lemma_same_policy_is_equivalence(&self, other: &Self, third: &Self)
        ensures
            self.same_policy(self),
            self.same_policy(other) ==> other.same_policy(self),
            self.same_policy(other) && other.same_policy(third) ==> self.same_policy(third),
    ;
}

/// A scheduler that has taken up what another of the same configuration
/// saved goes on as the other does: whenever both have done one more step,
/// they have again done the same number of steps, have the same
/// configuration, and gave the same rate. `saved_next` and `resumed_next` are
/// any states that a call of `step` may leave `saved` and `resumed` in.
pub proof fn lemma_resumed_goes_on_as_saved<S: LrScheduler>(
    saved: &S,
    resumed: &S,
    saved_next: &S,
    resumed_next: &S,
)
    requires
        resumed.same_policy(saved),
        resumed.steps_done() == saved.steps_done(),
        saved_next.same_policy(saved),
        saved_next.steps_done() == count_after(saved.steps_done()),
        resumed_next.same_policy(resumed),
        resumed_next.steps_done() == count_after(resumed.steps_done()),
    ensures
        resumed_next.same_policy(saved_next),
        resumed_next.steps_done() == saved_next.steps_done(),
        resumed_next.last_rate() == saved_next.last_rate(),
{
    resumed_next.lemma_same_policy_is_equivalence(resumed, saved);
    saved_next.lemma_same_policy_is_equivalence(saved, saved);
    resumed_next.lemma_same_policy_is_equivalence(saved, saved_next);
    resumed_next.lemma_rate_follows_progress(saved_next);
}

/// Advances a step counter by one, stopping at the largest count.
pub fn advance(steps: usize) -> (next: usize)
    ensures
        next == count_after(steps as nat),
{
    if steps < usize::MAX {
        steps + 1
    } else {
        steps
    }
}

} // verus!
