//! The constant schedule: every step has the same rate.

use crate::base::{
    advance, count_after, count_after_many, LearningRate, LrScheduler, Rate, RateView,
};
use vstd::prelude::*;

verus! {

/// Gives the rate `init_lr` at every step.
#[derive(Clone, Copy, Debug)]
pub struct ConstantLr {
    init_lr: LearningRate,
    step: usize,
}

/// What a [`ConstantLr`] holds: its rate and the number of steps done.
pub struct ConstantLrView {
    pub init_lr: LearningRate,
    pub step: nat,
}

impl ConstantLrView {
    /// The counter is one that a scheduler holds.
    pub open spec fn wf(self) -> bool {
        self.step <= usize::MAX
    }

    /// The state after one more step.
    pub open spec fn advanced(self) -> Self {
        ConstantLrView { step: count_after(self.step), ..self }
    }

    /// The state after `n` more steps.
    pub open spec fn after(self, n: nat) -> Self {
        ConstantLrView { step: count_after_many(self.step, n), ..self }
    }

    /// The rate of the step that was done last: `init_lr`, whatever the
    /// counter says.
    pub open spec fn rate(self) -> RateView {
        RateView::Fixed { lr: self.init_lr }
    }

    /// The snapshot of progress: the number of steps done.
    pub open spec fn record(self) -> nat {
        self.step
    }

    /// The state that resumes from `record`.
    pub open spec fn restored(self, record: nat) -> Self {
        ConstantLrView { step: record, ..self }
    }

    /// Both have the same rate.
    pub open spec fn same_policy(self, other: Self) -> bool {
        self.init_lr == other.init_lr
    }
}

impl View for ConstantLr {
    type V = ConstantLrView;

    closed spec fn view(&self) -> ConstantLrView {
        ConstantLrView { init_lr: self.init_lr, step: self.step as nat }
    }
}

impl ConstantLr {
    /// A scheduler with the rate `init_lr` and no step done.
    pub fn new(init_lr: LearningRate) -> (scheduler: Self)
        ensures
            scheduler@ == (ConstantLrView { init_lr, step: 0 }),
            scheduler@.wf(),
    {
        ConstantLr { init_lr, step: 0 }
    }
}

impl LrScheduler for ConstantLr {
    type Record = usize;

    open spec fn steps_done(&self) -> nat {
        self@.step
    }

    open spec fn last_rate(&self) -> RateView {
        self@.rate()
    }

    open spec fn same_policy(&self, other: &Self) -> bool {
        self@.same_policy(other@)
    }

    open spec fn record_steps(record: &usize) -> nat {
        *record as nat
    }

    /// Counts one step and gives its rate, which is `init_lr`.
    fn step(&mut self) -> (rate: Rate)
        ensures
            final(self)@ == old(self)@.advanced(),
            final(self)@.wf(),
            rate@ == final(self)@.rate(),
            rate@ == (RateView::Fixed { lr: old(self)@.init_lr }),
    {
        self.step = advance(self.step);
        Rate::Fixed { lr: self.init_lr }
    }

    /// The snapshot of progress: the number of steps done. The scheduler is
    /// left as it is.
    fn to_record(&self) -> (record: usize)
        ensures
            record == self@.record(),
    {
        self.step
    }

    /// The scheduler that goes on from `record` steps, with this one's rate.
    /// The record is taken as it is.
    fn load_record(self, record: usize) -> (restored: Self)
        ensures
            restored@ == self@.restored(record as nat),
            restored@.wf(),
    {
        ConstantLr { step: record, ..self }
    }

    proof fn lemma_rate_follows_progress(&self, other: &Self) {
    }

    proof fn lemma_same_policy_is_equivalence(&self, other: &Self, third: &Self) {
    }
}

/// `n + 1` steps are `n` steps and one more.
pub proof fn lemma_constant_after_unfolds(v: ConstantLrView, n: nat)
    ensures
        v.after(0) == v,
        v.after(n + 1) == v.after(n).advanced(),
{
}

/// However many steps are done, the rate of each is `init_lr`, and so is
/// the rate after a restore from any record.
pub proof fn lemma_constant_rate_never_changes(v: ConstantLrView, n: nat, record: nat)
    ensures
        v.after(n).rate() == (RateView::Fixed { lr: v.init_lr }),
        v.restored(record).after(n).rate() == (RateView::Fixed { lr: v.init_lr }),
{
}

/// Saving and restoring changes nothing: a scheduler restored from its own
/// record, and a scheduler of the same rate restored from that record, are
/// both in the state that was saved, and so is every state and every rate
/// that follows.
pub proof fn lemma_constant_restore_round_trip(v: ConstantLrView, other: ConstantLrView, n: nat)
    requires
        other.same_policy(v),
    ensures
        v.restored(v.record()) == v,
        other.restored(v.record()) == v,
        other.restored(v.record()).after(n) == v.after(n),
        other.restored(v.record()).after(n).rate() == v.after(n).rate(),
{
}

} // verus!
