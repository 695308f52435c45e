//! Settling a round on the search record: the record moves only to a strictly
//! lower loss, and every round is counted.
use vstd::prelude::*;
use crate::compass::{class_of, floor_distances, floored, StepClass, step_classes};
use crate::ieee::{float_lt, lt, is_positive};
use crate::messages::{MessageFromMain, MessageToMain};
use crate::state::{history_after, next_loss, saturating_inc, State, StepInfo, Timestamp};

verus! {

/// The loss a momentum answer offers (`None` for a failure).
pub open spec fn answer_loss(m: MessageToMain) -> Option<u64> {
    match m {
        MessageToMain::WithGradientResult { best_loss, .. } => Some(best_loss),
        _ => None,
    }
}

/// A momentum answer for a record of `n` parameters.
pub open spec fn is_gradient_answer(m: MessageToMain, n: nat) -> bool {
    match m {
        MessageToMain::WithGradientResult { best_params, step, .. } => best_params@.len() == n
            && step@.len() == n,
        MessageToMain::WithGradientResultFailure { .. } => true,
        _ => false,
    }
}

/// Whether `m` is a momentum answer for a record of `n` parameters.
pub fn is_gradient_answer_of(m: &MessageToMain, n: usize) -> (r: bool)
    ensures
        r == is_gradient_answer(*m, n as nat),
{
    match m {
        MessageToMain::WithGradientResult { best_params, step, .. } => best_params.len() == n
            && step.len() == n,
        MessageToMain::WithGradientResultFailure { .. } => true,
        _ => false,
    }
}

/// A copy of a point.
pub fn copy_point(v: &Vec<u64>) -> (r: Vec<u64>)
    ensures
        r@ == v@,
{
    let r = v.clone();
    assert(r@ =~= v@);
    r
}

impl State {
    /// Takes a strictly better point (parameters and loss) found at `now`;
    /// the step information is left as it is.
    fn improve(&mut self, new_params: Vec<u64>, new_loss: u64, now: Timestamp)
        requires
            old(self).wf(),
            new_params@.len() == old(self).parameters@.len(),
        ensures
            final(self).wf(),
            final(self).id == old(self).id,
            final(self).parameters@ == new_params@,
            final(self).loss == new_loss,
            final(self).step == old(self).step,
            final(self).epoch == old(self).epoch,
            final(self).successful_turns == saturating_inc(old(self).successful_turns),
            final(self).failed_turns == old(self).failed_turns,
            final(self).last_updated_at == Some(now),
            final(self).losses_over_time@ == history_after(
                old(self).losses_over_time@,
                now,
                new_loss,
            ),
    {
        self.parameters = new_params;
        self.loss = new_loss;
        self.last_updated_at = Some(now);
        self.successful_turns = self.successful_turns.saturating_add(1);
        self.push_history(now, new_loss);
    }

    /// Settles a momentum round on its best answer, at `now`: a strictly lower
    /// loss replaces the point, loss and previous step and counts as a success;
    /// anything else (a failure, a tie, a worse loss) counts as a failed turn
    /// and leaves the point alone. The round counter grows either way.
    pub fn settle_gradient(&mut self, answer: MessageToMain, now: Timestamp)
        requires
            old(self).wf(),
            is_gradient_answer(answer, old(self).parameters@.len()),
        ensures
            final(self).wf(),
            final(self).id == old(self).id,
            final(self).loss == next_loss(old(self).loss, answer_loss(answer)),
            final(self).epoch == saturating_inc(old(self).epoch),
            match answer {
                MessageToMain::WithGradientResult { best_params, best_loss, step, .. } => if lt(
                    best_loss,
                    old(self).loss,
                ) {
                    &&& final(self).parameters@ == best_params@
                    &&& final(self).step == StepInfo::Previous(Some(step))
                    &&& final(self).successful_turns == saturating_inc(old(self).successful_turns)
                    &&& final(self).failed_turns == old(self).failed_turns
                    &&& final(self).last_updated_at == Some(now)
                    &&& final(self).losses_over_time@ == history_after(
                        old(self).losses_over_time@,
                        now,
                        best_loss,
                    )
                } else {
                    &&& final(self).parameters == old(self).parameters
                    &&& final(self).step == old(self).step
                    &&& final(self).successful_turns == old(self).successful_turns
                    &&& final(self).failed_turns == saturating_inc(old(self).failed_turns)
                    &&& final(self).last_updated_at == old(self).last_updated_at
                    &&& final(self).losses_over_time == old(self).losses_over_time
                },
                _ => {
                    &&& final(self).parameters == old(self).parameters
                    &&& final(self).step == old(self).step
                    &&& final(self).successful_turns == old(self).successful_turns
                    &&& final(self).failed_turns == saturating_inc(old(self).failed_turns)
                    &&& final(self).last_updated_at == old(self).last_updated_at
                    &&& final(self).losses_over_time == old(self).losses_over_time
                },
            },
    {
        match answer {
            MessageToMain::WithGradientResult { best_params, best_loss, step, .. } => {
                if float_lt(best_loss, self.loss) {
                    self.update_best_loss_at(best_params, best_loss, step, now);
                } else {
                    self.failed_turns = self.failed_turns.saturating_add(1);
                }
            },
            _ => {
                self.failed_turns = self.failed_turns.saturating_add(1);
            },
        }
        self.epoch = self.epoch.saturating_add(1);
    }

    /// Settles a compass round on its winning offset and the point it leads to,
    /// at `now`. A strictly lower loss moves the record there and counts as a
    /// success; otherwise the record stays and the round counts as failed, as
    /// if the zero offset had won. Returns how each coordinate's distance is to
    /// change: by the winning offset when the record moved, a shrink everywhere
    /// when it did not.
    pub fn settle_offsets(
        &mut self,
        offset: &Vec<i8>,
        best_params: Vec<u64>,
        best_loss: u64,
        now: Timestamp,
    ) -> (classes: Vec<StepClass>)
        requires
            old(self).wf(),
            offset@.len() == old(self).parameters@.len(),
            best_params@.len() == old(self).parameters@.len(),
        ensures
            final(self).wf(),
            final(self).id == old(self).id,
            final(self).step == old(self).step,
            final(self).loss == next_loss(old(self).loss, Some(best_loss)),
            final(self).epoch == saturating_inc(old(self).epoch),
            classes@.len() == old(self).parameters@.len(),
            lt(best_loss, old(self).loss) ==> {
                &&& final(self).parameters@ == best_params@
                &&& final(self).successful_turns == saturating_inc(old(self).successful_turns)
                &&& final(self).failed_turns == old(self).failed_turns
                &&& final(self).last_updated_at == Some(now)
                &&& final(self).losses_over_time@ == history_after(
                    old(self).losses_over_time@,
                    now,
                    best_loss,
                )
                &&& forall|i: int|
                    0 <= i < classes@.len() ==> #[trigger] classes@[i] == class_of(offset@[i])
            },
            !lt(best_loss, old(self).loss) ==> {
                &&& final(self).parameters == old(self).parameters
                &&& final(self).successful_turns == old(self).successful_turns
                &&& final(self).failed_turns == saturating_inc(old(self).failed_turns)
                &&& final(self).last_updated_at == old(self).last_updated_at
                &&& final(self).losses_over_time == old(self).losses_over_time
                &&& forall|i: int| 0 <= i < classes@.len() ==> #[trigger] classes@[i] == StepClass::Shrink
            },
    {
        let n = self.parameters.len();
        let classes = if float_lt(best_loss, self.loss) {
            self.improve(best_params, best_loss, now);
            step_classes(offset)
        } else {
            self.failed_turns = self.failed_turns.saturating_add(1);
            let mut c: Vec<StepClass> = Vec::new();
            let mut i: usize = 0;
            while i < n
                invariant
                    i <= n,
                    c@.len() == i,
                    forall|j: int| 0 <= j < i ==> #[trigger] c@[j] == StepClass::Shrink,
                decreases n - i,
            {
                c.push(StepClass::Shrink);
                i += 1;
            }
            c
        };
        self.epoch = self.epoch.saturating_add(1);
        classes
    }

    /// Installs the adapted step distances of a compass round. A distance that
    /// would stall its parameter is re-seeded, so every installed distance is
    /// positive.
    pub fn set_distances(&mut self, adapted: &Vec<u64>)
        requires
            old(self).wf(),
            adapted@.len() == old(self).parameters@.len(),
        ensures
            final(self).wf(),
            final(self).step is Distances,
            final(self).step_values().len() == old(self).parameters@.len(),
            forall|i: int|
                0 <= i < final(self).step_values().len() ==> #[trigger] final(self).step_values()[i]
                    == floored(adapted@[i], old(self).parameters@[i]),
            forall|i: int|
                0 <= i < final(self).step_values().len() ==> is_positive(
                    #[trigger] final(self).step_values()[i],
                ),
            final(self).id == old(self).id,
            final(self).parameters == old(self).parameters,
            final(self).loss == old(self).loss,
            final(self).epoch == old(self).epoch,
            final(self).successful_turns == old(self).successful_turns,
            final(self).failed_turns == old(self).failed_turns,
            final(self).last_updated_at == old(self).last_updated_at,
            final(self).losses_over_time == old(self).losses_over_time,
    {
        let d = floor_distances(adapted, &self.parameters);
        self.step = StepInfo::Distances(d);
    }

    /// The next momentum task for this record: its current point and previous
    /// step, with the given moment, fallback step size and candidate count.
    pub fn next_gradient_task(&self, step_moment: u64, step_size: u64, count: usize) -> (r:
        MessageFromMain)
        ensures
            r matches MessageFromMain::TryWithGradient {
                state_id,
                curr_params,
                prev_step,
                step_moment: m,
                step_size: z,
                count: c,
            } && state_id == self.id && curr_params@ == self.parameters@ && m == step_moment && z
                == step_size && c == count && match self.step {
                StepInfo::Previous(Some(s)) => prev_step matches Some(p) && p@ == s@,
                _ => prev_step is None,
            },
    {
        let prev_step = match &self.step {
            StepInfo::Previous(Some(s)) => Some(copy_point(s)),
            _ => None,
        };
        MessageFromMain::TryWithGradient {
            state_id: self.id,
            curr_params: copy_point(&self.parameters),
            prev_step,
            step_moment,
            step_size,
            count,
        }
    }
}

} // verus!

verus! {

/// `a` and `b` hold the same record.
pub open spec fn same_record(a: State, b: State) -> bool {
    &&& a.id == b.id
    &&& a.parameters@ == b.parameters@
    &&& (a.step is Distances <==> b.step is Distances)
    &&& a.step_values() == b.step_values()
    &&& (a.step is Previous ==> (a.step == StepInfo::Previous(None) <==> b.step == StepInfo::Previous(None)))
    &&& a.loss == b.loss
    &&& a.epoch == b.epoch
    &&& a.successful_turns == b.successful_turns
    &&& a.failed_turns == b.failed_turns
    &&& a.last_updated_at == b.last_updated_at
    &&& a.losses_over_time@ == b.losses_over_time@
}

impl State {
    /// An independent copy of this record.
    pub fn duplicate(&self) -> (r: State)
        requires
            self.wf(),
        ensures
            r.wf(),
            same_record(r, *self),
    {
        let step = match &self.step {
            StepInfo::Distances(d) => StepInfo::Distances(copy_point(d)),
            StepInfo::Previous(Some(s)) => StepInfo::Previous(Some(copy_point(s))),
            StepInfo::Previous(None) => StepInfo::Previous(None),
        };
        let mut history: Vec<(Timestamp, u64)> = Vec::new();
        let mut i: usize = 0;
        while i < self.losses_over_time.len()
            invariant
                i <= self.losses_over_time@.len(),
                history@ == self.losses_over_time@.take(i as int),
            decreases self.losses_over_time@.len() - i,
        {
            history.push(self.losses_over_time[i]);
            i += 1;
            assert(history@ =~= self.losses_over_time@.take(i as int));
        }
        assert(history@ =~= self.losses_over_time@);
        State {
            id: self.id,
            parameters: copy_point(&self.parameters),
            step,
            loss: self.loss,
            epoch: self.epoch,
            successful_turns: self.successful_turns,
            failed_turns: self.failed_turns,
            last_updated_at: self.last_updated_at,
            losses_over_time: history,
        }
    }
}

} // verus!
