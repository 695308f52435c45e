//! The search record that the coordinator owns and updates between rounds.
use vstd::prelude::*;
use crate::ieee::{lt, ONE_BITS};

verus! {

/// Number of entries kept in the loss history.
pub const HISTORY_CAP: usize = 64;

/// Once the history is full, a new sample is kept only when at least this many
/// microseconds (three minutes) have passed since the oldest kept one.
pub const HISTORY_SPACING_MICROS: i64 = 180_000_000;

/// The loss that a state holds before anything was evaluated: larger than any
/// loss an objective may return (`3e20`).
pub const VERY_BIG_LOSS: u64 = 0x4430_4356_1a88_2930;

/// A point in time, in microseconds since 1970-01-01 on the local wall clock.
#[derive(Clone, Copy, PartialEq, Eq, Structural, Debug)]
pub struct Timestamp {
    pub micros: i64,
}

/// How the next candidates are placed around the current parameters.
pub enum StepInfo {
    /// Coordinate search: one step distance per coordinate.
    Distances(Vec<u64>),
    /// Momentum search: the step that led to the current parameters, if any.
    Previous(Option<Vec<u64>>),
}

/// One optimization record. Every real number is the bit pattern of a double.
pub struct State {
    pub id: usize,
    pub parameters: Vec<u64>,
    pub step: StepInfo,
    pub loss: u64,
    /// Rounds settled on this record.
    pub epoch: u64,
    pub successful_turns: u64,
    pub failed_turns: u64,
    pub last_updated_at: Option<Timestamp>,
    /// `(time, loss)` samples, oldest first.
    pub losses_over_time: Vec<(Timestamp, u64)>,
}

/// `n` zeros.
pub open spec fn zeros(n: nat) -> Seq<u64> {
    Seq::new(n, |i: int| 0u64)
}

/// `n` copies of `1.0`.
pub open spec fn unit_steps(n: nat) -> Seq<u64> {
    Seq::new(n, |i: int| ONE_BITS)
}

/// The history after a successful update at `now` to `loss`.
pub open spec fn history_after(h: Seq<(Timestamp, u64)>, now: Timestamp, loss: u64) -> Seq<
    (Timestamp, u64),
> {
    if h.len() < HISTORY_CAP {
        h.push((now, loss))
    } else if now.micros - h[0].0.micros >= HISTORY_SPACING_MICROS {
        h.subrange(1, h.len() as int).push((now, loss))
    } else {
        h
    }
}

/// The history after a run of successful updates, one sample each.
pub open spec fn history_run(h: Seq<(Timestamp, u64)>, samples: Seq<(Timestamp, u64)>) -> Seq<
    (Timestamp, u64),
>
    decreases samples.len(),
{
    if samples.len() == 0 {
        h
    } else {
        let before = history_run(h, samples.drop_last());
        history_after(before, samples.last().0, samples.last().1)
    }
}

/// The loss after a round whose best candidate had loss `candidate`
/// (`None`: the round found nothing new): it moves only to a strictly lower one.
pub open spec fn next_loss(loss: u64, candidate: Option<u64>) -> u64 {
    match candidate {
        Some(c) => if lt(c, loss) { c } else { loss },
        None => loss,
    }
}

/// The loss after a run of rounds.
pub open spec fn loss_run(loss: u64, candidates: Seq<Option<u64>>) -> u64
    decreases candidates.len(),
{
    if candidates.len() == 0 {
        loss
    } else {
        next_loss(loss_run(loss, candidates.drop_last()), candidates.last())
    }
}

pub open spec fn saturating_inc(n: u64) -> u64 {
    if n == u64::MAX { n } else { (n + 1) as u64 }
}

/// The history stays within its cap whatever the run.
pub proof fn lemma_history_capped(h: Seq<(Timestamp, u64)>, samples: Seq<(Timestamp, u64)>)
    requires
        h.len() <= HISTORY_CAP,
    ensures
        history_run(h, samples).len() <= HISTORY_CAP,
    decreases samples.len(),
{
    if samples.len() > 0 {
        lemma_history_capped(h, samples.drop_last());
    }
}

/// Across any run of rounds the loss never increases: after each round it is
/// not above what it was before.
pub proof fn lemma_loss_never_increases(loss: u64, candidates: Seq<Option<u64>>)
    ensures
        crate::ieee::not_above(loss_run(loss, candidates), loss),
        forall|k: int|
            0 <= k < candidates.len() ==> crate::ieee::not_above(
                #[trigger] loss_run(loss, candidates.take(k + 1)),
                loss_run(loss, candidates.take(k)),
            ),
    decreases candidates.len(),
{
    if candidates.len() > 0 {
        let init = candidates.drop_last();
        lemma_loss_never_increases(loss, init);
        let mid = loss_run(loss, init);
        crate::ieee::lemma_not_above_transitive(next_loss(mid, candidates.last()), mid, loss);
        assert forall|k: int| 0 <= k < candidates.len() implies crate::ieee::not_above(
            #[trigger] loss_run(loss, candidates.take(k + 1)),
            loss_run(loss, candidates.take(k)),
        ) by {
            let t = candidates.take(k + 1);
            assert(t.drop_last() =~= candidates.take(k));
        }
    } else {
        assert(loss_run(loss, candidates) == loss);
    }
}

/// Relies on h_time's `Date::now` and `Date::to_i64`: the local wall clock, in
/// microseconds since 1970-01-01. Nothing is known of the value.
#[verifier::external_body]
fn clock_now() -> (r: Timestamp) {
    Timestamp { micros: h_time::Date::now().to_i64() }
}

impl State {
    /// The step values that a checkpoint stores: the distances, the previous
    /// step, or zeros where there is none yet.
    pub open spec fn step_values(&self) -> Seq<u64> {
        match self.step {
            StepInfo::Distances(d) => d@,
            StepInfo::Previous(Some(s)) => s@,
            StepInfo::Previous(None) => zeros(self.parameters@.len()),
        }
    }

    /// Shapes agree and the history is within its cap.
    pub open spec fn wf(&self) -> bool {
        &&& self.step_values().len() == self.parameters@.len()
        &&& self.losses_over_time@.len() <= HISTORY_CAP
    }

    /// A fresh coordinate-search record at `params` with step distances `dists`,
    /// holding the worst-case loss until its first round.
    pub fn new(params: Vec<u64>, dists: Vec<u64>) -> (r: State)
        requires
            params@.len() == dists@.len(),
        ensures
            r.wf(),
            r.id == 0,
            r.parameters@ == params@,
            r.step == StepInfo::Distances(dists),
            r.loss == VERY_BIG_LOSS,
            r.epoch == 0,
            r.successful_turns == 0,
            r.failed_turns == 0,
            r.last_updated_at.is_none(),
            r.losses_over_time@.len() == 0,
    {
        State {
            id: 0,
            parameters: params,
            step: StepInfo::Distances(dists),
            loss: VERY_BIG_LOSS,
            epoch: 0,
            successful_turns: 0,
            failed_turns: 0,
            last_updated_at: None,
            losses_over_time: Vec::new(),
        }
    }

    /// A momentum-search record with id `id`, started at `params` whose loss
    /// `loss` was measured at `now`: no previous step yet, and the history
    /// holds that one sample.
    pub fn seeded(id: usize, params: Vec<u64>, loss: u64, now: Timestamp) -> (r: State)
        ensures
            r.wf(),
            r.id == id,
            r.parameters@ == params@,
            r.step == StepInfo::Previous(None),
            r.loss == loss,
            r.epoch == 0,
            r.successful_turns == 0,
            r.failed_turns == 0,
            r.last_updated_at == Some(now),
            r.losses_over_time@ == seq![(now, loss)],
    {
        let mut history: Vec<(Timestamp, u64)> = Vec::new();
        history.push((now, loss));
        State {
            id,
            parameters: params,
            step: StepInfo::Previous(None),
            loss,
            epoch: 0,
            successful_turns: 0,
            failed_turns: 0,
            last_updated_at: Some(now),
            losses_over_time: history,
        }
    }

    /// The record a search starts from when nothing could be restored:
    /// `n` zero parameters and unit step distances.
    pub fn fallback(n: usize) -> (r: State)
        ensures
            r.wf(),
            r.parameters@ == zeros(n as nat),
            r.step_values() == unit_steps(n as nat),
            r.step is Distances,
            r.loss == VERY_BIG_LOSS,
            r.epoch == 0,
            r.successful_turns == 0,
            r.failed_turns == 0,
            r.losses_over_time@.len() == 0,
    {
        let mut params: Vec<u64> = Vec::new();
        let mut dists: Vec<u64> = Vec::new();
        let mut i: usize = 0;
        while i < n
            invariant
                i <= n,
                params@ == zeros(i as nat),
                dists@ == unit_steps(i as nat),
            decreases n - i,
        {
            params.push(0);
            dists.push(ONE_BITS);
            i += 1;
            assert(params@ =~= zeros(i as nat));
            assert(dists@ =~= unit_steps(i as nat));
        }
        State::new(params, dists)
    }

    /// Records a strictly better point found at `now`: the parameters, loss and
    /// previous step are replaced, the success counter grows and the history
    /// takes a sample.
    pub fn update_best_loss_at(
        &mut self,
        new_params: Vec<u64>,
        new_loss: u64,
        prev_step: Vec<u64>,
        now: Timestamp,
    )
        requires
            old(self).wf(),
            new_params@.len() == old(self).parameters@.len(),
            prev_step@.len() == old(self).parameters@.len(),
        ensures
            final(self).wf(),
            final(self).id == old(self).id,
            final(self).parameters@ == new_params@,
            final(self).loss == new_loss,
            final(self).step == StepInfo::Previous(Some(prev_step)),
            final(self).epoch == old(self).epoch,
            final(self).successful_turns == saturating_inc(old(self).successful_turns),
            final(self).failed_turns == old(self).failed_turns,
            final(self).last_updated_at == Some(now),
            final(self).losses_over_time@ == history_after(
                old(self).losses_over_time@,
                now,
                new_loss,
            ),
    {
        self.parameters = new_params;
        self.loss = new_loss;
        self.step = StepInfo::Previous(Some(prev_step));
        self.last_updated_at = Some(now);
        self.successful_turns = self.successful_turns.saturating_add(1);
        self.push_history(now, new_loss);
    }

    /// Records a strictly better point found now (see `update_best_loss_at`);
    /// the time of the update is the one the record and its history keep.
    pub fn update_best_loss(&mut self, new_params: Vec<u64>, new_loss: u64, prev_step: Vec<u64>)
        requires
            old(self).wf(),
            new_params@.len() == old(self).parameters@.len(),
            prev_step@.len() == old(self).parameters@.len(),
        ensures
            final(self).wf(),
            final(self).id == old(self).id,
            final(self).parameters@ == new_params@,
            final(self).loss == new_loss,
            final(self).step == StepInfo::Previous(Some(prev_step)),
            final(self).epoch == old(self).epoch,
            final(self).successful_turns == saturating_inc(old(self).successful_turns),
            final(self).failed_turns == old(self).failed_turns,
            final(self).last_updated_at matches Some(now) && final(self).losses_over_time@
                == history_after(old(self).losses_over_time@, now, new_loss),
    {
        let now = clock_now();
        self.update_best_loss_at(new_params, new_loss, prev_step, now);
    }

    /// Adds a `(now, loss)` sample under the history's retention rule.
    pub fn push_history(&mut self, now: Timestamp, loss: u64)
        requires
            old(self).losses_over_time@.len() <= HISTORY_CAP,
        ensures
            final(self).losses_over_time@ == history_after(old(self).losses_over_time@, now, loss),
            final(self).losses_over_time@.len() <= HISTORY_CAP,
            final(self).id == old(self).id,
            final(self).parameters == old(self).parameters,
            final(self).step == old(self).step,
            final(self).loss == old(self).loss,
            final(self).epoch == old(self).epoch,
            final(self).successful_turns == old(self).successful_turns,
            final(self).failed_turns == old(self).failed_turns,
            final(self).last_updated_at == old(self).last_updated_at,
    {
        let len = self.losses_over_time.len();
        if len < HISTORY_CAP {
            self.losses_over_time.push((now, loss));
        } else {
            let oldest = self.losses_over_time[0].0;
            if (now.micros as i128) - (oldest.micros as i128) >= HISTORY_SPACING_MICROS as i128 {
                let mut kept: Vec<(Timestamp, u64)> = Vec::new();
                let mut i: usize = 1;
                while i < len
                    invariant
                        1 <= i <= len,
                        len == self.losses_over_time@.len(),
                        kept@ == self.losses_over_time@.subrange(1, i as int),
                    decreases len - i,
                {
                    kept.push(self.losses_over_time[i]);
                    i += 1;
                    assert(kept@ =~= self.losses_over_time@.subrange(1, i as int));
                }
                kept.push((now, loss));
                self.losses_over_time = kept;
            }
        }
    }
}

} // verus!
