//! The supervisor: restores a record from a checkpoint, drives compass rounds,
//! and on a dead worker rolls the record back to the last completed round and
//! asks for a fresh pool of the same size.
use vstd::prelude::*;
use crate::codec::{checkpoint_bytes, checkpoint_fields, checkpoint_len};
use crate::compass::{candidate_count, candidates, class_of, countable, floored, plan_ranges, StepClass};
use crate::coordinator::{copy_point, same_record};
use crate::ieee::{float_lt, is_positive, lt};
use crate::messages::MessageFromMain;
use crate::round::MIN_WORKERS;
use crate::state::{next_loss, unit_steps, zeros, State, StepInfo, Timestamp, VERY_BIG_LOSS};

verus! {

/// Workers in a pool unless configured otherwise.
pub const DEFAULT_WORKERS: usize = 8;

/// Milliseconds between progress reports and checkpoints unless configured otherwise.
pub const DEFAULT_PRINT_CYCLE: u64 = 2000;

/// How the starting record was obtained.
#[derive(Clone, Copy, PartialEq, Eq, Structural, Debug)]
pub enum LoadOutcome {
    /// Read from the checkpoint.
    Restored,
    /// The checkpoint was read but had the wrong size; a fresh record was made.
    Corrupted,
    /// The checkpoint could not be read; a fresh record was made.
    Unreadable,
}

/// Where the supervisor stands.
#[derive(Clone, Copy, PartialEq, Eq, Structural, Debug)]
pub enum Phase {
    /// Rounds are being run.
    Running,
    /// A round failed; the pool is being replaced.
    Recovering,
    /// The goal was reached.
    Stopped,
}

pub struct Daemon {
    /// Checkpoint path. If it is missing or corrupted a fresh record is made.
    pub load_progress_from: String,
    /// The record that rounds update.
    pub state: State,
    /// The record as of the last completed round.
    pub last_good: State,
    /// Number of parameters optimized.
    pub num_params: usize,
    /// Milliseconds between progress reports and checkpoints (0: none).
    pub print_cycle: u64,
    /// Size of the worker pool.
    pub num_workers: usize,
    /// The search stops once the loss is no longer above this (a double).
    pub goal_mse: u64,
    /// Print nothing.
    pub quiet: bool,
    pub phase: Phase,
    pub load_outcome: LoadOutcome,
}

impl Daemon {
    pub open spec fn wf(&self) -> bool {
        &&& self.state.wf()
        &&& self.state.parameters@.len() == self.num_params
        &&& self.state.step is Distances
        &&& self.last_good.wf()
        &&& self.last_good.parameters@.len() == self.num_params
        &&& self.last_good.step is Distances
        &&& self.num_workers >= MIN_WORKERS
    }

    /// A supervisor for `num_params` parameters whose checkpoint at
    /// `load_progress_from` held `loaded` (`None`: it could not be read). A
    /// checkpoint of the right size is restored; otherwise the search starts
    /// from zero parameters and unit step distances.
    pub fn new(load_progress_from: String, loaded: Option<Vec<u8>>, num_params: usize) -> (r: Daemon)
        ensures
            r.wf(),
            r.load_progress_from@ == load_progress_from@,
            r.num_params == num_params,
            r.num_workers == DEFAULT_WORKERS,
            r.print_cycle == DEFAULT_PRINT_CYCLE,
            r.goal_mse == 0,
            !r.quiet,
            r.phase == Phase::Running,
            same_record(r.last_good, r.state),
            r.state.successful_turns == 0,
            r.state.failed_turns == 0,
            r.state.losses_over_time@.len() == 0,
            match loaded {
                Some(b) => if b@.len() == checkpoint_len(num_params as nat) {
                    &&& r.load_outcome == LoadOutcome::Restored
                    &&& (r.state.parameters@, r.state.step_values(), r.state.loss, r.state.epoch)
                        == checkpoint_fields(b@, num_params as nat)
                } else {
                    &&& r.load_outcome == LoadOutcome::Corrupted
                    &&& r.state.parameters@ == zeros(num_params as nat)
                    &&& r.state.step_values() == unit_steps(num_params as nat)
                    &&& r.state.loss == VERY_BIG_LOSS
                    &&& r.state.epoch == 0
                },
                None => {
                    &&& r.load_outcome == LoadOutcome::Unreadable
                    &&& r.state.parameters@ == zeros(num_params as nat)
                    &&& r.state.step_values() == unit_steps(num_params as nat)
                    &&& r.state.loss == VERY_BIG_LOSS
                    &&& r.state.epoch == 0
                },
            },
    {
        let (state, load_outcome) = match loaded {
            Some(bytes) => match State::deserialize(bytes.as_slice(), num_params) {
                Ok(s) => (s, LoadOutcome::Restored),
                Err(_) => (State::fallback(num_params), LoadOutcome::Corrupted),
            },
            None => (State::fallback(num_params), LoadOutcome::Unreadable),
        };
        let last_good = state.duplicate();
        Daemon {
            load_progress_from,
            state,
            last_good,
            num_params,
            print_cycle: DEFAULT_PRINT_CYCLE,
            num_workers: DEFAULT_WORKERS,
            goal_mse: 0,
            quiet: false,
            phase: Phase::Running,
            load_outcome,
        }
    }

    /// Replaces the record with a fresh one at `params` with distances `dists`.
    pub fn init_state(&mut self, params: Vec<u64>, dists: Vec<u64>)
        requires
            old(self).wf(),
            params@.len() == old(self).num_params,
            dists@.len() == old(self).num_params,
        ensures
            final(self).wf(),
            final(self).state.parameters@ == params@,
            final(self).state.step_values() == dists@,
            final(self).state.loss == VERY_BIG_LOSS,
            final(self).state.epoch == 0,
            same_record(final(self).last_good, final(self).state),
            final(self).num_params == old(self).num_params,
            final(self).num_workers == old(self).num_workers,
            final(self).goal_mse == old(self).goal_mse,
            final(self).print_cycle == old(self).print_cycle,
            final(self).phase == old(self).phase,
    {
        self.state = State::new(params, dists);
        self.last_good = self.state.duplicate();
    }

    /// Whether the loss is still above the goal.
    pub fn keep_running(&self) -> (r: bool)
        ensures
            r == lt(self.goal_mse, self.state.loss),
    {
        float_lt(self.goal_mse, self.state.loss)
    }

    /// Whether a report and checkpoint are due, `elapsed_ms` after the last one.
    pub fn checkpoint_due(&self, elapsed_ms: u64) -> (r: bool)
        ensures
            r == (elapsed_ms > self.print_cycle),
    {
        elapsed_ms > self.print_cycle
    }

    /// The checkpoint of the current record.
    pub fn save_bytes(&self) -> (r: Vec<u8>)
        requires
            self.wf(),
        ensures
            r@ == checkpoint_bytes(
                self.state.parameters@,
                self.state.step_values(),
                self.state.loss,
                self.state.epoch,
            ),
            r@.len() == checkpoint_len(self.num_params as nat),
    {
        self.state.serialize()
    }

    /// The tasks of one compass round, one per part: the current point and
    /// distances, with consecutive ranges of the candidate offsets that
    /// together cover all of them once.
    pub fn compass_tasks(&self, parts: usize) -> (r: Vec<MessageFromMain>)
        requires
            self.wf(),
            countable(self.num_params as nat),
            parts > 0,
        ensures
            r@.len() == parts,
            forall|p: int|
                0 <= p < parts ==> (#[trigger] r@[p] matches MessageFromMain::TryOffsets {
                    curr_params,
                    dists,
                    first,
                    count,
                } && curr_params@ == self.state.parameters@ && dists@ == self.state.step_values()
                    && count == candidates(self.num_params as nat).len() as int / parts as int + (if p
                    < candidates(self.num_params as nat).len() as int % parts as int {
                    1int
                } else {
                    0int
                }) && (p == 0 ==> first == 0) && (p == parts - 1 ==> first + count == candidates(
                    self.num_params as nat,
                ).len())),
            forall|p: int|
                0 <= p < parts - 1 ==> (#[trigger] r@[p] matches MessageFromMain::TryOffsets {
                    first,
                    count,
                    ..
                } && r@[p + 1] matches MessageFromMain::TryOffsets { first: next, .. } && first
                    + count == next),
    {
        let total = candidate_count(self.num_params);
        let ranges = plan_ranges(total, parts);
        let dists = match &self.state.step {
            StepInfo::Distances(d) => d,
            StepInfo::Previous(_) => { proof { assert(false); } &self.state.parameters },
        };
        let mut r: Vec<MessageFromMain> = Vec::new();
        let mut i: usize = 0;
        while i < parts
            invariant
                i <= parts,
                ranges@.len() == parts,
                dists@ == self.state.step_values(),
                r@.len() == i,
                forall|p: int|
                    0 <= p < i ==> (#[trigger] r@[p] matches MessageFromMain::TryOffsets {
                        curr_params,
                        dists: d,
                        first,
                        count,
                    } && curr_params@ == self.state.parameters@ && d@ == self.state.step_values()
                        && first == ranges@[p].0 && count == ranges@[p].1),
            decreases parts - i,
        {
            let (first, count) = ranges[i];
            r.push(
                MessageFromMain::TryOffsets {
                    curr_params: copy_point(&self.state.parameters),
                    dists: copy_point(dists),
                    first,
                    count,
                },
            );
            i += 1;
        }
        proof {
            assert forall|p: int| 0 <= p < parts - 1 implies (#[trigger] r@[p] matches MessageFromMain::TryOffsets {
                first,
                count,
                ..
            } && r@[p + 1] matches MessageFromMain::TryOffsets { first: next, .. } && first
                + count == next) by {
                assert(ranges@[p].0 + ranges@[p].1 == ranges@[p + 1].0);
            }
        }
        r
    }

    /// Settles a completed compass round on its winning offset and point at
    /// `now` (see `State::settle_offsets`).
    pub fn settle_round(
        &mut self,
        offset: &Vec<i8>,
        best_params: Vec<u64>,
        best_loss: u64,
        now: Timestamp,
    ) -> (classes: Vec<StepClass>)
        requires
            old(self).wf(),
            offset@.len() == old(self).num_params,
            best_params@.len() == old(self).num_params,
        ensures
            final(self).wf(),
            final(self).state.loss == next_loss(old(self).state.loss, Some(best_loss)),
            lt(best_loss, old(self).state.loss) ==> final(self).state.parameters@ == best_params@,
            !lt(best_loss, old(self).state.loss) ==> final(self).state.parameters
                == old(self).state.parameters,
            classes@.len() == old(self).num_params,
            forall|i: int|
                0 <= i < classes@.len() ==> #[trigger] classes@[i] == if lt(
                    best_loss,
                    old(self).state.loss,
                ) {
                    class_of(offset@[i])
                } else {
                    StepClass::Shrink
                },
            final(self).last_good == old(self).last_good,
            final(self).num_params == old(self).num_params,
            final(self).num_workers == old(self).num_workers,
            final(self).goal_mse == old(self).goal_mse,
            final(self).phase == old(self).phase,
    {
        self.state.settle_offsets(offset, best_params, best_loss, now)
    }

    /// Installs the adapted distances that end a round; the round is then
    /// complete and becomes the point to roll back to.
    pub fn complete_round(&mut self, adapted: &Vec<u64>)
        requires
            old(self).wf(),
            adapted@.len() == old(self).num_params,
        ensures
            final(self).wf(),
            forall|i: int|
                0 <= i < old(self).num_params ==> #[trigger] final(self).state.step_values()[i]
                    == floored(adapted@[i], old(self).state.parameters@[i]),
            forall|i: int|
                0 <= i < old(self).num_params ==> is_positive(
                    #[trigger] final(self).state.step_values()[i],
                ),
            final(self).state.parameters == old(self).state.parameters,
            final(self).state.loss == old(self).state.loss,
            same_record(final(self).last_good, final(self).state),
            final(self).num_params == old(self).num_params,
            final(self).num_workers == old(self).num_workers,
            final(self).goal_mse == old(self).goal_mse,
            final(self).phase == old(self).phase,
    {
        self.state.set_distances(adapted);
        self.last_good = self.state.duplicate();
    }

    /// A worker died during a round: what the round changed is dropped, the
    /// record goes back to the last completed round, and a pool of the same
    /// size is to be spawned. Returns that size.
    pub fn round_failed(&mut self) -> (workers: usize)
        requires
            old(self).wf(),
        ensures
            final(self).wf(),
            workers == old(self).num_workers,
            same_record(final(self).state, old(self).last_good),
            final(self).last_good == old(self).last_good,
            final(self).phase == Phase::Recovering,
            final(self).num_params == old(self).num_params,
            final(self).num_workers == old(self).num_workers,
            final(self).goal_mse == old(self).goal_mse,
    {
        self.state = self.last_good.duplicate();
        self.phase = Phase::Recovering;
        self.num_workers
    }

    /// The fresh pool is up: rounds resume.
    pub fn pool_respawned(&mut self)
        requires
            old(self).wf(),
        ensures
            final(self).wf(),
            final(self).phase == Phase::Running,
            final(self).state == old(self).state,
            final(self).last_good == old(self).last_good,
            final(self).num_params == old(self).num_params,
            final(self).num_workers == old(self).num_workers,
            final(self).goal_mse == old(self).goal_mse,
    {
        self.phase = Phase::Running;
    }

    /// The goal was reached.
    pub fn stop(&mut self)
        requires
            old(self).wf(),
        ensures
            final(self).wf(),
            final(self).phase == Phase::Stopped,
            final(self).state == old(self).state,
            final(self).last_good == old(self).last_good,
            final(self).num_params == old(self).num_params,
            final(self).num_workers == old(self).num_workers,
    {
        self.phase = Phase::Stopped;
    }
}

} // verus!
