//! One round's fan-in: answers are gathered until the expected number has
//! arrived, and a closed channel on any worker fails the round.
use vstd::prelude::*;
use crate::ieee::{is_nan, order_key, ONE_BITS, SIGN_BIT};
use crate::search::{best_index, is_first_best};

verus! {

/// Fewest workers a pool may have.
pub const MIN_WORKERS: usize = 2;

/// What one poll of a worker's answer channel gave.
#[derive(Clone, Copy, PartialEq, Eq, Structural, Debug)]
pub enum Poll {
    /// An answer whose best loss is `loss`.
    Answer { loss: u64 },
    /// Nothing yet.
    Nothing,
    /// The worker's channel is closed: the worker is dead.
    Closed { worker: usize },
}

/// Where a round stands after a poll.
#[derive(Clone, Copy, PartialEq, Eq, Structural, Debug)]
pub enum RoundStatus {
    /// Fewer answers than expected, and no dead worker: poll again.
    Waiting,
    /// Every answer is in; `best` is the position (in arrival order) of the
    /// first answer with the lowest loss.
    Complete { best: usize },
    /// A worker died; the round is abandoned and nothing of it is applied.
    Failed { worker: usize },
}

/// The gathering of one round's answers.
pub struct RoundCollector {
    pub expected: usize,
    pub losses: Vec<u64>,
    pub dead: Option<usize>,
}

impl RoundCollector {
    pub open spec fn wf(&self) -> bool {
        self.expected > 0 && self.losses@.len() <= self.expected
    }

    /// A round that waits for `expected` answers.
    pub fn new(expected: usize) -> (r: RoundCollector)
        requires
            expected > 0,
        ensures
            r.wf(),
            r.expected == expected,
            r.losses@.len() == 0,
            r.dead.is_none(),
    {
        RoundCollector { expected, losses: Vec::new(), dead: None }
    }

    /// Takes one poll's outcome. A closed channel fails the round for good; an
    /// answer is recorded while answers are still expected; the round is
    /// complete once all expected answers are in.
    pub fn on_poll(&mut self, poll: Poll) -> (r: RoundStatus)
        requires
            old(self).wf(),
        ensures
            final(self).wf(),
            final(self).expected == old(self).expected,
            final(self).dead == match (old(self).dead, poll) {
                (Some(w), _) => Some(w),
                (None, Poll::Closed { worker }) => Some(worker),
                _ => None,
            },
            final(self).losses@ == match poll {
                Poll::Answer { loss } => if old(self).dead.is_none() && old(self).losses@.len()
                    < old(self).expected {
                    old(self).losses@.push(loss)
                } else {
                    old(self).losses@
                },
                _ => old(self).losses@,
            },
            final(self).dead matches Some(w) ==> r == (RoundStatus::Failed { worker: w }),
            final(self).dead is None && final(self).losses@.len() < final(self).expected ==> r
                == RoundStatus::Waiting,
            final(self).dead is None && final(self).losses@.len() == final(self).expected ==> (
            r matches RoundStatus::Complete { best } && is_first_best(
                final(self).losses@,
                best as int,
            )),
    {
        if self.dead.is_none() {
            match poll {
                Poll::Closed { worker } => {
                    self.dead = Some(worker);
                },
                Poll::Answer { loss } => {
                    if self.losses.len() < self.expected {
                        self.losses.push(loss);
                    }
                },
                Poll::Nothing => {},
            }
        }
        match self.dead {
            Some(w) => RoundStatus::Failed { worker: w },
            None => {
                if self.losses.len() < self.expected {
                    RoundStatus::Waiting
                } else {
                    match best_index(&self.losses) {
                        Some(b) => RoundStatus::Complete { best: b },
                        None => RoundStatus::Waiting,
                    }
                }
            },
        }
    }
}

/// Why a configuration is refused before any worker starts.
#[derive(Clone, Copy, PartialEq, Eq, Structural, Debug)]
pub enum ConfigError {
    /// A pool needs at least two workers.
    TooFewWorkers { num_workers: usize },
    /// The step moment is not within `[0, 1]`.
    MomentOutOfRange,
}

/// `0 <= m <= 1` for the double `m`.
pub open spec fn valid_moment(m: u64) -> bool {
    !is_nan(m) && 0 <= order_key(m) <= order_key(ONE_BITS)
}

/// Checks the worker count, then the step moment.
pub fn validate_config(num_workers: usize, step_moment: u64) -> (r: Result<(), ConfigError>)
    ensures
        num_workers < MIN_WORKERS ==> r == Err::<(), ConfigError>(
            ConfigError::TooFewWorkers { num_workers },
        ),
        num_workers >= MIN_WORKERS && !valid_moment(step_moment) ==> r == Err::<(), ConfigError>(
            ConfigError::MomentOutOfRange,
        ),
        num_workers >= MIN_WORKERS && valid_moment(step_moment) ==> r is Ok,
{
    if num_workers < MIN_WORKERS {
        return Err(ConfigError::TooFewWorkers { num_workers });
    }
    let ok = if step_moment >= SIGN_BIT {
        step_moment == SIGN_BIT
    } else {
        step_moment <= ONE_BITS
    };
    if ok {
        Ok(())
    } else {
        Err(ConfigError::MomentOutOfRange)
    }
}

} // verus!

verus! {

/// The worker each of `num_tasks` tasks goes to: task `i` to worker
/// `i % num_workers`, so the tasks go round the pool in turn.
pub fn assign_round_robin(num_tasks: usize, num_workers: usize) -> (r: Vec<usize>)
    requires
        num_workers > 0,
    ensures
        r@.len() == num_tasks,
        forall|i: int| 0 <= i < num_tasks ==> #[trigger] r@[i] == i % num_workers as int,
{
    let mut r: Vec<usize> = Vec::new();
    let mut i: usize = 0;
    let mut w: usize = 0;
    while i < num_tasks
        invariant
            num_workers > 0,
            i <= num_tasks,
            r@.len() == i,
            w == i as int % num_workers as int,
            forall|j: int| 0 <= j < i ==> #[trigger] r@[j] == j % num_workers as int,
        decreases num_tasks - i,
    {
        r.push(w);
        proof {
            assert((i as int + 1) % num_workers as int == if w + 1 == num_workers { 0 } else { w + 1 }) by (nonlinear_arith)
                requires
                    num_workers > 0,
                    w == i as int % num_workers as int,
            ;
        }
        w = if w + 1 == num_workers { 0 } else { w + 1 };
        i += 1;
    }
    r
}

} // verus!
