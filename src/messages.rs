//! The messages between the coordinator and its workers: plain values that the
//! receiving side owns once sent. Real numbers are bit patterns of doubles.
use vstd::prelude::*;
use crate::search::BestSoFar;

verus! {

/// A task for one worker.
pub enum MessageFromMain {
    /// Evaluate `count` random points of norm `param_l2_norm`; answer with the best.
    TryRandomParams { param_l2_norm: u64, count: usize },
    /// Evaluate `count` points one momentum step away from `curr_params`.
    /// The new step is `prev_step * step_moment` plus a random part, scaled to
    /// the norm of `prev_step`; with no previous step a random step of norm
    /// `step_size` is taken.
    TryWithGradient {
        state_id: usize,
        curr_params: Vec<u64>,
        prev_step: Option<Vec<u64>>,
        step_moment: u64,
        step_size: u64,
        count: usize,
    },
    /// Evaluate the compass candidates `first .. first + count` (see
    /// `compass::candidate_offset`), each scaled coordinate-wise by `dists`
    /// and added to `curr_params`.
    TryOffsets { curr_params: Vec<u64>, dists: Vec<u64>, first: usize, count: usize },
    /// Needs no answer: a failed send is the sign of a dead worker.
    HealthCheck,
    /// Asks the worker to stop.
    Kill,
}

/// A worker's answer to one task.
pub enum MessageToMain {
    RandomParamResult { best_params: Vec<u64>, best_loss: u64 },
    /// `step` is `best_params - curr_params`.
    WithGradientResult { state_id: usize, best_params: Vec<u64>, best_loss: u64, step: Vec<u64> },
    /// No candidate beat the current point.
    WithGradientResultFailure { state_id: usize },
    /// The best offset of the task's range, with the point it leads to.
    OffsetResult { offset: Vec<i8>, best_params: Vec<u64>, best_loss: u64 },
}

/// A worker's answer to a momentum task whose best point is `best` and whose
/// step from `curr_params` is `step`: a failure exactly when the best point is
/// still the current one, bit for bit.
pub fn gradient_answer(
    state_id: usize,
    curr_params: &Vec<u64>,
    best: BestSoFar,
    step: Vec<u64>,
) -> (r: MessageToMain)
    ensures
        best.params@ == curr_params@ ==> r == (MessageToMain::WithGradientResultFailure {
            state_id,
        }),
        best.params@ != curr_params@ ==> (r matches MessageToMain::WithGradientResult {
            state_id: id,
            best_params: p,
            best_loss: l,
            step: s,
        } && id == state_id && p@ == best.params@ && l == best.loss && s@ == step@),
{
    if same_point(&best.params, curr_params) {
        MessageToMain::WithGradientResultFailure { state_id }
    } else {
        MessageToMain::WithGradientResult {
            state_id,
            best_params: best.params,
            best_loss: best.loss,
            step,
        }
    }
}

/// Bitwise equality of two points.
pub fn same_point(a: &Vec<u64>, b: &Vec<u64>) -> (r: bool)
    ensures
        r == (a@ == b@),
{
    if a.len() != b.len() {
        return false;
    }
    let mut i: usize = 0;
    while i < a.len()
        invariant
            a@.len() == b@.len(),
            i <= a@.len(),
            a@.take(i as int) == b@.take(i as int),
        decreases a@.len() - i,
    {
        if a[i] != b[i] {
            assert(a@[i as int] != b@[i as int]);
            return false;
        }
        i += 1;
        assert(a@.take(i as int) =~= a@.take(i - 1).push(a@[i - 1]));
        assert(b@.take(i as int) =~= b@.take(i - 1).push(b@[i - 1]));
    }
    assert(a@.take(i as int) =~= a@);
    assert(b@.take(i as int) =~= b@);
    true
}

} // verus!
