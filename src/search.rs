//! Selection and candidate generation shared by both search strategies.
use vstd::prelude::*;
use crate::ieee::{float_lt, lt, not_above, lemma_lt_transitive};

verus! {

/// `i` is the first position of `losses` that no other loss is strictly below.
pub open spec fn is_first_best(losses: Seq<u64>, i: int) -> bool {
    &&& 0 <= i < losses.len()
    &&& forall|j: int| 0 <= j < losses.len() ==> !lt(#[trigger] losses[j], losses[i])
    &&& forall|j: int| 0 <= j < i ==> !not_above(#[trigger] losses[j], losses[i])
}

/// Position of the lowest loss: the first one that no other loss is strictly
/// below. `None` for an empty list.
pub fn best_index(losses: &Vec<u64>) -> (r: Option<usize>)
    ensures
        r is None <==> losses@.len() == 0,
        r matches Some(i) ==> is_first_best(losses@, i as int),
{
    if losses.len() == 0 {
        return None;
    }
    let mut best: usize = 0;
    let mut k: usize = 1;
    while k < losses.len()
        invariant
            0 <= best < k <= losses@.len(),
            forall|j: int| 0 <= j < k ==> !lt(#[trigger] losses@[j], losses@[best as int]),
            forall|j: int| 0 <= j < best ==> !not_above(#[trigger] losses@[j], losses@[best as int]),
        decreases losses@.len() - k,
    {
        if float_lt(losses[k], losses[best]) {
            let old_best = best;
            proof {
                let l = losses@;
                assert forall|j: int| 0 <= j < k + 1 implies !lt(#[trigger] l[j], l[k as int]) by {
                    if j < k && lt(l[j], l[k as int]) {
                        lemma_lt_transitive(l[j], l[k as int], l[old_best as int]);
                    }
                }
                assert forall|j: int| 0 <= j < k implies !not_above(#[trigger] l[j], l[k as int]) by {
                    if not_above(l[j], l[k as int]) {
                        if l[j] != l[k as int] {
                            lemma_lt_transitive(l[j], l[k as int], l[old_best as int]);
                        }
                    }
                }
            }
            best = k;
        }
        k += 1;
    }
    Some(best)
}

/// The best candidate seen so far by a worker or a round: its parameters and
/// loss (bit patterns of doubles).
pub struct BestSoFar {
    pub params: Vec<u64>,
    pub loss: u64,
}

impl BestSoFar {
    /// Starts from `params` at `loss`.
    pub fn new(params: Vec<u64>, loss: u64) -> (r: BestSoFar)
        ensures
            r.params@ == params@,
            r.loss == loss,
    {
        BestSoFar { params, loss }
    }

    /// Keeps the candidate only when its loss is strictly lower; returns whether
    /// it was kept.
    pub fn offer(&mut self, params: Vec<u64>, loss: u64) -> (kept: bool)
        ensures
            kept == lt(loss, old(self).loss),
            kept ==> final(self).params@ == params@ && final(self).loss == loss,
            !kept ==> final(self).params@ == old(self).params@ && final(self).loss == old(
                self,
            ).loss,
    {
        if float_lt(loss, self.loss) {
            self.params = params;
            self.loss = loss;
            true
        } else {
            false
        }
    }
}

/// `i` is the first of `pairs` whose distance no other distance strictly exceeds.
pub open spec fn is_first_farthest(pairs: Seq<(usize, usize, u64)>, i: int) -> bool {
    &&& 0 <= i < pairs.len()
    &&& forall|j: int| 0 <= j < pairs.len() ==> !lt(pairs[i].2, #[trigger] pairs[j].2)
    &&& forall|j: int| 0 <= j < i ==> !not_above(pairs[i].2, #[trigger] pairs[j].2)
}

/// Among `(a, b, distance)` triples, the pair that lies farthest apart (the
/// first one where distances tie). Two restarts seeded from it explore
/// different regions. `None` for an empty list.
pub fn farthest_pair(pairs: &Vec<(usize, usize, u64)>) -> (r: Option<(usize, usize)>)
    ensures
        r is None <==> pairs@.len() == 0,
        r matches Some(p) ==> exists|i: int|
            is_first_farthest(pairs@, i) && p == (#[trigger] pairs@[i].0, pairs@[i].1),
{
    if pairs.len() == 0 {
        return None;
    }
    let mut best: usize = 0;
    let mut k: usize = 1;
    while k < pairs.len()
        invariant
            0 <= best < k <= pairs@.len(),
            forall|j: int| 0 <= j < k ==> !lt(pairs@[best as int].2, #[trigger] pairs@[j].2),
            forall|j: int| 0 <= j < best ==> !not_above(pairs@[best as int].2, #[trigger] pairs@[j].2),
        decreases pairs@.len() - k,
    {
        if float_lt(pairs[best].2, pairs[k].2) {
            let old_best = best;
            proof {
                let l = pairs@;
                assert forall|j: int| 0 <= j < k + 1 implies !lt(l[k as int].2, #[trigger] l[j].2) by {
                    if j < k && lt(l[k as int].2, l[j].2) {
                        lemma_lt_transitive(l[old_best as int].2, l[k as int].2, l[j].2);
                    }
                }
                assert forall|j: int| 0 <= j < k implies !not_above(l[k as int].2, #[trigger] l[j].2) by {
                    if not_above(l[k as int].2, l[j].2) {
                        if l[j].2 != l[k as int].2 {
                            lemma_lt_transitive(l[old_best as int].2, l[k as int].2, l[j].2);
                        }
                    }
                }
            }
            best = k;
        }
        k += 1;
    }
    let p = (pairs[best].0, pairs[best].1);
    assert(is_first_farthest(pairs@, best as int));
    Some(p)
}

} // verus!
