//! Coordinate (compass) search: the discrete offsets tried around the current
//! point, and how each coordinate's step distance adapts to the winning offset.
use vstd::prelude::*;
use crate::ieee::{abs_bits, exponent, float_is_positive, is_positive, magnitude, MANTISSA_SPAN, ONE_BITS};

verus! {

/// Largest parameter count for which every offset vector is enumerated.
pub const MAX_COMPASS_PARAMS: usize = 8;

/// Every vector of `s` extended by each of `-2, -1, 0, 1, 2`, in that order.
pub open spec fn extend(s: Seq<Seq<i8>>) -> Seq<Seq<i8>> {
    Seq::new(5 * s.len(), |k: int| s[k / 5].push((k % 5 - 2) as i8))
}

/// All vectors over `{-2, -1, 0, 1, 2}` of length `n`, in lexicographic order.
pub open spec fn offsets(n: nat) -> Seq<Seq<i8>>
    decreases n,
{
    if n == 0 {
        seq![Seq::empty()]
    } else {
        extend(offsets((n - 1) as nat))
    }
}

pub open spec fn pow5(n: nat) -> nat
    decreases n,
{
    if n == 0 { 1 } else { 5 * pow5((n - 1) as nat) }
}

pub open spec fn is_offset(v: Seq<i8>, n: nat) -> bool {
    v.len() == n && forall|i: int| 0 <= i < n ==> -2 <= #[trigger] v[i] <= 2
}

proof fn lemma_pow5_bound(n: nat)
    requires
        n <= 8,
    ensures
        pow5(n) <= 390625,
{
    assert(pow5(0) == 1);
    assert(pow5(1) == 5);
    assert(pow5(2) == 25);
    assert(pow5(3) == 125);
    assert(pow5(4) == 625);
    assert(pow5(5) == 3125);
    assert(pow5(6) == 15625);
    assert(pow5(7) == 78125);
    assert(pow5(8) == 390625);
}

/// There are `5^n` offset vectors, each a valid offset of length `n`.
pub proof fn lemma_offsets_shape(n: nat)
    ensures
        offsets(n).len() == pow5(n),
        forall|k: int| 0 <= k < offsets(n).len() ==> is_offset(#[trigger] offsets(n)[k], n),
    decreases n,
{
    if n > 0 {
        let prev = offsets((n - 1) as nat);
        lemma_offsets_shape((n - 1) as nat);
        assert forall|k: int| 0 <= k < offsets(n).len() implies is_offset(#[trigger] offsets(n)[k], n) by {
            let v = prev[k / 5];
            assert(is_offset(v, (n - 1) as nat));
            let w = v.push((k % 5 - 2) as i8);
            assert(offsets(n)[k] == w);
            assert forall|i: int| 0 <= i < n implies -2 <= #[trigger] w[i] <= 2 by {
                if i < n - 1 {
                    assert(w[i] == v[i]);
                }
            }
        }
    }
}

/// Every vector over `{-2, ..., 2}` of length `n` is among the offsets.
pub proof fn lemma_offsets_complete(v: Seq<i8>, n: nat)
    requires
        is_offset(v, n),
    ensures
        offsets(n).contains(v),
    decreases n,
{
    if n > 0 {
        let init = v.drop_last();
        assert(is_offset(init, (n - 1) as nat)) by {
            assert forall|i: int| 0 <= i < n - 1 implies -2 <= #[trigger] init[i] <= 2 by {
                assert(init[i] == v[i]);
            }
        }
        lemma_offsets_complete(init, (n - 1) as nat);
        let prev = offsets((n - 1) as nat);
        let j = choose|j: int| 0 <= j < prev.len() && prev[j] == init;
        let d = v.last();
        assert(-2 <= d <= 2) by {
            assert(v[n - 1] == d);
        }
        let k = 5 * j + (d + 2);
        assert(k / 5 == j && k % 5 == d + 2);
        assert(0 <= k < offsets(n).len());
        assert(offsets(n)[k] =~= v);
    } else {
        assert(v =~= Seq::<i8>::empty());
        assert(offsets(0)[0] == v);
    }
}

/// The views of a list of vectors.
pub open spec fn views(vs: Seq<Vec<i8>>) -> Seq<Seq<i8>> {
    vs.map_values(|x: Vec<i8>| x@)
}

/// A copy of `v` with `d` appended.
fn copy_push(v: &Vec<i8>, d: i8) -> (r: Vec<i8>)
    ensures
        r@ == v@.push(d),
{
    let mut r: Vec<i8> = Vec::new();
    let mut i: usize = 0;
    while i < v.len()
        invariant
            i <= v@.len(),
            r@ == v@.take(i as int),
        decreases v@.len() - i,
    {
        r.push(v[i]);
        i += 1;
        assert(r@ =~= v@.take(i as int));
    }
    r.push(d);
    assert(r@ =~= v@.push(d));
    r
}

/// All offset vectors for `n` parameters, in lexicographic order.
pub fn offset_vectors(n: usize) -> (r: Vec<Vec<i8>>)
    requires
        n <= MAX_COMPASS_PARAMS,
    ensures
        views(r@) == offsets(n as nat),
{
    let mut cur: Vec<Vec<i8>> = Vec::new();
    cur.push(Vec::new());
    assert(views(cur@) =~= offsets(0));
    let mut i: usize = 0;
    while i < n
        invariant
            i <= n <= 8,
            views(cur@) == offsets(i as nat),
        decreases n - i,
    {
        proof {
            lemma_offsets_shape(i as nat);
            lemma_pow5_bound(i as nat);
        }
        let mut next: Vec<Vec<i8>> = Vec::new();
        let mut k: usize = 0;
        while k < cur.len()
            invariant
                k <= cur@.len() <= 390625,
                views(next@) == extend(views(cur@)).take(5 * k as int),
            decreases cur@.len() - k,
        {
            let mut d: i8 = -2;
            while d <= 2
                invariant
                    -2 <= d <= 3,
                    k < cur@.len() <= 390625,
                    views(next@) == extend(views(cur@)).take(5 * k + d + 2),
                decreases 3 - d,
            {
                let w = copy_push(&cur[k], d);
                let ghost before = next@;
                next.push(w);
                proof {
                    let e = extend(views(cur@));
                    let idx = 5 * k + d + 2;
                    assert(idx / 5 == k && idx % 5 == d + 2);
                    assert(views(cur@)[k as int] == cur@[k as int]@);
                    assert(e[idx] == w@);
                    assert(views(next@) =~= views(before).push(w@));
                    assert(views(next@) =~= e.take(idx + 1));
                }
                d += 1;
            }
            k += 1;
        }
        assert(views(next@) =~= extend(views(cur@)));
        cur = next;
        i += 1;
    }
    cur
}

/// How one coordinate's step distance changes after a round.
#[derive(Clone, Copy, PartialEq, Eq, Structural, Debug)]
pub enum StepClass {
    /// The coordinate did not move: the distance shrinks.
    Shrink,
    /// It moved by one step: the distance stays about the same.
    Hold,
    /// It moved by two steps: the distance grows.
    Grow,
}

pub open spec fn class_of(o: i8) -> StepClass {
    if o == 0 {
        StepClass::Shrink
    } else if o == 1 || o == -1 {
        StepClass::Hold
    } else {
        StepClass::Grow
    }
}

/// The adjustment of each coordinate chosen by the winning offset.
pub fn step_classes(offset: &Vec<i8>) -> (r: Vec<StepClass>)
    ensures
        r@.len() == offset@.len(),
        forall|i: int| 0 <= i < r@.len() ==> #[trigger] r@[i] == class_of(offset@[i]),
{
    let mut r: Vec<StepClass> = Vec::new();
    let mut i: usize = 0;
    while i < offset.len()
        invariant
            i <= offset@.len(),
            r@.len() == i,
            forall|j: int| 0 <= j < i ==> #[trigger] r@[j] == class_of(offset@[j]),
        decreases offset@.len() - i,
    {
        let o = offset[i];
        let c = if o == 0 {
            StepClass::Shrink
        } else if o == 1 || o == -1 {
            StepClass::Hold
        } else {
            StepClass::Grow
        };
        r.push(c);
        i += 1;
    }
    r
}

/// A step distance `d` stalls its parameter `p` when it is not positive, or so
/// small beside `p` (more than 53 binary orders of magnitude below) that adding
/// it leaves `p` unchanged.
pub open spec fn stalls(d: u64, p: u64) -> bool {
    !is_positive(d) || exponent(p) > exponent(d) + 53
}

/// A quarter of `|p|`: for a finite normal `p` with room in its exponent this
/// is exact (the exponent drops by two); otherwise `1.0`.
pub open spec fn quarter_or_unit(p: u64) -> u64 {
    if 2 < exponent(p) < 2047 { (magnitude(p) - 2 * MANTISSA_SPAN) as u64 } else { ONE_BITS }
}

/// The distance kept for a coordinate: the adapted one, or a quarter of the
/// parameter's magnitude when the adapted one stalls.
pub open spec fn floored(d: u64, p: u64) -> u64 {
    if stalls(d, p) { quarter_or_unit(p) } else { d }
}

/// `quarter_or_unit` is always a positive value.
pub proof fn lemma_quarter_positive(p: u64)
    ensures
        is_positive(quarter_or_unit(p)),
{
    if 2 < exponent(p) < 2047 {
        assert(magnitude(p) >= 3 * MANTISSA_SPAN);
        assert(magnitude(p) < 2047 * MANTISSA_SPAN);
    }
}

/// Quarter of `|p|`, or `1.0` (see `quarter_or_unit`).
pub fn quarter_magnitude(p: u64) -> (r: u64)
    ensures
        r == quarter_or_unit(p),
        is_positive(r),
{
    proof {
        lemma_quarter_positive(p);
    }
    let m = abs_bits(p);
    let e = m / MANTISSA_SPAN;
    if 2 < e && e < 2047 {
        m - 2 * MANTISSA_SPAN
    } else {
        ONE_BITS
    }
}

/// Whether `d` stalls `p` (see `stalls`).
pub fn distance_stalls(d: u64, p: u64) -> (r: bool)
    ensures
        r == stalls(d, p),
{
    if !float_is_positive(d) {
        return true;
    }
    let ep = abs_bits(p) / MANTISSA_SPAN;
    let ed = abs_bits(d) / MANTISSA_SPAN;
    ep > ed + 53
}

/// The next step distances: each adapted distance is kept unless it stalls
/// its parameter, in which case it is re-seeded; every result is positive.
pub fn floor_distances(adapted: &Vec<u64>, params: &Vec<u64>) -> (r: Vec<u64>)
    requires
        adapted@.len() == params@.len(),
    ensures
        r@.len() == params@.len(),
        forall|i: int| 0 <= i < r@.len() ==> #[trigger] r@[i] == floored(adapted@[i], params@[i]),
        forall|i: int| 0 <= i < r@.len() ==> is_positive(#[trigger] r@[i]),
{
    let mut r: Vec<u64> = Vec::new();
    let mut i: usize = 0;
    while i < params.len()
        invariant
            i <= params@.len(),
            adapted@.len() == params@.len(),
            r@.len() == i,
            forall|j: int| 0 <= j < i ==> #[trigger] r@[j] == floored(adapted@[j], params@[j]),
            forall|j: int| 0 <= j < i ==> is_positive(#[trigger] r@[j]),
        decreases params@.len() - i,
    {
        let d = adapted[i];
        let p = params[i];
        let v = if distance_stalls(d, p) { quarter_magnitude(p) } else { d };
        r.push(v);
        i += 1;
    }
    r
}

} // verus!

verus! {

/// Number of offset vectors for `n` parameters: `5^n`.
pub fn offset_count(n: usize) -> (r: usize)
    requires
        n <= MAX_COMPASS_PARAMS,
    ensures
        r == pow5(n as nat),
        r == offsets(n as nat).len(),
{
    proof {
        lemma_offsets_shape(n as nat);
    }
    let mut r: usize = 1;
    let mut i: usize = 0;
    while i < n
        invariant
            i <= n <= 8,
            r == pow5(i as nat),
        decreases n - i,
    {
        proof {
            lemma_pow5_bound(i as nat);
        }
        r = r * 5;
        i += 1;
    }
    r
}

/// The offset at position `k` of the lexicographic order: the base-5 digits
/// of `k`, each shifted down by two.
pub fn offset_at(n: usize, k: usize) -> (r: Vec<i8>)
    requires
        n <= MAX_COMPASS_PARAMS,
        k < pow5(n as nat),
    ensures
        r@ == offsets(n as nat)[k as int],
    decreases n,
{
    proof {
        lemma_offsets_shape(n as nat);
    }
    if n == 0 {
        let r: Vec<i8> = Vec::new();
        assert(r@ =~= offsets(0)[0]);
        r
    } else {
        let mut r = offset_at(n - 1, k / 5);
        let d = (k % 5) as i8 - 2;
        r.push(d);
        r
    }
}

/// Splits `total` items into `parts` consecutive ranges `(first, count)`: they
/// follow one another from 0 to `total`, and the first `total % parts` ranges
/// hold one item more than the others.
pub fn plan_ranges(total: usize, parts: usize) -> (r: Vec<(usize, usize)>)
    requires
        parts > 0,
    ensures
        r@.len() == parts,
        r@[0].0 == 0,
        r@[parts - 1].0 + r@[parts - 1].1 == total,
        forall|p: int| 0 <= p < parts - 1 ==> #[trigger] r@[p].0 + r@[p].1 == r@[p + 1].0,
        forall|p: int|
            0 <= p < parts ==> #[trigger] r@[p].1 == total / parts + (if p < total % parts {
                1int
            } else {
                0int
            }),
{
    let q = total / parts;
    let rem = total % parts;
    let mut r: Vec<(usize, usize)> = Vec::new();
    let mut start: usize = 0;
    let mut i: usize = 0;
    while i < parts
        invariant
            q == total / parts,
            rem == total % parts,
            i <= parts,
            r@.len() == i,
            start == i * q + (if i < rem { i as int } else { rem as int }),
            i > 0 ==> r@[0].0 == 0,
            i > 0 ==> r@[i - 1].0 + r@[i - 1].1 == start,
            forall|p: int| 0 <= p < i - 1 ==> #[trigger] r@[p].0 + r@[p].1 == r@[p + 1].0,
            forall|p: int|
                0 <= p < i ==> #[trigger] r@[p].1 == q + (if p < rem { 1int } else { 0int }),
        decreases parts - i,
    {
        proof {
            assert(total == parts * q + rem) by (nonlinear_arith)
                requires
                    q == total / parts,
                    rem == total % parts,
                    parts > 0,
            ;
            assert((i + 1) * q == i * q + q) by (nonlinear_arith);
            assert(i == 0 ==> i * q == 0) by (nonlinear_arith);
            assert(i * q + q <= parts * q) by (nonlinear_arith)
                requires
                    i < parts,
            ;
        }
        let count = if i < rem { q + 1 } else { q };
        r.push((start, count));
        start = start + count;
        i += 1;
    }
    proof {
        assert(total == parts * q + rem) by (nonlinear_arith)
            requires
                q == total / parts,
                rem == total % parts,
                parts > 0,
        ;
    }
    r
}

} // verus!

verus! {

/// The nonzero moves along one axis, in order.
pub open spec fn axis_value(j: int) -> i8 {
    if j == 0 {
        -2i8
    } else if j == 1 {
        -1i8
    } else if j == 2 {
        1i8
    } else {
        2i8
    }
}

/// Offset `k` of the axis-only set for `n` parameters: `k == 0` is the zero
/// offset; offset `k > 0` moves coordinate `(k - 1) / 4` alone, by
/// `-2, -1, 1, 2` in turn.
pub open spec fn axis_offset(n: nat, k: int) -> Seq<i8> {
    Seq::new(n, |i: int| if k > 0 && i == (k - 1) / 4 { axis_value((k - 1) % 4) } else { 0i8 })
}

/// The offsets a compass round tries for `n` parameters: all of them while
/// there are at most `MAX_COMPASS_PARAMS` parameters, else the `4 * n + 1`
/// axis-only ones.
pub open spec fn candidates(n: nat) -> Seq<Seq<i8>> {
    if n <= MAX_COMPASS_PARAMS {
        offsets(n)
    } else {
        Seq::new(4 * n + 1, |k: int| axis_offset(n, k))
    }
}

/// The candidate count for `n` parameters fits in a `usize`.
pub open spec fn countable(n: nat) -> bool {
    4 * n + 1 <= usize::MAX
}

/// Number of offsets a compass round tries for `n` parameters.
pub fn candidate_count(n: usize) -> (r: usize)
    requires
        countable(n as nat),
    ensures
        r == candidates(n as nat).len(),
{
    if n <= MAX_COMPASS_PARAMS {
        offset_count(n)
    } else {
        4 * n + 1
    }
}

/// Offset `k` of the axis-only set (see `axis_offset`).
pub fn axis_offset_at(n: usize, k: usize) -> (r: Vec<i8>)
    requires
        k < 4 * n + 1,
    ensures
        r@ == axis_offset(n as nat, k as int),
{
    let mut r: Vec<i8> = Vec::new();
    let axis: usize = if k > 0 { (k - 1) / 4 } else { 0 };
    let v: i8 = if k == 0 {
        0
    } else {
        match (k - 1) % 4 {
            0 => -2,
            1 => -1,
            2 => 1,
            _ => 2,
        }
    };
    let mut i: usize = 0;
    while i < n
        invariant
            i <= n,
            k < 4 * n + 1,
            axis == (if k > 0 { (k - 1) / 4 } else { 0 }),
            k > 0 ==> v == axis_value((k - 1) % 4),
            r@ == axis_offset(n as nat, k as int).take(i as int),
        decreases n - i,
    {
        let x: i8 = if k > 0 && i == axis { v } else { 0 };
        r.push(x);
        i += 1;
        assert(r@ =~= axis_offset(n as nat, k as int).take(i as int));
    }
    assert(r@ =~= axis_offset(n as nat, k as int));
    r
}

/// Offset `k` of the candidates for `n` parameters.
pub fn candidate_offset(n: usize, k: usize) -> (r: Vec<i8>)
    requires
        countable(n as nat),
        k < candidates(n as nat).len(),
    ensures
        r@ == candidates(n as nat)[k as int],
        r@.len() == n,
{
    if n <= MAX_COMPASS_PARAMS {
        proof {
            lemma_offsets_shape(n as nat);
        }
        offset_at(n, k)
    } else {
        axis_offset_at(n, k)
    }
}

} // verus!
