use paropt::compass::{
    axis_offset_at, candidate_count, candidate_offset,
    floor_distances, offset_at, offset_count, offset_vectors, plan_ranges, quarter_magnitude,
    step_classes, StepClass,
};
use paropt::ieee::{abs_bits, float_is_positive, float_lt};
use paropt::messages::{gradient_answer, same_point, MessageToMain};
use paropt::round::{assign_round_robin, validate_config, ConfigError, Poll, RoundCollector, RoundStatus};
use paropt::search::{best_index, farthest_pair, BestSoFar};

fn b(x: f64) -> u64 {
    x.to_bits()
}

#[test]
fn float_order_matches_ieee() {
    let values = [
        f64::NEG_INFINITY, -3.5, -1.0, -f64::MIN_POSITIVE, -0.0, 0.0, 5e-324, 1.0, 2.0, 3e20,
        f64::INFINITY, f64::NAN, -f64::NAN,
    ];
    for x in values {
        for y in values {
            assert_eq!(float_lt(b(x), b(y)), x < y, "{x} < {y}");
        }
        assert_eq!(float_is_positive(b(x)), x > 0.0, "{x} > 0");
        assert_eq!(abs_bits(b(x)), b(x.abs()));
    }
}

#[test]
fn best_index_takes_first_lowest() {
    assert_eq!(best_index(&vec![]), None);
    assert_eq!(best_index(&vec![b(3.0), b(1.0), b(2.0), b(1.0)]), Some(1));
    assert_eq!(best_index(&vec![b(f64::NAN), b(1.0)]), Some(0));
    assert_eq!(best_index(&vec![b(0.0), b(-0.0)]), Some(0));
    assert_eq!(best_index(&vec![b(5.0), b(-7.0)]), Some(1));
}

#[test]
fn best_so_far_keeps_strictly_lower() {
    let mut best = BestSoFar::new(vec![1, 2], b(3e20));
    assert!(best.offer(vec![3, 4], b(10.0)));
    assert!(!best.offer(vec![5, 6], b(10.0)));
    assert!(!best.offer(vec![7, 8], b(f64::NAN)));
    assert!(best.offer(vec![9, 9], b(-1.0)));
    assert_eq!(best.params, vec![9, 9]);
    assert_eq!(best.loss, b(-1.0));
}

#[test]
fn farthest_pair_picks_largest_distance() {
    assert_eq!(farthest_pair(&vec![]), None);
    let pairs = vec![(0, 1, b(1.0)), (0, 2, b(4.5)), (1, 2, b(2.0)), (1, 3, b(4.5))];
    assert_eq!(farthest_pair(&pairs), Some((0, 2)));
}

#[test]
fn compass_offsets_enumerate_all_vectors() {
    let v = offset_vectors(2);
    assert_eq!(v.len(), 25);
    assert_eq!(v[0], vec![-2, -2]);
    assert_eq!(v[1], vec![-2, -1]);
    assert_eq!(v[12], vec![0, 0]);
    assert_eq!(v[24], vec![2, 2]);
    assert_eq!(offset_vectors(0), vec![Vec::<i8>::new()]);
    assert_eq!(offset_count(8), 390625);
    for (k, o) in offset_vectors(3).iter().enumerate() {
        assert_eq!(&offset_at(3, k), o);
    }
}

#[test]
fn step_class_follows_offset_size() {
    assert_eq!(
        step_classes(&vec![0, 1, -1, 2, -2]),
        vec![StepClass::Shrink, StepClass::Hold, StepClass::Hold, StepClass::Grow, StepClass::Grow]
    );
}

#[test]
fn ranges_tile_the_offsets() {
    assert_eq!(plan_ranges(10, 3), vec![(0, 4), (4, 3), (7, 3)]);
    assert_eq!(plan_ranges(2, 4), vec![(0, 1), (1, 1), (2, 0), (2, 0)]);
    assert_eq!(plan_ranges(0, 1), vec![(0, 0)]);
}

#[test]
fn tasks_go_round_the_pool() {
    assert_eq!(assign_round_robin(7, 3), vec![0, 1, 2, 0, 1, 2, 0]);
    assert_eq!(assign_round_robin(0, 2), Vec::<usize>::new());
}

#[test]
fn distances_never_reach_zero() {
    let params = vec![b(8.0), b(0.0), b(1e300), b(-4.0), b(3.0)];
    let adapted = vec![b(0.0), b(0.0), b(1e-300), b(-1.0), b(0.25)];
    let d = floor_distances(&adapted, &params);
    assert_eq!(d, vec![b(2.0), b(1.0), b(2.5e299), b(1.0), b(0.25)]);
    for x in &d {
        assert!(f64::from_bits(*x) > 0.0);
    }
}

#[test]
fn quarter_is_exact_for_normal_values() {
    assert_eq!(quarter_magnitude(b(-12.0)), b(3.0));
    assert_eq!(quarter_magnitude(b(1.0)), b(0.25));
    assert_eq!(quarter_magnitude(b(f64::INFINITY)), b(1.0));
    assert_eq!(quarter_magnitude(b(5e-324)), b(1.0));
}

#[test]
fn round_completes_with_best_answer() {
    let mut r = RoundCollector::new(3);
    assert_eq!(r.on_poll(Poll::Answer { loss: b(2.0) }), RoundStatus::Waiting);
    assert_eq!(r.on_poll(Poll::Nothing), RoundStatus::Waiting);
    assert_eq!(r.on_poll(Poll::Answer { loss: b(0.5) }), RoundStatus::Waiting);
    assert_eq!(r.on_poll(Poll::Answer { loss: b(1.0) }), RoundStatus::Complete { best: 1 });
}

#[test]
fn closed_channel_fails_the_round() {
    let mut r = RoundCollector::new(2);
    assert_eq!(r.on_poll(Poll::Answer { loss: b(2.0) }), RoundStatus::Waiting);
    assert_eq!(r.on_poll(Poll::Closed { worker: 3 }), RoundStatus::Failed { worker: 3 });
    assert_eq!(r.on_poll(Poll::Answer { loss: b(0.5) }), RoundStatus::Failed { worker: 3 });
    assert_eq!(r.losses.len(), 1);
}

#[test]
fn config_is_checked() {
    assert_eq!(validate_config(1, b(0.5)), Err(ConfigError::TooFewWorkers { num_workers: 1 }));
    assert_eq!(validate_config(0, b(7.0)), Err(ConfigError::TooFewWorkers { num_workers: 0 }));
    assert_eq!(validate_config(2, b(1.5)), Err(ConfigError::MomentOutOfRange));
    assert_eq!(validate_config(2, b(-0.1)), Err(ConfigError::MomentOutOfRange));
    assert_eq!(validate_config(2, b(f64::NAN)), Err(ConfigError::MomentOutOfRange));
    assert_eq!(validate_config(8, b(0.65)), Ok(()));
    assert_eq!(validate_config(2, b(1.0)), Ok(()));
    assert_eq!(validate_config(2, b(0.0)), Ok(()));
    assert_eq!(validate_config(2, b(-0.0)), Ok(()));
}

#[test]
fn unchanged_point_is_a_failure() {
    let curr = vec![b(1.0), b(2.0)];
    let same = BestSoFar::new(curr.clone(), b(3e20));
    assert!(matches!(
        gradient_answer(4, &curr, same, vec![0, 0]),
        MessageToMain::WithGradientResultFailure { state_id: 4 }
    ));
    let moved = BestSoFar::new(vec![b(1.5), b(2.0)], b(0.25));
    match gradient_answer(4, &curr, moved, vec![b(0.5), 0]) {
        MessageToMain::WithGradientResult { state_id, best_params, best_loss, step } => {
            assert_eq!(state_id, 4);
            assert_eq!(best_params, vec![b(1.5), b(2.0)]);
            assert_eq!(best_loss, b(0.25));
            assert_eq!(step, vec![b(0.5), 0]);
        }
        _ => panic!("expected a result"),
    }
    assert!(!same_point(&vec![b(0.0)], &vec![b(-0.0)]));
    assert!(!same_point(&vec![1], &vec![1, 2]));
}

#[test]
fn large_searches_try_axis_moves_only() {
    assert_eq!(candidate_count(8), 390625);
    assert_eq!(candidate_count(9), 37);
    assert_eq!(candidate_offset(9, 0), vec![0; 9]);
    assert_eq!(candidate_offset(9, 1), vec![-2, 0, 0, 0, 0, 0, 0, 0, 0]);
    assert_eq!(candidate_offset(9, 7), vec![0, 1, 0, 0, 0, 0, 0, 0, 0]);
    assert_eq!(candidate_offset(9, 36), vec![0, 0, 0, 0, 0, 0, 0, 0, 2]);
    assert_eq!(axis_offset_at(2, 4), vec![2, 0]);
    assert_eq!(candidate_offset(2, 24), vec![2, 2]);
}
