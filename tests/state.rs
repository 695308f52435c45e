use paropt::compass::StepClass;
use paropt::messages::{MessageFromMain, MessageToMain};
use paropt::state::{State, StepInfo, Timestamp, VERY_BIG_LOSS};

fn b(x: f64) -> u64 {
    x.to_bits()
}

fn at(minutes: i64) -> Timestamp {
    Timestamp { micros: minutes * 60_000_000 }
}

#[test]
fn history_never_exceeds_cap() {
    let mut s = State::new(vec![0], vec![b(1.0)]);
    for i in 0..10_000i64 {
        s.update_best_loss_at(vec![b(i as f64)], b(1.0 / (i + 1) as f64), vec![0], Timestamp { micros: i * 7_000_000 });
        assert!(s.losses_over_time.len() <= 64);
    }
    assert_eq!(s.losses_over_time.len(), 64);
    assert_eq!(s.successful_turns, 10_000);
}

#[test]
fn full_history_keeps_spaced_samples() {
    let mut s = State::new(vec![0], vec![b(1.0)]);
    for i in 0..64 {
        s.update_best_loss_at(vec![0], b(i as f64), vec![0], at(i));
    }
    assert_eq!(s.losses_over_time.len(), 64);
    // oldest sample is at minute 0; minute 2 is too soon
    s.update_best_loss_at(vec![0], b(100.0), vec![0], Timestamp { micros: 179_999_999 });
    assert_eq!(s.losses_over_time.len(), 64);
    assert_eq!(s.losses_over_time[0].0, at(0));
    assert_eq!(s.losses_over_time[63].1, b(63.0));
    // three minutes after the oldest: the oldest goes, the new one is kept
    s.update_best_loss_at(vec![0], b(200.0), vec![0], at(3));
    assert_eq!(s.losses_over_time.len(), 64);
    assert_eq!(s.losses_over_time[0].0, at(1));
    assert_eq!(s.losses_over_time[63], (at(3), b(200.0)));
}

#[test]
fn update_records_point_and_clock() {
    let mut s = State::new(vec![b(1.0), b(2.0)], vec![b(1.0), b(1.0)]);
    s.update_best_loss(vec![b(0.5), b(0.5)], b(0.125), vec![b(-0.5), b(-1.5)]);
    assert_eq!(s.parameters, vec![b(0.5), b(0.5)]);
    assert_eq!(s.loss, b(0.125));
    assert_eq!(s.successful_turns, 1);
    let t = s.last_updated_at.unwrap();
    // later than 2001-09-09 in microseconds
    assert!(t.micros > 1_000_000_000_000_000);
    assert_eq!(s.losses_over_time, vec![(t, b(0.125))]);
    match &s.step {
        StepInfo::Previous(Some(p)) => assert_eq!(p, &vec![b(-0.5), b(-1.5)]),
        _ => panic!("expected previous step"),
    }
}

#[test]
fn loss_never_increases_over_rounds() {
    let mut s = State::new(vec![0, 0], vec![b(1.0), b(1.0)]);
    assert_eq!(s.loss, VERY_BIG_LOSS);
    let offered = [5.0, 7.0, 5.0, 1.0, f64::NAN, 2.0, 0.5, 0.5, 10.0];
    let mut prev = f64::from_bits(s.loss);
    for (i, l) in offered.iter().enumerate() {
        let answer = if i % 4 == 3 {
            MessageToMain::WithGradientResultFailure { state_id: 0 }
        } else {
            MessageToMain::WithGradientResult {
                state_id: 0,
                best_params: vec![b(*l), 0],
                best_loss: b(*l),
                step: vec![0, 0],
            }
        };
        s.settle_gradient(answer, at(i as i64));
        let now = f64::from_bits(s.loss);
        assert!(now <= prev);
        prev = now;
    }
    assert_eq!(s.loss, b(0.5));
    assert_eq!(s.epoch, offered.len() as u64);
    assert_eq!(s.successful_turns + s.failed_turns, offered.len() as u64);
    assert_eq!(s.successful_turns, 3);
}

#[test]
fn worse_answer_only_counts_a_failure() {
    let mut s = State::new(vec![b(1.0)], vec![b(1.0)]);
    s.loss = b(1.0);
    s.settle_gradient(
        MessageToMain::WithGradientResult { state_id: 0, best_params: vec![b(9.0)], best_loss: b(1.0), step: vec![b(8.0)] },
        at(1),
    );
    assert_eq!(s.parameters, vec![b(1.0)]);
    assert_eq!(s.failed_turns, 1);
    assert!(s.last_updated_at.is_none());
    assert!(s.losses_over_time.is_empty());
}

#[test]
fn compass_round_moves_and_classifies() {
    let mut s = State::new(vec![b(1.0), b(1.0)], vec![b(0.5), b(0.5)]);
    let c = s.settle_offsets(&vec![2, 0], vec![b(2.0), b(1.0)], b(3.0), at(0));
    assert_eq!(c, vec![StepClass::Grow, StepClass::Shrink]);
    assert_eq!(s.parameters, vec![b(2.0), b(1.0)]);
    let c = s.settle_offsets(&vec![-1, 1], vec![b(1.5), b(1.5)], b(3.0), at(1));
    assert_eq!(c, vec![StepClass::Shrink, StepClass::Shrink]);
    assert_eq!(s.parameters, vec![b(2.0), b(1.0)]);
    assert_eq!((s.successful_turns, s.failed_turns, s.epoch), (1, 1, 2));
    s.set_distances(&vec![b(0.0), b(0.75)]);
    match &s.step {
        StepInfo::Distances(d) => assert_eq!(d, &vec![b(0.5), b(0.75)]),
        _ => panic!("expected distances"),
    }
}

#[test]
fn next_task_carries_current_point() {
    let mut s = State::new(vec![b(1.0)], vec![b(1.0)]);
    s.id = 1;
    match s.next_gradient_task(b(0.65), b(0.5), 512) {
        MessageFromMain::TryWithGradient { state_id, curr_params, prev_step, step_moment, step_size, count } => {
            assert_eq!((state_id, step_moment, step_size, count), (1, b(0.65), b(0.5), 512));
            assert_eq!(curr_params, vec![b(1.0)]);
            assert!(prev_step.is_none());
        }
        _ => panic!("expected a momentum task"),
    }
    s.update_best_loss_at(vec![b(2.0)], b(1.0), vec![b(1.0)], at(0));
    match s.next_gradient_task(b(0.65), b(0.5), 8) {
        MessageFromMain::TryWithGradient { curr_params, prev_step, .. } => {
            assert_eq!(curr_params, vec![b(2.0)]);
            assert_eq!(prev_step, Some(vec![b(1.0)]));
        }
        _ => panic!("expected a momentum task"),
    }
}

#[test]
fn fallback_state_is_zero_with_unit_steps() {
    let s = State::fallback(3);
    assert_eq!(s.parameters, vec![0, 0, 0]);
    match &s.step {
        StepInfo::Distances(d) => assert_eq!(d, &vec![b(1.0); 3]),
        _ => panic!("expected distances"),
    }
    assert_eq!(s.loss, b(3e20));
}

#[test]
fn duplicate_is_independent() {
    let s = State::new(vec![b(1.0)], vec![b(2.0)]);
    let mut d = s.duplicate();
    d.parameters[0] = b(5.0);
    assert_eq!(s.parameters, vec![b(1.0)]);
}

#[test]
fn seeded_state_starts_momentum_search() {
    let s = State::seeded(1, vec![b(0.5), b(-0.5)], b(0.5), at(2));
    assert_eq!(s.id, 1);
    assert!(matches!(s.step, StepInfo::Previous(None)));
    assert_eq!(s.last_updated_at, Some(at(2)));
    assert_eq!(s.losses_over_time, vec![(at(2), b(0.5))]);
    // a checkpoint of a state with no previous step stores zero steps
    let back = State::deserialize(&s.serialize(), 2).unwrap();
    match back.step {
        StepInfo::Distances(d) => assert_eq!(d, vec![0, 0]),
        _ => panic!("expected distances"),
    }
}
