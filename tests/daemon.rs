use paropt::daemon::{Daemon, LoadOutcome, Phase};
use paropt::messages::MessageFromMain;
use paropt::state::{State, StepInfo, Timestamp};

fn b(x: f64) -> u64 {
    x.to_bits()
}

fn dists(s: &State) -> Vec<u64> {
    match &s.step {
        StepInfo::Distances(d) => d.clone(),
        _ => panic!("expected distances"),
    }
}

#[test]
fn unreadable_checkpoint_gives_default_state() {
    let d = Daemon::new(String::from("nowhere.bin"), None, 3);
    assert_eq!(d.load_outcome, LoadOutcome::Unreadable);
    assert_eq!(d.state.parameters, vec![0, 0, 0]);
    assert_eq!(dists(&d.state), vec![b(1.0); 3]);
    assert_eq!((d.num_workers, d.print_cycle, d.goal_mse, d.quiet), (8, 2000, 0, false));
    assert_eq!(d.phase, Phase::Running);
}

#[test]
fn corrupted_checkpoint_gives_default_state() {
    let d = Daemon::new(String::from("bad.bin"), Some(vec![0u8; 143]), 8);
    assert_eq!(d.load_outcome, LoadOutcome::Corrupted);
    assert_eq!(d.state.parameters, vec![0; 8]);
}

#[test]
fn checkpoint_is_restored() {
    let mut s = State::new(vec![b(1.0), b(-1.0)], vec![b(0.25), b(0.5)]);
    s.loss = b(2.0);
    s.epoch = 9;
    let d = Daemon::new(String::from("ok.bin"), Some(s.serialize()), 2);
    assert_eq!(d.load_outcome, LoadOutcome::Restored);
    assert_eq!(d.state.parameters, vec![b(1.0), b(-1.0)]);
    assert_eq!(dists(&d.state), vec![b(0.25), b(0.5)]);
    assert_eq!((d.state.loss, d.state.epoch), (b(2.0), 9));
    assert_eq!(d.save_bytes(), s.serialize());
}

#[test]
fn failed_round_rolls_back_and_respawns_same_size() {
    let mut d = Daemon::new(String::from("x"), None, 2);
    d.settle_round(&vec![1, -2], vec![b(1.0), b(-2.0)], b(5.0), Timestamp { micros: 0 });
    d.complete_round(&vec![b(1.0), b(2.0)]);
    assert_eq!(d.last_good.parameters, vec![b(1.0), b(-2.0)]);
    // a round that moves the point, then a worker dies before it completes
    d.settle_round(&vec![1, 1], vec![b(2.0), b(-1.0)], b(1.0), Timestamp { micros: 1 });
    assert_eq!(d.state.parameters, vec![b(2.0), b(-1.0)]);
    let n = d.round_failed();
    assert_eq!(n, 8);
    assert_eq!(d.phase, Phase::Recovering);
    assert_eq!(d.state.parameters, vec![b(1.0), b(-2.0)]);
    assert_eq!(d.state.loss, b(5.0));
    assert_eq!(dists(&d.state), vec![b(1.0), b(2.0)]);
    d.pool_respawned();
    assert_eq!(d.phase, Phase::Running);
}

#[test]
fn stops_at_goal() {
    let mut d = Daemon::new(String::from("x"), None, 1);
    assert!(d.keep_running());
    d.settle_round(&vec![0], vec![0], b(0.0), Timestamp { micros: 0 });
    assert!(!d.keep_running());
    d.stop();
    assert_eq!(d.phase, Phase::Stopped);
    assert!(d.checkpoint_due(2001));
    assert!(!d.checkpoint_due(2000));
}

#[test]
fn compass_tasks_cover_all_offsets() {
    let mut d = Daemon::new(String::from("x"), None, 2);
    d.init_state(vec![b(1.0), b(2.0)], vec![b(0.5), b(0.25)]);
    let tasks = d.compass_tasks(4);
    assert_eq!(tasks.len(), 4);
    let mut next = 0;
    for t in tasks {
        match t {
            MessageFromMain::TryOffsets { curr_params, dists, first, count } => {
                assert_eq!(curr_params, vec![b(1.0), b(2.0)]);
                assert_eq!(dists, vec![b(0.5), b(0.25)]);
                assert_eq!(first, next);
                next += count;
            }
            _ => panic!("expected offsets"),
        }
    }
    assert_eq!(next, 25);
}

#[test]
fn compass_tasks_for_many_params_cover_axis_moves() {
    let d = Daemon::new(String::from("x"), None, 12);
    let tasks = d.compass_tasks(8);
    let total: usize = tasks.iter().map(|t| match t {
        MessageFromMain::TryOffsets { count, .. } => *count,
        _ => panic!("expected offsets"),
    }).sum();
    assert_eq!(total, 49);
}
