use testainer::engine::{EngineStep, WaitEngine};
use testainer::errors::{Error, HealthStatus};
use testainer::wait::{
    rs_log_wait_strategy_stdout, rs_wait_for_duration, rs_wait_for_log, rs_wait_for_nothing,
    WaitObservation, DEFAULT_POLL_INTERVAL_NS,
};

fn obs(now_ns: u64) -> WaitObservation {
    WaitObservation {
        now_ns,
        stdout: Vec::new(),
        stderr: Vec::new(),
        health: HealthStatus::NotConfigured,
        exit_code: None,
    }
}

#[test]
fn engine_with_no_strategies_is_ready_at_once() {
    let mut engine = WaitEngine::new(Vec::new(), 0, 1_000);
    assert_eq!(engine.drive(&Vec::new()), Ok(()));
}

#[test]
fn engine_advances_only_on_ready() {
    let strategies = vec![rs_wait_for_duration(100), rs_wait_for_nothing()];
    let mut engine = WaitEngine::new(strategies, 0, 1_000_000);
    // First poll: the duration has not elapsed, so the engine stays on it.
    let step = engine.step(&obs(50));
    assert!(matches!(step, EngineStep::Continue { .. }));
    assert_eq!(engine.index, 0);
    // Once it elapses the engine moves on to the second strategy.
    let step = engine.step(&obs(100));
    assert_eq!(step, EngineStep::Continue { sleep_ns: 0 });
    assert_eq!(engine.index, 1);
    // The second strategy is ready immediately: the whole run is done.
    let step = engine.step(&obs(101));
    assert_eq!(step, EngineStep::AllReady);
    assert_eq!(engine.index, 2);
}

#[test]
fn sequential_policy_never_consults_the_second_strategy() {
    // The first strategy can never succeed: its message never appears.
    let strategies = vec![
        rs_wait_for_log(rs_log_wait_strategy_stdout("never".to_string())),
        rs_wait_for_nothing(),
    ];
    let mut engine = WaitEngine::new(strategies, 0, 1_000);
    let trace = vec![obs(100), obs(500), obs(1_000)];
    let outcome = engine.drive(&trace);
    // The engine never moved past the first strategy, and the timeout is
    // attributed to it.
    assert_eq!(engine.index, 0);
    match outcome {
        Err(Error::WaitTimeout { strategy_index, last }) => {
            assert_eq!(strategy_index, 0);
            assert_eq!(last.log_count, 0);
            assert_eq!(last.exit_code, None);
        },
        other => panic!("expected a timeout on the first strategy, got {:?}", other),
    }
}

#[test]
fn deadline_cuts_off_an_undecided_strategy() {
    let strategies = vec![rs_wait_for_duration(u64::MAX)];
    let mut engine = WaitEngine::new(strategies, 0, 5_000);
    let step = engine.step(&obs(5_000));
    match step {
        EngineStep::Aborted { error: Error::WaitTimeout { strategy_index, .. } } => {
            assert_eq!(strategy_index, 0);
        },
        other => panic!("expected a timeout, got {:?}", other),
    }
}

#[test]
fn sleep_is_the_cadence_bounded_by_the_deadline() {
    let strategies = vec![rs_wait_for_duration(u64::MAX)];
    let mut engine = WaitEngine::new(strategies, 0, 10_000_000_000);
    // Far from the deadline the engine asks for one full poll interval.
    let step = engine.step(&obs(0));
    assert_eq!(step, EngineStep::Continue { sleep_ns: DEFAULT_POLL_INTERVAL_NS });
    // Close to the deadline the sleep shrinks to what is left.
    let step = engine.step(&obs(10_000_000_000 - 7));
    assert_eq!(step, EngineStep::Continue { sleep_ns: 7 });
}

#[test]
fn exhausted_trace_counts_as_timeout() {
    let strategies = vec![rs_wait_for_duration(u64::MAX)];
    let mut engine = WaitEngine::new(strategies, 0, u64::MAX);
    let outcome = engine.drive(&vec![obs(1), obs(2)]);
    match outcome {
        Err(Error::WaitTimeout { strategy_index, .. }) => assert_eq!(strategy_index, 0),
        other => panic!("expected a timeout, got {:?}", other),
    }
}

#[test]
fn timeout_reports_the_last_observed_log_count() {
    // The message appears twice but three appearances are required, so the
    // deadline cuts the strategy off; the error carries what was seen.
    let mut engine = WaitEngine::new(
        vec![rs_wait_for_log(testainer::wait::rs_log_wait_strategy_with_times(
            rs_log_wait_strategy_stdout("up".to_string()),
            3,
        ))],
        0,
        1_000,
    );
    let mut o = obs(1_000);
    o.stdout = b"up and up\n".to_vec();
    let step = engine.step(&o);
    match step {
        EngineStep::Aborted { error: Error::WaitTimeout { strategy_index, last } } => {
            assert_eq!(strategy_index, 0);
            assert_eq!(last.log_count, 2);
        },
        other => panic!("expected a timeout carrying the log count, got {:?}", other),
    }
}
