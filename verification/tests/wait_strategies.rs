use testainer::errors::{HealthStatus, WaitFailure};
use testainer::wait::{
    count_occurrences, decide, parse_millis, poll_interval, resolve_ready_conditions,
    rs_exit_wait_strategy_new, rs_exit_wait_strategy_with_exit_code,
    rs_exit_wait_strategy_with_poll_interval, rs_health_wait_strategy_new,
    rs_health_wait_strategy_with_poll_interval, rs_log_wait_strategy_stderr,
    rs_log_wait_strategy_stdout, rs_log_wait_strategy_stdout_or_stderr,
    rs_log_wait_strategy_with_times, rs_wait_for_duration, rs_wait_for_exit,
    rs_wait_for_healthcheck, rs_wait_for_log, rs_wait_for_millis_in_env_var, rs_wait_for_nothing,
    rs_wait_for_vec_pop, rs_wait_for_vec_push, LogStream, PollDecision, RsWaitFor,
    WaitObservation, DEFAULT_POLL_INTERVAL_NS,
};

fn obs(now_ns: u64) -> WaitObservation {
    WaitObservation {
        now_ns,
        stdout: Vec::new(),
        stderr: Vec::new(),
        health: HealthStatus::NotConfigured,
        exit_code: None,
    }
}

#[test]
fn counting_finds_every_occurrence() {
    assert_eq!(count_occurrences(b"abcabcab", b"ab"), 3);
    assert_eq!(count_occurrences(b"abcabcab", b"abc"), 2);
    assert_eq!(count_occurrences(b"xyz", b"ab"), 0);
    assert_eq!(count_occurrences(b"", b"a"), 0);
    assert_eq!(count_occurrences(b"ready", b"ready"), 1);
}

#[test]
fn counting_sees_overlapping_occurrences() {
    assert_eq!(count_occurrences(b"aaaa", b"aa"), 3);
}

#[test]
fn nothing_is_ready_at_once() {
    let w = rs_wait_for_nothing();
    assert_eq!(decide(&w, 0, &obs(0)), PollDecision::Ready);
}

#[test]
fn duration_waits_out_its_length() {
    let w = rs_wait_for_duration(5_000_000_000);
    assert_eq!(decide(&w, 1_000_000_000, &obs(5_999_999_999)), PollDecision::NotYet);
    assert_eq!(decide(&w, 1_000_000_000, &obs(6_000_000_000)), PollDecision::Ready);
    assert_eq!(decide(&w, 1_000_000_000, &obs(7_000_000_000)), PollDecision::Ready);
}

#[test]
fn log_strategy_counts_in_its_stream() {
    let strategy = rs_log_wait_strategy_stdout("ready".to_string());
    let w = rs_wait_for_log(strategy);
    let mut o = obs(0);
    o.stdout = b"starting up\n".to_vec();
    assert_eq!(decide(&w, 0, &o), PollDecision::NotYet);
    o.stdout = b"starting up\nready\n".to_vec();
    assert_eq!(decide(&w, 0, &o), PollDecision::Ready);
    // The message sitting in the other stream does not count.
    let mut o = obs(0);
    o.stderr = b"ready\n".to_vec();
    assert_eq!(decide(&w, 0, &o), PollDecision::NotYet);
}

#[test]
fn log_strategy_with_times_needs_repeats() {
    let strategy = rs_log_wait_strategy_with_times(
        rs_log_wait_strategy_stdout("ready".to_string()),
        2,
    );
    let w = rs_wait_for_log(strategy);
    let mut o = obs(0);
    o.stdout = b"ready\n".to_vec();
    assert_eq!(decide(&w, 0, &o), PollDecision::NotYet);
    o.stdout = b"ready\nready\n".to_vec();
    assert_eq!(decide(&w, 0, &o), PollDecision::Ready);
}

#[test]
fn log_strategy_either_stream_adds_both() {
    let strategy = rs_log_wait_strategy_with_times(
        rs_log_wait_strategy_stdout_or_stderr("ok".to_string()),
        2,
    );
    let w = rs_wait_for_log(strategy);
    let mut o = obs(0);
    o.stdout = b"ok\n".to_vec();
    o.stderr = b"ok\n".to_vec();
    assert_eq!(decide(&w, 0, &o), PollDecision::Ready);
}

#[test]
fn log_strategy_stderr_scans_stderr() {
    let w = rs_wait_for_log(rs_log_wait_strategy_stderr("fail-safe up".to_string()));
    let mut o = obs(0);
    o.stderr = b"fail-safe up\n".to_vec();
    assert_eq!(decide(&w, 0, &o), PollDecision::Ready);
}

#[test]
fn exit_strategy_matches_expected_code() {
    let w = rs_wait_for_exit(rs_exit_wait_strategy_with_exit_code(
        rs_exit_wait_strategy_new(),
        0,
    ));
    let mut o = obs(0);
    assert_eq!(decide(&w, 0, &o), PollDecision::NotYet);
    o.exit_code = Some(0);
    assert_eq!(decide(&w, 0, &o), PollDecision::Ready);
    o.exit_code = Some(1);
    assert_eq!(
        decide(&w, 0, &o),
        PollDecision::Failed { failure: WaitFailure::UnexpectedExitCode { code: 1 } }
    );
}

#[test]
fn exit_strategy_without_expectation_takes_any_exit() {
    let w = rs_wait_for_exit(rs_exit_wait_strategy_new());
    let mut o = obs(0);
    assert_eq!(decide(&w, 0, &o), PollDecision::NotYet);
    o.exit_code = Some(137);
    assert_eq!(decide(&w, 0, &o), PollDecision::Ready);
}

#[test]
fn health_strategy_follows_reported_status() {
    let w = rs_wait_for_healthcheck(rs_health_wait_strategy_new());
    let mut o = obs(0);
    o.health = HealthStatus::Starting;
    assert_eq!(decide(&w, 0, &o), PollDecision::NotYet);
    o.health = HealthStatus::NotConfigured;
    assert_eq!(decide(&w, 0, &o), PollDecision::NotYet);
    o.health = HealthStatus::Healthy;
    assert_eq!(decide(&w, 0, &o), PollDecision::Ready);
    o.health = HealthStatus::Unhealthy;
    assert_eq!(
        decide(&w, 0, &o),
        PollDecision::Failed { failure: WaitFailure::Unhealthy }
    );
}

#[test]
fn poll_intervals_default_and_override() {
    assert_eq!(poll_interval(&rs_wait_for_nothing()), DEFAULT_POLL_INTERVAL_NS);
    let health = rs_health_wait_strategy_with_poll_interval(rs_health_wait_strategy_new(), 7);
    assert_eq!(poll_interval(&rs_wait_for_healthcheck(health)), 7);
    let exit = rs_exit_wait_strategy_with_poll_interval(rs_exit_wait_strategy_new(), 9);
    assert_eq!(poll_interval(&rs_wait_for_exit(exit)), 9);
}

#[test]
fn millis_parsing_defaults_to_zero() {
    assert_eq!(parse_millis(&"250".to_string()), 250);
    assert_eq!(parse_millis(&"0".to_string()), 0);
    assert_eq!(parse_millis(&"007".to_string()), 7);
    assert_eq!(parse_millis(&"".to_string()), 0);
    assert_eq!(parse_millis(&"fast".to_string()), 0);
    assert_eq!(parse_millis(&"25x".to_string()), 0);
    assert_eq!(parse_millis(&"-3".to_string()), 0);
    assert_eq!(parse_millis(&"99999999999999999999999".to_string()), 0);
    assert_eq!(parse_millis(&"18446744073709551615".to_string()), u64::MAX);
}

#[test]
fn env_var_delay_resolves_from_the_environment() {
    let strategies = vec![
        rs_wait_for_millis_in_env_var("STARTUP_DELAY".to_string()),
        rs_wait_for_nothing(),
    ];
    let env = vec![("STARTUP_DELAY".to_string(), "250".to_string())];
    let resolved = resolve_ready_conditions(strategies, &env);
    assert_eq!(resolved.len(), 2);
    assert_eq!(resolved[0], RsWaitFor::Duration { length_ns: 250_000_000 });
    assert_eq!(resolved[1], RsWaitFor::Nothing);
}

#[test]
fn env_var_delay_unset_or_bad_means_no_delay() {
    let strategies = vec![rs_wait_for_millis_in_env_var("MISSING".to_string())];
    let resolved = resolve_ready_conditions(strategies, &Vec::new());
    assert_eq!(resolved[0], RsWaitFor::Duration { length_ns: 0 });

    let strategies = vec![rs_wait_for_millis_in_env_var("BAD".to_string())];
    let env = vec![("BAD".to_string(), "soon".to_string())];
    let resolved = resolve_ready_conditions(strategies, &env);
    assert_eq!(resolved[0], RsWaitFor::Duration { length_ns: 0 });
}

#[test]
fn wait_for_clone_copies_exactly() {
    let w = rs_wait_for_log(rs_log_wait_strategy_with_times(
        rs_log_wait_strategy_stdout("up".to_string()),
        3,
    ));
    let c = w.rs_wait_for_clone();
    assert_eq!(c, w);
    match c {
        RsWaitFor::Log { strategy } => {
            assert_eq!(strategy.stream, LogStream::StdOut);
            assert_eq!(strategy.message, "up");
            assert_eq!(strategy.times, 3);
        },
        _ => panic!("clone changed the variant"),
    }
}

#[test]
fn wait_for_vec_helpers_push_and_pop() {
    let mut v: Vec<RsWaitFor> = Vec::new();
    rs_wait_for_vec_push(&mut v, rs_wait_for_nothing());
    rs_wait_for_vec_push(&mut v, rs_wait_for_duration(1));
    assert_eq!(v.len(), 2);
    assert_eq!(rs_wait_for_vec_pop(&mut v), Some(RsWaitFor::Duration { length_ns: 1 }));
    assert_eq!(rs_wait_for_vec_pop(&mut v), Some(RsWaitFor::Nothing));
    assert_eq!(rs_wait_for_vec_pop(&mut v), None);
}
