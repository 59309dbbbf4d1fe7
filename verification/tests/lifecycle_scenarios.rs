use testainer::buildable_image::{
    rs_generic_buildable_image_build, rs_generic_buildable_image_new,
    rs_generic_buildable_image_with_dockerfile_string,
};
use testainer::errors::{Error, HealthStatus, WaitFailure};
use testainer::exec::{
    rs_exec_command_new, rs_exec_command_with_container_ready_conditions,
    rs_sync_exec_result_exit_code_opt, rs_sync_exec_result_stderr_to_vec,
    rs_sync_exec_result_stdout_to_vec, RsSyncExecResult,
};
use testainer::image::{rs_generic_image_new, rs_generic_image_with_exposed_port};
use testainer::lifecycle::{
    rs_container_request_pull, rs_container_request_start, rs_container_rm, ExecReport, IpFamily,
    LifecycleState, PortBinding, RsContainer, RuntimeCallError, StartReport,
};
use testainer::port::rs_container_port_tcp;
use testainer::request::{
    rs_container_request_from_image, rs_container_request_with_mapped_port,
    rs_container_request_with_ready_conditions, rs_container_request_with_startup_timeout,
};
use testainer::wait::{
    rs_exit_wait_strategy_new, rs_exit_wait_strategy_with_exit_code, rs_log_wait_strategy_stdout,
    rs_wait_for_exit, rs_wait_for_log, WaitObservation,
};

fn obs(now_ns: u64) -> WaitObservation {
    WaitObservation {
        now_ns,
        stdout: Vec::new(),
        stderr: Vec::new(),
        health: HealthStatus::NotConfigured,
        exit_code: None,
    }
}

fn clean_report() -> StartReport {
    StartReport {
        start_ns: 0,
        create: Ok("c1".to_string()),
        launch: Ok(()),
        bindings: Vec::new(),
        bridge_ip: None,
        host: None,
        observations: Vec::new(),
        env: Vec::new(),
    }
}

/// Expose TCP 8080, wait for "ready" on stdout, 5 s startup timeout: the
/// start succeeds, the container is running, and the published port
/// resolves to the same non-zero host port on every query.
#[test]
fn start_with_log_wait_and_exposed_port() {
    let image = rs_generic_image_new("svc".to_string(), "latest".to_string());
    let image = rs_generic_image_with_exposed_port(image, rs_container_port_tcp(8080));
    let req = rs_container_request_from_image(image);
    let req = rs_container_request_with_ready_conditions(
        req,
        vec![rs_wait_for_log(rs_log_wait_strategy_stdout("ready".to_string()))],
    );
    let req = rs_container_request_with_startup_timeout(req, 5_000_000_000);

    let mut ready = obs(1_000_000_000);
    ready.stdout = b"booting\nready\n".to_vec();
    let report = StartReport {
        bindings: vec![PortBinding {
            port: rs_container_port_tcp(8080),
            family: IpFamily::V4,
            host_port: 32768,
        }],
        observations: vec![obs(500_000_000), ready],
        ..clean_report()
    };

    let container = rs_container_request_start(req, report).unwrap();
    assert_eq!(container.state, LifecycleState::Running);
    assert!(container.rs_container_is_running());
    assert_eq!(container.rs_container_id(), "c1");

    let p1 = container
        .rs_container_get_host_port_ipv4(rs_container_port_tcp(8080))
        .unwrap();
    let p2 = container
        .rs_container_get_host_port_ipv4(rs_container_port_tcp(8080))
        .unwrap();
    assert!(p1 > 0);
    assert_eq!(p1, 32768);
    assert_eq!(p1, p2);
}

/// Waiting for exit code 0 while the command exits 1: the start fails with
/// a typed failure naming the observed code, the handle never exists, and
/// the leftover container id is named for cleanup.
#[test]
fn start_fails_when_exit_code_differs() {
    let image = rs_generic_image_new("task".to_string(), "latest".to_string());
    let req = rs_container_request_from_image(image);
    let req = rs_container_request_with_ready_conditions(
        req,
        vec![rs_wait_for_exit(rs_exit_wait_strategy_with_exit_code(
            rs_exit_wait_strategy_new(),
            0,
        ))],
    );
    let req = rs_container_request_with_startup_timeout(req, 5_000_000_000);

    let mut exited = obs(1_000_000_000);
    exited.exit_code = Some(1);
    let report = StartReport { observations: vec![exited], ..clean_report() };

    let failure = rs_container_request_start(req, report).unwrap_err();
    assert_eq!(
        failure.error,
        Error::WaitStrategyFailed {
            strategy_index: 0,
            failure: WaitFailure::UnexpectedExitCode { code: 1 },
        }
    );
    assert_eq!(failure.leftover, Some("c1".to_string()));
}

#[test]
fn start_times_out_and_blames_the_waiting_strategy() {
    let image = rs_generic_image_new("svc".to_string(), "latest".to_string());
    let req = rs_container_request_from_image(image);
    let req = rs_container_request_with_ready_conditions(
        req,
        vec![rs_wait_for_log(rs_log_wait_strategy_stdout("ready".to_string()))],
    );
    let req = rs_container_request_with_startup_timeout(req, 1_000);
    let report = StartReport { observations: vec![obs(500), obs(1_000)], ..clean_report() };
    let failure = rs_container_request_start(req, report).unwrap_err();
    assert!(matches!(failure.error, Error::WaitTimeout { strategy_index: 0, .. }));
    assert_eq!(failure.leftover, Some("c1".to_string()));
}

#[test]
fn create_failure_leaves_nothing_behind() {
    let image = rs_generic_image_new("svc".to_string(), "latest".to_string());
    let req = rs_container_request_from_image(image);
    let report = StartReport { create: Err(RuntimeCallError::Refused), ..clean_report() };
    let failure = rs_container_request_start(req, report).unwrap_err();
    assert_eq!(failure.error, Error::ContainerCreateFailed);
    assert_eq!(failure.leftover, None);
}

#[test]
fn launch_failure_names_the_leftover() {
    let image = rs_generic_image_new("svc".to_string(), "latest".to_string());
    let req = rs_container_request_from_image(image);
    let report = StartReport { launch: Err(RuntimeCallError::Refused), ..clean_report() };
    let failure = rs_container_request_start(req, report).unwrap_err();
    assert_eq!(failure.error, Error::ContainerStartFailed);
    assert_eq!(failure.leftover, Some("c1".to_string()));
}

#[test]
fn unreachable_runtime_is_its_own_error() {
    let image = rs_generic_image_new("svc".to_string(), "latest".to_string());
    let req = rs_container_request_from_image(image);
    let report = StartReport { create: Err(RuntimeCallError::Unreachable), ..clean_report() };
    let failure = rs_container_request_start(req, report).unwrap_err();
    assert_eq!(failure.error, Error::RuntimeUnavailable);
    assert_eq!(failure.leftover, None);
}

fn running_container() -> RsContainer {
    let image = rs_generic_image_new("svc".to_string(), "latest".to_string());
    let req = rs_container_request_from_image(image);
    rs_container_request_start(req, clean_report()).unwrap()
}

#[test]
fn unpublished_port_is_reported_as_such() {
    let container = running_container();
    assert_eq!(
        container.rs_container_get_host_port_ipv4(rs_container_port_tcp(9999)),
        Err(Error::PortNotPublished)
    );
    assert_eq!(
        container.rs_container_get_host_port_ipv6(rs_container_port_tcp(9999)),
        Err(Error::PortNotPublished)
    );
}

/// Running `echo hi` inside a running container captures its output and
/// exit code exactly once.
#[test]
fn exec_captures_output_and_exit_code() {
    let container = running_container();
    let cmd = rs_exec_command_new(vec!["echo".to_string(), "hi".to_string()]);
    let report = ExecReport {
        start_ns: 0,
        outcome: Ok(RsSyncExecResult::new(Some(0), b"hi\n".to_vec(), Vec::new())),
        observations: Vec::new(),
        env: Vec::new(),
    };
    let result = container.rs_container_exec(cmd, report).unwrap();
    assert_eq!(rs_sync_exec_result_exit_code_opt(&result), Some(0));
    assert_eq!(rs_sync_exec_result_stdout_to_vec(&result), b"hi\n".to_vec());
    assert_eq!(rs_sync_exec_result_stderr_to_vec(&result), Vec::<u8>::new());
}

#[test]
fn exec_on_a_stopped_container_fails() {
    let mut container = running_container();
    container.rs_container_stop(Ok(())).unwrap();
    let cmd = rs_exec_command_new(vec!["true".to_string()]);
    let report = ExecReport {
        start_ns: 0,
        outcome: Ok(RsSyncExecResult::new(Some(0), Vec::new(), Vec::new())),
        observations: Vec::new(),
        env: Vec::new(),
    };
    assert_eq!(container.rs_container_exec(cmd, report), Err(Error::ExecFailed));
}

#[test]
fn exec_nested_conditions_gate_the_result() {
    let container = running_container();
    let cmd = rs_exec_command_new(vec!["migrate".to_string()]);
    let cmd = rs_exec_command_with_container_ready_conditions(
        cmd,
        vec![rs_wait_for_log(rs_log_wait_strategy_stdout("done".to_string()))],
    );
    let mut seen = obs(10);
    seen.stdout = b"done\n".to_vec();
    let report = ExecReport {
        start_ns: 0,
        outcome: Ok(RsSyncExecResult::new(Some(0), b"done\n".to_vec(), Vec::new())),
        observations: vec![seen],
        env: Vec::new(),
    };
    let result = container.rs_container_exec(cmd, report).unwrap();
    assert_eq!(result.exit_code, Some(0));
}

#[test]
fn stop_twice_reports_already_terminated() {
    let mut container = running_container();
    assert_eq!(container.rs_container_stop(Ok(())), Ok(()));
    assert_eq!(container.state, LifecycleState::Stopped);
    assert!(!container.rs_container_is_running());
    assert_eq!(container.rs_container_stop(Ok(())), Err(Error::AlreadyTerminated));
}

#[test]
fn stopped_container_can_be_started_again() {
    let mut container = running_container();
    container.rs_container_stop(Ok(())).unwrap();
    assert_eq!(container.rs_container_start(Ok(())), Ok(()));
    assert_eq!(container.state, LifecycleState::Running);
}

#[test]
fn rm_consumes_the_handle() {
    let container = running_container();
    assert_eq!(rs_container_rm(container, Ok(())), Ok(()));
}

#[test]
fn rm_against_an_unreachable_runtime_fails() {
    let container = running_container();
    assert_eq!(
        rs_container_rm(container, Err(RuntimeCallError::Unreachable)),
        Err(Error::RuntimeUnavailable)
    );
}

#[test]
fn bridge_ip_is_missing_without_a_bridge_attachment() {
    let container = running_container();
    assert_eq!(
        container.rs_container_get_bridge_ip_address(),
        Err(Error::RuntimeUnavailable)
    );
    assert_eq!(container.rs_container_get_host(), Err(Error::RuntimeUnavailable));
}

#[test]
fn pull_leaves_the_request_reusable() {
    let image = rs_generic_image_new("svc".to_string(), "latest".to_string());
    let req = rs_container_request_from_image(image);
    let req = rs_container_request_pull(req, Ok(())).unwrap();
    assert_eq!(req.image.name, "svc");

    let failed = rs_container_request_pull(req, Err(RuntimeCallError::Refused));
    assert_eq!(failed.unwrap_err(), Error::ImagePullFailed);
}

#[test]
fn build_yields_the_named_image_or_a_typed_error() {
    let b = rs_generic_buildable_image_new("custom".to_string(), "1".to_string());
    let b = rs_generic_buildable_image_with_dockerfile_string(b, "FROM scratch".to_string());
    assert_eq!(b.dockerfile.is_some(), true);
    let image = rs_generic_buildable_image_build(b, Ok(())).unwrap();
    assert_eq!(image.name, "custom");
    assert_eq!(image.tag, "1");

    let b = rs_generic_buildable_image_new("custom".to_string(), "1".to_string());
    assert_eq!(
        rs_generic_buildable_image_build(b, Err(RuntimeCallError::Refused)).unwrap_err(),
        Error::ImageBuildFailed
    );
}

/// A start whose report leaves a declared exposed port without a binding
/// is refused: no running handle may ever answer `PortNotPublished` for a
/// port the request declared.
#[test]
fn start_fails_when_a_declared_port_has_no_binding() {
    let image = rs_generic_image_new("svc".to_string(), "latest".to_string());
    let image = rs_generic_image_with_exposed_port(image, rs_container_port_tcp(8080));
    let req = rs_container_request_from_image(image);
    let report = clean_report();
    let failure = rs_container_request_start(req, report).unwrap_err();
    assert_eq!(failure.error, Error::ContainerCreateFailed);
    assert_eq!(failure.leftover, Some("c1".to_string()));
}

/// A fixed port mapping resolves to exactly the host port it asked for.
#[test]
fn mapped_port_resolves_to_its_fixed_host_port() {
    let image = rs_generic_image_new("svc".to_string(), "latest".to_string());
    let req = rs_container_request_from_image(image);
    let req = rs_container_request_with_mapped_port(req, 8080, rs_container_port_tcp(80));
    let report = StartReport {
        bindings: vec![PortBinding {
            port: rs_container_port_tcp(80),
            family: IpFamily::V4,
            host_port: 8080,
        }],
        ..clean_report()
    };
    let container = rs_container_request_start(req, report).unwrap();
    assert_eq!(
        container.rs_container_get_host_port_ipv4(rs_container_port_tcp(80)),
        Ok(8080)
    );
}

#[test]
fn start_fails_when_a_mapped_port_binding_differs() {
    let image = rs_generic_image_new("svc".to_string(), "latest".to_string());
    let req = rs_container_request_from_image(image);
    let req = rs_container_request_with_mapped_port(req, 8080, rs_container_port_tcp(80));
    let report = StartReport {
        bindings: vec![PortBinding {
            port: rs_container_port_tcp(80),
            family: IpFamily::V4,
            host_port: 9999,
        }],
        ..clean_report()
    };
    let failure = rs_container_request_start(req, report).unwrap_err();
    assert_eq!(failure.error, Error::ContainerCreateFailed);
    assert_eq!(failure.leftover, Some("c1".to_string()));
}

#[test]
fn zero_host_port_in_a_binding_is_rejected() {
    let image = rs_generic_image_new("svc".to_string(), "latest".to_string());
    let req = rs_container_request_from_image(image);
    let report = StartReport {
        bindings: vec![PortBinding {
            port: rs_container_port_tcp(80),
            family: IpFamily::V4,
            host_port: 0,
        }],
        ..clean_report()
    };
    let failure = rs_container_request_start(req, report).unwrap_err();
    assert_eq!(failure.error, Error::ContainerCreateFailed);
    assert_eq!(failure.leftover, Some("c1".to_string()));
}
