//! Container-internal liveness probe definitions: a test command plus an
//! optional schedule (interval, timeout, retries, start period and start
//! interval). All durations are optional; a disabled test installs no probe.

use vstd::prelude::*;

verus! {

/// The probe command of a healthcheck.
#[derive(Clone, Debug, PartialEq, Eq)]
pub enum HealthcheckTest {
    /// Keep whatever the image itself declares.
    Inherit,
    /// Install no probe at all.
    Disable,
    /// Run the command through a shell.
    Shell { command: String },
    /// Run the command directly from an argument vector.
    Command { argv: Vec<String> },
}

/// A container-internal liveness probe specification.
#[derive(Clone, Debug, PartialEq, Eq)]
pub struct RsHealthcheck {
    pub test: HealthcheckTest,
    pub interval_ns: Option<u64>,
    pub timeout_ns: Option<u64>,
    pub retries: Option<u32>,
    pub start_period_ns: Option<u64>,
    pub start_interval_ns: Option<u64>,
}

impl RsHealthcheck {
    /// A healthcheck with the given test and no schedule set.
    pub open spec fn spec_bare(test: HealthcheckTest) -> RsHealthcheck {
        RsHealthcheck {
            test,
            interval_ns: None,
            timeout_ns: None,
            retries: None,
            start_period_ns: None,
            start_interval_ns: None,
        }
    }
}

fn bare(test: HealthcheckTest) -> (r: RsHealthcheck)
    ensures
        r == RsHealthcheck::spec_bare(test),
{
    RsHealthcheck {
        test,
        interval_ns: None,
        timeout_ns: None,
        retries: None,
        start_period_ns: None,
        start_interval_ns: None,
    }
}

/// A healthcheck that disables any probe the image declares.
pub fn rs_healthcheck_none() -> (r: RsHealthcheck)
    ensures
        r == RsHealthcheck::spec_bare(HealthcheckTest::Disable),
{
    bare(HealthcheckTest::Disable)
}

/// A healthcheck whose command runs through a shell.
pub fn rs_healthcheck_cmd_shell(command: String) -> (r: RsHealthcheck)
    ensures
        r == RsHealthcheck::spec_bare(HealthcheckTest::Shell { command }),
{
    bare(HealthcheckTest::Shell { command })
}

/// A healthcheck whose command is an argument vector.
pub fn rs_healthcheck_cmd(command: Vec<String>) -> (r: RsHealthcheck)
    ensures
        r == RsHealthcheck::spec_bare(HealthcheckTest::Command { argv: command }),
{
    bare(HealthcheckTest::Command { argv: command })
}

/// A healthcheck that overrides nothing and inherits the image's probe.
pub fn rs_healthcheck_empty() -> (r: RsHealthcheck)
    ensures
        r == RsHealthcheck::spec_bare(HealthcheckTest::Inherit),
{
    bare(HealthcheckTest::Inherit)
}

pub fn rs_healthcheck_with_interval(
    healthcheck: RsHealthcheck,
    interval_ns: Option<u64>,
) -> (r: RsHealthcheck)
    ensures
        r == (RsHealthcheck { interval_ns, ..healthcheck }),
{
    RsHealthcheck { interval_ns, ..healthcheck }
}

pub fn rs_healthcheck_with_timeout(
    healthcheck: RsHealthcheck,
    timeout_ns: Option<u64>,
) -> (r: RsHealthcheck)
    ensures
        r == (RsHealthcheck { timeout_ns, ..healthcheck }),
{
    RsHealthcheck { timeout_ns, ..healthcheck }
}

pub fn rs_healthcheck_with_retries(
    healthcheck: RsHealthcheck,
    retries: Option<u32>,
) -> (r: RsHealthcheck)
    ensures
        r == (RsHealthcheck { retries, ..healthcheck }),
{
    RsHealthcheck { retries, ..healthcheck }
}

pub fn rs_healthcheck_with_start_period(
    healthcheck: RsHealthcheck,
    start_period_ns: Option<u64>,
) -> (r: RsHealthcheck)
    ensures
        r == (RsHealthcheck { start_period_ns, ..healthcheck }),
{
    RsHealthcheck { start_period_ns, ..healthcheck }
}

pub fn rs_healthcheck_with_start_interval(
    healthcheck: RsHealthcheck,
    start_interval_ns: Option<u64>,
) -> (r: RsHealthcheck)
    ensures
        r == (RsHealthcheck { start_interval_ns, ..healthcheck }),
{
    RsHealthcheck { start_interval_ns, ..healthcheck }
}

pub fn rs_healthcheck_destroy(healthcheck: RsHealthcheck) {
    let _ = healthcheck;
}

} // verus!
