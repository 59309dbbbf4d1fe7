//! Commands run inside a live container, and their captured results.

use vstd::prelude::*;

use crate::wait::RsWaitFor;

verus! {

/// A one-shot command to run inside a running container, optionally gated
/// by its own nested ready conditions.
#[derive(Debug)]
pub struct RsExecCommand {
    pub cmd: Vec<String>,
    /// Conditions evaluated against the command's own output and exit
    /// before its result is considered final.
    pub ready_conditions: Vec<RsWaitFor>,
}

pub fn rs_exec_command_new(cmd: Vec<String>) -> (r: RsExecCommand)
    ensures
        r.cmd == cmd,
        r.ready_conditions@ == Seq::<RsWaitFor>::empty(),
{
    let r = RsExecCommand { cmd, ready_conditions: Vec::new() };
    proof {
        assert(r.ready_conditions@ =~= Seq::<RsWaitFor>::empty());
    }
    r
}

/// Appends nested ready conditions to the command.
pub fn rs_exec_command_with_container_ready_conditions(
    command: RsExecCommand,
    ready_conditions: Vec<RsWaitFor>,
) -> (r: RsExecCommand)
    ensures
        r.cmd == command.cmd,
        r.ready_conditions@ == command.ready_conditions@ + ready_conditions@,
{
    let mut r = command;
    let mut given = ready_conditions;
    r.ready_conditions.append(&mut given);
    r
}

pub fn rs_exec_command_destroy(command: RsExecCommand) {
    let _ = command;
}

/// What a finished command left behind: captured once, never re-queried.
#[derive(Debug, PartialEq, Eq)]
pub struct RsSyncExecResult {
    /// Absent when the process was killed or its status is indeterminate.
    pub exit_code: Option<i64>,
    pub stdout: Vec<u8>,
    pub stderr: Vec<u8>,
}

impl RsSyncExecResult {
    pub fn new(exit_code: Option<i64>, stdout: Vec<u8>, stderr: Vec<u8>) -> (r: RsSyncExecResult)
        ensures
            r.exit_code == exit_code,
            r.stdout == stdout,
            r.stderr == stderr,
    {
        RsSyncExecResult { exit_code, stdout, stderr }
    }
}

pub fn rs_sync_exec_result_exit_code_opt(result: &RsSyncExecResult) -> (r: Option<i64>)
    ensures
        r == result.exit_code,
{
    result.exit_code
}

pub fn rs_sync_exec_result_stdout_to_vec(result: &RsSyncExecResult) -> (r: Vec<u8>)
    ensures
        r@ == result.stdout@,
{
    vstd::slice::slice_to_vec(result.stdout.as_slice())
}

pub fn rs_sync_exec_result_stderr_to_vec(result: &RsSyncExecResult) -> (r: Vec<u8>)
    ensures
        r@ == result.stderr@,
{
    vstd::slice::slice_to_vec(result.stderr.as_slice())
}

pub fn rs_sync_exec_result_destroy(result: RsSyncExecResult) {
    let _ = result;
}

} // verus!
