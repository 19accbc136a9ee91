//! Planning and accounting of one sandboxed run.
//!
//! A `Run` command is turned into a fully-resolved [`ExecRequest`] before
//! anything is spawned: program, argv, working directory, `PATH`, stdin and
//! derived resource limits. After the child has been waited on, the raw
//! observations (exit code, CPU times, resident set size) are folded into a
//! [`RunOutput`] whose status follows the classification table: exit code 0
//! is success; 137 and 152 are the kernel's CPU/wall kills; a missing
//! resource snapshot is a system error; everything else is a runtime error.

use vstd::prelude::*;

use crate::types::diagnostic_bytes;
use crate::types::Limit;
use crate::types::RunOutput;
use crate::types::RunStatus;

verus! {

/// The limits a client may attach to a `Run` command: an address-space
/// bound in bytes and a CPU budget in seconds.
pub struct RunLimits {
    pub max_memory: u64,
    pub max_runtime: u64,
}

/// The wall-clock timeout derived from a CPU budget: twice the budget, so
/// a child that sleeps instead of computing still terminates; saturating
/// at `u64::MAX`.
pub open spec fn derived_wall_seconds(max_runtime: u64) -> u64 {
    if 2 * max_runtime <= u64::MAX {
        (2 * max_runtime) as u64
    } else {
        u64::MAX
    }
}

/// Derives per-run [`Limit`]s from a client request: memory and CPU are
/// taken as given, and a wall-clock timeout of twice the CPU budget is
/// always set alongside it. No request means no limits at all.
pub fn limit_of_request(limits: &Option<RunLimits>) -> (l: Option<Limit>)
    ensures
        limits is None <==> l is None,
        limits matches Some(rq) ==> (l matches Some(lim) && lim.memory == Some(rq.max_memory)
            && lim.time_limit == Some(rq.max_runtime) && lim.walltime_limit == Some(
            derived_wall_seconds(rq.max_runtime),
        )),
{
    match limits {
        None => None,
        Some(rq) => {
            let wall: u64 = if rq.max_runtime <= u64::MAX / 2 {
                rq.max_runtime * 2
            } else {
                u64::MAX
            };
            Some(
                Limit {
                    memory: Some(rq.max_memory),
                    time_limit: Some(rq.max_runtime),
                    walltime_limit: Some(wall),
                },
            )
        },
    }
}

/// One fully-resolved request to execute a program in the sandbox.
#[derive(Debug)]
pub struct ExecRequest {
    /// Program to spawn; always the shell.
    pub program: String,
    /// Arguments handed to the program.
    pub args: Vec<String>,
    /// Working directory inside the sandbox.
    pub workdir: String,
    /// Value of `PATH` inside the sandbox.
    pub path_env: String,
    /// Resource limits, if any were requested.
    pub limit: Option<Limit>,
    /// Bytes to write to the child's stdin before closing it.
    pub stdin: Option<Vec<u8>>,
}

/// Resolves a `Run` command: the shell command is run as
/// `/bin/sh -c <command>` in `/box` with `PATH=/bin`, under the derived
/// limits, with the given stdin.
pub fn plan_run(shell_command: String, limits: Option<RunLimits>, input: Option<Vec<u8>>) -> (r:
    ExecRequest)
    ensures
        r.program@ == "/bin/sh"@,
        r.args@.len() == 2,
        r.args@[0]@ == "-c"@,
        r.args@[1]@ == shell_command@,
        r.workdir@ == "/box"@,
        r.path_env@ == "/bin"@,
        limits is None <==> r.limit is None,
        limits matches Some(rq) ==> (r.limit matches Some(lim) && lim.memory == Some(
            rq.max_memory,
        ) && lim.time_limit == Some(rq.max_runtime) && lim.walltime_limit == Some(
            derived_wall_seconds(rq.max_runtime),
        )),
        input matches Some(b) ==> (r.stdin matches Some(sb) && sb@ == b@),
        input is None ==> r.stdin is None,
{
    let limit = limit_of_request(&limits);
    let mut args: Vec<String> = Vec::new();
    args.push(String::from_str("-c"));
    args.push(shell_command);
    ExecRequest {
        program: String::from_str("/bin/sh"),
        args,
        workdir: String::from_str("/box"),
        path_env: String::from_str("/bin"),
        limit,
        stdin: input,
    }
}

/// CPU time the child consumed, split as the kernel reports it.
#[derive(Clone, Copy, Debug)]
pub struct CpuTimes {
    pub user_millis: u64,
    pub system_millis: u64,
}

/// Resident set size in bytes from a KiB reading, saturating at
/// `i64::MAX`.
pub open spec fn rss_bytes(kib: u64) -> i64 {
    if kib * 1024 <= i64::MAX {
        (kib * 1024) as i64
    } else {
        i64::MAX
    }
}

/// Whether the raw observations classify as a sandbox-level failure: the
/// exit code decides first, and only an undecided exit with a missing
/// resource snapshot is the sandbox's own fault.
pub open spec fn observation_is_system_error(
    exit_code: i32,
    has_rusage: bool,
    has_proc_status: bool,
) -> bool {
    exit_code != 0 && exit_code != 137 && exit_code != 152 && (!has_rusage || !has_proc_status)
}

/// Folds the raw observations of a waited-on child into a [`RunOutput`].
///
/// Status, first match wins: exit code 0 is `Success`; 137 and 152
/// (SIGKILL/SIGXCPU terminations) are `TimeLimitExceeded`; a missing
/// rusage or process-status snapshot is a `SystemError` whose diagnostic
/// is also appended to the captured stderr; anything else is a
/// `RuntimeError` carrying the waiter's description. Outside a system
/// error, CPU time is user plus system in milliseconds, memory is the
/// resident set size converted from KiB to bytes (zero when a snapshot is
/// missing), and the exit code is reported; a system error carries no
/// accounting and no exit code.
pub fn build_run_output(
    stdout: Vec<u8>,
    stderr: Vec<u8>,
    exit_code: i32,
    reason: String,
    cpu: Option<CpuTimes>,
    vmrss_kib: Option<u64>,
) -> (out: RunOutput)
    ensures
        out.stdout@ == stdout@,
        exit_code == 0 ==> out.status is Success,
        exit_code == 137 || exit_code == 152 ==> out.status is TimeLimitExceeded,
        exit_code != 0 && exit_code != 137 && exit_code != 152 && cpu is None ==> (out.status
            matches RunStatus::SystemError(m) && m@ == "Failed to get resource usage"@
            && out.stderr@ == stderr@ + diagnostic_bytes("Failed to get resource usage"@)),
        exit_code != 0 && exit_code != 137 && exit_code != 152 && cpu is Some && vmrss_kib is None
            ==> (out.status matches RunStatus::SystemError(m) && m@
            == "Failed to get process resource usage"@ && out.stderr@ == stderr@
            + diagnostic_bytes("Failed to get process resource usage"@)),
        exit_code != 0 && exit_code != 137 && exit_code != 152 && cpu is Some && vmrss_kib is Some
            ==> (out.status matches RunStatus::RuntimeError(m) && m@ == reason@),
        !observation_is_system_error(exit_code, cpu is Some, vmrss_kib is Some) ==> {
            &&& out.stderr@ == stderr@
            &&& out.exit_code == Some(exit_code)
            &&& (cpu matches Some(t) ==> out.runtime == t.user_millis + t.system_millis)
            &&& (cpu is None ==> out.runtime == 0)
            &&& (vmrss_kib matches Some(k) ==> out.memory_usage == rss_bytes(k))
            &&& (vmrss_kib is None ==> out.memory_usage == 0)
        },
        observation_is_system_error(exit_code, cpu is Some, vmrss_kib is Some) ==> (out.runtime
            == 0 && out.memory_usage == 0 && out.exit_code is None),
{
    if exit_code != 0 && exit_code != 137 && exit_code != 152 {
        if cpu.is_none() {
            return RunOutput::error(
                String::from_str("Failed to get resource usage"),
                Some(stderr),
                Some(stdout),
            );
        }
        if vmrss_kib.is_none() {
            return RunOutput::error(
                String::from_str("Failed to get process resource usage"),
                Some(stderr),
                Some(stdout),
            );
        }
    }
    let status: RunStatus = if exit_code == 0 {
        RunStatus::Success
    } else if exit_code == 137 || exit_code == 152 {
        RunStatus::TimeLimitExceeded
    } else {
        RunStatus::RuntimeError(reason)
    };
    let runtime: u128 = match &cpu {
        Some(t) => t.user_millis as u128 + t.system_millis as u128,
        None => 0,
    };
    let memory_usage: i64 = match vmrss_kib {
        Some(k) => if k <= (i64::MAX as u64) / 1024 {
            (k * 1024) as i64
        } else {
            i64::MAX
        },
        None => 0,
    };
    RunOutput {
        stdout,
        stderr,
        runtime,
        memory_usage,
        status,
        exit_code: Some(exit_code),
    }
}

} // verus!
