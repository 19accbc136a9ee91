//! Data model of one sandboxed run: resource limits, termination status, and
//! the structured outcome handed back for every `Run` command.

use vstd::prelude::*;
use vstd::utf8::encode_utf8;

verus! {

/// The UTF-8 bytes of a diagnostic message, as they are appended to a
/// run's captured stderr.
pub open spec fn diagnostic_bytes(s: Seq<char>) -> Seq<u8> {
    encode_utf8(s)
}

/// Appends the UTF-8 bytes of `s` to `buf`.
fn append_str_bytes(buf: &mut Vec<u8>, s: &str)
    ensures
        final(buf)@ == old(buf)@ + diagnostic_bytes(s@),
{
    let bytes = s.as_bytes();
    let n = bytes.len();
    let ghost start = buf@;
    let mut i: usize = 0;
    while i < n
        invariant
            n == bytes@.len(),
            i <= n,
            bytes@ == diagnostic_bytes(s@),
            buf@ == start + bytes@.subrange(0, i as int),
        decreases n - i,
    {
        buf.push(bytes[i]);
        proof {
            assert(buf@ =~= start + bytes@.subrange(0, i + 1));
        }
        i = i + 1;
    }
    proof {
        assert(bytes@.subrange(0, n as int) =~= bytes@);
    }
}

/// Per-run resource limits. An absent field leaves the corresponding
/// resource unbounded.
#[derive(Debug)]
pub struct Limit {
    /// Address-space limit in bytes (`RLIMIT_AS`).
    pub memory: Option<u64>,
    /// CPU-time limit in seconds (`RLIMIT_CPU`).
    pub time_limit: Option<u64>,
    /// Wall-clock timeout in seconds; the child is killed when it expires.
    pub walltime_limit: Option<u64>,
}

/// How a run terminated.
#[derive(Debug)]
pub enum RunStatus {
    /// The child exited with code 0.
    Success,
    /// The child was terminated by a CPU or wall-clock limit.
    TimeLimitExceeded,
    /// The sandbox failed to spawn or observe the child; the payload is a
    /// diagnostic message.
    SystemError(String),
    /// The child exited with a nonzero code or on a signal; the payload is
    /// the waiter's description of the termination.
    RuntimeError(String),
}

/// The structured result of one run.
#[derive(Debug)]
pub struct RunOutput {
    /// Everything the child wrote to stdout; empty when it wrote nothing.
    pub stdout: Vec<u8>,
    /// Everything the child wrote to stderr; empty when it wrote nothing.
    pub stderr: Vec<u8>,
    /// CPU time consumed, user plus system, in milliseconds.
    pub runtime: u128,
    /// Resident set size at termination, in bytes.
    pub memory_usage: i64,
    /// Classification of the termination.
    pub status: RunStatus,
    /// The raw child exit code; absent when the sandbox failed to observe
    /// the child.
    pub exit_code: Option<i32>,
}

impl RunOutput {
    /// The outcome reported when the sandbox itself fails: no resource
    /// accounting, no exit code, whatever output was captured before the
    /// failure, and the diagnostic appended to stderr so it reaches the
    /// client alongside the status.
    pub fn error(reason: String, stderr: Option<Vec<u8>>, stdout: Option<Vec<u8>>) -> (out: Self)
        ensures
            out.status matches RunStatus::SystemError(r) && r@ == reason@,
            stdout matches Some(v) ==> out.stdout@ == v@,
            stdout is None ==> out.stdout@ == Seq::<u8>::empty(),
            stderr matches Some(v) ==> out.stderr@ == v@ + diagnostic_bytes(reason@),
            stderr is None ==> out.stderr@ == diagnostic_bytes(reason@),
            out.runtime == 0,
            out.memory_usage == 0,
            out.exit_code is None,
    {
        let mut err_bytes: Vec<u8> = match stderr {
            Some(v) => v,
            None => Vec::new(),
        };
        append_str_bytes(&mut err_bytes, reason.as_str());
        proof {
            assert(Seq::<u8>::empty() + diagnostic_bytes(reason@) =~= diagnostic_bytes(reason@));
        }
        Self {
            stdout: match stdout {
                Some(v) => v,
                None => Vec::new(),
            },
            stderr: err_bytes,
            runtime: 0,
            memory_usage: 0,
            status: RunStatus::SystemError(reason),
            exit_code: None,
        }
    }
}

} // verus!
