//! Judging one command's run.
//!
//! The caller outside this crate spawns the process and waits for it; this
//! module owns the decision that follows: a started child that exited zero
//! yields its decoded stdout, a non-zero exit is fatal and carries the
//! decoded stderr, and a child that could not be spawned at all is fatal,
//! with a diagnostic naming the program and the operating system's error.

use vstd::prelude::*;
use crate::decode::ascii_bytes_to_string;
use crate::decode::decoded;

verus! {

/// What a completed process produced: raw stdout and stderr bytes, and
/// whether its exit status was success. Captured once; immutable after.
#[derive(Debug, Clone)]
pub struct CapturedOutput {
    pub success: bool,
    pub stdout: Vec<u8>,
    pub stderr: Vec<u8>,
}

/// Why a command's run produced no usable output. Either error is fatal for
/// the whole enclosing request: nothing is salvaged around it.
#[derive(Debug, Clone, PartialEq, Eq)]
pub enum RunError {
    /// The executable could not be started (missing, not executable,
    /// permission denied): an environment misconfiguration. Carries the
    /// program that failed to start and the operating system's error text.
    SpawnFailure { program: String, error: String },
    /// The command ran but exited non-zero; carries its decoded stderr text
    /// as the diagnostic payload.
    NonZeroExit(String),
}

/// The event one spawn attempt hands back: either the child could not be
/// started — with the operating system's error text — or it ran to
/// completion and its output was captured.
pub enum SpawnResult {
    SpawnFailed(String),
    Completed(CapturedOutput),
}

/// What judging one spawn attempt of `program` must yield: decoded stdout
/// exactly when the child started and exited zero, `NonZeroExit` with the
/// decoded stderr on a non-zero exit, and `SpawnFailure` naming the
/// program and the operating system's error when no child could be
/// started.
pub open spec fn run_judgment(
    program: Seq<char>,
    r: SpawnResult,
    out: Result<String, RunError>,
) -> bool {
    match r {
        SpawnResult::SpawnFailed(os_error) => out matches Err(
            RunError::SpawnFailure { program: p, error: e },
        ) && p@ == program && e@ == os_error@,
        SpawnResult::Completed(o) => if o.success {
            out matches Ok(text) && text@ == decoded(o.stdout@)
        } else {
            out matches Err(RunError::NonZeroExit(s)) && s@ == decoded(o.stderr@)
        },
    }
}

/// Judge one spawn attempt of `program`. Success is owed exactly when the
/// child started and exited zero; its stdout is then decoded
/// byte-for-byte. A non-zero exit yields `NonZeroExit` with the decoded
/// stderr; a failed spawn yields `SpawnFailure` naming the program and the
/// operating system's error.
pub fn interpret_run(program: String, r: SpawnResult) -> (out: Result<String, RunError>)
    ensures
        run_judgment(program@, r, out),
        out is Ok <==> (r matches SpawnResult::Completed(o) && o.success),
{
    match r {
        SpawnResult::SpawnFailed(os_error) => Err(
            RunError::SpawnFailure { program, error: os_error },
        ),
        SpawnResult::Completed(o) => {
            if o.success {
                Ok(ascii_bytes_to_string(o.stdout))
            } else {
                Err(RunError::NonZeroExit(ascii_bytes_to_string(o.stderr)))
            }
        },
    }
}

} // verus!
