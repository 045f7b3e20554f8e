//! One-shot command results.
//!
//! A single invocation of the external tool is captured verbatim: both output
//! streams as text, plus the exit code when the process exited normally.  A
//! non-zero exit is not an error of the supervisor; it is data.

use vstd::prelude::*;
use vstd::string::*;

verus! {

/// Outcome of one completed invocation of the external tool.
///
/// `success` is derived from the exit code alone: it holds exactly when the
/// process exited normally with code zero.  `exit_code` is `None` only when
/// the process was terminated abnormally (for example by a signal), in which
/// case the invocation did not succeed.
#[derive(Debug, Clone)]
pub struct CommandResult {
    pub success: bool,
    pub stdout: String,
    pub stderr: String,
    pub exit_code: Option<i32>,
}

/// Builds the result record for a completed invocation from the exit code
/// reported by the operating system and the two captured output streams.
///
/// Both streams are carried over verbatim, and success means exit code zero:
/// nothing else about the invocation enters the verdict.
pub fn command_result_from(exit_code: Option<i32>, stdout: String, stderr: String) -> (r:
    CommandResult)
    ensures
        r.success == (exit_code == Some(0i32)),
        r.stdout@ == stdout@,
        r.stderr@ == stderr@,
        r.exit_code == exit_code,
{
    let success = match exit_code {
        Some(code) => code == 0,
        None => false,
    };
    CommandResult { success, stdout, stderr, exit_code }
}

/// Where a one-shot invocation failed before a result could be produced: the
/// process could not be executed at all, could not be spawned with piped
/// streams, its input could not be written or flushed, or it could not be
/// waited on.  A non-zero exit is none of these; it is a normal result.
#[derive(Debug, Clone, Copy, PartialEq, Eq, Structural)]
pub enum RunFailure {
    Execute,
    Spawn,
    WriteStdin,
    FlushStdin,
    Wait,
}

/// The error message reported to the caller for a failed invocation: each
/// failure stage has its fixed prefix, followed by the operating system's
/// own description of what went wrong.
pub fn failure_message(failure: RunFailure, detail: &str) -> (r: String)
    ensures
        match failure {
            RunFailure::Execute => r@ == "Failed to execute command: "@ + detail@,
            RunFailure::Spawn => r@ == "Failed to spawn command: "@ + detail@,
            RunFailure::WriteStdin => r@ == "Failed to write to stdin: "@ + detail@,
            RunFailure::FlushStdin => r@ == "Failed to flush stdin: "@ + detail@,
            RunFailure::Wait => r@ == "Failed to wait for command: "@ + detail@,
        },
{
    let prefix = match failure {
        RunFailure::Execute => String::from_str("Failed to execute command: "),
        RunFailure::Spawn => String::from_str("Failed to spawn command: "),
        RunFailure::WriteStdin => String::from_str("Failed to write to stdin: "),
        RunFailure::FlushStdin => String::from_str("Failed to flush stdin: "),
        RunFailure::Wait => String::from_str("Failed to wait for command: "),
    };
    prefix.concat(detail)
}

} // verus!
