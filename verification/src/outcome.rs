//! The two outcomes of running one command: a captured output, or a
//! classified error. One of these is produced per command submitted, and
//! none is ever silently discarded.

use vstd::prelude::*;

verus! {

/// Everything captured from a command that terminated within its deadline:
/// the command's label, its decoded standard output and standard error, its
/// exit status, and the elapsed wall-clock time. A non-zero status is
/// still a `CommandOutput`, not an error — interpreting the status is the
/// caller's business.
#[derive(Debug, Clone)]
pub struct CommandOutput {
    /// The label of the command that produced this output.
    pub command: String,
    /// The decoded standard output of the process.
    pub stdout: String,
    /// The decoded standard error of the process.
    pub stderr: String,
    /// The exit status code, or `None` where the process was terminated by
    /// a signal and so reported no code.
    pub status: Option<i32>,
    /// Wall-clock time from spawn to termination, in milliseconds.
    pub elapsed_ms: u64,
}

/// Why one command produced no usable output. Each variant carries the
/// label of the originating command where one exists, so a batch entry can
/// be reported actionably on its own.
#[derive(Debug, Clone)]
pub enum CommandError {
    /// The deadline elapsed before the process terminated; the process was
    /// forcibly terminated and reaped.
    Timeout { command: String, deadline_ms: u64 },
    /// The process could not be started at all, with the reason the
    /// operating system gave.
    SpawnFailure { command: String, reason: String },
    /// The process ran to completion but its exit status indicates failure.
    /// Informational only: the executor never produces it, since a
    /// completed command is reported as a `CommandOutput` whatever its
    /// status says.
    AbnormalExit { command: String, status: i32 },
    /// The process terminated within the deadline but the captured bytes
    /// are not valid text.
    OutputDecodeFailure { command: String },
    /// Process discovery could not enumerate the process table at all;
    /// distinct from discovery finding no matching process, which is an
    /// empty (and valid) result.
    ProcessDiscoveryFailure { reason: String },
}

impl CommandOutput {
    /// The informational `AbnormalExit` classification of a completed
    /// command: `Some` exactly when the exit status code is present and
    /// non-zero.
    pub fn abnormal_exit(&self) -> (r: Option<CommandError>)
        ensures
            match self.status {
                Some(code) => if code != 0 {
                    r matches Some(e)
                        && (e matches CommandError::AbnormalExit { command, status }
                        && command@ == self.command@ && status == code)
                } else {
                    r is None
                },
                None => r is None,
            },
    {
        match self.status {
            Some(code) => if code != 0 {
                Some(
                    CommandError::AbnormalExit {
                        command: self.command.clone(),
                        status: code,
                    },
                )
            } else {
                None
            },
            None => None,
        }
    }
}

} // verus!
