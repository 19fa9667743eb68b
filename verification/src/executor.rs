//! The decision core of the timeout-bounded executor. The surrounding
//! runtime spawns the process and races its termination against the
//! deadline; what it observed comes back as an `ExecutionEvent`, and
//! `resolve_outcome` turns that observation into the one outcome owed for
//! the command.

use vstd::prelude::*;
use vstd::utf8::{decode_utf8, valid_utf8};

use crate::command::{spec_label, CommandDescriptor};
use crate::outcome::{CommandError, CommandOutput};

verus! {

/// What the runtime observed of one spawned command: it never started, it
/// terminated within the deadline (with its status and captured streams),
/// or the deadline elapsed first and the process was killed and reaped.
#[derive(Debug)]
pub enum ExecutionEvent {
    /// The process could not be spawned; the deadline race was never
    /// entered. Carries the reason the operating system gave.
    SpawnFailed { reason: String },
    /// The process terminated on its own within the deadline, whatever its
    /// exit status says. `status` is `None` where the process was
    /// terminated by a signal.
    Completed { status: Option<i32>, stdout: Vec<u8>, stderr: Vec<u8>, elapsed_ms: u64 },
    /// The deadline elapsed first; the process was forcibly terminated.
    DeadlineExpired,
}

/// Relies on `alloc::string::String::from_utf8`: it returns `Ok` exactly on
/// valid UTF-8 input, and then the string it returns decodes those bytes.
#[verifier::external_body]
fn decode_output_bytes(bytes: &Vec<u8>) -> (r: Option<String>)
    ensures
        r is Some <==> valid_utf8(bytes@),
        r matches Some(s) ==> s@ == decode_utf8(bytes@),
{
    match String::from_utf8(bytes.clone()) {
        Ok(s) => Some(s),
        Err(_) => None,
    }
}

/// The one outcome owed for a command whose execution produced `event`
/// under the deadline `deadline_ms`: spawn failure and deadline expiry map
/// to their error variants; a completed process maps to a captured output
/// when both streams are valid text — whatever its exit status — and to a
/// decode failure otherwise. `lbl` is the label of the command.
pub open spec fn resolves(
    lbl: Seq<char>,
    deadline_ms: u64,
    event: &ExecutionEvent,
    r: Result<CommandOutput, CommandError>,
) -> bool {
    match event {
        ExecutionEvent::SpawnFailed { reason } => {
            &&& r matches Err(CommandError::SpawnFailure { command, reason: given })
            &&& command@ == lbl
            &&& given@ == reason@
        },
        ExecutionEvent::Completed { status, stdout, stderr, elapsed_ms } => {
            if valid_utf8(stdout@) && valid_utf8(stderr@) {
                &&& r matches Ok(out)
                &&& out.command@ == lbl
                &&& out.stdout@ == decode_utf8(stdout@)
                &&& out.stderr@ == decode_utf8(stderr@)
                &&& out.status == status
                &&& out.elapsed_ms == elapsed_ms
            } else {
                &&& r matches Err(CommandError::OutputDecodeFailure { command })
                &&& command@ == lbl
            }
        },
        ExecutionEvent::DeadlineExpired => {
            &&& r matches Err(CommandError::Timeout { command, deadline_ms: given })
            &&& command@ == lbl
            &&& given == deadline_ms
        },
    }
}

/// Turns the runtime's observation of one command into the outcome owed
/// for it. A spawn failure or an expired deadline yields its error at
/// once; a process that terminated within the deadline yields its captured
/// output regardless of exit status, unless the captured bytes are not
/// valid text, which yields a decode failure only after the process has
/// already terminated.
pub fn resolve_outcome(d: &CommandDescriptor, deadline_ms: u64, event: &ExecutionEvent) -> (r:
    Result<CommandOutput, CommandError>)
    ensures
        resolves(spec_label(d.program@, d.args.deep_view()), deadline_ms, event, r),
{
    let command = d.label();
    match event {
        ExecutionEvent::SpawnFailed { reason } => Err(
            CommandError::SpawnFailure { command, reason: reason.clone() },
        ),
        ExecutionEvent::Completed { status, stdout, stderr, elapsed_ms } => {
            let decoded_out = decode_output_bytes(stdout);
            let decoded_err = decode_output_bytes(stderr);
            match (decoded_out, decoded_err) {
                (Some(out_text), Some(err_text)) => Ok(
                    CommandOutput {
                        command,
                        stdout: out_text,
                        stderr: err_text,
                        status: *status,
                        elapsed_ms: *elapsed_ms,
                    },
                ),
                _ => Err(CommandError::OutputDecodeFailure { command }),
            }
        },
        ExecutionEvent::DeadlineExpired => Err(
            CommandError::Timeout { command, deadline_ms },
        ),
    }
}

/// Law: a command whose process did not terminate before the configured
/// deadline always yields `Timeout`, carrying the command's label and that
/// deadline — never a success and never any other error.
pub proof fn lemma_deadline_expiry_yields_timeout(
    lbl: Seq<char>,
    deadline_ms: u64,
    event: ExecutionEvent,
    r: Result<CommandOutput, CommandError>,
)
    requires
        resolves(lbl, deadline_ms, &event, r),
        event is DeadlineExpired,
    ensures
        r matches Err(CommandError::Timeout { command, deadline_ms: given }) && command@ == lbl
            && given == deadline_ms,
{
}

/// Law: a command whose process could not be spawned always yields
/// `SpawnFailure` with the reason the operating system gave — in
/// particular it never yields `Timeout`, since the deadline race is never
/// entered for it.
pub proof fn lemma_spawn_failure_yields_spawn_failure(
    lbl: Seq<char>,
    deadline_ms: u64,
    event: ExecutionEvent,
    r: Result<CommandOutput, CommandError>,
)
    requires
        resolves(lbl, deadline_ms, &event, r),
        event matches ExecutionEvent::SpawnFailed { reason },
    ensures
        r matches Err(CommandError::SpawnFailure { command, reason: given }) && command@ == lbl
            && given@ == event->reason@,
        !(r matches Err(CommandError::Timeout { .. })),
{
}

/// Law: a command that terminated within the deadline with decodable
/// output yields a success result carrying its exit status as reported —
/// a non-zero status is not an error.
pub proof fn lemma_completion_yields_output(
    lbl: Seq<char>,
    deadline_ms: u64,
    event: ExecutionEvent,
    r: Result<CommandOutput, CommandError>,
)
    requires
        resolves(lbl, deadline_ms, &event, r),
        event matches ExecutionEvent::Completed { status, stdout, stderr, elapsed_ms },
        valid_utf8(event->stdout@),
        valid_utf8(event->stderr@),
    ensures
        r matches Ok(out) && out.command@ == lbl && out.status == event->status
            && out.elapsed_ms == event->elapsed_ms && out.stdout@ == decode_utf8(event->stdout@)
            && out.stderr@ == decode_utf8(event->stderr@),
{
}

} // verus!
