//! Fan-in for a batch of concurrently executed commands. The runtime runs
//! each descriptor through the executor and hands back one observation per
//! command, in completion order; collecting them preserves that order and
//! the batch's cardinality, and no single failure disturbs its siblings'
//! entries.

use vstd::prelude::*;

use crate::command::{spec_label, CommandDescriptor};
use crate::executor::{resolve_outcome, resolves, ExecutionEvent};
use crate::outcome::{CommandError, CommandOutput};

verus! {

/// Resolves one observation per command of a batch. The returned
/// collection has exactly one entry per entry of `batch` — however many of
/// the individual commands failed — and entry `i` is the outcome owed for
/// command `i` of `batch` under `deadline_ms`. Callers hand the batch over
/// in completion order and must not assume any correspondence with
/// submission order beyond the labels carried inside each outcome.
pub fn collect_outcomes(batch: &Vec<(CommandDescriptor, ExecutionEvent)>, deadline_ms: u64) -> (r:
    Vec<Result<CommandOutput, CommandError>>)
    ensures
        r@.len() == batch@.len(),
        forall|i: int|
            0 <= i < batch@.len() ==> resolves(
                spec_label(batch@[i].0.program@, batch@[i].0.args.deep_view()),
                deadline_ms,
                &batch@[i].1,
                #[trigger] r@[i],
            ),
{
    let mut r: Vec<Result<CommandOutput, CommandError>> = Vec::new();
    let mut i: usize = 0;
    while i < batch.len()
        invariant
            i <= batch@.len(),
            r@.len() == i,
            forall|j: int|
                0 <= j < i ==> resolves(
                    spec_label(batch@[j].0.program@, batch@[j].0.args.deep_view()),
                    deadline_ms,
                    &batch@[j].1,
                    #[trigger] r@[j],
                ),
        decreases batch@.len() - i,
    {
        let entry = &batch[i];
        let outcome = resolve_outcome(&entry.0, deadline_ms, &entry.1);
        r.push(outcome);
        i += 1;
    }
    r
}

/// Law: fanning out over K process ids yields exactly K results — one
/// descriptor per id and one collected outcome per descriptor — however
/// many of the K commands individually failed.
pub proof fn lemma_fanout_cardinality(
    pids: Seq<u32>,
    batch: Seq<(CommandDescriptor, ExecutionEvent)>,
    results: Seq<Result<CommandOutput, CommandError>>,
)
    requires
        batch.len() == pids.len(),
        results.len() == batch.len(),
    ensures
        results.len() == pids.len(),
{
}

} // verus!
