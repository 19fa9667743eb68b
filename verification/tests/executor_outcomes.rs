use sled_diagnostics::aggregator::collect_outcomes;
use sled_diagnostics::command::{
    pargs_commands, pstack_commands, zoneadm_list, CommandDescriptor, DEFAULT_TIMEOUT_MS,
};
use sled_diagnostics::executor::{resolve_outcome, ExecutionEvent};
use sled_diagnostics::outcome::{CommandError, CommandOutput};

fn completed(status: Option<i32>, stdout: &str, stderr: &str, elapsed_ms: u64) -> ExecutionEvent {
    ExecutionEvent::Completed {
        status,
        stdout: stdout.as_bytes().to_vec(),
        stderr: stderr.as_bytes().to_vec(),
        elapsed_ms,
    }
}

#[test]
fn deadline_expiry_yields_timeout() {
    let d = zoneadm_list();
    let r = resolve_outcome(&d, DEFAULT_TIMEOUT_MS, &ExecutionEvent::DeadlineExpired);
    match r {
        Err(CommandError::Timeout {
            command,
            deadline_ms,
        }) => {
            assert_eq!(command, "/usr/sbin/zoneadm list -cip");
            assert_eq!(deadline_ms, DEFAULT_TIMEOUT_MS);
        }
        other => panic!("expected Timeout, got {:?}", other),
    }
}

#[test]
fn spawn_failure_yields_spawn_failure() {
    let d = zoneadm_list();
    let event = ExecutionEvent::SpawnFailed {
        reason: "No such file or directory".to_string(),
    };
    let r = resolve_outcome(&d, DEFAULT_TIMEOUT_MS, &event);
    match r {
        Err(CommandError::SpawnFailure { command, reason }) => {
            assert_eq!(command, "/usr/sbin/zoneadm list -cip");
            assert_eq!(reason, "No such file or directory");
        }
        other => panic!("expected SpawnFailure, got {:?}", other),
    }
}

#[test]
fn nonzero_exit_within_deadline_is_success() {
    let d = zoneadm_list();
    let r = resolve_outcome(&d, DEFAULT_TIMEOUT_MS, &completed(Some(3), "partial", "oops", 12));
    match r {
        Ok(out) => {
            assert_eq!(out.command, "/usr/sbin/zoneadm list -cip");
            assert_eq!(out.status, Some(3));
            assert_eq!(out.stdout, "partial");
            assert_eq!(out.stderr, "oops");
            assert_eq!(out.elapsed_ms, 12);
        }
        Err(e) => panic!("expected success, got {:?}", e),
    }
}

#[test]
fn signal_termination_is_success_without_code() {
    let d = zoneadm_list();
    let r = resolve_outcome(&d, DEFAULT_TIMEOUT_MS, &completed(None, "", "", 5));
    match r {
        Ok(out) => assert_eq!(out.status, None),
        Err(e) => panic!("expected success, got {:?}", e),
    }
}

#[test]
fn non_ascii_output_decodes() {
    let d = zoneadm_list();
    let r = resolve_outcome(&d, DEFAULT_TIMEOUT_MS, &completed(Some(0), "zøne льа", "", 1));
    match r {
        Ok(out) => assert_eq!(out.stdout, "zøne льа"),
        Err(e) => panic!("expected success, got {:?}", e),
    }
}

#[test]
fn invalid_output_yields_decode_failure() {
    let d = zoneadm_list();
    let event = ExecutionEvent::Completed {
        status: Some(0),
        stdout: vec![0xff, 0xfe, 0x41],
        stderr: Vec::new(),
        elapsed_ms: 2,
    };
    let r = resolve_outcome(&d, DEFAULT_TIMEOUT_MS, &event);
    match r {
        Err(CommandError::OutputDecodeFailure { command }) => {
            assert_eq!(command, "/usr/sbin/zoneadm list -cip");
        }
        other => panic!("expected OutputDecodeFailure, got {:?}", other),
    }
}

#[test]
fn invalid_stderr_yields_decode_failure() {
    let d = zoneadm_list();
    let event = ExecutionEvent::Completed {
        status: Some(1),
        stdout: Vec::new(),
        stderr: vec![0xc0],
        elapsed_ms: 2,
    };
    let r = resolve_outcome(&d, DEFAULT_TIMEOUT_MS, &event);
    assert!(matches!(r, Err(CommandError::OutputDecodeFailure { .. })));
}

#[test]
fn abnormal_exit_is_informational() {
    let out = CommandOutput {
        command: "tool".to_string(),
        stdout: String::new(),
        stderr: String::new(),
        status: Some(2),
        elapsed_ms: 1,
    };
    match out.abnormal_exit() {
        Some(CommandError::AbnormalExit { command, status }) => {
            assert_eq!(command, "tool");
            assert_eq!(status, 2);
        }
        other => panic!("expected AbnormalExit, got {:?}", other),
    }
    let clean = CommandOutput {
        status: Some(0),
        ..out.clone()
    };
    assert!(clean.abnormal_exit().is_none());
    let signalled = CommandOutput {
        status: None,
        ..out
    };
    assert!(signalled.abnormal_exit().is_none());
}

#[test]
fn batch_cardinality_is_preserved() {
    let mut batch: Vec<(CommandDescriptor, ExecutionEvent)> = Vec::new();
    batch.push((zoneadm_list(), completed(Some(0), "ok", "", 3)));
    batch.push((zoneadm_list(), ExecutionEvent::DeadlineExpired));
    batch.push((
        zoneadm_list(),
        ExecutionEvent::SpawnFailed {
            reason: "denied".to_string(),
        },
    ));
    batch.push((
        zoneadm_list(),
        ExecutionEvent::Completed {
            status: Some(0),
            stdout: vec![0x80],
            stderr: Vec::new(),
            elapsed_ms: 1,
        },
    ));
    let results = collect_outcomes(&batch, 250);
    assert_eq!(results.len(), 4);
    assert!(results[0].is_ok());
    assert!(matches!(results[1], Err(CommandError::Timeout { .. })));
    assert!(matches!(results[2], Err(CommandError::SpawnFailure { .. })));
    assert!(matches!(
        results[3],
        Err(CommandError::OutputDecodeFailure { .. })
    ));
}

#[test]
fn empty_batch_yields_empty_collection() {
    let batch: Vec<(CommandDescriptor, ExecutionEvent)> = Vec::new();
    assert!(collect_outcomes(&batch, DEFAULT_TIMEOUT_MS).is_empty());
}

#[test]
fn fanout_survives_one_vanished_process() {
    // One of the three target processes exited between discovery and
    // execution: its command fails to spawn, the siblings still report.
    let pids = vec![10, 20, 30];
    let descriptors = pargs_commands(&pids);
    assert_eq!(descriptors.len(), 3);
    let mut batch: Vec<(CommandDescriptor, ExecutionEvent)> = Vec::new();
    let mut iter = descriptors.into_iter();
    batch.push((iter.next().unwrap(), completed(Some(0), "args of 10", "", 4)));
    batch.push((
        iter.next().unwrap(),
        ExecutionEvent::SpawnFailed {
            reason: "no such process".to_string(),
        },
    ));
    batch.push((iter.next().unwrap(), completed(Some(0), "args of 30", "", 6)));
    let results = collect_outcomes(&batch, DEFAULT_TIMEOUT_MS);
    assert_eq!(results.len(), 3);
    assert!(results[0].is_ok());
    assert!(matches!(results[1], Err(CommandError::SpawnFailure { .. })));
    assert!(results[2].is_ok());
}

#[test]
fn fanout_labels_identify_their_pid() {
    // Discovery returned {10, 20}; the two stack captures come back in
    // completion order, and each label says which pid it belongs to.
    let pids = vec![10, 20];
    let descriptors = pstack_commands(&pids);
    let mut batch: Vec<(CommandDescriptor, ExecutionEvent)> = Vec::new();
    // the command for pid 20 finished first
    let mut iter = descriptors.into_iter();
    let for_10 = iter.next().unwrap();
    let for_20 = iter.next().unwrap();
    batch.push((for_20, completed(Some(0), "stack of 20", "", 2)));
    batch.push((for_10, completed(Some(0), "stack of 10", "", 9)));
    let results = collect_outcomes(&batch, DEFAULT_TIMEOUT_MS);
    assert_eq!(results.len(), 2);
    let labels: Vec<String> = results
        .into_iter()
        .map(|r| r.unwrap().command)
        .collect();
    assert_eq!(labels[0], "/usr/bin/pstack 20");
    assert_eq!(labels[1], "/usr/bin/pstack 10");
}
