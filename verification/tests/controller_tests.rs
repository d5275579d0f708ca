use ace_tools::controller::{AceProcessController, AttemptOutcome};
use ace_tools::errors::ControllerError;
use ace_tools::privileges::SecurityContext;
use ace_tools::snapshot::{ProcessProbe, RawProcessEntry};

fn entry(pid: u32, name: &str) -> RawProcessEntry {
    RawProcessEntry { process_id: pid, process_name: name.to_string() }
}

fn empty_probe() -> ProcessProbe {
    ProcessProbe { path: None, priority_class: None, affinity_mask: None }
}

fn probes(n: usize) -> Vec<ProcessProbe> {
    (0..n).map(|_| empty_probe()).collect()
}

fn fresh_controller() -> AceProcessController {
    let mut context = SecurityContext::new(true, true);
    AceProcessController::new(&mut context)
}

fn outcome(handle: bool, priority: bool, affinity: bool) -> AttemptOutcome {
    AttemptOutcome { handle_opened: handle, priority_set: priority, affinity_set: affinity }
}

#[test]
fn scan_returns_exactly_the_target_named_entries() {
    let mut controller = fresh_controller();
    let table = vec![
        entry(10, "SGuard64.exe"),
        entry(11, "explorer.exe"),
        entry(12, "SGuard64.exe"),
        entry(13, "SGuard64.exe"),
        entry(14, "svchost.exe"),
    ];
    let result = controller.scan_ace_guard_processes(Some(table), &probes(3));
    let records = result.expect("three matches must yield a successful scan");
    assert_eq!(records.len(), 3);
    let pids: Vec<u32> = records.iter().map(|r| r.process_id).collect();
    assert_eq!(pids, vec![10, 12, 13]);
    for r in &records {
        assert_eq!(r.process_name, "SGuard64.exe");
        assert!(!r.priority_modified);
        assert!(!r.affinity_modified);
        assert!(!r.is_optimized);
    }
    for i in 0..pids.len() {
        for j in (i + 1)..pids.len() {
            assert_ne!(pids[i], pids[j], "no duplicate process ids");
        }
    }
}

#[test]
fn scan_trims_nul_padding_from_name_fields() {
    let mut controller = fresh_controller();
    let table = vec![entry(21, "SGuard64.exe\0\0\0\0")];
    let records = controller
        .scan_ace_guard_processes(Some(table), &probes(1))
        .expect("padded name still matches");
    assert_eq!(records.len(), 1);
    assert_eq!(records[0].process_name, "SGuard64.exe");
}

#[test]
fn scan_fills_fields_from_probes_and_sentinels() {
    let mut controller = fresh_controller();
    let table = vec![entry(30, "SGuard64.exe"), entry(31, "SGuard64.exe")];
    let probe_list = vec![
        ProcessProbe {
            path: Some("C:\\sg\\SGuard64.exe".to_string()),
            priority_class: Some(0x20),
            affinity_mask: Some(0b11),
        },
        empty_probe(),
    ];
    let records = controller
        .scan_ace_guard_processes(Some(table), &probe_list)
        .expect("two matches");
    assert_eq!(records[0].process_path, "C:\\sg\\SGuard64.exe");
    assert_eq!(records[0].current_priority, "NORMAL");
    assert_eq!(records[0].current_affinity, "Cores: 0, 1");
    assert_eq!(records[1].process_path, "Access Denied");
    assert_eq!(records[1].current_priority, "Access Denied");
    assert_eq!(records[1].current_affinity, "Access Denied");
}

#[test]
fn zero_match_scan_is_no_processes_found_then_optimize_reports_the_same() {
    let mut controller = fresh_controller();
    let table = vec![entry(40, "explorer.exe"), entry(41, "svchost.exe")];
    let result = controller.scan_ace_guard_processes(Some(table), &probes(0));
    assert_eq!(result.unwrap_err(), ControllerError::NoProcessesFound);
    assert!(!controller.has_processes());
    let optimize = controller.optimize_all_processes(&Vec::new());
    assert_eq!(optimize.unwrap_err(), ControllerError::NoProcessesFound);
}

#[test]
fn failed_snapshot_is_fatal_to_the_attempt_but_keeps_prior_state() {
    let mut controller = fresh_controller();
    let table = vec![entry(50, "SGuard64.exe")];
    controller
        .scan_ace_guard_processes(Some(table), &probes(1))
        .expect("first scan succeeds");
    controller
        .optimize_all_processes(&vec![outcome(true, true, false)])
        .expect("mutation succeeds");
    let result = controller.scan_ace_guard_processes(None, &probes(0));
    assert_eq!(result.unwrap_err(), ControllerError::SnapshotError);
    assert!(controller.has_processes(), "prior records survive a failed snapshot");
    assert!(controller.get_processes()[0].is_optimized);
    let records = controller
        .scan_ace_guard_processes(Some(vec![entry(50, "SGuard64.exe")]), &probes(1))
        .expect("retried scan succeeds");
    assert!(records[0].is_optimized, "the optimized flag survives for the retried scan");
}

#[test]
fn carry_forward_of_is_optimized_across_scans() {
    let mut controller = fresh_controller();
    let table1 = vec![entry(60, "SGuard64.exe")];
    controller
        .scan_ace_guard_processes(Some(table1), &probes(1))
        .expect("scan one");
    controller
        .optimize_all_processes(&vec![outcome(true, true, true)])
        .expect("mutations succeed");
    assert!(controller.get_processes()[0].is_optimized);

    let table2 = vec![entry(59, "other.exe"), entry(60, "SGuard64.exe")];
    let records = controller
        .scan_ace_guard_processes(Some(table2), &probes(1))
        .expect("scan two");
    assert_eq!(records.len(), 1);
    assert_eq!(records[0].process_id, 60);
    assert!(records[0].is_optimized, "optimized flag carried forward");
    assert!(!records[0].priority_modified, "modification flags reset");
    assert!(!records[0].affinity_modified, "modification flags reset");
}

#[test]
fn carry_forward_does_not_apply_to_new_process_ids() {
    let mut controller = fresh_controller();
    controller
        .scan_ace_guard_processes(Some(vec![entry(70, "SGuard64.exe")]), &probes(1))
        .expect("scan one");
    controller
        .optimize_all_processes(&vec![outcome(true, true, false)])
        .expect("mutation succeeds");
    let records = controller
        .scan_ace_guard_processes(Some(vec![entry(71, "SGuard64.exe")]), &probes(1))
        .expect("scan two");
    assert!(!records[0].is_optimized, "a new process id starts unoptimized");
}

#[test]
fn partial_mutation_independence() {
    let mut controller = fresh_controller();
    controller
        .scan_ace_guard_processes(Some(vec![entry(80, "SGuard64.exe")]), &probes(1))
        .expect("scan");
    let summary = controller
        .optimize_all_processes(&vec![outcome(true, false, true)])
        .expect("affinity success alone counts as success");
    assert_eq!(
        summary,
        "Process optimization completed: Found 1 processes, Modified 1 processes"
    );
    let record = &controller.get_processes()[0];
    assert!(!record.priority_modified);
    assert!(record.affinity_modified);
    assert!(record.is_optimized);
    assert_eq!(controller.get_optimized_count(), 1);
}

#[test]
fn ladder_exhaustion_counts_as_failure_without_aborting_the_pass() {
    let mut controller = fresh_controller();
    let table = vec![entry(90, "SGuard64.exe"), entry(91, "SGuard64.exe")];
    controller
        .scan_ace_guard_processes(Some(table), &probes(2))
        .expect("scan");
    let outcomes = vec![outcome(false, false, false), outcome(true, true, true)];
    let summary = controller
        .optimize_all_processes(&outcomes)
        .expect("one success keeps the pass successful");
    assert_eq!(
        summary,
        "Process optimization completed: Found 2 processes, Modified 1 processes"
    );
    let records = controller.get_processes();
    assert!(!records[0].priority_modified);
    assert!(!records[0].affinity_modified);
    assert!(!records[0].is_optimized);
    assert!(records[1].is_optimized);
}

#[test]
fn optimize_all_fails_only_when_every_attempt_failed() {
    let mut controller = fresh_controller();
    let table = vec![entry(100, "SGuard64.exe"), entry(101, "SGuard64.exe")];
    controller
        .scan_ace_guard_processes(Some(table), &probes(2))
        .expect("scan");
    let outcomes = vec![outcome(false, false, false), outcome(true, false, false)];
    let result = controller.optimize_all_processes(&outcomes);
    assert_eq!(result.unwrap_err(), ControllerError::NoModificationsApplied);
    assert_eq!(controller.get_optimized_count(), 0);
}

#[test]
fn optimize_single_process_success_and_stale_pid() {
    let mut controller = fresh_controller();
    controller
        .scan_ace_guard_processes(Some(vec![entry(7, "SGuard64.exe")]), &probes(1))
        .expect("scan");
    let missing = controller.optimize_single_process(999, outcome(true, true, true));
    assert_eq!(missing.unwrap_err(), ControllerError::ProcessNotFound(999));

    let summary = controller
        .optimize_single_process(7, outcome(true, true, false))
        .expect("priority success");
    assert_eq!(summary, "Process SGuard64.exe (PID: 7) optimized successfully");
    assert!(controller.get_processes()[0].priority_modified);

    let failed = controller.optimize_single_process(7, outcome(false, false, false));
    assert_eq!(failed.unwrap_err(), ControllerError::NoModificationsApplied);
}

#[test]
fn optimized_flag_persists_across_failed_attempts() {
    let mut controller = fresh_controller();
    controller
        .scan_ace_guard_processes(Some(vec![entry(8, "SGuard64.exe")]), &probes(1))
        .expect("scan");
    controller
        .optimize_single_process(8, outcome(true, true, true))
        .expect("success");
    assert!(controller.get_processes()[0].is_optimized);
    let result = controller.optimize_single_process(8, outcome(true, false, false));
    assert_eq!(result.unwrap_err(), ControllerError::NoModificationsApplied);
    assert!(
        controller.get_processes()[0].is_optimized,
        "the optimized flag is never reset except by a fresh scan"
    );
    assert!(
        controller.get_processes()[0].priority_modified,
        "modification flags latch until the next scan"
    );
}

#[test]
fn getters_and_clear() {
    let mut context = SecurityContext::new(false, true);
    let mut controller = AceProcessController::new(&mut context);
    assert!(controller.get_privileges_enabled());
    assert_eq!(controller.get_process_count(), 0);
    assert!(!controller.has_processes());
    controller
        .scan_ace_guard_processes(
            Some(vec![entry(1, "SGuard64.exe"), entry(2, "SGuard64.exe")]),
            &probes(2),
        )
        .expect("scan");
    assert_eq!(controller.get_process_count(), 2);
    assert!(controller.has_processes());
    assert_eq!(controller.get_optimized_count(), 0);
    controller.clear_processes();
    assert_eq!(controller.get_process_count(), 0);
    assert!(!controller.has_processes());
}

#[test]
fn controller_without_any_privilege_reports_disabled() {
    let mut context = SecurityContext::new(false, false);
    let controller = AceProcessController::new(&mut context);
    assert!(!controller.get_privileges_enabled());
}

#[test]
fn scan_result_equals_stored_snapshot_copy() {
    let mut controller = fresh_controller();
    let returned = controller
        .scan_ace_guard_processes(Some(vec![entry(33, "SGuard64.exe")]), &probes(1))
        .expect("scan");
    let stored = controller.get_processes();
    assert_eq!(returned.len(), stored.len());
    assert_eq!(returned[0].process_id, stored[0].process_id);
    assert_eq!(returned[0].process_name, stored[0].process_name);
}
