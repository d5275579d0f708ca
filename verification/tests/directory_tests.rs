use ace_tools::errors::ControllerError;
use ace_tools::inspector::find_process_by_name;
use ace_tools::privileges::{enable_required_privileges, required_privilege_names, SecurityContext};
use ace_tools::snapshot::{is_target_entry, target_process_ids, target_process_name, RawProcessEntry};

fn entry(pid: u32, name: &str) -> RawProcessEntry {
    RawProcessEntry { process_id: pid, process_name: name.to_string() }
}

#[test]
fn elevation_is_idempotent() {
    let mut context = SecurityContext::new(true, false);
    let first = enable_required_privileges(&mut context);
    let after_first = context;
    let second = enable_required_privileges(&mut context);
    assert_eq!(first, (1, 2));
    assert_eq!(second, first, "a second escalation reports the same enabled count");
    assert_eq!(context, after_first, "a second escalation changes nothing");
    assert!(context.debug_enabled);
    assert!(!context.base_priority_enabled);
}

#[test]
fn elevation_counts_each_grantable_privilege() {
    let mut both = SecurityContext::new(true, true);
    assert_eq!(enable_required_privileges(&mut both), (2, 2));
    let mut none = SecurityContext::new(false, false);
    assert_eq!(enable_required_privileges(&mut none), (0, 2));
    assert!(!none.debug_enabled);
    assert!(!none.base_priority_enabled);
}

#[test]
fn privilege_names_are_the_fixed_set() {
    let names = required_privilege_names();
    assert_eq!(names, vec!["SeDebugPrivilege", "SeIncreaseBasePriorityPrivilege"]);
}

#[test]
fn target_name_and_entry_matching() {
    assert_eq!(target_process_name(), "SGuard64.exe");
    assert!(is_target_entry(&entry(1, "SGuard64.exe")));
    assert!(is_target_entry(&entry(1, "SGuard64.exe\0\0")));
    assert!(!is_target_entry(&entry(1, "sguard64.exe")), "the scan match is exact");
    assert!(!is_target_entry(&entry(1, "SGuard64.exe extra")));
}

#[test]
fn target_process_ids_keep_table_order() {
    let table = vec![
        entry(5, "a.exe"),
        entry(3, "SGuard64.exe"),
        entry(9, "SGuard64.exe\0"),
        entry(2, "b.exe"),
    ];
    assert_eq!(target_process_ids(&table), vec![3, 9]);
    assert_eq!(target_process_ids(&Vec::new()), Vec::<u32>::new());
}

#[test]
fn find_process_by_name_is_case_insensitive() {
    let table = vec![
        entry(1, "Notepad.exe\0\0"),
        entry(2, "EXPLORER.EXE"),
        entry(3, "notepad.EXE"),
    ];
    let found = find_process_by_name(&table, "notepad.exe").expect("two matches");
    assert_eq!(found, vec![1, 3]);
}

#[test]
fn find_process_by_name_fails_on_no_match() {
    let table = vec![entry(1, "a.exe")];
    let result = find_process_by_name(&table, "missing.exe");
    assert_eq!(result.unwrap_err(), ControllerError::NoProcessesFound);
}
