use ace_tools::affinity::{detect_last_core_mask, last_core_mask, render_affinity};
use ace_tools::errors::ControllerError;
use ace_tools::inspector::{get_process_status, is_running_as_admin, str_eq_ignore_ascii_case};
use ace_tools::ladder::{optimize_access_ladder, query_access_ladder};
use ace_tools::priority::priority_label;
use ace_tools::text::{decimal_string, trim_trailing_nuls};

#[test]
fn affinity_mask_rendering() {
    assert_eq!(render_affinity(0b100100), "Cores: 2, 5");
    assert_eq!(render_affinity(1), "Core 0");
    assert_eq!(render_affinity(0), "No cores assigned");
}

#[test]
fn affinity_rendering_more_masks() {
    assert_eq!(render_affinity(1u64 << 63), "Core 63");
    assert_eq!(render_affinity(0b111), "Cores: 0, 1, 2");
    assert_eq!(render_affinity(0b1010), "Cores: 1, 3");
}

#[test]
fn priority_labels_cover_the_closed_set() {
    assert_eq!(priority_label(0x40), "IDLE");
    assert_eq!(priority_label(0x4000), "BELOW_NORMAL");
    assert_eq!(priority_label(0x20), "NORMAL");
    assert_eq!(priority_label(0x8000), "ABOVE_NORMAL");
    assert_eq!(priority_label(0x80), "HIGH");
    assert_eq!(priority_label(0x100), "REALTIME");
    assert_eq!(priority_label(0x37), "UNKNOWN");
    assert_eq!(priority_label(0), "UNKNOWN");
}

#[test]
fn decimal_rendering_exact_values() {
    assert_eq!(decimal_string(0), "0");
    assert_eq!(decimal_string(9), "9");
    assert_eq!(decimal_string(10), "10");
    assert_eq!(decimal_string(305), "305");
    assert_eq!(decimal_string(u64::MAX), "18446744073709551615");
}

#[test]
fn trimming_nul_padding() {
    assert_eq!(trim_trailing_nuls("SGuard64.exe\0\0\0"), "SGuard64.exe");
    assert_eq!(trim_trailing_nuls("plain"), "plain");
    assert_eq!(trim_trailing_nuls(""), "");
    assert_eq!(trim_trailing_nuls("\0\0"), "");
    assert_eq!(trim_trailing_nuls("a\0b\0"), "a\0b");
}

#[test]
fn process_status_combines_probes() {
    let (priority, affinity) = get_process_status(Some(0x40), Some(0b11));
    assert_eq!(priority, "IDLE");
    assert_eq!(affinity, "Cores: 0, 1");
    let (priority, affinity) = get_process_status(None, None);
    assert_eq!(priority, "Access Denied");
    assert_eq!(affinity, "Access Denied");
}

#[test]
fn admin_flag_follows_the_token_field() {
    assert!(!is_running_as_admin(0));
    assert!(is_running_as_admin(1));
    assert!(is_running_as_admin(0xFFFF_FFFF));
}

#[test]
fn ascii_case_insensitive_comparison() {
    assert!(str_eq_ignore_ascii_case("SGuard64.exe", "sguard64.EXE"));
    assert!(!str_eq_ignore_ascii_case("SGuard64.exe", "SGuard64.ex"));
    assert!(!str_eq_ignore_ascii_case("abc", "abd"));
    assert!(str_eq_ignore_ascii_case("", ""));
}

#[test]
fn optimize_ladder_is_the_fixed_capability_sequence() {
    let ladder = optimize_access_ladder();
    assert_eq!(ladder, vec![0x0600, 0x0200, 0x001F_FFFF, 0x0400, 0x1000]);
    let query = query_access_ladder();
    assert_eq!(query, vec![0x0400, 0x1000]);
}

#[test]
fn last_core_masks() {
    assert_eq!(last_core_mask(1), 1);
    assert_eq!(last_core_mask(8), 0x80);
    assert_eq!(last_core_mask(64), 1u64 << 63);
}

#[test]
fn machine_core_detection_builds_a_singleton_mask() {
    match detect_last_core_mask() {
        Some((count, mask)) => {
            assert!(count >= 1);
            assert!(count <= 64);
            assert_eq!(mask, 1u64 << (count - 1));
            assert_eq!(mask.count_ones(), 1);
        },
        None => {
            // Only reachable on a machine with more than 64 logical cores.
        },
    }
}

#[test]
fn error_messages_are_exact() {
    assert_eq!(
        ControllerError::SnapshotError.message(),
        "Failed to scan processes: could not create process snapshot"
    );
    assert_eq!(
        ControllerError::NoProcessesFound.message(),
        "No ACE Guard processes found on the system."
    );
    assert_eq!(
        ControllerError::ProcessNotFound(1234).message(),
        "Process with PID 1234 not found in scanned processes"
    );
    assert_eq!(
        ControllerError::NoModificationsApplied.message(),
        "No processes were successfully modified. This may be due to insufficient permissions or process protection."
    );
}
