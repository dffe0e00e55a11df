use photoproof_desktop::diagnostics::{
    ends_with_text, is_rotated_log_name, launch_marker_text, marker_temp_extension, panic_log_name,
    rotated_log_name, rotated_logs_to_remove, starts_with_text, CrashDiagnostics, CURRENT_LOG, LAUNCH_MARKER,
    RETAINED_LOGS,
};

#[test]
fn the_launch_layout_keeps_logs_beside_the_marker() {
    let d = CrashDiagnostics::new("/data/app", true);
    assert_eq!(d.logs_dir, "/data/app/logs");
    assert_eq!(d.current_log, "/data/app/logs/photoproof.log");
    assert_eq!(d.marker_path, "/data/app/launch-in-progress");
    assert!(d.previous_unclean_launch);
    assert_eq!(CURRENT_LOG, "photoproof.log");
    assert_eq!(LAUNCH_MARKER, "launch-in-progress");
}

#[test]
fn rotated_logs_are_named_by_time_and_recognised() {
    let first = rotated_log_name(1_767_225_600_000, 0);
    assert_eq!(first, "photoproof-previous-1767225600000.log");
    let second = rotated_log_name(1_767_225_600_000, 2);
    assert_eq!(second, "photoproof-previous-1767225600000-2.log");
    assert!(is_rotated_log_name(&first));
    assert!(is_rotated_log_name(&second));
    assert!(!is_rotated_log_name("photoproof.log"));
    assert!(!is_rotated_log_name("photoproof-previous-1.txt"));
    assert!(!is_rotated_log_name("panic-1-2.log"));
    assert!(starts_with_text("abc", ""));
    assert!(!ends_with_text("g", ".log"));
}

#[test]
fn only_the_newest_rotated_logs_are_kept() {
    assert_eq!(RETAINED_LOGS, 8);
    assert_eq!(rotated_logs_to_remove(0), 0);
    assert_eq!(rotated_logs_to_remove(8), 0);
    assert_eq!(rotated_logs_to_remove(11), 3);
}

#[test]
fn marker_and_panic_files_carry_their_identity() {
    assert_eq!(
        launch_marker_text(4242, 1_767_225_600_123, "0.9.1"),
        "pid=4242\nstarted_at_ms=1767225600123\nversion=0.9.1\n"
    );
    assert_eq!(marker_temp_extension(7, 99, 0), "tmp-7-99-0");
    assert_eq!(panic_log_name(99, 7), "panic-99-7.log");
}
