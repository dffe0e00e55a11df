use photoproof_desktop::disk::{
    capacity_state, database_usage, preview_usage, tree_usage, wal_state, wal_snapshot, worst_state,
    CapacityState, DiskGovernor, FileProbe, InventoryUsage, Usage, UsageFilter, WalMaintenanceHistory,
    WalProbe, WalState, WalkedFile, CRITICAL_FREE_BYTES, WAL_CRITICAL_AGE_MS, WAL_CRITICAL_BYTES,
    WAL_WARNING_AGE_MS, WAL_WARNING_BYTES, WARNING_FREE_BYTES,
};

fn walked(path: &str, bytes: u64) -> WalkedFile {
    WalkedFile { path: path.to_string(), bytes }
}

fn governor(wal: &WalProbe) -> DiskGovernor {
    DiskGovernor::new(
        "/data/app".to_string(),
        "/data/models".to_string(),
        Some(WARNING_FREE_BYTES),
        Some(WARNING_FREE_BYTES),
        wal,
        1_000,
    )
}

#[test]
fn capacity_thresholds_are_strict_and_unknown_is_not_zero() {
    assert_eq!(capacity_state(None), CapacityState::Unknown);
    assert_eq!(capacity_state(Some(CRITICAL_FREE_BYTES - 1)), CapacityState::Critical);
    assert_eq!(capacity_state(Some(CRITICAL_FREE_BYTES)), CapacityState::Warning);
    assert_eq!(capacity_state(Some(WARNING_FREE_BYTES)), CapacityState::Healthy);
    assert_eq!(
        worst_state(CapacityState::Healthy, CapacityState::Warning),
        CapacityState::Warning
    );
    assert_eq!(
        worst_state(CapacityState::Unknown, CapacityState::Critical),
        CapacityState::Critical
    );
}

#[test]
fn wal_thresholds_distinguish_size_age_blocking_and_unknown_inventory() {
    let clean = WalMaintenanceHistory::default();
    assert_eq!(wal_state(Some(0), None, None, &clean), WalState::Healthy);
    assert_eq!(wal_state(Some(WAL_WARNING_BYTES), None, None, &clean), WalState::Warning);
    assert_eq!(wal_state(Some(WAL_CRITICAL_BYTES), None, None, &clean), WalState::Critical);
    assert_eq!(wal_state(Some(1), Some(WAL_WARNING_AGE_MS), None, &clean), WalState::Warning);
    assert_eq!(wal_state(Some(1), Some(WAL_CRITICAL_AGE_MS), None, &clean), WalState::Critical);
    assert_eq!(
        wal_state(Some(1), None, Some("permission denied"), &clean),
        WalState::Unknown
    );
    assert_eq!(
        wal_state(
            Some(1),
            None,
            None,
            &WalMaintenanceHistory { blocked_by_reader: true, ..WalMaintenanceHistory::default() }
        ),
        WalState::Blocked
    );
}

#[test]
fn a_failed_maintenance_newer_than_the_last_success_is_a_warning() {
    let failed = WalMaintenanceHistory {
        last_attempt_at_ms: Some(20),
        last_success_at_ms: Some(10),
        last_failure_at_ms: Some(20),
        last_error: Some("io".to_string()),
        blocked_by_reader: false,
    };
    assert_eq!(wal_state(Some(1), None, None, &failed), WalState::Warning);
    let recovered = WalMaintenanceHistory { last_success_at_ms: Some(30), ..failed };
    assert_eq!(wal_state(Some(1), None, None, &recovered), WalState::Healthy);
}

#[test]
fn wal_is_reported_separately_and_maintenance_history_survives_recovery() {
    let wal = WalProbe::File { size: 17, modified_at_ms: Some(1_000) };
    let mut disk = governor(&wal);
    let initial = disk.snapshot();
    assert_eq!(initial.wal.size_bytes, Some(17));
    assert_eq!(initial.wal.state, WalState::Healthy);
    assert_eq!(initial.wal.path, "/data/app/photoproof.db-wal");
    assert!(initial.stores.iter().any(|store| store.name == "database-and-wal"));

    let blocked = disk.record_wal_maintenance_failure("checkpoint blocked by reader", true, &wal, 2_000);
    assert_eq!(blocked.wal.state, WalState::Blocked);
    assert!(blocked.wal.blocked_by_reader);
    assert_eq!(blocked.wal.last_maintenance_failure_at_ms, Some(2_000));
    assert_eq!(
        blocked.wal.last_maintenance_error.as_deref(),
        Some("checkpoint blocked by reader")
    );

    let recovered = disk.record_wal_maintenance_success(&wal, 3_000);
    assert_eq!(recovered.wal.state, WalState::Healthy);
    assert!(!recovered.wal.blocked_by_reader);
    assert_eq!(recovered.wal.last_maintenance_success_at_ms, Some(3_000));
    assert_eq!(recovered.wal.last_maintenance_failure_at_ms, Some(2_000));
    assert_eq!(
        recovered.wal.last_maintenance_error.as_deref(),
        Some("checkpoint blocked by reader")
    );
}

#[test]
fn inventory_separates_db_wal_previews_full_decodes_vectors_and_parts() {
    let database = database_usage(&vec![
        FileProbe::RegularFile(11),
        FileProbe::RegularFile(7),
        FileProbe::Missing,
    ]);
    let previews = preview_usage(
        &vec![
            walked("/app/previews/previews/aa/bb/hash-disp.webp", 13),
            walked("/app/previews/previews/aa/bb/hash-full-v2.webp", 17),
        ],
        0,
    );
    let vectors = tree_usage(&vec![walked("/app/vectors/space.ppvec", 19)], 0, UsageFilter::All);
    let model_files = vec![walked("/m/model.onnx", 23), walked("/m/model.onnx.part", 29)];
    let models = tree_usage(&model_files, 0, UsageFilter::All);
    let parts = tree_usage(&model_files, 0, UsageFilter::PartialDownloads);
    let usage = InventoryUsage { database, previews, vectors, models, download_parts: parts };

    let wal = WalProbe::File { size: 7, modified_at_ms: Some(900) };
    let mut disk = governor(&wal);
    let snapshot = disk.refresh_inventory(Some(WARNING_FREE_BYTES), Some(WARNING_FREE_BYTES), &usage, &wal, 1_000);
    let used = |name: &str| {
        snapshot
            .stores
            .iter()
            .find(|store| store.name == name)
            .and_then(|store| store.used_bytes)
            .unwrap()
    };
    assert_eq!(used("database-and-wal"), 18);
    assert_eq!(used("previews"), 13);
    assert_eq!(used("full-decode-cache"), 17);
    assert_eq!(used("vectors"), 19);
    assert_eq!(used("models"), 52);
    assert_eq!(used("download-parts"), 29);
    assert_eq!(snapshot.wal.size_bytes, Some(7));
    assert_eq!(snapshot.wal.state, WalState::Healthy);
}

#[test]
fn inventory_marks_an_unreadable_or_invalid_subtree_as_incomplete() {
    let vectors = tree_usage(&Vec::new(), 1, UsageFilter::All);
    assert_eq!(vectors, Usage { bytes: 0, files: 0, errors: 1 });
    let usage = InventoryUsage {
        database: Usage::empty(),
        previews: preview_usage(&Vec::new(), 0),
        vectors,
        models: Usage::empty(),
        download_parts: Usage::empty(),
    };
    let wal = WalProbe::Missing;
    let mut disk = governor(&wal);
    let snapshot = disk.refresh_inventory(Some(WARNING_FREE_BYTES), Some(WARNING_FREE_BYTES), &usage, &wal, 5);
    let vectors = snapshot.stores.iter().find(|store| store.name == "vectors").unwrap();
    assert_eq!(vectors.used_bytes, Some(0));
    assert_eq!(vectors.inventory_errors, 1);
}

#[test]
fn injected_critical_capacity_pauses_derived_work() {
    let mut disk = governor(&WalProbe::Missing);
    assert!(!disk.derived_work_paused());
    disk.inject_capacity_for_test(Some(CRITICAL_FREE_BYTES - 1), Some(WARNING_FREE_BYTES));
    assert!(disk.derived_work_paused());
    let snapshot = disk.snapshot();
    assert_eq!(snapshot.app_data_state, CapacityState::Critical);
    assert_eq!(snapshot.models_state, CapacityState::Healthy);
    assert_eq!(snapshot.state, CapacityState::Critical);
    let models = snapshot.stores.iter().find(|store| store.name == "models").unwrap();
    assert_eq!(models.available_bytes, Some(WARNING_FREE_BYTES));
    disk.inject_capacity_for_test(Some(WARNING_FREE_BYTES), None);
    assert!(!disk.derived_work_paused());
    assert_eq!(disk.snapshot().state, CapacityState::Unknown);
}

#[test]
fn a_wal_that_is_not_a_regular_file_is_unknown_with_its_reason() {
    let w = wal_snapshot("/a/photoproof.db-wal", 10, WalMaintenanceHistory::default(), &WalProbe::NotRegularFile);
    assert_eq!(w.state, WalState::Unknown);
    assert_eq!(w.inventory_error.as_deref(), Some("WAL path is not a regular file"));
    let w = wal_snapshot("/a/photoproof.db-wal", 10, WalMaintenanceHistory::default(), &WalProbe::Missing);
    assert_eq!(w.size_bytes, Some(0));
    assert_eq!(w.age_ms, None);
    assert_eq!(w.state, WalState::Healthy);
    let w = wal_snapshot(
        "/a/photoproof.db-wal",
        WAL_CRITICAL_AGE_MS + 100,
        WalMaintenanceHistory::default(),
        &WalProbe::File { size: 3, modified_at_ms: Some(100) },
    );
    assert_eq!(w.age_ms, Some(WAL_CRITICAL_AGE_MS));
    assert_eq!(w.state, WalState::Critical);
}
