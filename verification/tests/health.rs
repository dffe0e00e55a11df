use photoproof_desktop::disk::{
    DiskGovernor, WalProbe, WalState, WAL_CRITICAL_AGE_MS, WAL_CRITICAL_BYTES, WARNING_FREE_BYTES,
};
use photoproof_desktop::health::{
    database_status, root_status, shell_control_status, subsystem_statuses, tuning_control_status,
    ControlFileIssue, ControlFileRecovery, ControlFileSource, DatabaseStatus, RootRecord,
    TuningControlError, TuningControlLoad, TuningRecovery, TuningSource, VolumeLookup,
};
use photoproof_desktop::health::{task_status, TaskPriority, TaskSnapshot, TaskState};
use photoproof_desktop::issues::{database_issue, disk_issues};
use photoproof_desktop::lifecycle::{LifecyclePhase, LifecycleSnapshot, Subsystem, SubsystemHealth};

fn governor() -> DiskGovernor {
    DiskGovernor::new(
        "/app".to_string(),
        "/models".to_string(),
        Some(WARNING_FREE_BYTES),
        Some(WARNING_FREE_BYTES),
        &WalProbe::File { size: 7, modified_at_ms: Some(40) },
        41,
    )
}

#[test]
fn health_projection_keeps_degraded_subsystems_independent() {
    let snapshot = LifecycleSnapshot {
        phase: LifecyclePhase::OpeningData,
        phase_history: Vec::new(),
        health: vec![
            (Subsystem::Storage, SubsystemHealth::Healthy),
            (Subsystem::Settings, SubsystemHealth::Unknown),
            (Subsystem::Roots, SubsystemHealth::Degraded { summary: "archive offline".into() }),
        ],
    };
    let statuses = subsystem_statuses(&snapshot);
    let roots = statuses.iter().find(|s| s.name == "roots").unwrap();
    let storage = statuses.iter().find(|s| s.name == "storage").unwrap();
    assert_eq!(roots.state, "degraded");
    assert_eq!(roots.action, Some("retry-roots"));
    assert_eq!(storage.state, "healthy");
    assert_eq!(storage.action, None);
}

#[test]
fn unavailable_storage_blocks_only_while_opening_data() {
    let health = vec![(Subsystem::Storage, SubsystemHealth::Unavailable { summary: "locked".into() })];
    let opening = LifecycleSnapshot { phase: LifecyclePhase::OpeningData, phase_history: Vec::new(), health: health.clone() };
    let ready = LifecycleSnapshot { phase: LifecyclePhase::Ready, phase_history: Vec::new(), health };
    let s = &subsystem_statuses(&opening)[0];
    assert!(s.blocking);
    assert_eq!(s.state, "unavailable");
    assert_eq!(s.summary.as_deref(), Some("locked"));
    assert_eq!(s.action, Some("reveal-logs"));
    assert!(!subsystem_statuses(&ready)[0].blocking);
}

#[test]
fn schema_mismatch_is_blocking_and_retains_observation_time() {
    let issue = database_issue(
        73,
        &DatabaseStatus {
            state: "unavailable",
            schema_version: Some(13),
            expected_schema_version: 14,
            error: None,
        },
    )
    .expect("schema mismatch issue");
    assert!(issue.blocking);
    assert_eq!(issue.subsystem, "database");
    assert_eq!(issue.last_error_at_ms, Some(73));
    assert!(issue.summary.contains("13"));
    assert!(issue.summary.contains("14"));
}

#[test]
fn a_healthy_database_raises_no_issue() {
    let status = database_status(Ok((14, 14)), 14);
    assert_eq!(status.state, "healthy");
    assert_eq!(status.error, None);
    assert!(database_issue(5, &status).is_none());
    let mismatch = database_status(Ok((13, 14)), 14);
    assert_eq!(mismatch.state, "unavailable");
    assert_eq!(mismatch.error.as_deref(), Some("database schema is 13, expected 14"));
    let unreadable = database_status(Err("locked".to_string()), 14);
    assert_eq!(unreadable.schema_version, None);
    assert_eq!(unreadable.expected_schema_version, 14);
}

#[test]
fn archived_root_rows_are_never_unhealthy() {
    let archived = RootRecord {
        root_id: "r1".into(),
        display_name: None,
        rel_path: "photos/2026".into(),
        volume_id: "vol".into(),
        state: "archived".into(),
    };
    let row = root_status(&archived, &VolumeLookup::Offline, false);
    assert_eq!(row.lifecycle_state, "archived");
    assert_eq!(row.state, "archived");
    assert_eq!(row.display_name, "2026");
    assert_eq!(row.action, None);
    let active = RootRecord { state: "active".into(), ..archived };
    let row = root_status(&active, &VolumeLookup::Offline, false);
    assert_eq!(row.state, "unavailable");
}

#[test]
fn control_file_recovery_is_product_health_not_a_silent_default() {
    let recovered = shell_control_status(
        "settings",
        &Ok(ControlFileRecovery {
            source: ControlFileSource::LastKnownGood,
            quarantined: vec!["settings.json.corrupt-test".into()],
            warnings: Vec::new(),
        }),
    );
    assert_eq!(recovered.state, "degraded");
    assert_eq!(recovered.source, Some("last-known-good"));
    assert_eq!(recovered.action, Some("restore-controls"));
    assert_eq!(recovered.quarantined.len(), 1);
}

#[test]
fn an_unloadable_control_file_is_unavailable_with_its_quarantine() {
    let failed = shell_control_status(
        "settings",
        &Err(ControlFileIssue {
            message: "both copies corrupt".into(),
            quarantined_path: Some("settings.json.corrupt-1".into()),
        }),
    );
    assert_eq!(failed.state, "unavailable");
    assert_eq!(failed.source, None);
    assert_eq!(failed.error.as_deref(), Some("both copies corrupt"));
    assert_eq!(failed.quarantined, vec!["settings.json.corrupt-1".to_string()]);
    assert_eq!(failed.action, Some("restore-controls"));
}

#[test]
fn tuning_recovery_and_validation_warnings_are_visible() {
    let recovered = tuning_control_status(&Ok(TuningControlLoad {
        recovery: TuningRecovery {
            source: TuningSource::LastKnownGood,
            quarantined: vec!["tuning.toml.corrupt-test".into()],
            warnings: Vec::new(),
        },
        validation_warnings: vec!["unsupported tuning key: search.future_knob".into()],
    }));
    assert_eq!(recovered.state, "degraded");
    assert_eq!(recovered.source, Some("last-known-good"));
    assert_eq!(recovered.action, Some("restore-controls"));
    assert_eq!(recovered.quarantined.len(), 1);
    assert_eq!(recovered.warnings.len(), 1);
    let missing = tuning_control_status(&Err(TuningControlError { message: "unreadable".into(), quarantined_path: None }));
    assert_eq!(missing.state, "unavailable");
    assert!(missing.quarantined.is_empty());
}

#[test]
fn blocked_wal_is_a_blocking_issue_with_failure_time_and_real_action() {
    let mut disk = governor();
    let snapshot = disk.record_wal_maintenance_failure(
        "reader is busy",
        true,
        &WalProbe::File { size: 7, modified_at_ms: Some(40) },
        50,
    );
    let mut issues = Vec::new();
    disk_issues(42, &snapshot, &mut issues);
    let wal = issues.iter().find(|issue| issue.id == "disk:wal").unwrap();
    assert!(wal.blocking);
    assert_eq!(wal.last_error.as_deref(), Some("reader is busy"));
    assert_eq!(wal.last_error_at_ms, Some(50));
    assert_eq!(wal.action.kind, "reveal-logs");
}

#[test]
fn critical_wal_is_degraded_not_falsely_blocking() {
    let disk = governor();
    let mut snapshot = disk.snapshot();
    snapshot.wal.state = WalState::Critical;
    snapshot.wal.size_bytes = Some(WAL_CRITICAL_BYTES);
    snapshot.wal.age_ms = Some(WAL_CRITICAL_AGE_MS);

    let mut issues = Vec::new();
    disk_issues(42, &snapshot, &mut issues);
    let wal = issues.iter().find(|issue| issue.id == "disk:wal").unwrap();
    assert!(!wal.blocking);
    assert!(wal.summary.contains("critically"));
    assert_eq!(wal.action.kind, "reveal-logs");
    assert_eq!(wal.last_error_at_ms, Some(42));
    assert_eq!(
        wal.summary,
        format!("The WAL is critically large or old ({} bytes, age {} ms).", WAL_CRITICAL_BYTES, WAL_CRITICAL_AGE_MS)
    );
}

#[test]
fn a_healthy_disk_raises_no_issue() {
    let disk = governor();
    let mut issues = Vec::new();
    disk_issues(1, &disk.snapshot(), &mut issues);
    assert!(issues.is_empty());
}

#[test]
fn managed_tasks_report_their_priority_and_state_by_name() {
    let row = task_status(TaskSnapshot {
        owner: "library".into(),
        key: "root-scan:r1".into(),
        priority: TaskPriority::Maintenance,
        state: TaskState::Failed,
        started_at_ms: 5,
        ended_at_ms: Some(9),
        progress_message: Some("walking".into()),
        last_error: Some("EIO".into()),
    });
    assert_eq!(row.priority, "maintenance");
    assert_eq!(row.state, "failed");
    assert_eq!(row.ended_at_ms, Some(9));
    assert_eq!(row.last_error.as_deref(), Some("EIO"));
}
