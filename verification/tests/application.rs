use photoproof_desktop::application::{build_application_health, HealthSources, RootProbe, VolumeRecord};
use photoproof_desktop::command_work::{CommandClass, CommandWorkSnapshot};
use photoproof_desktop::disk::{DiskGovernor, WalProbe, WARNING_FREE_BYTES};
use photoproof_desktop::doctor::RepairIntegritySnapshot;
use photoproof_desktop::dto::{EmbedderSlot, EmbedderState, IngestStatus, RuntimeStatus};
use photoproof_desktop::health::{
    ControlFileRecovery, ControlFileSource, DiagnosticsStatus, RootRecord, TuningControlLoad, TuningRecovery,
    TuningSource, VolumeLookup,
};
use photoproof_desktop::lifecycle::{LifecyclePhase, LifecycleSnapshot, Subsystem, SubsystemHealth};

fn idle() -> EmbedderSlot {
    EmbedderSlot {
        state: EmbedderState::Idle,
        attempt_id: None,
        model_id: None,
        generation: 0,
        started_at: None,
        error: None,
        execution: None,
    }
}

fn clean_recovery() -> ControlFileRecovery {
    ControlFileRecovery { source: ControlFileSource::Primary, quarantined: Vec::new(), warnings: Vec::new() }
}

fn sources(roots: Vec<RootProbe>, health: Vec<(Subsystem, SubsystemHealth)>) -> HealthSources {
    let disk = DiskGovernor::new(
        "/app".into(),
        "/models".into(),
        Some(WARNING_FREE_BYTES),
        Some(WARNING_FREE_BYTES),
        &WalProbe::Missing,
        10,
    );
    HealthSources {
        observed_at_ms: 1_000,
        lifecycle: LifecycleSnapshot { phase: LifecyclePhase::Ready, phase_history: Vec::new(), health },
        roots: Ok(roots),
        schema: Ok((14, 14)),
        expected_schema_version: 14,
        volumes: Ok(vec![VolumeRecord {
            volume_id: "vol".into(),
            label: Some(String::new()),
            online: true,
            read_only: false,
            fs_type: None,
            mount_point: Some("/mnt/vol".into()),
        }]),
        tasks: Vec::new(),
        settings_recovery: Ok(clean_recovery()),
        device_identity_recovery: clean_recovery(),
        tuning_recovery: Ok(TuningControlLoad {
            recovery: TuningRecovery { source: TuningSource::Primary, quarantined: Vec::new(), warnings: Vec::new() },
            validation_warnings: Vec::new(),
        }),
        disk: disk.snapshot(),
        diagnostics: DiagnosticsStatus {
            build_version: "0.1.0",
            previous_unclean_launch: false,
            logs_dir: None,
            current_log: None,
            error: None,
        },
        repair_integrity: RepairIntegritySnapshot::default(),
        command_work: vec![
            CommandWorkSnapshot { id: 1, name: "health.application", class: CommandClass::Read, started_at_ms: 990 },
            CommandWorkSnapshot { id: 2, name: "library.add-root", class: CommandClass::Mutation, started_at_ms: 995 },
        ],
        ingest: IngestStatus {
            running: false,
            done: 0,
            total: 0,
            errors: 0,
            passes: Vec::new(),
            scanning: false,
            discovered: 0,
        },
        runtime: RuntimeStatus {
            asr_ready: false,
            llm_ready: false,
            asr_blocked: None,
            llm_blocked: None,
            clip_ready: false,
            text_embedder_ready: false,
            clip: idle(),
            text_embedder: idle(),
            tier_detected: 0,
            tier_effective: 0,
            tier_overridden_above: false,
            consent: "undecided".into(),
            consent_offer_bytes: 0,
            capability_state: "detected".into(),
            capability_summary: None,
            models: Vec::new(),
            control_files: Vec::new(),
            instance_lock_held: true,
        },
    }
}

fn archived_root() -> RootProbe {
    RootProbe {
        root: RootRecord {
            root_id: "r1".into(),
            display_name: Some("Archive".into()),
            rel_path: "archive".into(),
            volume_id: "vol".into(),
            state: "archived".into(),
        },
        volume: VolumeLookup::Online,
        watcher_active: false,
    }
}

#[test]
fn health_inventory_keeps_archived_roots_without_reporting_them_unhealthy() {
    let health = build_application_health(sources(vec![archived_root()], Vec::new()));
    assert_eq!(health.database.state, "healthy");
    assert_eq!(health.database.schema_version, Some(health.database.expected_schema_version));
    assert!(health.volume_inventory_error.is_none());
    assert_eq!(health.volumes.len(), 1);
    assert_eq!(health.volumes[0].label, "vol");
    let root = health.roots.iter().find(|root| root.root_id == "r1").expect("archived root retained");
    assert_eq!(root.lifecycle_state, "archived");
    assert_eq!(root.state, "archived");
    assert!(health.issues.iter().all(|issue| issue.id != "root:r1"));
    assert!(health.issues.is_empty(), "{:?}", health.issues);
    assert_eq!(health.phase, "ready");
    assert_eq!(health.control_files.len(), 3);
    assert_eq!(health.command_work.len(), 1);
    assert_eq!(health.command_work[0].name, "library.add-root");
}

#[test]
fn a_degraded_subsystem_and_a_failed_root_inventory_surface_as_issues() {
    let mut src = sources(
        Vec::new(),
        vec![(Subsystem::Previews, SubsystemHealth::Degraded { summary: "cache gone".into() })],
    );
    src.roots = Err("db locked".into());
    let health = build_application_health(src);
    assert_eq!(health.roots.len(), 1);
    assert_eq!(health.roots[0].display_name, "Library roots");
    assert_eq!(health.roots[0].summary.as_deref(), Some("root inventory failed: db locked"));
    assert!(!health.issues.is_empty());
    assert!(health.issues.iter().any(|i| i.summary.contains("cache gone")));
    assert!(health.issues.iter().all(|i| !i.blocking));
}
