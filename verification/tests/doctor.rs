use photoproof_desktop::doctor::{
    degraded_root_notes, join_texts, repend_pass_for, roots_health, summarize_roots, DoctorReport, PassName,
    RepairIntegritySnapshot, RetentionRepairSnapshot, RootReconcileOutcome, RootReconcileResult, ScanReport,
    VecKind,
};
use photoproof_desktop::lifecycle::{Subsystem, SubsystemHealth};
use photoproof_desktop::sweep::{
    reason_label, vector_reconcile_step, DoctorEvent, DoctorStep, ReconciledSpace, SpaceReconcileReason,
    SpaceReconcileReport, StartupDoctor, VectorReconcileStep,
};

fn scanned(id: &str, report: ScanReport) -> RootReconcileResult {
    RootReconcileResult { root_id: id.into(), outcome: RootReconcileOutcome::Scanned(report) }
}

fn sample_roots() -> Vec<RootReconcileResult> {
    vec![
        scanned("healthy", ScanReport { relinked: 2, retention_repairs_revived: 6, ..ScanReport::default() }),
        scanned("incomplete", ScanReport { io_errors: 1, stale_inference_suppressed: true, ..ScanReport::default() }),
        RootReconcileResult {
            root_id: "offline".into(),
            outcome: RootReconcileOutcome::Offline { volume_id: "volume".into() },
        },
    ]
}

#[test]
fn repair_snapshot_preserves_s5_and_relink_outcomes() {
    let retention = RetentionRepairSnapshot::from(DoctorReport {
        repended: 2,
        reclaimed_images: 3,
        preview_files_reclaimed: 4,
        vector_rows_reclaimed: 5,
        ..DoctorReport::default()
    });
    assert_eq!(retention.repended, 2);
    assert_eq!(retention.reclaimed_images, 3);
    assert_eq!(retention.preview_files_reclaimed, 4);
    assert_eq!(retention.vector_rows_reclaimed, 5);

    let roots = summarize_roots(&sample_roots());
    assert_eq!(roots.total_roots, 3);
    assert_eq!(roots.scanned_roots, 2);
    assert_eq!(roots.degraded_roots, 2);
    assert_eq!(roots.relinked, 2);
    assert_eq!(roots.retention_repairs_revived, 6);
    assert_eq!(roots.io_errors, 1);
}

#[test]
fn degraded_roots_are_named_and_joined_into_the_roots_health() {
    let mut roots = sample_roots();
    roots.push(RootReconcileResult {
        root_id: "broken".into(),
        outcome: RootReconcileOutcome::Failed { error: "permission denied".into() },
    });
    let notes = degraded_root_notes(&roots);
    assert_eq!(
        notes,
        vec![
            "incomplete: incomplete filesystem walk (1 I/O errors)".to_string(),
            "offline: volume volume offline".to_string(),
            "broken: permission denied".to_string(),
        ]
    );
    match roots_health(&roots) {
        SubsystemHealth::Degraded { summary } => assert_eq!(summary, notes.join("; ")),
        other => panic!("unexpected {other:?}"),
    }
    assert_eq!(roots_health(&roots[..1].to_vec()), SubsystemHealth::Healthy);
    assert_eq!(join_texts(&Vec::new(), "; "), "");
}

#[test]
fn text_spaces_rebuild_from_text_embedding() {
    assert_eq!(repend_pass_for(VecKind::ImageClip), PassName::ImageEmbedding);
    assert_eq!(repend_pass_for(VecKind::AnnotationChunk), PassName::TextEmbedding);
    assert_eq!(repend_pass_for(VecKind::ImageSummary), PassName::TextEmbedding);
    assert_eq!(reason_label(SpaceReconcileReason::OrphanFile), "orphan file");
}

#[test]
fn pending_snapshot_is_the_default() {
    let r = RepairIntegritySnapshot::default();
    assert_eq!(r.state, "pending");
    assert!(r.errors.is_empty());
    assert!(r.started_at_ms.is_none());
}

fn space_report(repend: Vec<(VecKind, String)>) -> SpaceReconcileReport {
    SpaceReconcileReport {
        reconciled: vec![ReconciledSpace {
            vec_kind: VecKind::ImageClip,
            model_id: "old-clip".into(),
            rows: 9,
            reason: SpaceReconcileReason::SupersededByActiveModel,
        }],
        repend,
    }
}

#[test]
fn vector_reconcile_repends_each_space_then_settles() {
    let report: Result<SpaceReconcileReport, String> =
        Ok(space_report(vec![(VecKind::ImageClip, "clip".into()), (VecKind::ImageSummary, "text".into())]));
    match vector_reconcile_step(&report, &Vec::new()) {
        VectorReconcileStep::Repend(p) => assert_eq!(p, PassName::ImageEmbedding),
        other => panic!("unexpected {other:?}"),
    }
    match vector_reconcile_step(&report, &vec![Ok(4)]) {
        VectorReconcileStep::Repend(p) => assert_eq!(p, PassName::TextEmbedding),
        other => panic!("unexpected {other:?}"),
    }
    match vector_reconcile_step(&report, &vec![Ok(4), Ok(0)]) {
        VectorReconcileStep::Done { failure, task_error, health } => {
            assert!(failure.is_none());
            assert!(task_error.is_none());
            assert_eq!(health, SubsystemHealth::Healthy);
        }
        other => panic!("unexpected {other:?}"),
    }
    match vector_reconcile_step(&report, &vec![Err("db locked".into())]) {
        VectorReconcileStep::Done { failure, task_error, health } => {
            assert_eq!(failure.as_deref(), Some("db locked"));
            assert_eq!(task_error.as_deref(), Some("vector re-pend failed: db locked"));
            assert_eq!(health, SubsystemHealth::Degraded { summary: "db locked".into() });
        }
        other => panic!("unexpected {other:?}"),
    }
}

#[test]
fn vector_reconcile_failure_and_empty_report() {
    let failed: Result<SpaceReconcileReport, String> = Err("meta unreadable".into());
    match vector_reconcile_step(&failed, &Vec::new()) {
        VectorReconcileStep::Done { failure, task_error, health } => {
            assert_eq!(failure.as_deref(), Some("meta unreadable"));
            assert_eq!(task_error.as_deref(), Some("vector reconcile failed: meta unreadable"));
            assert_eq!(health, SubsystemHealth::Degraded { summary: "meta unreadable".into() });
        }
        other => panic!("unexpected {other:?}"),
    }
    let empty: Result<SpaceReconcileReport, String> =
        Ok(SpaceReconcileReport { reconciled: Vec::new(), repend: Vec::new() });
    assert!(matches!(
        vector_reconcile_step(&empty, &Vec::new()),
        VectorReconcileStep::Done { failure: None, task_error: None, health: SubsystemHealth::Healthy }
    ));
}

#[test]
fn a_clean_sweep_completes_and_keeps_the_vector_target() {
    let mut d = StartupDoctor::begin(100);
    assert_eq!(d.repair.state, "running");
    assert_eq!(d.step, Some(DoctorStep::VectorSpaces));
    assert_eq!(DoctorStep::VectorSpaces.progress(), (5, "checking vector spaces"));
    let a = d.advance(DoctorEvent::VectorSpaces { failure: None }, 110);
    assert!(a.task_errors.is_empty() && a.health.is_none());
    assert_eq!(d.step, Some(DoctorStep::IngestPasses));
    d.advance(DoctorEvent::IngestPasses(Ok(3)), 120);
    assert_eq!(d.repair.orphaned_passes_skipped, Some(3));
    let a = d.advance(DoctorEvent::PreviewCache(Ok(DoctorReport { temps_swept: 2, ..DoctorReport::default() })), 130);
    assert_eq!(a.health, Some((Subsystem::Previews, SubsystemHealth::Healthy)));
    assert_eq!(d.repair.retention.map(|r| r.temps_swept), Some(2));
    let a = d.advance(
        DoctorEvent::LibraryRoots {
            result: Ok(vec![scanned("r", ScanReport { new_images: 4, ..ScanReport::default() })]),
            cancelled: false,
        },
        140,
    );
    assert!(a.task_errors.is_empty());
    assert_eq!(a.health, Some((Subsystem::Roots, SubsystemHealth::Healthy)));
    assert_eq!(d.step, None);
    assert_eq!(d.repair.state, "completed");
    assert_eq!(d.repair.started_at_ms, Some(100));
    assert_eq!(d.repair.completed_at_ms, Some(140));
    assert_eq!(d.repair.vector_reconciled, Some(true));
    assert_eq!(d.repair.roots.map(|r| r.new_images), Some(4));
    assert!(d.keeps_vector_target());
}

#[test]
fn failed_steps_are_recorded_and_the_sweep_goes_on_degraded() {
    let mut d = StartupDoctor::begin(1);
    d.advance(DoctorEvent::VectorSpaces { failure: Some("meta unreadable".into()) }, 2);
    assert!(!d.keeps_vector_target());
    let a = d.advance(DoctorEvent::IngestPasses(Err("busy".into())), 3);
    assert_eq!(a.task_errors, vec!["orphaned-pass heal failed: busy".to_string()]);
    let a = d.advance(DoctorEvent::PreviewCache(Err("cache gone".into())), 4);
    assert_eq!(a.task_errors, vec!["preview reconcile failed: cache gone".to_string()]);
    assert_eq!(
        a.health,
        Some((Subsystem::Previews, SubsystemHealth::Degraded { summary: "cache gone".into() }))
    );
    assert_eq!(d.step, Some(DoctorStep::LibraryRoots));
    let mut roots = sample_roots();
    roots.push(RootReconcileResult {
        root_id: "broken".into(),
        outcome: RootReconcileOutcome::Failed { error: "EACCES".into() },
    });
    let a = d.advance(DoctorEvent::LibraryRoots { result: Ok(roots), cancelled: false }, 5);
    assert_eq!(
        a.task_errors,
        vec![
            "root incomplete walk incomplete; stale inference suppressed".to_string(),
            "root broken reconcile failed: EACCES".to_string(),
        ]
    );
    assert!(matches!(a.health, Some((Subsystem::Roots, SubsystemHealth::Degraded { .. }))));
    assert_eq!(d.repair.state, "degraded");
    assert_eq!(
        d.repair.errors,
        vec![
            "vector reconcile: meta unreadable".to_string(),
            "orphaned-pass heal: busy".to_string(),
            "preview reconcile: cache gone".to_string(),
        ]
    );
    assert_eq!(d.repair.completed_at_ms, Some(5));
}

#[test]
fn a_degraded_root_alone_makes_the_sweep_degraded() {
    let mut d = StartupDoctor::begin(1);
    d.advance(DoctorEvent::VectorSpaces { failure: None }, 2);
    d.advance(DoctorEvent::IngestPasses(Ok(0)), 3);
    d.advance(DoctorEvent::PreviewCache(Ok(DoctorReport::default())), 4);
    d.advance(DoctorEvent::LibraryRoots { result: Ok(sample_roots()), cancelled: false }, 5);
    assert!(d.repair.errors.is_empty());
    assert_eq!(d.repair.state, "degraded");
}

#[test]
fn a_failed_filesystem_reconcile_degrades_roots() {
    let mut d = StartupDoctor::begin(1);
    d.advance(DoctorEvent::VectorSpaces { failure: None }, 2);
    d.advance(DoctorEvent::IngestPasses(Ok(0)), 3);
    d.advance(DoctorEvent::PreviewCache(Ok(DoctorReport::default())), 4);
    let a = d.advance(DoctorEvent::LibraryRoots { result: Err("db closed".into()), cancelled: false }, 5);
    assert_eq!(a.task_errors, vec!["filesystem reconcile failed: db closed".to_string()]);
    assert_eq!(a.health, Some((Subsystem::Roots, SubsystemHealth::Degraded { summary: "db closed".into() })));
    assert_eq!(d.repair.state, "degraded");
    assert_eq!(d.repair.errors, vec!["filesystem reconcile: db closed".to_string()]);
}

#[test]
fn cancellation_ends_the_sweep_with_what_was_recorded() {
    let mut d = StartupDoctor::begin(1);
    d.advance(DoctorEvent::VectorSpaces { failure: None }, 2);
    let a = d.advance(DoctorEvent::Cancelled, 9);
    assert!(a.task_errors.is_empty() && a.health.is_none());
    assert_eq!(d.step, None);
    assert_eq!(d.repair.state, "cancelled");
    assert_eq!(d.repair.completed_at_ms, Some(9));
    assert_eq!(d.repair.vector_reconciled, Some(true));
    assert!(d.keeps_vector_target());

    let mut d = StartupDoctor::begin(1);
    d.advance(DoctorEvent::VectorSpaces { failure: None }, 2);
    d.advance(DoctorEvent::IngestPasses(Ok(0)), 3);
    d.advance(DoctorEvent::PreviewCache(Ok(DoctorReport { cancelled: true, ..DoctorReport::default() })), 4);
    assert_eq!(d.repair.state, "cancelled");
    assert!(d.repair.retention.is_none());

    let mut d = StartupDoctor::begin(1);
    d.advance(DoctorEvent::Cancelled, 1);
    assert!(!d.keeps_vector_target());
    assert_eq!(d.repair.vector_reconciled, None);
}
