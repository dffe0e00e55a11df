use photoproof_desktop::backup::{
    backup_receipt, digest, failure_receipt, frame_request, new_manifest, no_trailing_bytes, path_within,
    request_length, restore_failed_reinstated, restore_failed_stranded, restore_receipt, rollback_name,
    staging_name, arm_helper, is_offline_helper_arg, is_offline_helper_smoke_arg, validate_operation, validate_relative, verify_manifest, verify_restored_files, BackupError,
    BackupFile, FileObservation, OfflineOperation, OperationFacts, PayloadListing, MAX_HELPER_REQUEST_BYTES,
};

fn listed(path: &str, contents: &[u8]) -> BackupFile {
    let d = digest(contents);
    BackupFile { path: path.to_string(), bytes: d.bytes, blake3: d.blake3 }
}

fn backup_facts() -> OperationFacts {
    OperationFacts {
        app_data_absolute: true,
        app_data_is_dir: true,
        target_absolute: true,
        target_exists: false,
        target_is_dir: false,
        source_canonical: Ok("/data/live".to_string()),
        nearest_canonical: Ok("/data".to_string()),
        backup_failure: None,
    }
}

fn backup_op(destination: &str) -> OfflineOperation {
    OfflineOperation::Backup { app_data: "/data/live".into(), destination: destination.into() }
}

#[test]
fn digests_are_blake3_hex_of_the_contents() {
    let d = digest(b"abc");
    assert_eq!(d.bytes, 3);
    assert_eq!(d.blake3, "6437b3ac38465133ffb63b75273a8db548c558465d79db03fd359c6cd5bd9d85");
    assert_ne!(digest(b"abd").blake3, d.blake3);
    assert_eq!(
        digest(b"").blake3,
        "af1349b9f5f9a1a6a0404dea36dcc9499bcb25c9adc112b7cc9a93cae41f3262"
    );
}

#[test]
fn full_backup_destroy_restore_drill_preserves_every_truth_and_cache_byte() {
    let files: Vec<(&str, &[u8])> = vec![
        ("photoproof.db", b"database"),
        ("settings.json", br#"{"theme":"dark"}"#),
        ("photoproof/journal/sessions/session.photoproof.json", b"session-journal"),
        ("previews/previews/aa/bb/hash-disp.webp", b"derived-preview"),
    ];
    let manifest = new_manifest(files.iter().map(|(p, c)| listed(p, c)).collect());
    let observed: Vec<FileObservation> = files.iter().map(|(_, c)| FileObservation::Read(digest(c))).collect();
    let payload = PayloadListing::Files(files.iter().map(|(p, _)| p.to_string()).collect());
    assert!(verify_manifest(&manifest, &observed, &payload).is_ok());
    assert!(verify_restored_files(&manifest, &observed).is_ok());
}

#[test]
fn verification_rejects_tampering_and_restore_never_overwrites() {
    let manifest = new_manifest(vec![listed("device-id", b"one")]);
    let tampered = vec![FileObservation::Read(digest(b"two"))];
    let payload = PayloadListing::Files(vec!["device-id".to_string()]);
    match verify_manifest(&manifest, &tampered, &payload) {
        Err(BackupError::Checksum { path, expected, actual }) => {
            assert_eq!(path, "device-id");
            assert_eq!(expected, format!("3 bytes / {}", digest(b"one").blake3));
            assert_eq!(actual, format!("3 bytes / {}", digest(b"two").blake3));
        }
        other => panic!("unexpected {other:?}"),
    }
    let restore = OfflineOperation::Restore { app_data: "/data/live".into(), backup: "/b".into() };
    let facts = OperationFacts { target_is_dir: true, target_exists: true, ..backup_facts() };
    assert!(validate_operation(&restore, &facts).is_ok());
    let existing = OperationFacts { target_exists: true, ..backup_facts() };
    assert!(matches!(
        validate_operation(&backup_op("/data/existing"), &existing),
        Err(BackupError::DestinationExists(p)) if p == "/data/existing"
    ));
}

#[test]
fn backup_refuses_destination_inside_source() {
    let facts = OperationFacts { nearest_canonical: Ok("/data/live".to_string()), ..backup_facts() };
    assert!(matches!(
        validate_operation(&backup_op("/data/live/backup"), &facts),
        Err(BackupError::DestinationInsideSource(_))
    ));
    assert!(validate_operation(&backup_op("/data/live-backup"), &backup_facts()).is_ok());
    assert!(path_within("/data/live/x", "/data/live"));
    assert!(!path_within("/data/live-backup", "/data/live"));
    assert!(path_within("/data/live", "/data/live"));
}

#[test]
fn operations_need_absolute_existing_app_data() {
    let facts = OperationFacts { app_data_is_dir: false, ..backup_facts() };
    match validate_operation(&backup_op("/d"), &facts) {
        Err(BackupError::InvalidRequest(m)) => {
            assert_eq!(m, "app-data path is not an existing absolute directory: /data/live")
        }
        other => panic!("unexpected {other:?}"),
    }
    let facts = OperationFacts { target_absolute: false, ..backup_facts() };
    assert!(matches!(
        validate_operation(&backup_op("rel"), &facts),
        Err(BackupError::InvalidRequest(m)) if m == "backup destination is not absolute"
    ));
}

#[test]
fn tampered_restore_is_rejected_before_live_app_data_moves() {
    let restore = OfflineOperation::Restore { app_data: "/data/live".into(), backup: "/b".into() };
    let facts = OperationFacts {
        target_is_dir: true,
        backup_failure: Some(BackupError::Manifest("unsupported backup format/version".into())),
        ..backup_facts()
    };
    assert!(matches!(validate_operation(&restore, &facts), Err(BackupError::Manifest(_))));
}

#[test]
fn verification_rejects_a_payload_symlink_before_restore_publication() {
    let manifest = new_manifest(vec![listed("a", b"x")]);
    let observed = vec![FileObservation::Read(digest(b"x"))];
    assert!(matches!(
        verify_manifest(&manifest, &observed, &PayloadListing::Symlink("link".into())),
        Err(BackupError::InvalidRelativePath(p)) if p == "link"
    ));
}

#[test]
fn verification_rejects_unmanifested_payload_before_restore_publication() {
    let manifest = new_manifest(vec![listed("a", b"x")]);
    let observed = vec![FileObservation::Read(digest(b"x"))];
    let extra = PayloadListing::Files(vec!["a".to_string(), "b".to_string()]);
    assert!(matches!(
        verify_manifest(&manifest, &observed, &extra),
        Err(BackupError::Manifest(m)) if m == "payload contains missing or unmanifested files"
    ));
    let listed_escape = new_manifest(vec![listed("../etc", b"x")]);
    assert!(matches!(
        verify_manifest(&listed_escape, &observed, &PayloadListing::Files(vec!["../etc".into()])),
        Err(BackupError::InvalidRelativePath(p)) if p == "../etc"
    ));
}

#[test]
fn helper_rejects_trailing_protocol_data_without_touching_app_data() {
    assert!(no_trailing_bytes(&[]).is_ok());
    assert!(matches!(no_trailing_bytes(&[0]), Err(BackupError::InvalidRequest(_))));
    let framed = frame_request(b"{}").unwrap();
    assert_eq!(framed, vec![2, 0, 0, 0, b'{', b'}']);
    assert_eq!(request_length(&framed[..4]).unwrap(), 2);
    assert!(matches!(
        request_length(&[0, 0, 0, 0]),
        Err(BackupError::InvalidRequest(m)) if m == "request length 0 is outside the protocol limit"
    ));
    assert!(frame_request(&vec![0u8; MAX_HELPER_REQUEST_BYTES + 1]).is_err());
}

#[test]
fn relative_paths_never_escape_the_backup_root() {
    for ok in ["a", "a/b", "a..b", ".hidden", "a/..b/c"] {
        assert!(validate_relative(ok).is_ok(), "{ok}");
    }
    for bad in ["", "/abs", ".", "./a", "..", "a/..", "a/../b"] {
        assert!(validate_relative(bad).is_err(), "{bad}");
    }
}

#[test]
fn receipts_and_sibling_names() {
    let r = backup_receipt("/b", 3, "2026-01-01T00:00:00.000Z".into());
    assert!(r.succeeded);
    assert_eq!(r.operation, "backup");
    assert_eq!(r.backup_path, "/b");
    assert_eq!(r.rollback_path, None);
    assert!(r.detail.contains('3'));
    let r = restore_receipt("/b", "/live.pre-restore-1-2", 3, "t".into());
    assert_eq!(r.rollback_path.as_deref(), Some("/live.pre-restore-1-2"));
    let r = failure_receipt(&backup_op("/b"), "t".into(), &BackupError::Io("disk full".into()));
    assert!(!r.succeeded);
    assert_eq!(r.detail, "backup I/O: disk full");
    assert_eq!(rollback_name(Some("app"), 17, 9), "app.pre-restore-17-9");
    assert_eq!(staging_name(None, 9), ".photoproof-app-data.restore-9");
    assert!(restore_failed_reinstated("boom", 2).message().contains("boom"));
    assert!(restore_failed_stranded("boom", "/rb", "gone").message().contains("/rb"));
}

#[test]
fn only_one_helper_handoff_may_wait_for_the_app_to_quit() {
    assert!(arm_helper(&backup_op("/data/live-backup"), &backup_facts(), false).is_ok());
    assert!(matches!(
        arm_helper(&backup_op("/data/live-backup"), &backup_facts(), true),
        Err(BackupError::HandoffPending)
    ));
    let existing = OperationFacts { target_exists: true, ..backup_facts() };
    assert!(matches!(
        arm_helper(&backup_op("/data/existing"), &existing, true),
        Err(BackupError::DestinationExists(_))
    ));
}

#[test]
fn helper_arguments_are_recognised_exactly() {
    assert!(is_offline_helper_arg(Some("--photoproof-backup-helper")));
    assert!(!is_offline_helper_arg(Some("--photoproof-backup-helper-smoke")));
    assert!(!is_offline_helper_arg(None));
    assert!(is_offline_helper_smoke_arg(Some("--photoproof-backup-helper-smoke")));
    assert!(!is_offline_helper_smoke_arg(Some("--photoproof-backup-helper")));
}
