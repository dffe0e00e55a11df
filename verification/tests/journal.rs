use photoproof_desktop::capture::{StrokePayload, StrokePoint, Tool};
use photoproof_desktop::journal::{
    journal_entries, metadata_view, redact_report, restate, EventKind, EventPayload, EventSource, FoldedEntry,
    JournalEvent, PreviewArtifactState, QueuedPath, Restatement, VolumeState,
};
use photoproof_desktop::os::BestPath;
use photoproof_desktop::os::CmdError;

const HASH: &str = "abababababababababababababababababababababababababababababababab";
const TS: i64 = 1_767_225_600_000;

fn event(id: &str, kind: EventKind, text: Option<&str>) -> JournalEvent {
    JournalEvent {
        id: id.into(),
        session_id: "01SESSION".into(),
        ts_ms: TS,
        kind,
        source: EventSource::Typed,
        text: text.map(String::from),
        payload: EventPayload::Empty,
        targets: vec![HASH.into()],
        target_event: None,
        linked_event: None,
        scrubbed: false,
    }
}

fn acting_on(id: &str, kind: EventKind, target: &str, text: Option<&str>) -> JournalEvent {
    JournalEvent {
        targets: vec![],
        target_event: Some(target.into()),
        source: EventSource::System,
        ..event(id, kind, text)
    }
}

fn rating(id: &str, value: u8) -> JournalEvent {
    JournalEvent { payload: EventPayload::Rating(value), ..event(id, EventKind::Rating, None) }
}

fn stroke_payload() -> StrokePayload {
    StrokePayload {
        base_w: 40,
        orientation: 1,
        points: vec![StrokePoint { x: 4312, y: 2210, p: 1000, t: 0 }, StrokePoint { x: 4330, y: 2204, p: 820, t: 9 }],
        tool: Tool::Pencil,
    }
}

fn folded_remark(id: &str, text: &str, corrected: bool) -> FoldedEntry {
    FoldedEntry::Remark {
        id: id.into(),
        ts_ms: TS,
        source: EventSource::Typed,
        targets: vec![HASH.into()],
        text: text.into(),
        corrected,
    }
}

#[test]
fn folded_rows_carry_session_corrected_text_and_the_original() {
    let closure = vec![
        event("01A", EventKind::Remark, Some("muddy light")),
        acting_on("01B", EventKind::Revision, "01A", Some("moody light")),
    ];
    let folded = vec![folded_remark("01A", "moody light", true)];
    let rows = journal_entries(&folded, &closure, HASH).unwrap();
    assert_eq!(rows.len(), 1, "revisions are never standalone entries");
    let row = &rows[0];
    assert_eq!(row.id, "01A");
    assert_eq!(row.session_id, "01SESSION");
    assert_eq!(row.kind, "remark");
    assert_eq!(row.text.as_deref(), Some("moody light"));
    assert!(row.corrected);
    assert_eq!(row.original_text.as_deref(), Some("muddy light"));
    assert!(!row.retracted);
    assert_eq!(row.ts, "2026-01-01T00:00:00.000Z");
}

#[test]
fn rating_rows_fold_with_value_and_log_order_holds() {
    let closure = vec![event("01A", EventKind::Remark, Some("keeper")), rating("01B", 4)];
    let folded = vec![
        FoldedEntry::Rating { id: "01B".into(), ts_ms: TS, targets: vec![HASH.into()], value: 4 },
        folded_remark("01A", "keeper", false),
    ];
    let rows = journal_entries(&folded, &closure, HASH).unwrap();
    assert_eq!(rows.iter().map(|r| r.id.as_str()).collect::<Vec<_>>(), vec!["01A", "01B"], "ULID order is log order");
    assert_eq!(rows[1].kind, "rating");
    assert_eq!(rows[1].rating, Some(4));
    assert_eq!(rows[1].text, None);
}

#[test]
fn retracted_rows_are_included_and_flagged_with_their_folded_text() {
    let closure = vec![
        event("01A", EventKind::Remark, Some("too literal")),
        acting_on("01B", EventKind::Revision, "01A", Some("far too literal")),
        acting_on("01C", EventKind::Retraction, "01A", None),
    ];
    // The canonical fold hides it entirely; the journal-tab rows keep it.
    let rows = journal_entries(&vec![], &closure, HASH).unwrap();
    assert_eq!(rows.len(), 1);
    assert!(rows[0].retracted);
    assert_eq!(rows[0].kind, "remark");
    assert_eq!(rows[0].text.as_deref(), Some("far too literal"));
    assert!(rows[0].corrected);
    assert_eq!(rows[0].original_text.as_deref(), Some("too literal"));
}

#[test]
fn redacted_events_fold_to_inert_stubs() {
    let closure = vec![JournalEvent { scrubbed: true, text: None, ..event("01A", EventKind::Remark, None) }];
    let folded = vec![FoldedEntry::RedactedStub { id: "01A".into(), ts_ms: TS, source: EventSource::Typed }];
    let rows = journal_entries(&folded, &closure, HASH).unwrap();
    assert_eq!(rows.len(), 1);
    assert_eq!(rows[0].kind, "redacted");
    assert_eq!(rows[0].text, None, "content gone, continuity preserved");
    assert!(!rows[0].retracted);
    assert!(rows[0].targets.is_empty());
}

#[test]
fn restate_appends_a_new_remark_carrying_the_folded_text() {
    let closure = vec![
        event("01A", EventKind::Remark, Some("muddy")),
        acting_on("01B", EventKind::Revision, "01A", Some("moody")),
        acting_on("01C", EventKind::Retraction, "01A", None),
    ];
    match restate(&closure[0], &closure) {
        Some(Restatement::Remark { text, targets }) => {
            assert_eq!(text, "moody");
            assert_eq!(targets, vec![HASH.to_string()]);
        }
        other => panic!("unexpected {other:?}"),
    }
}

#[test]
fn restate_declines_unretracted_and_scrubbed_targets() {
    let live = vec![event("01A", EventKind::Remark, Some("still here"))];
    assert!(restate(&live[0], &live).is_none());
    let gone = vec![
        JournalEvent { scrubbed: true, text: None, ..event("01A", EventKind::Remark, None) },
        acting_on("01B", EventKind::Retraction, "01A", None),
    ];
    assert!(restate(&gone[0], &gone).is_none(), "scrubbed content cannot be re-stated");
}

#[test]
fn restate_resurfaces_a_retracted_rating() {
    let closure = vec![rating("01A", 3), rating("01B", 4), acting_on("01C", EventKind::Retraction, "01B", None)];
    match restate(&closure[1], &closure) {
        Some(Restatement::Rating { value, targets }) => {
            assert_eq!(value, 4);
            assert_eq!(targets, vec![HASH.to_string()]);
        }
        other => panic!("unexpected {other:?}"),
    }
    assert!(restate(&closure[0], &closure).is_none(), "the live rating is not retracted");
}

#[test]
fn restating_a_stroke_keeps_its_geometry_on_its_first_target() {
    let stroke = JournalEvent {
        payload: EventPayload::Stroke(stroke_payload()),
        source: EventSource::Pencil,
        ..event("01A", EventKind::Stroke, None)
    };
    let closure = vec![stroke, acting_on("01B", EventKind::Retraction, "01A", None)];
    match restate(&closure[0], &closure) {
        Some(Restatement::Stroke { payload, target }) => {
            assert_eq!(payload, stroke_payload());
            assert_eq!(target, HASH);
        }
        other => panic!("unexpected {other:?}"),
    }
    let retraction = &closure[1];
    assert!(restate(retraction, &closure).is_none(), "a retraction carries no content");
}

#[test]
fn retracted_strokes_show_their_geometry_and_the_live_one_stands() {
    let stroke = |id: &str| JournalEvent {
        payload: EventPayload::Stroke(stroke_payload()),
        source: EventSource::Pencil,
        ..event(id, EventKind::Stroke, None)
    };
    let closure = vec![
        stroke("01A"),
        stroke("01B"),
        stroke("01C"),
        acting_on("01D", EventKind::Retraction, "01C", None),
        acting_on("01E", EventKind::Retraction, "01B", None),
    ];
    let folded = vec![FoldedEntry::Stroke {
        id: "01A".into(),
        ts_ms: TS,
        target: HASH.into(),
        linked_event: None,
        payload: stroke_payload(),
    }];
    let rows = journal_entries(&folded, &closure, HASH).unwrap();
    assert_eq!(rows.iter().map(|r| r.id.as_str()).collect::<Vec<_>>(), vec!["01A", "01B", "01C"]);
    assert_eq!(rows.iter().filter(|r| !r.retracted).count(), 1);
    assert_eq!(rows.iter().filter(|r| r.retracted).count(), 2);
    assert!(rows.iter().all(|r| r.kind == "stroke" && r.source == "pencil"));
    let geometry = rows[1].stroke.as_ref().expect("stroke geometry");
    assert_eq!(geometry.base_w, 40);
    assert_eq!(geometry.points, vec![[4312, 2210, 1000, 0], [4330, 2204, 820, 9]]);
}

#[test]
fn a_fold_entry_missing_from_the_closure_is_refused() {
    let closure = vec![event("01A", EventKind::Remark, Some("here"))];
    let folded = vec![folded_remark("01A", "here", false), folded_remark("01Z", "elsewhere", false)];
    match journal_entries(&folded, &closure, HASH) {
        Err(CmdError::Invalid(m)) => assert_eq!(m, "folded event missing from closure: 01Z"),
        other => panic!("unexpected {other:?}"),
    }
}

#[test]
fn circular_or_dangling_revisions_never_correct_a_remark() {
    let closure = vec![
        event("01A", EventKind::Remark, Some("original")),
        acting_on("01B", EventKind::Revision, "01C", Some("loop one")),
        acting_on("01C", EventKind::Revision, "01B", Some("loop two")),
        acting_on("01D", EventKind::Revision, "01X", Some("dangling")),
        acting_on("01E", EventKind::Retraction, "01A", None),
    ];
    let rows = journal_entries(&vec![], &closure, HASH).unwrap();
    assert_eq!(rows.len(), 1);
    assert_eq!(rows[0].text.as_deref(), Some("original"));
    assert!(!rows[0].corrected);
    assert_eq!(rows[0].original_text, None);
}

#[test]
fn the_newest_live_revision_wins_and_retracted_revisions_do_not_count() {
    let closure = vec![
        event("01A", EventKind::Remark, Some("first")),
        acting_on("01B", EventKind::Revision, "01A", Some("second")),
        acting_on("01C", EventKind::Revision, "01B", Some("third")),
        acting_on("01D", EventKind::Retraction, "01C", None),
        acting_on("01E", EventKind::Retraction, "01A", None),
    ];
    let rows = journal_entries(&vec![], &closure, HASH).unwrap();
    assert_eq!(rows.len(), 1, "revisions get no row of their own");
    assert_eq!(rows[0].text.as_deref(), Some("second"));
    assert!(rows[0].corrected);
}

#[test]
fn the_last_event_listed_under_an_id_is_the_one_that_counts() {
    let closure = vec![
        event("01A", EventKind::Remark, Some("stale copy")),
        acting_on("01B", EventKind::Retraction, "01A", None),
        event("01A", EventKind::Remark, Some("current copy")),
    ];
    let rows = journal_entries(&vec![], &closure, HASH).unwrap();
    assert_eq!(rows.len(), 1);
    assert_eq!(rows[0].text.as_deref(), Some("current copy"));
}

#[test]
fn rows_about_other_images_are_left_out() {
    let other = JournalEvent { targets: vec!["cd".repeat(32)], ..event("01A", EventKind::Remark, Some("elsewhere")) };
    let closure = vec![other, acting_on("01B", EventKind::Retraction, "01A", None)];
    assert!(journal_entries(&vec![], &closure, HASH).unwrap().is_empty());
}

#[test]
fn redaction_report_counts_rewritten_sidecars_online() {
    // The remark and its revision were scrubbed; the adjacent sidecar was
    // rewritten at once on an online volume.
    let markers = vec![Some("01A".to_string()), Some("01B".to_string())];
    let queued = vec![QueuedPath {
        active: true,
        volume_id: "vol-1".into(),
        volume: Some(VolumeState { online: true, label: Some("ShootDisk".into()) }),
    }];
    let report = redact_report(&markers, &queued, 1, 0);
    assert_eq!(report.redacted.len(), 2);
    assert!(report.redacted.contains(&"01A".to_owned()));
    assert!(report.redacted.contains(&"01B".to_owned()));
    assert_eq!(report.sidecars_updated, 1, "adjacent rewrite is immediate");
    assert!(report.offline_pending.is_empty());
}

#[test]
fn redaction_on_an_offline_volume_reports_the_pending_label() {
    let offline = |id: &str, label: Option<&str>| QueuedPath {
        active: true,
        volume_id: id.into(),
        volume: Some(VolumeState { online: false, label: label.map(String::from) }),
    };
    let queued = vec![
        offline("vol-1", Some("ShootDisk")),
        offline("vol-1", Some("ShootDisk")),
        offline("vol-9", None),
        QueuedPath { active: false, ..offline("vol-2", Some("Retired")) },
        QueuedPath { volume: None, ..offline("vol-3", Some("Unknown")) },
    ];
    let report = redact_report(&vec![Some("01A".to_string()), None], &queued, 0, 0);
    assert_eq!(report.sidecars_updated, 0, "nothing reachable to rewrite");
    assert_eq!(report.offline_pending, vec!["ShootDisk".to_owned(), "vol-9".to_owned()]);
    assert_eq!(report.redacted, vec!["01A".to_owned()]);
}

#[test]
fn metadata_view_maps_file_identity_paths_and_preview_state() {
    let best = BestPath {
        rel_path: "shoot/IMG_0001.jpg".into(),
        online: true,
        mount_point: Some("/media/shootdisk".into()),
    };
    let view = metadata_view(Some(best), None);
    assert_eq!(view.file_name, "IMG_0001.jpg");
    assert_eq!(view.rel_path, "shoot/IMG_0001.jpg");
    assert_eq!(view.abs_path.as_deref(), Some("/media/shootdisk/shoot/IMG_0001.jpg"));
    assert_eq!(view.preview_source, None);
    assert!(view.preview_pending, "no display artifact yet: the backfill is pending");

    let offline = BestPath { rel_path: "top.jpg".into(), online: false, mount_point: None };
    let artifact = PreviewArtifactState { source: "embedded".into(), needs_full_decode: false };
    let view = metadata_view(Some(offline), Some(artifact));
    assert_eq!(view.file_name, "top.jpg");
    assert_eq!(view.abs_path, None);
    assert_eq!(view.preview_source.as_deref(), Some("embedded"));
    assert!(!view.preview_pending);

    let unknown = metadata_view(None, Some(PreviewArtifactState { source: "raw".into(), needs_full_decode: true }));
    assert_eq!(unknown.file_name, "");
    assert_eq!(unknown.rel_path, "");
    assert!(unknown.preview_pending);
}
