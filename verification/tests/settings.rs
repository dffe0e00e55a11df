use photoproof_desktop::settings::{
    persist_then_publish_settings, AppSettings, NewRootPolicy, ProcessingIntensity, SettingsChange,
    StackDisplay,
};

#[test]
fn failed_settings_persistence_does_not_publish_candidate_in_memory() {
    let mut current = AppSettings::default();
    let before = current.clone();
    let error = persist_then_publish_settings(
        &mut current,
        SettingsChange::StackDisplay(StackDisplay::Raw),
        |_: &AppSettings| Err::<(), std::io::Error>(std::io::Error::other("disk full")),
    )
    .unwrap_err();

    assert_eq!(error.kind(), std::io::ErrorKind::Other);
    assert_eq!(current.stack_display, before.stack_display);
    assert_eq!(current.last_export_ts, before.last_export_ts);
    assert_eq!(current.processing_intensity, before.processing_intensity);
    assert_eq!(current.processing_paused, before.processing_paused);
    assert_eq!(current.new_root_policy, before.new_root_policy);
}

#[test]
fn successful_persistence_publishes_exactly_what_was_written() {
    let mut current = AppSettings::default();
    let mut written: Option<AppSettings> = None;
    let published = persist_then_publish_settings(
        &mut current,
        SettingsChange::ProcessingPolicy {
            intensity: ProcessingIntensity::High,
            paused: true,
            new_root_policy: NewRootPolicy::PreviewOnly,
            defer_text_embeddings: true,
            defer_image_embeddings: false,
        },
        |candidate: &AppSettings| {
            written = Some(candidate.clone());
            Ok::<(), String>(())
        },
    )
    .unwrap();
    assert_eq!(Some(published.clone()), written);
    assert_eq!(current, published);
    assert_eq!(current.processing_intensity, ProcessingIntensity::High);
    assert!(current.processing_paused);
    assert_eq!(current.new_root_policy, NewRootPolicy::PreviewOnly);
    assert!(current.defer_text_embeddings);
    assert!(!current.defer_image_embeddings);
    assert_eq!(current.stack_display, StackDisplay::Jpeg);
}

#[test]
fn blank_editor_clears_and_text_is_trimmed() {
    let mut current = AppSettings::default();
    persist_then_publish_settings(
        &mut current,
        SettingsChange::ExternalEditor("  /Applications/Editor.app \n".to_string()),
        |_: &AppSettings| Ok::<(), String>(()),
    )
    .unwrap();
    assert_eq!(current.external_editor.as_deref(), Some("/Applications/Editor.app"));
    persist_then_publish_settings(
        &mut current,
        SettingsChange::ExternalEditor(" \t ".to_string()),
        |_: &AppSettings| Ok::<(), String>(()),
    )
    .unwrap();
    assert_eq!(current.external_editor, None);
}

#[test]
fn last_export_is_recorded() {
    let mut current = AppSettings::default();
    persist_then_publish_settings(
        &mut current,
        SettingsChange::LastExport("2026-01-01T00:00:00.000Z".to_string()),
        |_: &AppSettings| Ok::<(), String>(()),
    )
    .unwrap();
    assert_eq!(current.last_export_ts.as_deref(), Some("2026-01-01T00:00:00.000Z"));
}
