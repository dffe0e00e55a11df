use photoproof_desktop::dto::{AddRootOutcome, RootDto};
use photoproof_desktop::health::RootRecord;
use photoproof_desktop::os::CmdError;
use photoproof_desktop::roots::{
    initial_scan_wanted, recovery_outcome, root_abs_path, root_dto, watchable, AddRoot, AddRootAction, AddRootEvent, AddRootStage,
    RegisterOutcome, RootVolume,
};
use photoproof_desktop::settings::{
    persist_then_publish_settings, AppSettings, NewRootPolicy, SettingsChange,
};

fn record(rel: &str, state: &str) -> RootRecord {
    RootRecord {
        root_id: "r1".into(),
        display_name: None,
        rel_path: rel.into(),
        volume_id: "vol".into(),
        state: state.into(),
    }
}

#[test]
fn root_rows_carry_name_path_and_archive_state() {
    let online = Some(RootVolume { online: true, mount_point: Some("/mnt/vol/".into()) });
    let d = root_dto(&record("photos/2026", "active"), &online);
    assert_eq!(d.display_name, "2026");
    assert_eq!(d.abs_path.as_deref(), Some("/mnt/vol/photos/2026"));
    assert!(d.online);
    assert!(!d.archived);
    let top = root_dto(&record("", "archived"), &online);
    assert_eq!(top.display_name, "Volume root");
    assert_eq!(top.abs_path.as_deref(), Some("/mnt/vol/"));
    assert!(top.archived);
    let missing = root_dto(&record("photos", "active"), &None);
    assert!(!missing.online);
    assert_eq!(missing.abs_path, None);
    assert_eq!(root_abs_path(Some("/"), "a"), Some("/a".to_string()));
    assert_eq!(root_abs_path(None, "a"), None);
}

#[test]
fn only_process_later_skips_the_initial_scan() {
    assert!(initial_scan_wanted(NewRootPolicy::ProcessNow));
    assert!(initial_scan_wanted(NewRootPolicy::PreviewOnly));
    assert!(!initial_scan_wanted(NewRootPolicy::ProcessLater));
}

fn registered(flow: &mut AddRoot, default_policy: NewRootPolicy) -> Vec<AddRootAction> {
    flow.step(AddRootEvent::Registered {
        outcome: RegisterOutcome::Registered { root_id: "r9".into() },
        default_policy,
    })
}

#[test]
fn adding_a_root_persists_its_policy_scans_watches_and_describes_it() {
    let mut flow = AddRoot::begin(None);
    let actions = registered(&mut flow, NewRootPolicy::PreviewOnly);
    match actions.as_slice() {
        [AddRootAction::Persist(SettingsChange::RootPolicy { root_id, policy })] => {
            assert_eq!(root_id, "r9");
            assert_eq!(*policy, Some(NewRootPolicy::PreviewOnly));
        }
        other => panic!("unexpected {other:?}"),
    }
    let actions = flow.step(AddRootEvent::PolicyPersisted { failure: None });
    assert!(matches!(actions.as_slice(), [AddRootAction::StartScan { root_id }] if root_id == "r9"));
    let actions = flow.step(AddRootEvent::ScanStarted { failure: None });
    assert!(matches!(actions.as_slice(), [AddRootAction::StartWatcher { .. }]));
    let actions = flow.step(AddRootEvent::WatcherStarted);
    assert!(matches!(actions.as_slice(), [AddRootAction::Describe { .. }]));
    let dto = RootDto {
        root_id: "r9".into(),
        display_name: "x".into(),
        rel_path: "x".into(),
        volume_id: "v".into(),
        online: true,
        abs_path: None,
        archived: false,
    };
    let actions = flow.step(AddRootEvent::Described(Ok(Some(dto))));
    assert!(matches!(
        actions.as_slice(),
        [AddRootAction::Finish(Ok(AddRootOutcome::Added { root }))] if root.root_id == "r9"
    ));
    assert_eq!(flow.stage, AddRootStage::Done);
}

#[test]
fn an_overlapping_folder_navigates_to_the_existing_root() {
    let mut flow = AddRoot::begin(Some(NewRootPolicy::ProcessNow));
    let actions = flow.step(AddRootEvent::Registered {
        outcome: RegisterOutcome::Overlapping { existing_root_id: "r1".into() },
        default_policy: NewRootPolicy::ProcessNow,
    });
    assert!(matches!(
        actions.as_slice(),
        [AddRootAction::Finish(Ok(AddRootOutcome::Overlap { existing_root_id }))] if existing_root_id == "r1"
    ));
}

#[test]
fn process_later_registers_and_watches_without_starting_initial_walk() {
    let mut flow = AddRoot::begin(Some(NewRootPolicy::ProcessLater));
    registered(&mut flow, NewRootPolicy::ProcessNow);
    assert_eq!(flow.policy, NewRootPolicy::ProcessLater);
    let actions = flow.step(AddRootEvent::PolicyPersisted { failure: None });
    assert!(matches!(actions.as_slice(), [AddRootAction::StartWatcher { root_id }] if root_id == "r9"));
}

#[test]
fn a_failed_policy_write_removes_the_new_root() {
    let mut flow = AddRoot::begin(None);
    registered(&mut flow, NewRootPolicy::ProcessNow);
    let actions = flow.step(AddRootEvent::PolicyPersisted { failure: Some(CmdError::Io("disk full".into())) });
    match actions.as_slice() {
        [AddRootAction::RemoveRoot { root_id }, AddRootAction::Finish(Err(e))] => {
            assert_eq!(root_id, "r9");
            assert_eq!(*e, CmdError::Io("disk full".into()));
        }
        other => panic!("unexpected {other:?}"),
    }
}

#[test]
fn initial_scan_dispatch_failure_rolls_back_the_new_active_root() {
    let mut flow = AddRoot::begin(None);
    registered(&mut flow, NewRootPolicy::ProcessNow);
    flow.step(AddRootEvent::PolicyPersisted { failure: None });
    let actions = flow.step(AddRootEvent::ScanStarted { failure: Some("lane busy".into()) });
    assert!(matches!(actions.as_slice(), [AddRootAction::RollBack { root_id }] if root_id == "r9"));
    let actions = flow.step(AddRootEvent::RolledBack { failure: None });
    match actions.as_slice() {
        [AddRootAction::Finish(Err(CmdError::Unavailable(m)))] => {
            assert_eq!(m, "could not start initial folder scan: lane busy")
        }
        other => panic!("unexpected {other:?}"),
    }
}

#[test]
fn one_shot_preview_policy_is_persisted_without_changing_the_default() {
    let mut settings = AppSettings::default();
    persist_then_publish_settings(
        &mut settings,
        SettingsChange::RootPolicy { root_id: "r1".into(), policy: Some(NewRootPolicy::PreviewOnly) },
        |_: &AppSettings| Ok::<(), String>(()),
    )
    .unwrap();
    persist_then_publish_settings(
        &mut settings,
        SettingsChange::RootPolicy { root_id: "r2".into(), policy: Some(NewRootPolicy::ProcessLater) },
        |_: &AppSettings| Ok::<(), String>(()),
    )
    .unwrap();
    persist_then_publish_settings(
        &mut settings,
        SettingsChange::RootPolicy { root_id: "r1".into(), policy: Some(NewRootPolicy::ProcessNow) },
        |_: &AppSettings| Ok::<(), String>(()),
    )
    .unwrap();
    assert_eq!(settings.new_root_policy, NewRootPolicy::ProcessNow);
    assert_eq!(
        settings.root_processing_policies,
        vec![("r2".to_string(), NewRootPolicy::ProcessLater), ("r1".to_string(), NewRootPolicy::ProcessNow)]
    );
    persist_then_publish_settings(
        &mut settings,
        SettingsChange::RootPolicy { root_id: "r2".into(), policy: None },
        |_: &AppSettings| Ok::<(), String>(()),
    )
    .unwrap();
    assert_eq!(settings.root_processing_policies, vec![("r1".to_string(), NewRootPolicy::ProcessNow)]);
}

#[test]
fn only_active_roots_are_watched() {
    assert!(watchable("r1", Some(&record("a", "active"))).is_ok());
    assert_eq!(
        watchable("r1", Some(&record("a", "archived"))),
        Err(CmdError::Invalid("root r1 is archived; only active roots can be watched".into()))
    );
    assert_eq!(watchable("r7", None), Err(CmdError::Invalid("unknown root r7".into())));
}

#[test]
fn recovery_reports_every_failed_root() {
    assert_eq!(recovery_outcome(&Vec::new()), None);
    assert_eq!(
        recovery_outcome(&vec!["r1 watcher: gone".to_string(), "r2 scan: busy".to_string()]),
        Some(CmdError::Unavailable("folder recovery was incomplete: r1 watcher: gone; r2 scan: busy".into()))
    );
}
