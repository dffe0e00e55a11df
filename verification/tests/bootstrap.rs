use photoproof_desktop::bootstrap::{BootstrapState, BootstrapStatus};

#[test]
fn fatal_open_error_remains_queryable_without_an_app() {
    let mut state = BootstrapState::default();
    assert_eq!(state.snapshot().state, "opening");
    state.fatal("database is newer than this application", None);
    assert_eq!(
        state.snapshot(),
        BootstrapStatus {
            state: "fatal",
            error: Some("database is newer than this application".into()),
            recovery_action: None,
        }
    );
}

#[test]
fn fatal_identity_error_exposes_only_the_explicit_reset_action() {
    let mut state = BootstrapState::default();
    state.fatal(
        "device identity unavailable: both copies are corrupt",
        Some("reset-device-identity"),
    );
    assert_eq!(
        state.snapshot().recovery_action,
        Some("reset-device-identity")
    );
}

#[test]
fn ready_clears_a_fatal_outcome() {
    let mut state = BootstrapState::default();
    state.fatal("boom", Some("reset-device-identity"));
    assert!(state.relaunch_allowed());
    assert!(state.reset_device_identity_allowed());
    state.ready();
    assert_eq!(
        state.snapshot(),
        BootstrapStatus { state: "ready", error: None, recovery_action: None }
    );
    assert!(!state.relaunch_allowed());
    assert!(!state.reset_device_identity_allowed());
}

#[test]
fn other_fatal_classes_cannot_reset_identity() {
    let mut state = BootstrapState::default();
    assert!(!state.relaunch_allowed());
    state.fatal("migration failed", None);
    assert!(state.relaunch_allowed());
    assert!(!state.reset_device_identity_allowed());
}
