use photoproof_desktop::convergence::{
    snapshot_is_stable, snapshot_step, ApplicationStateRevisions, SnapshotStep, StateConvergence,
    StateDomain, SNAPSHOT_STABILITY_ATTEMPTS,
};
use photoproof_desktop::os::CmdError;

#[test]
fn revisions_are_process_monotone() {
    let mut clock = StateConvergence::default();
    assert_eq!(clock.snapshot().0, 0);
    clock.publish(Vec::new());
    assert_eq!(clock.snapshot().0, 1);
    clock.publish(Vec::new());
    assert_eq!(clock.snapshot().0, 2);
}

#[test]
fn publication_updates_only_named_domains_and_emits_the_same_revision() {
    let mut clock = StateConvergence::default();
    let event = clock.publish(vec![StateDomain::Settings, StateDomain::PreviewCache]);
    assert_eq!(event.revision, 1);
    assert_eq!(
        clock.snapshot(),
        (
            1,
            ApplicationStateRevisions {
                settings: 1,
                preview_cache: 1,
                ..ApplicationStateRevisions::default()
            },
        )
    );
    assert_eq!(event.domains, vec![StateDomain::Settings, StateDomain::PreviewCache]);

    let event = clock.publish(vec![StateDomain::Roots]);
    assert_eq!(event.revision, 2);
    assert_eq!(
        clock.snapshot().1,
        ApplicationStateRevisions {
            settings: 1,
            roots: 2,
            preview_cache: 1,
            ..ApplicationStateRevisions::default()
        }
    );
}

#[test]
fn catch_up_snapshots_retry_while_the_clock_moves_and_then_give_up() {
    let a = (3, ApplicationStateRevisions::default());
    let b = (4, ApplicationStateRevisions { roots: 4, ..ApplicationStateRevisions::default() });
    assert!(snapshot_is_stable(a, a));
    assert!(!snapshot_is_stable(a, b));
    assert!(matches!(snapshot_step(0, a, a), SnapshotStep::Accept));
    assert!(matches!(snapshot_step(0, a, b), SnapshotStep::Retry));
    match snapshot_step(SNAPSHOT_STABILITY_ATTEMPTS - 1, a, b) {
        SnapshotStep::GiveUp(CmdError::Unavailable(m)) => {
            assert_eq!(m, "application state is changing; retry the snapshot")
        }
        other => panic!("unexpected step {other:?}"),
    }
}
