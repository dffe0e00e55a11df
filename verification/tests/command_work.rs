use std::time::Duration;

use photoproof_desktop::command_work::{
    CommandAdmissionClosed, CommandClass, CommandShutdownReport, CommandWorkRegistry,
};

#[test]
fn shutdown_rejects_late_work_and_waits_for_an_admitted_command() {
    let mut registry = CommandWorkRegistry::default();
    let permit = registry
        .admit_command("library.add-root", CommandClass::Mutation, 10)
        .unwrap();
    assert_eq!(
        registry.shutdown(Duration::from_secs(1)),
        CommandShutdownReport { acknowledged: false, remaining: vec!["library.add-root"] }
    );
    assert_eq!(
        registry.admit_command("late", CommandClass::Mutation, 11).err(),
        Some(CommandAdmissionClosed)
    );
    registry.release(permit);
    assert_eq!(
        registry.shutdown_report(),
        CommandShutdownReport { acknowledged: true, remaining: Vec::new() }
    );
    assert_eq!(
        registry.admit_command("late", CommandClass::Read, 12).err(),
        Some(CommandAdmissionClosed)
    );
}

#[test]
fn timeout_names_unacknowledged_command_work() {
    let mut registry = CommandWorkRegistry::default();
    let _permit = registry
        .admit_command("collections.flush", CommandClass::Mutation, 0)
        .unwrap();
    assert_eq!(
        registry.shutdown(Duration::ZERO),
        CommandShutdownReport { acknowledged: false, remaining: vec!["collections.flush"] }
    );
}

#[test]
fn permits_carry_increasing_ids_and_snapshots_list_active_work_in_order() {
    let mut registry = CommandWorkRegistry::new();
    let a = registry.admit_command("a", CommandClass::Read, 5).unwrap();
    let b = registry.admit_command("b", CommandClass::Mutation, 6).unwrap();
    assert_eq!(a.id, 1);
    assert_eq!(b.id, 2);
    let snaps = registry.snapshots();
    assert_eq!(snaps.len(), 2);
    assert_eq!(snaps[0].name, "a");
    assert_eq!(snaps[0].started_at_ms, 5);
    assert_eq!(snaps[1].class, CommandClass::Mutation);
    assert!(!registry.is_idle());
    registry.release(a);
    let snaps = registry.snapshots();
    assert_eq!(snaps.len(), 1);
    assert_eq!(snaps[0].id, 2);
    registry.release(b);
    assert!(registry.is_idle());
}
