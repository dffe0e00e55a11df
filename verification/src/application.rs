//! The application-health snapshot: one aggregation of the lifecycle, roots,
//! database, volumes, tasks, control files, disk, runtime and repair state,
//! with the actionable issue list projected from exactly those parts.
use vstd::prelude::*;
use crate::command_work::CommandWorkSnapshot;
use crate::disk::DiskHealthSnapshot;
use crate::doctor::RepairIntegritySnapshot;
use crate::dto::{IngestStatus, RuntimeStatus};
use crate::health::{
    command_work_statuses, copy_opt, database_status, device_identity_status, failed_root_inventory, listed_work, opt_str_view,
    opt_view, phase_name, phase_timings, root_status, root_status_is, runtime_model_build_tasks, schema_mismatch_text,
    shell_control_status, spec_phase_name, status_row, subsystem_status_is, subsystem_statuses, tuning_control_status,
    control_status_is, tuning_status_is, building, build_task_is, volume_status, BackgroundTaskStatus,
    CommandWorkStatus, ControlFileIssue, ControlFileRecovery, DatabaseStatus, DiagnosticsStatus, HealthIssue,
    PhaseTimingStatus, RootRecord, RootStatus, ShellControlFileStatus, SubsystemStatus, TuningControlError,
    TuningControlLoad, VolumeLookup, VolumeStatus,
};
use crate::issues::{application_issues, keys, spec_application_issues, IssueKey};
use crate::lifecycle::LifecycleSnapshot;

verus! {

/// A volume as the library inventory lists it.
#[derive(Debug, Clone)]
pub struct VolumeRecord {
    pub volume_id: String,
    pub label: Option<String>,
    pub online: bool,
    pub read_only: bool,
    pub fs_type: Option<String>,
    pub mount_point: Option<String>,
}

/// A root with the outcome of its volume lookup and whether its watcher runs.
#[derive(Debug, Clone)]
pub struct RootProbe {
    pub root: RootRecord,
    pub volume: VolumeLookup,
    pub watcher_active: bool,
}

/// Everything the snapshot is assembled from, as the authorities report it.
#[derive(Debug)]
pub struct HealthSources {
    pub observed_at_ms: u64,
    pub lifecycle: LifecycleSnapshot,
    /// The root inventory, or why it could not be read.
    pub roots: Result<Vec<RootProbe>, String>,
    /// (stored, expected) schema versions, or why they could not be read.
    pub schema: Result<(i64, i64), String>,
    /// The schema this build expects, for when the store cannot be asked.
    pub expected_schema_version: i64,
    pub volumes: Result<Vec<VolumeRecord>, String>,
    /// The managed background tasks.
    pub tasks: Vec<BackgroundTaskStatus>,
    pub settings_recovery: Result<ControlFileRecovery, ControlFileIssue>,
    pub device_identity_recovery: ControlFileRecovery,
    pub tuning_recovery: Result<TuningControlLoad, TuningControlError>,
    pub disk: DiskHealthSnapshot,
    pub diagnostics: DiagnosticsStatus,
    pub repair_integrity: RepairIntegritySnapshot,
    pub command_work: Vec<CommandWorkSnapshot>,
    pub ingest: IngestStatus,
    pub runtime: RuntimeStatus,
}

#[derive(Debug, Clone)]
pub struct ApplicationHealth {
    pub observed_at_ms: u64,
    pub phase: &'static str,
    /// One actionable projection for product UI; the detailed snapshots
    /// below remain diagnostic truth.
    pub issues: Vec<HealthIssue>,
    pub phase_timings: Vec<PhaseTimingStatus>,
    pub subsystems: Vec<SubsystemStatus>,
    pub database: DatabaseStatus,
    pub volumes: Vec<VolumeStatus>,
    pub volume_inventory_error: Option<String>,
    pub roots: Vec<RootStatus>,
    pub tasks: Vec<BackgroundTaskStatus>,
    pub command_work: Vec<CommandWorkStatus>,
    pub control_files: Vec<ShellControlFileStatus>,
    pub disk: DiskHealthSnapshot,
    pub diagnostics: DiagnosticsStatus,
    pub repair_integrity: RepairIntegritySnapshot,
    pub ingest: IngestStatus,
    pub runtime: RuntimeStatus,
}

pub open spec fn volume_row_is(r: VolumeStatus, v: VolumeRecord) -> bool {
    &&& r.label@ == (match v.label {
        Some(l) => if l@.len() > 0 { l@ } else { v.volume_id@ },
        None => v.volume_id@,
    })
    &&& r.volume_id == v.volume_id
    &&& r.online == v.online
    &&& r.read_only == v.read_only
    &&& r.fs_type == v.fs_type
    &&& r.mount_point == v.mount_point
}

/// The volume rows, or no rows and the inventory error.
pub open spec fn volumes_are(
    rows: Seq<VolumeStatus>,
    error: Option<String>,
    source: Result<Vec<VolumeRecord>, String>,
) -> bool {
    match source {
        Ok(v) => {
            &&& rows.len() == v@.len()
            &&& forall|i: int| 0 <= i < rows.len() ==> volume_row_is(#[trigger] rows[i], v@[i])
            &&& error is None
        },
        Err(e) => rows.len() == 0 && error == Some(e),
    }
}

/// One status per root, or a single unavailable row naming the failure.
pub open spec fn roots_are(rows: Seq<RootStatus>, source: Result<Vec<RootProbe>, String>) -> bool {
    match source {
        Ok(p) => {
            &&& rows.len() == p@.len()
            &&& forall|i: int| 0 <= i < rows.len() ==> root_status_is(
                #[trigger] rows[i],
                p@[i].root,
                p@[i].volume,
                p@[i].watcher_active,
            )
        },
        Err(e) => {
            let r = rows[0];
            &&& rows.len() == 1
            &&& r.root_id@.len() == 0
            &&& r.display_name@ == "Library roots"@
            &&& r.volume_id@.len() == 0
            &&& !r.online
            &&& !r.watcher_active
            &&& r.lifecycle_state@ == "unknown"@
            &&& r.state@ == "unavailable"@
            &&& opt_view(r.summary) == Some("root inventory failed: "@ + e@)
            &&& opt_str_view(r.action) == Some("retry-roots"@)
        },
    }
}

/// The managed tasks followed by the model builds in flight.
pub open spec fn tasks_are(rows: Seq<BackgroundTaskStatus>, managed: Seq<BackgroundTaskStatus>, runtime: RuntimeStatus, t: u64) -> bool {
    let builds = rows.subrange(managed.len() as int, rows.len() as int);
    &&& managed.len() <= rows.len()
    &&& rows.subrange(0, managed.len() as int) == managed
    &&& builds.len() == (if building(runtime.clip.state) { 1int } else { 0 }) + (if building(runtime.text_embedder.state) { 1int } else { 0 })
    &&& building(runtime.clip.state) ==> build_task_is(builds[0], "clip"@, runtime.clip.model_id, t)
    &&& building(runtime.text_embedder.state) ==> build_task_is(builds[builds.len() - 1], "text-embedder"@, runtime.text_embedder.model_id, t)
}

/// The database status from the schema query.
pub open spec fn database_is(r: DatabaseStatus, schema: Result<(i64, i64), String>, expected_when_unreadable: i64) -> bool {
    match schema {
        Ok((actual, expected)) => {
            &&& r.state@ == (if actual == expected { "healthy"@ } else { "unavailable"@ })
            &&& r.schema_version == Some(actual)
            &&& r.expected_schema_version == expected
            &&& opt_view(r.error) == (if actual == expected { None } else { Some(schema_mismatch_text(actual, expected)) })
        },
        Err(e) => {
            &&& r.state@ == "unavailable"@
            &&& r.schema_version is None
            &&& r.expected_schema_version == expected_when_unreadable
            &&& r.error == Some(e)
        },
    }
}

/// The issue list projected from the snapshot's own parts.
pub open spec fn issues_of(h: ApplicationHealth) -> Seq<IssueKey> {
    spec_application_issues(
        h.observed_at_ms,
        h.database,
        opt_view(h.volume_inventory_error),
        h.subsystems@,
        h.roots@,
        h.tasks@,
        h.control_files@,
        h.disk,
        h.runtime,
        h.diagnostics,
        h.repair_integrity,
    )
}

fn volume_rows(volumes: Vec<VolumeRecord>) -> (r: Vec<VolumeStatus>)
    ensures
        r@.len() == volumes@.len(),
        forall|i: int| 0 <= i < r@.len() ==> volume_row_is(#[trigger] r@[i], volumes@[i]),
{
    let mut r: Vec<VolumeStatus> = Vec::new();
    let n = volumes.len();
    for i in 0..n
        invariant
            n == volumes@.len(),
            r@.len() == i,
            forall|j: int| 0 <= j < i ==> volume_row_is(#[trigger] r@[j], volumes@[j]),
    {
        let v = &volumes[i];
        r.push(volume_status(
            v.volume_id.clone(),
            copy_opt(&v.label),
            v.online,
            v.read_only,
            copy_opt(&v.fs_type),
            copy_opt(&v.mount_point),
        ));
    }
    r
}


fn root_rows(probes: &Vec<RootProbe>) -> (r: Vec<RootStatus>)
    ensures
        r@.len() == probes@.len(),
        forall|i: int| 0 <= i < r@.len() ==> root_status_is(
            #[trigger] r@[i],
            probes@[i].root,
            probes@[i].volume,
            probes@[i].watcher_active,
        ),
{
    let mut r: Vec<RootStatus> = Vec::new();
    let n = probes.len();
    for i in 0..n
        invariant
            n == probes@.len(),
            r@.len() == i,
            forall|j: int| 0 <= j < i ==> root_status_is(
                #[trigger] r@[j],
                probes@[j].root,
                probes@[j].volume,
                probes@[j].watcher_active,
            ),
    {
        let p = &probes[i];
        r.push(root_status(&p.root, &p.volume, p.watcher_active));
    }
    r
}

/// Assembles the snapshot: each part from its source, the managed tasks
/// followed by the model builds in flight, the three shell control files in
/// a fixed order, the command work other than this query, and the issue list
/// projected from exactly the parts the snapshot reports.
pub fn build_application_health(src: HealthSources) -> (h: ApplicationHealth)
    ensures
        h.observed_at_ms == src.observed_at_ms,
        h.phase@ == spec_phase_name(src.lifecycle.phase),
        h.phase_timings@.len() == src.lifecycle.phase_history@.len(),
        forall|i: int| 0 <= i < h.phase_timings@.len() ==> {
            &&& (#[trigger] h.phase_timings@[i]).phase@ == spec_phase_name(src.lifecycle.phase_history@[i].phase)
            &&& h.phase_timings@[i].entered_at_ms == src.lifecycle.phase_history@[i].entered_at_ms
            &&& h.phase_timings@[i].elapsed_ms == src.lifecycle.phase_history@[i].elapsed_ms
        },
        h.subsystems@.len() == src.lifecycle.health@.len(),
        forall|i: int| 0 <= i < h.subsystems@.len() ==> subsystem_status_is(
            #[trigger] h.subsystems@[i],
            src.lifecycle.phase,
            src.lifecycle.health@[i].0,
            src.lifecycle.health@[i].1,
        ),
        database_is(h.database, src.schema, src.expected_schema_version),
        volumes_are(h.volumes@, h.volume_inventory_error, src.volumes),
        roots_are(h.roots@, src.roots),
        tasks_are(h.tasks@, src.tasks@, src.runtime, src.observed_at_ms),
        h.command_work@.map_values(|s: CommandWorkStatus| status_row(s)) == listed_work(src.command_work@),
        h.control_files@.len() == 3,
        control_status_is(h.control_files@[0], "settings", src.settings_recovery, "restore-controls"@),
        control_status_is(h.control_files@[1], "device-identity", Ok(src.device_identity_recovery), "reveal-logs"@),
        tuning_status_is(h.control_files@[2], src.tuning_recovery),
        h.disk == src.disk,
        h.diagnostics == src.diagnostics,
        h.repair_integrity == src.repair_integrity,
        h.ingest == src.ingest,
        h.runtime == src.runtime,
        keys(h.issues@) == issues_of(h),
{
    let t = src.observed_at_ms;
    let lifecycle = src.lifecycle;
    let roots: Vec<RootStatus> = match &src.roots {
        Ok(probes) => root_rows(probes),
        Err(e) => {
            let mut one: Vec<RootStatus> = Vec::new();
            one.push(failed_root_inventory(e.as_str()));
            one
        },
    };
    let database = database_status(src.schema, src.expected_schema_version);
    let (volumes, volume_inventory_error) = match src.volumes {
        Ok(v) => (volume_rows(v), None),
        Err(e) => (Vec::new(), Some(e)),
    };
    let subsystems = subsystem_statuses(&lifecycle);
    let runtime = src.runtime;
    let mut tasks = src.tasks;
    let ghost managed = tasks@;
    let mut builds = runtime_model_build_tasks(&runtime, t);
    let ghost b = builds@;
    tasks.append(&mut builds);
    proof {
        assert(tasks@.subrange(0, managed.len() as int) =~= managed);
        assert(tasks@.subrange(managed.len() as int, tasks@.len() as int) =~= b);
    }
    let mut control_files: Vec<ShellControlFileStatus> = Vec::new();
    control_files.push(shell_control_status("settings", &src.settings_recovery));
    control_files.push(device_identity_status(&src.device_identity_recovery));
    control_files.push(tuning_control_status(&src.tuning_recovery));
    let disk = src.disk;
    let diagnostics = src.diagnostics;
    let repair_integrity = src.repair_integrity;
    let volume_error_text: Option<&str> = match &volume_inventory_error {
        Some(e) => Some(e.as_str()),
        None => None,
    };
    let issues = application_issues(
        t,
        &database,
        volume_error_text,
        &subsystems,
        &roots,
        &tasks,
        &control_files,
        &disk,
        &runtime,
        &diagnostics,
        &repair_integrity,
    );
    let timings = phase_timings(&lifecycle);
    let command_work = command_work_statuses(&src.command_work);
    ApplicationHealth {
        observed_at_ms: t,
        phase: phase_name(lifecycle.phase),
        issues,
        phase_timings: timings,
        subsystems,
        database,
        volumes,
        volume_inventory_error,
        roots,
        tasks,
        command_work,
        control_files,
        disk,
        diagnostics,
        repair_integrity,
        ingest: src.ingest,
        runtime,
    }
}

} // verus!
