//! Application-health projections: the per-subsystem, per-root, per-task and
//! per-control-file statuses the health snapshot carries, computed from the
//! authorities that own each piece of state.
use vstd::prelude::*;
use crate::command_work::{CommandClass, CommandWorkSnapshot};
use crate::dto::{EmbedderState, RuntimeStatus};
use crate::lifecycle::{LifecyclePhase, LifecycleSnapshot, Subsystem, SubsystemHealth};
use crate::text::{concat2, concat3, i64_text, signed_decimal, str_eq};

verus! {

#[derive(Debug, Clone, PartialEq, Eq)]
pub struct DatabaseStatus {
    pub state: &'static str,
    pub schema_version: Option<i64>,
    pub expected_schema_version: i64,
    pub error: Option<String>,
}

#[derive(Debug, Clone)]
pub struct VolumeStatus {
    pub volume_id: String,
    pub label: String,
    pub online: bool,
    pub read_only: bool,
    pub fs_type: Option<String>,
    pub mount_point: Option<String>,
}

#[derive(Debug, Clone)]
pub struct HealthIssue {
    pub id: String,
    pub subsystem: &'static str,
    pub title: String,
    /// Blocking means recovery needs intervention; degraded means the shell
    /// remains usable but a capability or derived artifact is hurt.
    pub blocking: bool,
    pub summary: String,
    pub last_error: Option<String>,
    pub last_error_at_ms: Option<u64>,
    pub action: HealthAction,
}

#[derive(Debug, Clone)]
pub struct HealthAction {
    /// Closed vocabulary interpreted by Settings.
    pub kind: &'static str,
    pub label: &'static str,
    pub target_id: Option<String>,
}

#[derive(Debug, Clone, Copy)]
pub struct PhaseTimingStatus {
    pub phase: &'static str,
    pub entered_at_ms: u64,
    pub elapsed_ms: u64,
}

#[derive(Debug, Clone)]
pub struct SubsystemStatus {
    pub name: &'static str,
    pub state: &'static str,
    pub blocking: bool,
    pub summary: Option<String>,
    pub action: Option<&'static str>,
}

#[derive(Debug, Clone)]
pub struct RootStatus {
    pub root_id: String,
    pub display_name: String,
    pub volume_id: String,
    pub online: bool,
    pub watcher_active: bool,
    pub lifecycle_state: String,
    pub state: &'static str,
    pub summary: Option<String>,
    pub action: Option<&'static str>,
}

/// A managed background task as health reports it. Its progress fraction
/// travels beside it in the shell's copy.
#[derive(Debug, Clone)]
pub struct BackgroundTaskStatus {
    pub owner: String,
    pub key: String,
    pub priority: &'static str,
    pub state: &'static str,
    pub started_at_ms: u64,
    pub ended_at_ms: Option<u64>,
    pub progress_message: Option<String>,
    pub last_error: Option<String>,
}

#[derive(Debug, Clone, Copy)]
pub struct CommandWorkStatus {
    pub id: u64,
    pub name: &'static str,
    pub class: &'static str,
    pub started_at_ms: u64,
}

#[derive(Debug, Clone)]
pub struct DiagnosticsStatus {
    pub build_version: &'static str,
    pub previous_unclean_launch: bool,
    pub logs_dir: Option<String>,
    pub current_log: Option<String>,
    pub error: Option<String>,
}

#[derive(Debug, Clone)]
pub struct ShellControlFileStatus {
    pub name: &'static str,
    pub state: &'static str,
    pub source: Option<&'static str>,
    pub quarantined: Vec<String>,
    pub warnings: Vec<String>,
    pub error: Option<String>,
    pub action: Option<&'static str>,
}

/// Where a shell control file's loaded value came from.
#[derive(Debug, Clone, Copy, PartialEq, Eq, Structural)]
pub enum ControlFileSource {
    Primary,
    LastKnownGood,
    MissingDefault,
    Created,
}

/// How a shell control file was recovered when it was loaded.
#[derive(Debug, Clone)]
pub struct ControlFileRecovery {
    pub source: ControlFileSource,
    pub quarantined: Vec<String>,
    pub warnings: Vec<String>,
}

/// A shell control file that could not be loaded at all.
#[derive(Debug, Clone)]
pub struct ControlFileIssue {
    pub message: String,
    pub quarantined_path: Option<String>,
}

/// Where the tuning file's loaded value came from.
#[derive(Debug, Clone, Copy, PartialEq, Eq, Structural)]
pub enum TuningSource {
    Primary,
    LastKnownGood,
    Missing,
}

#[derive(Debug, Clone)]
pub struct TuningRecovery {
    pub source: TuningSource,
    pub quarantined: Vec<String>,
    pub warnings: Vec<String>,
}

/// A loaded tuning file: its recovery and the keys validation rejected.
#[derive(Debug, Clone)]
pub struct TuningControlLoad {
    pub recovery: TuningRecovery,
    pub validation_warnings: Vec<String>,
}

/// A tuning file that could not be loaded at all.
#[derive(Debug, Clone)]
pub struct TuningControlError {
    pub message: String,
    pub quarantined_path: Option<String>,
}

pub open spec fn opt_view(o: Option<String>) -> Option<Seq<char>> {
    match o {
        Some(s) => Some(s@),
        None => None,
    }
}

pub open spec fn opt_str_view(o: Option<&'static str>) -> Option<Seq<char>> {
    match o {
        Some(s) => Some(s@),
        None => None,
    }
}

pub fn copy_opt(o: &Option<String>) -> (r: Option<String>)
    ensures
        r == *o,
{
    match o {
        Some(s) => Some(s.clone()),
        None => None,
    }
}

pub fn copy_strings(v: &Vec<String>) -> (r: Vec<String>)
    ensures
        r@ == v@,
{
    let mut r: Vec<String> = Vec::new();
    let n = v.len();
    for i in 0..n
        invariant
            n == v@.len(),
            r@ == v@.subrange(0, i as int),
    {
        r.push(v[i].clone());
        proof {
            assert(r@ =~= v@.subrange(0, i + 1));
        }
    }
    proof {
        assert(r@ =~= v@);
    }
    r
}

// ---------------------------------------------------------------------------
// Names
// ---------------------------------------------------------------------------

pub open spec fn spec_phase_name(phase: LifecyclePhase) -> Seq<char> {
    match phase {
        LifecyclePhase::Cold => "cold"@,
        LifecyclePhase::OpeningData => "opening-data"@,
        LifecyclePhase::Usable => "usable"@,
        LifecyclePhase::Reconciling => "reconciling"@,
        LifecyclePhase::Ready => "ready"@,
        LifecyclePhase::Stopping => "stopping"@,
    }
}

pub fn phase_name(phase: LifecyclePhase) -> (r: &'static str)
    ensures
        r@ == spec_phase_name(phase),
{
    match phase {
        LifecyclePhase::Cold => "cold",
        LifecyclePhase::OpeningData => "opening-data",
        LifecyclePhase::Usable => "usable",
        LifecyclePhase::Reconciling => "reconciling",
        LifecyclePhase::Ready => "ready",
        LifecyclePhase::Stopping => "stopping",
    }
}

pub open spec fn spec_subsystem_name(s: Subsystem) -> Seq<char> {
    match s {
        Subsystem::Storage => "storage"@,
        Subsystem::Settings => "settings"@,
        Subsystem::Roots => "roots"@,
        Subsystem::Watchers => "watchers"@,
        Subsystem::Ingest => "ingest"@,
        Subsystem::Maintenance => "maintenance"@,
        Subsystem::Previews => "previews"@,
        Subsystem::Vectors => "vectors"@,
        Subsystem::Runtime => "runtime"@,
        Subsystem::Capture => "capture"@,
    }
}

pub fn subsystem_name(s: Subsystem) -> (r: &'static str)
    ensures
        r@ == spec_subsystem_name(s),
{
    match s {
        Subsystem::Storage => "storage",
        Subsystem::Settings => "settings",
        Subsystem::Roots => "roots",
        Subsystem::Watchers => "watchers",
        Subsystem::Ingest => "ingest",
        Subsystem::Maintenance => "maintenance",
        Subsystem::Previews => "previews",
        Subsystem::Vectors => "vectors",
        Subsystem::Runtime => "runtime",
        Subsystem::Capture => "capture",
    }
}

/// The recovery a non-healthy subsystem offers; a healthy one offers none.
pub open spec fn spec_recovery_action(s: Subsystem, h: SubsystemHealth) -> Option<Seq<char>> {
    if h is Healthy {
        None
    } else {
        Some(
            match s {
                Subsystem::Roots | Subsystem::Watchers | Subsystem::Ingest => "retry-roots"@,
                Subsystem::Previews => "rebuild-previews"@,
                Subsystem::Runtime => "retry-runtime"@,
                _ => "reveal-logs"@,
            },
        )
    }
}

pub fn recovery_action(s: Subsystem, h: &SubsystemHealth) -> (r: Option<&'static str>)
    ensures
        opt_str_view(r) == spec_recovery_action(s, *h),
{
    if let SubsystemHealth::Healthy = h {
        return None;
    }
    Some(
        match s {
            Subsystem::Storage => "reveal-logs",
            Subsystem::Settings => "reveal-logs",
            Subsystem::Roots | Subsystem::Watchers => "retry-roots",
            Subsystem::Ingest => "retry-roots",
            Subsystem::Maintenance => "reveal-logs",
            Subsystem::Previews => "rebuild-previews",
            Subsystem::Vectors => "reveal-logs",
            Subsystem::Runtime => "retry-runtime",
            Subsystem::Capture => "reveal-logs",
        },
    )
}

// ---------------------------------------------------------------------------
// Subsystems
// ---------------------------------------------------------------------------

pub open spec fn health_state(h: SubsystemHealth) -> Seq<char> {
    match h {
        SubsystemHealth::Unknown => "unknown"@,
        SubsystemHealth::Healthy => "healthy"@,
        SubsystemHealth::Degraded { .. } => "degraded"@,
        SubsystemHealth::Unavailable { .. } => "unavailable"@,
    }
}

pub open spec fn health_summary(h: SubsystemHealth) -> Option<Seq<char>> {
    match h {
        SubsystemHealth::Degraded { summary } => Some(summary@),
        SubsystemHealth::Unavailable { summary } => Some(summary@),
        _ => None,
    }
}

/// A subsystem blocks only when storage or settings are unavailable while
/// the application is opening its data.
pub open spec fn spec_subsystem_blocking(phase: LifecyclePhase, s: Subsystem, h: SubsystemHealth) -> bool {
    phase == LifecyclePhase::OpeningData && (s == Subsystem::Storage || s == Subsystem::Settings)
        && h is Unavailable
}

pub open spec fn subsystem_status_is(
    r: SubsystemStatus,
    phase: LifecyclePhase,
    s: Subsystem,
    h: SubsystemHealth,
) -> bool {
    &&& r.name@ == spec_subsystem_name(s)
    &&& r.state@ == health_state(h)
    &&& r.blocking == spec_subsystem_blocking(phase, s, h)
    &&& opt_view(r.summary) == health_summary(h)
    &&& opt_str_view(r.action) == spec_recovery_action(s, h)
}

pub fn subsystem_status(phase: LifecyclePhase, s: Subsystem, h: &SubsystemHealth) -> (r: SubsystemStatus)
    ensures
        subsystem_status_is(r, phase, s, *h),
{
    let (state, summary): (&'static str, Option<String>) = match h {
        SubsystemHealth::Unknown => ("unknown", None),
        SubsystemHealth::Healthy => ("healthy", None),
        SubsystemHealth::Degraded { summary } => ("degraded", Some(summary.clone())),
        SubsystemHealth::Unavailable { summary } => ("unavailable", Some(summary.clone())),
    };
    let unavailable = match h {
        SubsystemHealth::Unavailable { .. } => true,
        _ => false,
    };
    let blocking = phase == LifecyclePhase::OpeningData && (s == Subsystem::Storage || s
        == Subsystem::Settings) && unavailable;
    SubsystemStatus {
        name: subsystem_name(s),
        state,
        blocking,
        summary,
        action: recovery_action(s, h),
    }
}

/// One status per subsystem, in the snapshot's order.
pub fn subsystem_statuses(snapshot: &LifecycleSnapshot) -> (r: Vec<SubsystemStatus>)
    ensures
        r@.len() == snapshot.health@.len(),
        forall|i: int| 0 <= i < r@.len() ==> subsystem_status_is(
            #[trigger] r@[i],
            snapshot.phase,
            snapshot.health@[i].0,
            snapshot.health@[i].1,
        ),
{
    let mut r: Vec<SubsystemStatus> = Vec::new();
    let n = snapshot.health.len();
    for i in 0..n
        invariant
            n == snapshot.health@.len(),
            r@.len() == i,
            forall|j: int| 0 <= j < i ==> subsystem_status_is(
                #[trigger] r@[j],
                snapshot.phase,
                snapshot.health@[j].0,
                snapshot.health@[j].1,
            ),
    {
        let entry = &snapshot.health[i];
        r.push(subsystem_status(snapshot.phase, entry.0, &entry.1));
    }
    r
}

/// The phase history with each phase named.
pub fn phase_timings(snapshot: &LifecycleSnapshot) -> (r: Vec<PhaseTimingStatus>)
    ensures
        r@.len() == snapshot.phase_history@.len(),
        forall|i: int| 0 <= i < r@.len() ==> {
            &&& (#[trigger] r@[i]).phase@ == spec_phase_name(snapshot.phase_history@[i].phase)
            &&& r@[i].entered_at_ms == snapshot.phase_history@[i].entered_at_ms
            &&& r@[i].elapsed_ms == snapshot.phase_history@[i].elapsed_ms
        },
{
    let mut r: Vec<PhaseTimingStatus> = Vec::new();
    let n = snapshot.phase_history.len();
    for i in 0..n
        invariant
            n == snapshot.phase_history@.len(),
            r@.len() == i,
            forall|j: int| 0 <= j < i ==> {
                &&& (#[trigger] r@[j]).phase@ == spec_phase_name(snapshot.phase_history@[j].phase)
                &&& r@[j].entered_at_ms == snapshot.phase_history@[j].entered_at_ms
                &&& r@[j].elapsed_ms == snapshot.phase_history@[j].elapsed_ms
            },
    {
        let t = snapshot.phase_history[i];
        r.push(PhaseTimingStatus { phase: phase_name(t.phase), entered_at_ms: t.entered_at_ms, elapsed_ms: t.elapsed_ms });
    }
    r
}

// ---------------------------------------------------------------------------
// Command work, database, roots, tasks
// ---------------------------------------------------------------------------

pub open spec fn class_name(c: CommandClass) -> Seq<char> {
    match c {
        CommandClass::Read => "read"@,
        CommandClass::Mutation => "mutation"@,
    }
}

/// A work row as plain values: id, name, class name, start time.
pub open spec fn work_row(w: CommandWorkSnapshot) -> (u64, Seq<char>, Seq<char>, u64) {
    (w.id, w.name@, class_name(w.class), w.started_at_ms)
}

pub open spec fn status_row(s: CommandWorkStatus) -> (u64, Seq<char>, Seq<char>, u64) {
    (s.id, s.name@, s.class@, s.started_at_ms)
}

pub fn command_work_status(work: CommandWorkSnapshot) -> (r: CommandWorkStatus)
    ensures
        status_row(r) == work_row(work),
        r.name == work.name,
{
    CommandWorkStatus {
        id: work.id,
        name: work.name,
        class: match work.class {
            CommandClass::Read => "read",
            CommandClass::Mutation => "mutation",
        },
        started_at_ms: work.started_at_ms,
    }
}

/// The rows of the outstanding work other than the health query itself, in order.
pub open spec fn listed_work(work: Seq<CommandWorkSnapshot>) -> Seq<(u64, Seq<char>, Seq<char>, u64)>
    decreases work.len(),
{
    if work.len() == 0 {
        seq![]
    } else {
        let p = listed_work(work.drop_last());
        if work.last().name@ != "health.application"@ { p.push(work_row(work.last())) } else { p }
    }
}

/// The command work health lists: everything outstanding except the health
/// query itself.
pub fn command_work_statuses(work: &Vec<CommandWorkSnapshot>) -> (r: Vec<CommandWorkStatus>)
    ensures
        r@.map_values(|s: CommandWorkStatus| status_row(s)) == listed_work(work@),
{
    let mut r: Vec<CommandWorkStatus> = Vec::new();
    let n = work.len();
    for i in 0..n
        invariant
            n == work@.len(),
            r@.map_values(|s: CommandWorkStatus| status_row(s)) == listed_work(work@.subrange(0, i as int)),
    {
        proof {
            assert(work@.subrange(0, i + 1).drop_last() =~= work@.subrange(0, i as int));
        }
        if !str_eq(work[i].name, "health.application") {
            let ghost before = r@;
            let st = command_work_status(work[i]);
            r.push(st);
            proof {
                assert(r@.map_values(|s: CommandWorkStatus| status_row(s)) =~= before.map_values(
                    |s: CommandWorkStatus| status_row(s),
                ).push(status_row(st)));
            }
        }
    }
    proof {
        assert(work@.subrange(0, n as int) =~= work@);
    }
    r
}

pub open spec fn schema_mismatch_text(actual: i64, expected: i64) -> Seq<char> {
    "database schema is "@ + signed_decimal(actual as int) + ", expected "@ + signed_decimal(
        expected as int,
    )
}

/// The database status from the schema query: healthy exactly when the
/// stored schema is the expected one; a failed query is unavailable.
pub fn database_status(schema: Result<(i64, i64), String>, expected_when_unreadable: i64) -> (r: DatabaseStatus)
    ensures
        match schema {
            Ok((actual, expected)) => {
                &&& r.state@ == (if actual == expected { "healthy"@ } else { "unavailable"@ })
                &&& r.schema_version == Some(actual)
                &&& r.expected_schema_version == expected
                &&& opt_view(r.error) == (if actual == expected { None } else { Some(schema_mismatch_text(actual, expected)) })
            },
            Err(e) => {
                &&& r.state@ == "unavailable"@
                &&& r.schema_version is None
                &&& r.expected_schema_version == expected_when_unreadable
                &&& r.error == Some(e)
            },
        },
{
    match schema {
        Ok((actual, expected)) => {
            let error = if actual != expected {
                let a = i64_text(actual);
                let e = i64_text(expected);
                let head = concat3("database schema is ", a.as_str(), ", expected ");
                Some(concat2(head.as_str(), e.as_str()))
            } else {
                None
            };
            DatabaseStatus {
                state: if actual == expected { "healthy" } else { "unavailable" },
                schema_version: Some(actual),
                expected_schema_version: expected,
                error,
            }
        },
        Err(e) => DatabaseStatus {
            state: "unavailable",
            schema_version: None,
            expected_schema_version: expected_when_unreadable,
            error: Some(e),
        },
    }
}

/// The last `/`-separated component of a path (the whole path when it has
/// no separator).
pub open spec fn last_component(p: Seq<char>) -> Seq<char>
    decreases p.len(),
{
    if p.len() == 0 {
        p
    } else if p.last() == '/' {
        seq![]
    } else {
        last_component(p.drop_last()).push(p.last())
    }
}

/// How a root's volume lookup came out.
#[derive(Debug, Clone)]
pub enum VolumeLookup {
    Online,
    Offline,
    Missing,
    Failed(String),
}

/// A root as the library inventory lists it.
#[derive(Debug, Clone)]
pub struct RootRecord {
    pub root_id: String,
    pub display_name: Option<String>,
    pub rel_path: String,
    pub volume_id: String,
    /// "active" or "archived".
    pub state: String,
}

pub open spec fn spec_root_display_name(root: RootRecord) -> Seq<char> {
    match root.display_name {
        Some(n) => n@,
        None => if last_component(root.rel_path@).len() > 0 {
            last_component(root.rel_path@)
        } else {
            "Volume root"@
        },
    }
}

pub open spec fn spec_root_state(active: bool, online: bool, watcher_active: bool) -> Seq<char> {
    if !active {
        "archived"@
    } else if !online {
        "unavailable"@
    } else if !watcher_active {
        "degraded"@
    } else {
        "healthy"@
    }
}

pub open spec fn lookup_summary(v: VolumeLookup) -> Option<Seq<char>> {
    match v {
        VolumeLookup::Online => None,
        VolumeLookup::Offline => Some("volume is offline"@),
        VolumeLookup::Missing => Some("volume record is missing"@),
        VolumeLookup::Failed(e) => Some("volume lookup failed: "@ + e@),
    }
}

pub open spec fn root_status_is(r: RootStatus, root: RootRecord, volume: VolumeLookup, watcher_active: bool) -> bool {
    let online = volume is Online;
    let state = spec_root_state(root.state@ == "active"@, online, watcher_active);
    &&& r.root_id == root.root_id
    &&& r.display_name@ == spec_root_display_name(root)
    &&& r.volume_id == root.volume_id
    &&& r.online == online
    &&& r.watcher_active == watcher_active
    &&& r.lifecycle_state == root.state
    &&& r.state@ == state
    &&& opt_view(r.summary) == (match lookup_summary(volume) {
        Some(s) => Some(s),
        None => if !watcher_active { Some("filesystem watcher is not active"@) } else { None },
    })
    &&& opt_str_view(r.action) == (if state == "healthy"@ || state == "archived"@ {
        None
    } else {
        Some("retry-root"@)
    })
}

fn last_component_text(p: &str) -> (r: String)
    ensures
        r@ == last_component(p@),
{
    let n = p.unicode_len();
    let mut start: usize = n;
    proof {
        assert(p@.subrange(0, n as int) =~= p@);
        assert(p@.subrange(n as int, n as int) =~= seq![]);
        assert(p@ + seq![] =~= p@);
    }
    while start > 0 && p.get_char(start - 1) != '/'
        invariant
            n == p@.len(),
            start <= n,
            last_component(p@) == last_component(p@.subrange(0, start as int)) + p@.subrange(start as int, n as int),
        decreases start,
    {
        proof {
            let pre = p@.subrange(0, start as int);
            assert(pre.drop_last() =~= p@.subrange(0, start - 1));
            assert(last_component(pre.drop_last()).push(pre.last()) + p@.subrange(start as int, n as int)
                =~= last_component(p@.subrange(0, start - 1)) + p@.subrange(start - 1, n as int));
        }
        start -= 1;
    }
    proof {
        assert(last_component(p@.subrange(0, start as int)) =~= seq![]);
    }
    String::from_str(p.substring_char(start, n))
}

/// The name a root is shown with: its own, else the last component of its
/// path, else "Volume root" for a root at the top of its volume.
pub fn root_display_name(root: &RootRecord) -> (r: String)
    ensures
        r@ == spec_root_display_name(*root),
{
    match &root.display_name {
        Some(n) => n.clone(),
        None => {
            let last = last_component_text(root.rel_path.as_str());
            if last.as_str().unicode_len() > 0 {
                last
            } else {
                String::from_str("Volume root")
            }
        },
    }
}

/// A root's health row: archived roots stay listed and never unhealthy; an
/// active root is unavailable off its volume, degraded without its watcher.
pub fn root_status(root: &RootRecord, volume: &VolumeLookup, watcher_active: bool) -> (r: RootStatus)
    ensures
        root_status_is(r, *root, *volume, watcher_active),
{
    let display_name = root_display_name(root);
    let (online, summary): (bool, Option<String>) = match volume {
        VolumeLookup::Online => (true, None),
        VolumeLookup::Offline => (false, Some(String::from_str("volume is offline"))),
        VolumeLookup::Missing => (false, Some(String::from_str("volume record is missing"))),
        VolumeLookup::Failed(e) => (false, Some(concat2("volume lookup failed: ", e.as_str()))),
    };
    let active = str_eq(root.state.as_str(), "active");
    let state: &'static str = if !active {
        "archived"
    } else if !online {
        "unavailable"
    } else if !watcher_active {
        "degraded"
    } else {
        "healthy"
    };
    let summary = match summary {
        Some(s) => Some(s),
        None => if !watcher_active {
            Some(String::from_str("filesystem watcher is not active"))
        } else {
            None
        },
    };
    proof {
        reveal_strlit("healthy");
        reveal_strlit("archived");
        reveal_strlit("unavailable");
        reveal_strlit("degraded");
    }
    let quiet = !active || (online && watcher_active);
    proof {
        assert(active == (root.state@ == "active"@));
        assert(display_name@ == spec_root_display_name(*root));
        assert(state@ == spec_root_state(active, online, watcher_active));
        assert("unavailable"@.len() != "healthy"@.len() && "unavailable"@.len() != "archived"@.len());
        assert("degraded"@.len() != "healthy"@.len());
        assert("degraded"@[0] != "archived"@[0]);
        assert(quiet == (state@ == "healthy"@ || state@ == "archived"@));
    }
    RootStatus {
        root_id: root.root_id.clone(),
        display_name,
        volume_id: root.volume_id.clone(),
        online,
        watcher_active,
        lifecycle_state: root.state.clone(),
        state,
        summary,
        action: if quiet { None } else { Some("retry-root") },
    }
}

/// The single row that stands in for every root when the root inventory
/// itself failed.
pub fn failed_root_inventory(error: &str) -> (r: RootStatus)
    ensures
        r.root_id@.len() == 0,
        r.display_name@ == "Library roots"@,
        r.volume_id@.len() == 0,
        !r.online,
        !r.watcher_active,
        r.lifecycle_state@ == "unknown"@,
        r.state@ == "unavailable"@,
        opt_view(r.summary) == Some("root inventory failed: "@ + error@),
        opt_str_view(r.action) == Some("retry-roots"@),
{
    RootStatus {
        root_id: String::new(),
        display_name: String::from_str("Library roots"),
        volume_id: String::new(),
        online: false,
        watcher_active: false,
        lifecycle_state: String::from_str("unknown"),
        state: "unavailable",
        summary: Some(concat2("root inventory failed: ", error)),
        action: Some("retry-roots"),
    }
}

/// A volume's row: its label, or its id when the label is absent or empty.
pub fn volume_status(
    volume_id: String,
    label: Option<String>,
    online: bool,
    read_only: bool,
    fs_type: Option<String>,
    mount_point: Option<String>,
) -> (r: VolumeStatus)
    ensures
        r.label@ == (match label {
            Some(l) => if l@.len() > 0 { l@ } else { volume_id@ },
            None => volume_id@,
        }),
        r.volume_id == volume_id,
        r.online == online,
        r.read_only == read_only,
        r.fs_type == fs_type,
        r.mount_point == mount_point,
{
    let shown = match label {
        Some(l) => if l.as_str().unicode_len() > 0 { l } else { volume_id.clone() },
        None => volume_id.clone(),
    };
    VolumeStatus { volume_id, label: shown, online, read_only, fs_type, mount_point }
}

/// Whether the model build of an embedder role is in flight.
pub open spec fn building(state: EmbedderState) -> bool {
    state == EmbedderState::Queued || state == EmbedderState::Building
}

pub open spec fn build_task_is(t: BackgroundTaskStatus, role: Seq<char>, model_id: Option<String>, observed_at_ms: u64) -> bool {
    &&& t.owner@ == "runtime"@
    &&& t.key@ == "model-build:"@ + role
    &&& t.priority@ == "background"@
    &&& t.state@ == "running"@
    &&& t.started_at_ms == observed_at_ms
    &&& t.ended_at_ms is None
    &&& opt_view(t.progress_message) == Some(match model_id {
        Some(m) => "Loading "@ + m@ + " in the isolated helper"@,
        None => "Loading the "@ + role + " model in the isolated helper"@,
    })
    &&& t.last_error is None
}

fn build_task(role: &'static str, model_id: &Option<String>, observed_at_ms: u64) -> (t: BackgroundTaskStatus)
    ensures
        build_task_is(t, role@, *model_id, observed_at_ms),
{
    let message = match model_id {
        Some(m) => concat3("Loading ", m.as_str(), " in the isolated helper"),
        None => concat3("Loading the ", role, " model in the isolated helper"),
    };
    BackgroundTaskStatus {
        owner: String::from_str("runtime"),
        key: concat2("model-build:", role),
        priority: "background",
        state: "running",
        started_at_ms: observed_at_ms,
        ended_at_ms: None,
        progress_message: Some(message),
        last_error: None,
    }
}

/// Model builds in flight, shown as running background tasks: the image
/// model first, then the text model.
pub fn runtime_model_build_tasks(runtime: &RuntimeStatus, observed_at_ms: u64) -> (r: Vec<BackgroundTaskStatus>)
    ensures
        r@.len() == (if building(runtime.clip.state) { 1int } else { 0 }) + (if building(
            runtime.text_embedder.state,
        ) { 1int } else { 0 }),
        building(runtime.clip.state) ==> build_task_is(r@[0], "clip"@, runtime.clip.model_id, observed_at_ms),
        building(runtime.text_embedder.state) ==> build_task_is(
            r@[r@.len() - 1],
            "text-embedder"@,
            runtime.text_embedder.model_id,
            observed_at_ms,
        ),
{
    let mut r: Vec<BackgroundTaskStatus> = Vec::new();
    let clip_building = runtime.clip.state == EmbedderState::Queued || runtime.clip.state == EmbedderState::Building;
    if clip_building {
        r.push(build_task("clip", &runtime.clip.model_id, observed_at_ms));
    }
    let text_building = runtime.text_embedder.state == EmbedderState::Queued || runtime.text_embedder.state
        == EmbedderState::Building;
    if text_building {
        r.push(build_task("text-embedder", &runtime.text_embedder.model_id, observed_at_ms));
    }
    r
}

// ---------------------------------------------------------------------------
// Control files
// ---------------------------------------------------------------------------

pub open spec fn spec_recovery_state(r: ControlFileRecovery) -> Seq<char> {
    if r.warnings@.len() == 0 && r.quarantined@.len() == 0 && r.source != ControlFileSource::LastKnownGood {
        "healthy"@
    } else {
        "degraded"@
    }
}

/// A recovered control file is degraded when it carries warnings, had a
/// damaged copy quarantined, or fell back to its last known good copy.
pub fn recovery_state(r: &ControlFileRecovery) -> (s: &'static str)
    ensures
        s@ == spec_recovery_state(*r),
{
    if r.warnings.len() == 0 && r.quarantined.len() == 0 && r.source != ControlFileSource::LastKnownGood {
        "healthy"
    } else {
        "degraded"
    }
}

pub open spec fn spec_recovery_source(s: ControlFileSource) -> Seq<char> {
    match s {
        ControlFileSource::Primary => "primary"@,
        ControlFileSource::LastKnownGood => "last-known-good"@,
        ControlFileSource::MissingDefault => "missing-default"@,
        ControlFileSource::Created => "created"@,
    }
}

pub fn recovery_source(r: &ControlFileRecovery) -> (s: &'static str)
    ensures
        s@ == spec_recovery_source(r.source),
{
    match r.source {
        ControlFileSource::Primary => "primary",
        ControlFileSource::LastKnownGood => "last-known-good",
        ControlFileSource::MissingDefault => "missing-default",
        ControlFileSource::Created => "created",
    }
}

/// The status row of a shell control file (settings or device identity):
/// a recovery with findings offers `action`, a load failure is unavailable
/// and offers restoring the controls.
pub open spec fn control_status_is(
    r: ShellControlFileStatus,
    name: &'static str,
    recovery: Result<ControlFileRecovery, ControlFileIssue>,
    action: Seq<char>,
) -> bool {
    &&& r.name == name
    &&& match recovery {
        Ok(rec) => {
            &&& r.state@ == spec_recovery_state(rec)
            &&& opt_str_view(r.source) == Some(spec_recovery_source(rec.source))
            &&& r.quarantined@ == rec.quarantined@
            &&& r.warnings@ == rec.warnings@
            &&& r.error is None
            &&& opt_str_view(r.action) == (if rec.warnings@.len() > 0 || rec.quarantined@.len() > 0 {
                Some(action)
            } else {
                None
            })
        },
        Err(issue) => {
            &&& r.state@ == "unavailable"@
            &&& r.source is None
            &&& r.quarantined@.len() == (if issue.quarantined_path is Some { 1int } else { 0 })
            &&& (issue.quarantined_path matches Some(p) ==> r.quarantined@[0] == p)
            &&& r.warnings@.len() == 0
            &&& r.error == Some(issue.message)
            &&& opt_str_view(r.action) == Some("restore-controls"@)
        },
    }
}

fn control_status(
    name: &'static str,
    recovery: &Result<ControlFileRecovery, ControlFileIssue>,
    action: &'static str,
) -> (r: ShellControlFileStatus)
    ensures
        control_status_is(r, name, *recovery, action@),
{
    match recovery {
        Ok(rec) => {
            let findings = rec.warnings.len() > 0 || rec.quarantined.len() > 0;
            ShellControlFileStatus {
                name,
                state: recovery_state(rec),
                source: Some(recovery_source(rec)),
                quarantined: copy_strings(&rec.quarantined),
                warnings: copy_strings(&rec.warnings),
                error: None,
                action: if findings { Some(action) } else { None },
            }
        },
        Err(issue) => {
            let mut quarantined: Vec<String> = Vec::new();
            match &issue.quarantined_path {
                Some(p) => quarantined.push(p.clone()),
                None => {},
            }
            ShellControlFileStatus {
                name,
                state: "unavailable",
                source: None,
                quarantined,
                warnings: Vec::new(),
                error: Some(issue.message.clone()),
                action: Some("restore-controls"),
            }
        },
    }
}

/// A shell control file whose findings are repaired by restoring defaults.
pub fn shell_control_status(
    name: &'static str,
    recovery: &Result<ControlFileRecovery, ControlFileIssue>,
) -> (r: ShellControlFileStatus)
    ensures
        control_status_is(r, name, *recovery, "restore-controls"@),
{
    control_status(name, recovery, "restore-controls")
}

/// The device identity's row: its findings are only revealed in the logs.
pub fn device_identity_status(recovery: &ControlFileRecovery) -> (r: ShellControlFileStatus)
    ensures
        control_status_is(r, "device-identity", Ok(*recovery), "reveal-logs"@),
{
    let findings = recovery.warnings.len() > 0 || recovery.quarantined.len() > 0;
    ShellControlFileStatus {
        name: "device-identity",
        state: recovery_state(recovery),
        source: Some(recovery_source(recovery)),
        quarantined: copy_strings(&recovery.quarantined),
        warnings: copy_strings(&recovery.warnings),
        error: None,
        action: if findings { Some("reveal-logs") } else { None },
    }
}

pub open spec fn tuning_degraded(load: TuningControlLoad) -> bool {
    load.recovery.source == TuningSource::LastKnownGood || load.recovery.quarantined@.len() > 0
        || load.recovery.warnings@.len() > 0 || load.validation_warnings@.len() > 0
}

pub open spec fn spec_tuning_source(s: TuningSource) -> Seq<char> {
    match s {
        TuningSource::Primary => "primary"@,
        TuningSource::LastKnownGood => "last-known-good"@,
        TuningSource::Missing => "missing-default"@,
    }
}

/// The tuning file's row: recovery findings and rejected keys both degrade
/// it, and its warnings list the recovery's warnings then the rejected keys.
pub open spec fn tuning_status_is(r: ShellControlFileStatus, loaded: Result<TuningControlLoad, TuningControlError>) -> bool {
    &&& r.name@ == "tuning"@
    &&& match loaded {
        Ok(load) => {
            &&& r.state@ == (if tuning_degraded(load) { "degraded"@ } else { "healthy"@ })
            &&& opt_str_view(r.source) == Some(spec_tuning_source(load.recovery.source))
            &&& r.quarantined@ == load.recovery.quarantined@
            &&& r.warnings@ == load.recovery.warnings@ + load.validation_warnings@
            &&& r.error is None
            &&& opt_str_view(r.action) == (if tuning_degraded(load) { Some("restore-controls"@) } else { None })
        },
        Err(issue) => {
            &&& r.state@ == "unavailable"@
            &&& r.source is None
            &&& r.quarantined@.len() == (if issue.quarantined_path is Some { 1int } else { 0 })
            &&& (issue.quarantined_path matches Some(p) ==> r.quarantined@[0] == p)
            &&& r.warnings@.len() == 0
            &&& r.error == Some(issue.message)
            &&& opt_str_view(r.action) == Some("restore-controls"@)
        },
    }
}

pub fn tuning_control_status(loaded: &Result<TuningControlLoad, TuningControlError>) -> (r: ShellControlFileStatus)
    ensures
        tuning_status_is(r, *loaded),
{
    match loaded {
        Ok(load) => {
            let recovery = &load.recovery;
            let degraded = recovery.source == TuningSource::LastKnownGood || recovery.quarantined.len() > 0
                || recovery.warnings.len() > 0 || load.validation_warnings.len() > 0;
            let mut warnings = copy_strings(&recovery.warnings);
            let extra = copy_strings(&load.validation_warnings);
            let ghost w0 = warnings@;
            let n = extra.len();
            for i in 0..n
                invariant
                    n == extra@.len(),
                    warnings@ == w0 + extra@.subrange(0, i as int),
            {
                warnings.push(extra[i].clone());
                proof {
                    assert(warnings@ =~= w0 + extra@.subrange(0, i + 1));
                }
            }
            proof {
                assert(extra@.subrange(0, n as int) =~= extra@);
            }
            ShellControlFileStatus {
                name: "tuning",
                state: if degraded { "degraded" } else { "healthy" },
                source: Some(
                    match recovery.source {
                        TuningSource::Primary => "primary",
                        TuningSource::LastKnownGood => "last-known-good",
                        TuningSource::Missing => "missing-default",
                    },
                ),
                quarantined: copy_strings(&recovery.quarantined),
                warnings,
                error: None,
                action: if degraded { Some("restore-controls") } else { None },
            }
        },
        Err(issue) => {
            let mut quarantined: Vec<String> = Vec::new();
            match &issue.quarantined_path {
                Some(p) => quarantined.push(p.clone()),
                None => {},
            }
            ShellControlFileStatus {
                name: "tuning",
                state: "unavailable",
                source: None,
                quarantined,
                warnings: Vec::new(),
                error: Some(issue.message.clone()),
                action: Some("restore-controls"),
            }
        },
    }
}

/// How urgently a managed background task runs.
#[derive(Debug, Clone, Copy, PartialEq, Eq, Structural)]
pub enum TaskPriority {
    Background,
    Maintenance,
}

#[derive(Debug, Clone, Copy, PartialEq, Eq, Structural)]
pub enum TaskState {
    Running,
    Completed,
    Failed,
    Cancelled,
}

/// A managed task as the task registry reports it; times in milliseconds
/// since the Unix epoch. Its progress fraction travels beside it.
#[derive(Debug, Clone)]
pub struct TaskSnapshot {
    pub owner: String,
    pub key: String,
    pub priority: TaskPriority,
    pub state: TaskState,
    pub started_at_ms: u64,
    pub ended_at_ms: Option<u64>,
    pub progress_message: Option<String>,
    pub last_error: Option<String>,
}

pub open spec fn spec_priority_name(p: TaskPriority) -> Seq<char> {
    match p {
        TaskPriority::Background => "background"@,
        TaskPriority::Maintenance => "maintenance"@,
    }
}

pub open spec fn spec_task_state_name(s: TaskState) -> Seq<char> {
    match s {
        TaskState::Running => "running"@,
        TaskState::Completed => "completed"@,
        TaskState::Failed => "failed"@,
        TaskState::Cancelled => "cancelled"@,
    }
}

/// A managed task's health row.
pub fn task_status(task: TaskSnapshot) -> (r: BackgroundTaskStatus)
    ensures
        r.owner == task.owner,
        r.key == task.key,
        r.priority@ == spec_priority_name(task.priority),
        r.state@ == spec_task_state_name(task.state),
        r.started_at_ms == task.started_at_ms,
        r.ended_at_ms == task.ended_at_ms,
        r.progress_message == task.progress_message,
        r.last_error == task.last_error,
{
    BackgroundTaskStatus {
        owner: task.owner,
        key: task.key,
        priority: match task.priority {
            TaskPriority::Background => "background",
            TaskPriority::Maintenance => "maintenance",
        },
        state: match task.state {
            TaskState::Running => "running",
            TaskState::Completed => "completed",
            TaskState::Failed => "failed",
            TaskState::Cancelled => "cancelled",
        },
        started_at_ms: task.started_at_ms,
        ended_at_ms: task.ended_at_ms,
        progress_message: task.progress_message,
        last_error: task.last_error,
    }
}

} // verus!
