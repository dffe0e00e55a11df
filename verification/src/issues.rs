//! One actionable projection of application health: the issue list that the
//! product UI renders instead of inventing severity and recovery semantics
//! from the detailed snapshots itself.
use vstd::prelude::*;
use crate::disk::{CapacityState, DiskHealthSnapshot, DiskStoreStatus, WalHealthSnapshot, WalState};
use crate::doctor::RepairIntegritySnapshot;
use crate::dto::{EmbedderSlot, EmbedderState, ModelRow, RuntimeControlFile, RuntimeStatus};
use crate::health::{
    copy_opt, opt_view, BackgroundTaskStatus, DatabaseStatus, DiagnosticsStatus, HealthAction, HealthIssue,
    RootStatus, ShellControlFileStatus, SubsystemStatus,
};
use crate::text::{concat2, concat3, decimal, signed_decimal, str_eq, u64_text, i64_text};

verus! {

/// An issue as plain values: id, subsystem, title, blocking, summary,
/// last error, when it was last seen, and the action (kind, label, target).
pub type IssueKey = (
    Seq<char>,
    Seq<char>,
    Seq<char>,
    bool,
    Seq<char>,
    Option<Seq<char>>,
    Option<u64>,
    (Seq<char>, Seq<char>, Option<Seq<char>>),
);

pub open spec fn action_key(a: HealthAction) -> (Seq<char>, Seq<char>, Option<Seq<char>>) {
    (a.kind@, a.label@, opt_view(a.target_id))
}

pub open spec fn key_of(i: HealthIssue) -> IssueKey {
    (i.id@, i.subsystem@, i.title@, i.blocking, i.summary@, opt_view(i.last_error), i.last_error_at_ms, action_key(i.action))
}

pub open spec fn keys(s: Seq<HealthIssue>) -> Seq<IssueKey> {
    s.map_values(|i: HealthIssue| key_of(i))
}

proof fn lemma_keys_push(s: Seq<HealthIssue>, i: HealthIssue)
    ensures
        keys(s.push(i)) == keys(s).push(key_of(i)),
{
    assert(keys(s.push(i)) =~= keys(s).push(key_of(i)));
}

fn push_issue(out: &mut Vec<HealthIssue>, i: HealthIssue)
    ensures
        keys(final(out)@) == keys(old(out)@).push(key_of(i)),
        final(out)@ == old(out)@.push(i),
{
    out.push(i);
    proof {
        lemma_keys_push(old(out)@, i);
    }
}

fn append_issues(out: &mut Vec<HealthIssue>, more: Vec<HealthIssue>)
    ensures
        keys(final(out)@) == keys(old(out)@) + keys(more@),
{
    let mut more = more;
    let ghost m = more@;
    let ghost start = out@;
    let n = more.len();
    let mut i: usize = 0;
    while i < n
        invariant
            n == m.len(),
            more@ == m,
            i <= n,
            keys(out@) == keys(start) + keys(m.subrange(0, i as int)),
        decreases n - i,
    {
        let x = more[i].clone_issue();
        push_issue(out, x);
        proof {
            assert(m.subrange(0, i + 1) =~= m.subrange(0, i as int).push(m[i as int]));
            lemma_keys_push(m.subrange(0, i as int), m[i as int]);
            assert(keys(out@) =~= keys(start) + keys(m.subrange(0, i + 1)));
        }
        i += 1;
    }
    proof {
        assert(m.subrange(0, n as int) =~= m);
    }
}

impl HealthIssue {
    pub fn clone_issue(&self) -> (r: HealthIssue)
        ensures
            key_of(r) == key_of(*self),
    {
        HealthIssue {
            id: self.id.clone(),
            subsystem: self.subsystem,
            title: self.title.clone(),
            blocking: self.blocking,
            summary: self.summary.clone(),
            last_error: copy_opt(&self.last_error),
            last_error_at_ms: self.last_error_at_ms,
            action: HealthAction {
                kind: self.action.kind,
                label: self.action.label,
                target_id: copy_opt(&self.action.target_id),
            },
        }
    }
}

// ---------------------------------------------------------------------------
// Actions
// ---------------------------------------------------------------------------

pub open spec fn reveal_logs_key() -> (Seq<char>, Seq<char>, Option<Seq<char>>) {
    ("reveal-logs"@, "Reveal logs"@, None)
}

pub fn reveal_logs_action() -> (r: HealthAction)
    ensures
        action_key(r) == reveal_logs_key(),
{
    HealthAction { kind: "reveal-logs", label: "Reveal logs", target_id: None }
}

pub open spec fn spec_subsystem_action(name: Seq<char>) -> (Seq<char>, Seq<char>, Option<Seq<char>>) {
    if name == "roots"@ || name == "watchers"@ || name == "ingest"@ {
        ("retry-roots"@, "Retry folders"@, None)
    } else if name == "previews"@ {
        ("rebuild-previews"@, "Rebuild previews"@, None)
    } else if name == "runtime"@ {
        ("retry-runtime"@, "Restart runtime"@, None)
    } else {
        reveal_logs_key()
    }
}

/// The action that repairs a subsystem: folders are retried, previews
/// rebuilt, the runtime restarted; anything else reveals the logs.
pub fn subsystem_health_action(subsystem: &str) -> (r: HealthAction)
    ensures
        action_key(r) == spec_subsystem_action(subsystem@),
{
    if str_eq(subsystem, "roots") || str_eq(subsystem, "watchers") || str_eq(subsystem, "ingest") {
        HealthAction { kind: "retry-roots", label: "Retry folders", target_id: None }
    } else if str_eq(subsystem, "previews") {
        HealthAction { kind: "rebuild-previews", label: "Rebuild previews", target_id: None }
    } else if str_eq(subsystem, "runtime") {
        HealthAction { kind: "retry-runtime", label: "Restart runtime", target_id: None }
    } else {
        reveal_logs_action()
    }
}

pub open spec fn spec_restore_action(control: Seq<char>) -> (Seq<char>, Seq<char>, Option<Seq<char>>) {
    if control == "settings"@ || control == "config"@ || control == "tuning"@ {
        ("restore-controls"@, "Restore defaults"@, Some(control))
    } else {
        reveal_logs_key()
    }
}

/// The action for a recovered control file: the three user controls can be
/// restored to defaults; anything else reveals the logs.
pub fn restore_defaults_action(control: &str) -> (r: HealthAction)
    ensures
        action_key(r) == spec_restore_action(control@),
{
    if str_eq(control, "settings") || str_eq(control, "config") || str_eq(control, "tuning") {
        HealthAction {
            kind: "restore-controls",
            label: "Restore defaults",
            target_id: Some(String::from_str(control)),
        }
    } else {
        reveal_logs_action()
    }
}

// ---------------------------------------------------------------------------
// Database and volumes
// ---------------------------------------------------------------------------

pub open spec fn version_text(v: Option<i64>) -> Seq<char> {
    match v {
        Some(n) => signed_decimal(n as int),
        None => "unknown"@,
    }
}

pub open spec fn spec_database_issue(observed_at_ms: u64, db: DatabaseStatus) -> Option<IssueKey> {
    if db.state@ == "healthy"@ {
        None
    } else {
        let summary = match db.error {
            Some(e) => e@,
            None => "Database schema "@ + version_text(db.schema_version) + " does not match the expected schema "@
                + signed_decimal(db.expected_schema_version as int) + "."@,
        };
        Some(("database:schema"@, "database"@, "Database schema is unavailable"@, true, summary, Some(summary), Some(observed_at_ms), reveal_logs_key()))
    }
}

pub open spec fn opt_key(o: Option<HealthIssue>) -> Option<IssueKey> {
    match o {
        Some(i) => Some(key_of(i)),
        None => None,
    }
}

/// A database that is not healthy is a blocking issue; its summary is the
/// recorded error or the schema mismatch.
pub fn database_issue(observed_at_ms: u64, database: &DatabaseStatus) -> (r: Option<HealthIssue>)
    ensures
        opt_key(r) == spec_database_issue(observed_at_ms, *database),
{
    if str_eq(database.state, "healthy") {
        return None;
    }
    let summary = match &database.error {
        Some(e) => e.clone(),
        None => {
            let version = match database.schema_version {
                Some(v) => i64_text(v),
                None => String::from_str("unknown"),
            };
            let expected = i64_text(database.expected_schema_version);
            let head = concat3("Database schema ", version.as_str(), " does not match the expected schema ");
            concat3(head.as_str(), expected.as_str(), ".")
        },
    };
    Some(HealthIssue {
        id: String::from_str("database:schema"),
        subsystem: "database",
        title: String::from_str("Database schema is unavailable"),
        blocking: true,
        summary: summary.clone(),
        last_error: Some(summary),
        last_error_at_ms: Some(observed_at_ms),
        action: reveal_logs_action(),
    })
}

pub open spec fn spec_volume_issue(observed_at_ms: u64, error: Seq<char>) -> IssueKey {
    ("volumes:inventory"@, "volumes"@, "Volume inventory is unavailable"@, false, error, Some(error), Some(observed_at_ms), ("retry-roots"@, "Retry folders"@, None))
}

fn volume_issue(observed_at_ms: u64, error: &str) -> (r: HealthIssue)
    ensures
        key_of(r) == spec_volume_issue(observed_at_ms, error@),
{
    HealthIssue {
        id: String::from_str("volumes:inventory"),
        subsystem: "volumes",
        title: String::from_str("Volume inventory is unavailable"),
        blocking: false,
        summary: String::from_str(error),
        last_error: Some(String::from_str(error)),
        last_error_at_ms: Some(observed_at_ms),
        action: HealthAction { kind: "retry-roots", label: "Retry folders", target_id: None },
    }
}

// ---------------------------------------------------------------------------
// Subsystems, roots, tasks, control files
// ---------------------------------------------------------------------------

/// Subsystems reported here: not healthy, not unknown, and not one that the
/// root, watcher or runtime issues already cover.
pub open spec fn subsystem_reported(s: SubsystemStatus) -> bool {
    &&& s.state@ != "healthy"@
    &&& s.state@ != "unknown"@
    &&& s.name@ != "roots"@
    &&& s.name@ != "watchers"@
    &&& s.name@ != "runtime"@
}

pub open spec fn subsystem_issue_key(s: SubsystemStatus, t: u64) -> IssueKey {
    (
        "subsystem:"@ + s.name@,
        s.name@,
        s.name@ + " is "@ + s.state@,
        s.blocking,
        match s.summary {
            Some(x) => x@,
            None => s.name@ + " needs attention"@,
        },
        opt_view(s.summary),
        Some(t),
        spec_subsystem_action(s.name@),
    )
}

pub open spec fn subsystem_keys(subs: Seq<SubsystemStatus>, t: u64) -> Seq<IssueKey>
    decreases subs.len(),
{
    if subs.len() == 0 {
        seq![]
    } else {
        let p = subsystem_keys(subs.drop_last(), t);
        if subsystem_reported(subs.last()) { p.push(subsystem_issue_key(subs.last(), t)) } else { p }
    }
}

fn subsystem_issue(s: &SubsystemStatus, t: u64) -> (r: HealthIssue)
    ensures
        key_of(r) == subsystem_issue_key(*s, t),
{
    let summary = match &s.summary {
        Some(x) => x.clone(),
        None => concat2(s.name, " needs attention"),
    };
    HealthIssue {
        id: concat2("subsystem:", s.name),
        subsystem: s.name,
        title: concat3(s.name, " is ", s.state),
        blocking: s.blocking,
        summary,
        last_error: copy_opt(&s.summary),
        last_error_at_ms: Some(t),
        action: subsystem_health_action(s.name),
    }
}

pub fn subsystem_issues(subs: &Vec<SubsystemStatus>, t: u64) -> (r: Vec<HealthIssue>)
    ensures
        keys(r@) == subsystem_keys(subs@, t),
{
    let mut r: Vec<HealthIssue> = Vec::new();
    let n = subs.len();
    for i in 0..n
        invariant
            n == subs@.len(),
            keys(r@) == subsystem_keys(subs@.subrange(0, i as int), t),
    {
        proof {
            assert(subs@.subrange(0, i + 1).drop_last() =~= subs@.subrange(0, i as int));
        }
        let s = &subs[i];
        let reported = !str_eq(s.state, "healthy") && !str_eq(s.state, "unknown") && !str_eq(s.name, "roots")
            && !str_eq(s.name, "watchers") && !str_eq(s.name, "runtime");
        if reported {
            push_issue(&mut r, subsystem_issue(s, t));
        }
    }
    proof {
        assert(subs@.subrange(0, n as int) =~= subs@);
    }
    r
}

pub open spec fn root_reported(r: RootStatus) -> bool {
    r.state@ != "healthy"@ && r.state@ != "archived"@
}

pub open spec fn root_issue_key(r: RootStatus, t: u64) -> IssueKey {
    (
        "root:"@ + r.root_id@,
        "roots"@,
        r.display_name@ + " is unavailable"@,
        false,
        match r.summary {
            Some(x) => x@,
            None => "The watched folder needs to be reconnected."@,
        },
        opt_view(r.summary),
        Some(t),
        (
            if r.root_id@.len() == 0 { "retry-roots"@ } else { "retry-root"@ },
            "Retry folder"@,
            if r.root_id@.len() == 0 { None } else { Some(r.root_id@) },
        ),
    )
}

pub open spec fn root_keys(roots: Seq<RootStatus>, t: u64) -> Seq<IssueKey>
    decreases roots.len(),
{
    if roots.len() == 0 {
        seq![]
    } else {
        let p = root_keys(roots.drop_last(), t);
        if root_reported(roots.last()) { p.push(root_issue_key(roots.last(), t)) } else { p }
    }
}

fn root_issue(r: &RootStatus, t: u64) -> (i: HealthIssue)
    ensures
        key_of(i) == root_issue_key(*r, t),
{
    let summary = match &r.summary {
        Some(x) => x.clone(),
        None => String::from_str("The watched folder needs to be reconnected."),
    };
    let unnamed = r.root_id.as_str().unicode_len() == 0;
    HealthIssue {
        id: concat2("root:", r.root_id.as_str()),
        subsystem: "roots",
        title: concat2(r.display_name.as_str(), " is unavailable"),
        blocking: false,
        summary,
        last_error: copy_opt(&r.summary),
        last_error_at_ms: Some(t),
        action: HealthAction {
            kind: if unnamed { "retry-roots" } else { "retry-root" },
            label: "Retry folder",
            target_id: if unnamed { None } else { Some(r.root_id.clone()) },
        },
    }
}

pub fn root_issues(roots: &Vec<RootStatus>, t: u64) -> (r: Vec<HealthIssue>)
    ensures
        keys(r@) == root_keys(roots@, t),
{
    let mut r: Vec<HealthIssue> = Vec::new();
    let n = roots.len();
    for i in 0..n
        invariant
            n == roots@.len(),
            keys(r@) == root_keys(roots@.subrange(0, i as int), t),
    {
        proof {
            assert(roots@.subrange(0, i + 1).drop_last() =~= roots@.subrange(0, i as int));
        }
        let x = &roots[i];
        if !str_eq(x.state, "healthy") && !str_eq(x.state, "archived") {
            push_issue(&mut r, root_issue(x, t));
        }
    }
    proof {
        assert(roots@.subrange(0, n as int) =~= roots@);
    }
    r
}

pub open spec fn task_reported(t: BackgroundTaskStatus) -> bool {
    t.state@ == "failed"@ && t.last_error is Some
}

pub open spec fn task_issue_key(t: BackgroundTaskStatus) -> IssueKey {
    (
        "task:"@ + t.owner@ + ":"@ + t.key@,
        "background-work"@,
        t.key@ + " failed"@,
        false,
        t.last_error.unwrap()@,
        opt_view(t.last_error),
        t.ended_at_ms,
        reveal_logs_key(),
    )
}

pub open spec fn task_keys(tasks: Seq<BackgroundTaskStatus>) -> Seq<IssueKey>
    decreases tasks.len(),
{
    if tasks.len() == 0 {
        seq![]
    } else {
        let p = task_keys(tasks.drop_last());
        if task_reported(tasks.last()) { p.push(task_issue_key(tasks.last())) } else { p }
    }
}

/// Failed background work with a recorded error, one issue per task.
pub fn task_issues(tasks: &Vec<BackgroundTaskStatus>) -> (r: Vec<HealthIssue>)
    ensures
        keys(r@) == task_keys(tasks@),
{
    let mut r: Vec<HealthIssue> = Vec::new();
    let n = tasks.len();
    for i in 0..n
        invariant
            n == tasks@.len(),
            keys(r@) == task_keys(tasks@.subrange(0, i as int)),
    {
        proof {
            assert(tasks@.subrange(0, i + 1).drop_last() =~= tasks@.subrange(0, i as int));
        }
        let t = &tasks[i];
        if str_eq(t.state, "failed") {
            match &t.last_error {
                Some(e) => {
                    let head = concat3("task:", t.owner.as_str(), ":");
                    push_issue(&mut r, HealthIssue {
                        id: concat2(head.as_str(), t.key.as_str()),
                        subsystem: "background-work",
                        title: concat2(t.key.as_str(), " failed"),
                        blocking: false,
                        summary: e.clone(),
                        last_error: Some(e.clone()),
                        last_error_at_ms: t.ended_at_ms,
                        action: reveal_logs_action(),
                    });
                },
                None => {},
            }
        }
    }
    proof {
        assert(tasks@.subrange(0, n as int) =~= tasks@);
    }
    r
}

pub open spec fn control_summary(c: ShellControlFileStatus) -> Seq<char> {
    match c.error {
        Some(e) => e@,
        None => if c.warnings@.len() > 0 {
            c.warnings@[0]@
        } else if c.quarantined@.len() == 0 {
            "The control file was recovered with safe defaults."@
        } else {
            "A damaged control file was quarantined."@
        },
    }
}

pub open spec fn control_issue_key(c: ShellControlFileStatus, t: u64) -> IssueKey {
    (
        "control:"@ + c.name@,
        "configuration"@,
        c.name@ + " configuration was recovered"@,
        false,
        control_summary(c),
        Some(control_summary(c)),
        Some(t),
        spec_restore_action(c.name@),
    )
}

pub open spec fn control_keys(cs: Seq<ShellControlFileStatus>, t: u64) -> Seq<IssueKey>
    decreases cs.len(),
{
    if cs.len() == 0 {
        seq![]
    } else {
        let p = control_keys(cs.drop_last(), t);
        if cs.last().state@ != "healthy"@ { p.push(control_issue_key(cs.last(), t)) } else { p }
    }
}

/// Every control file that is not healthy was recovered; the issue offers
/// restoring its defaults where that is possible.
pub fn control_issues(controls: &Vec<ShellControlFileStatus>, t: u64) -> (r: Vec<HealthIssue>)
    ensures
        keys(r@) == control_keys(controls@, t),
{
    let mut r: Vec<HealthIssue> = Vec::new();
    let n = controls.len();
    for i in 0..n
        invariant
            n == controls@.len(),
            keys(r@) == control_keys(controls@.subrange(0, i as int), t),
    {
        proof {
            assert(controls@.subrange(0, i + 1).drop_last() =~= controls@.subrange(0, i as int));
        }
        let c = &controls[i];
        if !str_eq(c.state, "healthy") {
            let summary = match &c.error {
                Some(e) => e.clone(),
                None => if c.warnings.len() > 0 {
                    c.warnings[0].clone()
                } else if c.quarantined.len() == 0 {
                    String::from_str("The control file was recovered with safe defaults.")
                } else {
                    String::from_str("A damaged control file was quarantined.")
                },
            };
            push_issue(&mut r, HealthIssue {
                id: concat2("control:", c.name),
                subsystem: "configuration",
                title: concat2(c.name, " configuration was recovered"),
                blocking: false,
                summary: summary.clone(),
                last_error: Some(summary),
                last_error_at_ms: Some(t),
                action: restore_defaults_action(c.name),
            });
        }
    }
    proof {
        assert(controls@.subrange(0, n as int) =~= controls@);
    }
    r
}


// ---------------------------------------------------------------------------
// Disk and WAL
// ---------------------------------------------------------------------------

/// The available bytes of the first store named `name`, from index `i` on.
pub open spec fn store_available_from(stores: Seq<DiskStoreStatus>, name: Seq<char>, i: int) -> Option<u64>
    decreases stores.len() - i,
{
    if i < 0 || i >= stores.len() {
        None
    } else if stores[i].name@ == name {
        stores[i].available_bytes
    } else {
        store_available_from(stores, name, i + 1)
    }
}

fn store_available(stores: &Vec<DiskStoreStatus>, name: &str) -> (r: Option<u64>)
    ensures
        r == store_available_from(stores@, name@, 0),
{
    let n = stores.len();
    let mut i: usize = 0;
    while i < n
        invariant
            n == stores@.len(),
            i <= n,
            store_available_from(stores@, name@, 0) == store_available_from(stores@, name@, i as int),
        decreases n - i,
    {
        if str_eq(stores[i].name, name) {
            return stores[i].available_bytes;
        }
        i += 1;
    }
    None
}

pub open spec fn capacity_summary(available: Option<u64>, paused: bool) -> Seq<char> {
    match available {
        Some(bytes) => decimal(bytes as nat) + " bytes remain; derived work "@
            + (if paused { "is paused"@ } else { "remains admitted"@ }) + "."@,
        None => "Free space could not be measured."@,
    }
}

pub open spec fn capacity_issue_key(id: Seq<char>, title: Seq<char>, blocking: bool, available: Option<u64>, paused: bool, t: u64) -> IssueKey {
    ("disk:"@ + id, "disk"@, title, blocking, capacity_summary(available, paused), None, Some(t), reveal_logs_key())
}

pub open spec fn capacity_keys(d: DiskHealthSnapshot, t: u64) -> Seq<IssueKey> {
    (if d.app_data_state != CapacityState::Healthy {
        seq![capacity_issue_key("app-data"@, "Application-data disk space"@, d.app_data_state == CapacityState::Critical,
            store_available_from(d.stores@, "database-and-wal"@, 0), d.derived_work_paused, t)]
    } else {
        seq![]
    }) + (if d.models_state != CapacityState::Healthy {
        seq![capacity_issue_key("models"@, "Model disk space"@, false,
            store_available_from(d.stores@, "models"@, 0), d.derived_work_paused, t)]
    } else {
        seq![]
    })
}

fn capacity_issue(id: &str, title: &str, blocking: bool, available: Option<u64>, paused: bool, t: u64) -> (r: HealthIssue)
    ensures
        key_of(r) == capacity_issue_key(id@, title@, blocking, available, paused, t),
{
    let summary = match available {
        Some(bytes) => {
            let b = u64_text(bytes);
            let head = concat2(b.as_str(), " bytes remain; derived work ");
            concat3(head.as_str(), if paused { "is paused" } else { "remains admitted" }, ".")
        },
        None => String::from_str("Free space could not be measured."),
    };
    HealthIssue {
        id: concat2("disk:", id),
        subsystem: "disk",
        title: String::from_str(title),
        blocking,
        summary,
        last_error: None,
        last_error_at_ms: Some(t),
        action: reveal_logs_action(),
    }
}

pub open spec fn or_zero(o: Option<u64>) -> nat {
    match o {
        Some(v) => v as nat,
        None => 0,
    }
}

pub open spec fn wal_figures(w: WalHealthSnapshot) -> Seq<char> {
    " ("@ + decimal(or_zero(w.size_bytes)) + " bytes, age "@ + decimal(or_zero(w.age_ms)) + " ms)."@
}

pub open spec fn wal_issue_shape(w: WalHealthSnapshot) -> (bool, Seq<char>, Seq<char>) {
    match w.state {
        WalState::Blocked => (true, "Database maintenance is blocked"@,
            "A reader is holding the SQLite WAL open. Close other Photoproof windows, then relaunch if it does not clear."@),
        WalState::Critical => (false, "Database WAL needs attention"@,
            "The WAL is critically large or old"@ + wal_figures(w)),
        WalState::Warning => (false, "Database WAL maintenance is overdue"@,
            "The WAL is larger or older than its maintenance threshold"@ + wal_figures(w)),
        _ => (false, "Database WAL could not be inspected"@,
            match w.inventory_error {
                Some(e) => e@,
                None => "WAL inventory is unavailable."@,
            }),
    }
}

pub open spec fn wal_issue_key(w: WalHealthSnapshot, t: u64) -> IssueKey {
    let shape = wal_issue_shape(w);
    (
        "disk:wal"@,
        "database"@,
        shape.1,
        shape.0,
        shape.2,
        match w.last_maintenance_error {
            Some(e) => Some(e@),
            None => opt_view(w.inventory_error),
        },
        match w.last_maintenance_failure_at_ms {
            Some(f) => Some(f),
            None => Some(t),
        },
        reveal_logs_key(),
    )
}

fn wal_figures_text(size: Option<u64>, age: Option<u64>) -> (r: String)
    ensures
        r@ == " ("@ + decimal(or_zero(size)) + " bytes, age "@ + decimal(or_zero(age)) + " ms)."@,
{
    let s = u64_text(match size { Some(v) => v, None => 0 });
    let a = u64_text(match age { Some(v) => v, None => 0 });
    let head = concat3(" (", s.as_str(), " bytes, age ");
    concat3(head.as_str(), a.as_str(), " ms).")
}

fn wal_issue(w: &WalHealthSnapshot, t: u64) -> (r: HealthIssue)
    ensures
        key_of(r) == wal_issue_key(*w, t),
{
    let (blocking, title, summary) = match w.state {
        WalState::Blocked => (true, "Database maintenance is blocked", String::from_str(
            "A reader is holding the SQLite WAL open. Close other Photoproof windows, then relaunch if it does not clear.",
        )),
        WalState::Critical => {
            let f = wal_figures_text(w.size_bytes, w.age_ms);
            (false, "Database WAL needs attention", concat2("The WAL is critically large or old", f.as_str()))
        },
        WalState::Warning => {
            let f = wal_figures_text(w.size_bytes, w.age_ms);
            (false, "Database WAL maintenance is overdue",
                concat2("The WAL is larger or older than its maintenance threshold", f.as_str()))
        },
        _ => (false, "Database WAL could not be inspected", match &w.inventory_error {
            Some(e) => e.clone(),
            None => String::from_str("WAL inventory is unavailable."),
        }),
    };
    HealthIssue {
        id: String::from_str("disk:wal"),
        subsystem: "database",
        title: String::from_str(title),
        blocking,
        summary,
        last_error: match &w.last_maintenance_error {
            Some(e) => Some(e.clone()),
            None => copy_opt(&w.inventory_error),
        },
        last_error_at_ms: match w.last_maintenance_failure_at_ms {
            Some(f) => Some(f),
            None => Some(t),
        },
        action: reveal_logs_action(),
    }
}

pub open spec fn inventory_issue_key(s: DiskStoreStatus, t: u64) -> IssueKey {
    (
        "disk-inventory:"@ + s.name@,
        "cache"@,
        s.name@ + " inventory is incomplete"@,
        false,
        decimal(s.inventory_errors as nat) + " paths could not be inspected; reported usage is a lower bound."@,
        None,
        Some(t),
        if s.name@ == "previews"@ || s.name@ == "full-decode-cache"@ {
            ("rebuild-previews"@, "Rebuild previews"@, None)
        } else {
            reveal_logs_key()
        },
    )
}

pub open spec fn inventory_keys(stores: Seq<DiskStoreStatus>, t: u64) -> Seq<IssueKey>
    decreases stores.len(),
{
    if stores.len() == 0 {
        seq![]
    } else {
        let p = inventory_keys(stores.drop_last(), t);
        if stores.last().inventory_errors > 0 { p.push(inventory_issue_key(stores.last(), t)) } else { p }
    }
}

/// The disk issues: low space on either volume (blocking only when the
/// application-data volume is critical), the WAL when it is not healthy
/// (blocking only when a reader holds it), and every store whose inventory
/// is a lower bound.
pub open spec fn disk_keys(d: DiskHealthSnapshot, t: u64) -> Seq<IssueKey> {
    capacity_keys(d, t)
        + (if d.wal.state != WalState::Healthy { seq![wal_issue_key(d.wal, t)] } else { seq![] })
        + inventory_keys(d.stores@, t)
}

pub fn disk_issues(observed_at_ms: u64, disk: &DiskHealthSnapshot, issues: &mut Vec<HealthIssue>)
    ensures
        keys(final(issues)@) == keys(old(issues)@) + disk_keys(*disk, observed_at_ms),
{
    let t = observed_at_ms;
    let ghost start = keys(issues@);
    let ghost cap = capacity_keys(*disk, t);
    if disk.app_data_state != CapacityState::Healthy {
        let available = store_available(&disk.stores, "database-and-wal");
        let blocking = disk.app_data_state == CapacityState::Critical;
        push_issue(issues, capacity_issue("app-data", "Application-data disk space", blocking, available, disk.derived_work_paused, t));
    }
    if disk.models_state != CapacityState::Healthy {
        let available = store_available(&disk.stores, "models");
        push_issue(issues, capacity_issue("models", "Model disk space", false, available, disk.derived_work_paused, t));
    }
    assert(keys(issues@) =~= start + cap);
    if disk.wal.state != WalState::Healthy {
        push_issue(issues, wal_issue(&disk.wal, t));
    }
    let ghost mid = keys(issues@);
    assert(mid =~= start + cap + (if disk.wal.state != WalState::Healthy { seq![wal_issue_key(disk.wal, t)] } else { seq![] }));
    let n = disk.stores.len();
    for i in 0..n
        invariant
            n == disk.stores@.len(),
            keys(issues@) == mid + inventory_keys(disk.stores@.subrange(0, i as int), t),
    {
        proof {
            assert(disk.stores@.subrange(0, i + 1).drop_last() =~= disk.stores@.subrange(0, i as int));
        }
        let s = &disk.stores[i];
        if s.inventory_errors > 0 {
            let count = u64_text(s.inventory_errors);
            let rebuild = str_eq(s.name, "previews") || str_eq(s.name, "full-decode-cache");
            push_issue(issues, HealthIssue {
                id: concat2("disk-inventory:", s.name),
                subsystem: "cache",
                title: concat2(s.name, " inventory is incomplete"),
                blocking: false,
                summary: concat2(count.as_str(), " paths could not be inspected; reported usage is a lower bound."),
                last_error: None,
                last_error_at_ms: Some(t),
                action: if rebuild {
                    HealthAction { kind: "rebuild-previews", label: "Rebuild previews", target_id: None }
                } else {
                    reveal_logs_action()
                },
            });
            proof {
                assert(keys(issues@) =~= mid + inventory_keys(disk.stores@.subrange(0, i + 1), t));
            }
        }
    }
    proof {
        assert(disk.stores@.subrange(0, n as int) =~= disk.stores@);
        assert(keys(issues@) =~= keys(old(issues)@) + disk_keys(*disk, t));
    }
}


// ---------------------------------------------------------------------------
// Runtime
// ---------------------------------------------------------------------------

pub open spec fn retry_runtime_key() -> (Seq<char>, Seq<char>, Option<Seq<char>>) {
    ("retry-runtime"@, "Restart runtime"@, None)
}

fn retry_runtime_action() -> (r: HealthAction)
    ensures
        action_key(r) == retry_runtime_key(),
{
    HealthAction { kind: "retry-runtime", label: "Restart runtime", target_id: None }
}

pub open spec fn blocked_keys(id: Seq<char>, title: Seq<char>, error: Option<String>, t: u64) -> Seq<IssueKey> {
    match error {
        Some(e) => seq![("runtime:"@ + id, "runtime"@, title, false, e@, Some(e@), Some(t), retry_runtime_key())],
        None => seq![],
    }
}

pub open spec fn slot_keys(id: Seq<char>, title: Seq<char>, slot: EmbedderSlot, t: u64) -> Seq<IssueKey> {
    if slot.state == EmbedderState::Failed {
        seq![(
            "runtime:"@ + id,
            "runtime"@,
            title,
            false,
            match slot.error {
                Some(e) => e@,
                None => "The isolated model helper failed."@,
            },
            opt_view(slot.error),
            Some(t),
            retry_runtime_key(),
        )]
    } else {
        seq![]
    }
}

pub open spec fn capability_keys(r: RuntimeStatus, t: u64) -> Seq<IssueKey> {
    if r.capability_state@ == "failed"@ {
        seq![(
            "runtime:hardware-detection"@,
            "runtime"@,
            "Hardware detection failed"@,
            false,
            match r.capability_summary {
                Some(x) => x@,
                None => "The safe CPU runtime remains available."@,
            },
            opt_view(r.capability_summary),
            Some(t),
            ("redetect-runtime"@, "Re-detect hardware"@, None),
        )]
    } else {
        seq![]
    }
}

/// The error a model row reports: its registry failure before its download
/// failure.
pub open spec fn model_error(m: ModelRow) -> Option<Seq<char>> {
    match m.registry_error {
        Some(e) => Some(e@),
        None => opt_view(m.error),
    }
}

pub open spec fn model_issue_key(m: ModelRow, t: u64) -> IssueKey {
    let e = model_error(m).unwrap();
    ("model:"@ + m.id@, "models"@, m.id@ + " needs verification"@, false, e, Some(e), Some(t),
        ("verify-model"@, "Verify model"@, Some(m.id@)))
}

pub open spec fn model_keys(models: Seq<ModelRow>, t: u64) -> Seq<IssueKey>
    decreases models.len(),
{
    if models.len() == 0 {
        seq![]
    } else {
        let p = model_keys(models.drop_last(), t);
        if model_error(models.last()) is Some { p.push(model_issue_key(models.last(), t)) } else { p }
    }
}

pub open spec fn runtime_control_reported(c: RuntimeControlFile) -> bool {
    ||| c.errors@.len() > 0
    ||| c.validation_warnings@.len() > 0
    ||| match c.recovery {
        Some(r) => r.quarantined@.len() > 0 || r.warnings@.len() > 0,
        None => false,
    }
}

pub open spec fn runtime_control_error(c: RuntimeControlFile) -> Seq<char> {
    if c.errors@.len() > 0 {
        c.errors@[0].detail@
    } else if c.validation_warnings@.len() > 0 {
        c.validation_warnings@[0]@
    } else {
        "Runtime configuration was recovered."@
    }
}

pub open spec fn runtime_control_key(c: RuntimeControlFile, t: u64) -> IssueKey {
    (
        "runtime-control:"@ + c.name@,
        "configuration"@,
        c.name@ + " runtime configuration needs attention"@,
        false,
        runtime_control_error(c),
        Some(runtime_control_error(c)),
        Some(t),
        spec_restore_action(c.name@),
    )
}

pub open spec fn runtime_control_keys(cs: Seq<RuntimeControlFile>, t: u64) -> Seq<IssueKey>
    decreases cs.len(),
{
    if cs.len() == 0 {
        seq![]
    } else {
        let p = runtime_control_keys(cs.drop_last(), t);
        if runtime_control_reported(cs.last()) { p.push(runtime_control_key(cs.last(), t)) } else { p }
    }
}

/// The runtime issues, in order: blocked speech and language runtimes, failed
/// image and text embedders, failed hardware detection, models that need
/// verification, and runtime control files that were recovered or warned.
pub open spec fn runtime_keys(r: RuntimeStatus, t: u64) -> Seq<IssueKey> {
    blocked_keys("asr"@, "Speech model runtime is blocked"@, r.asr_blocked, t)
        + blocked_keys("llm"@, "Language model runtime is blocked"@, r.llm_blocked, t)
        + slot_keys("clip"@, "Image search model failed"@, r.clip, t)
        + slot_keys("text-embedder"@, "Text search model failed"@, r.text_embedder, t)
        + capability_keys(r, t)
        + model_keys(r.models@, t)
        + runtime_control_keys(r.control_files@, t)
}

fn push_blocked(issues: &mut Vec<HealthIssue>, id: &str, title: &str, error: &Option<String>, t: u64)
    ensures
        keys(final(issues)@) == keys(old(issues)@) + blocked_keys(id@, title@, *error, t),
{
    match error {
        Some(e) => {
            push_issue(issues, HealthIssue {
                id: concat2("runtime:", id),
                subsystem: "runtime",
                title: String::from_str(title),
                blocking: false,
                summary: e.clone(),
                last_error: Some(e.clone()),
                last_error_at_ms: Some(t),
                action: retry_runtime_action(),
            });
        },
        None => {},
    }
    assert(keys(issues@) =~= keys(old(issues)@) + blocked_keys(id@, title@, *error, t));
}

fn push_slot(issues: &mut Vec<HealthIssue>, id: &str, title: &str, slot: &EmbedderSlot, t: u64)
    ensures
        keys(final(issues)@) == keys(old(issues)@) + slot_keys(id@, title@, *slot, t),
{
    if slot.state == EmbedderState::Failed {
        push_issue(issues, HealthIssue {
            id: concat2("runtime:", id),
            subsystem: "runtime",
            title: String::from_str(title),
            blocking: false,
            summary: match &slot.error {
                Some(e) => e.clone(),
                None => String::from_str("The isolated model helper failed."),
            },
            last_error: copy_opt(&slot.error),
            last_error_at_ms: Some(t),
            action: retry_runtime_action(),
        });
    }
    assert(keys(issues@) =~= keys(old(issues)@) + slot_keys(id@, title@, *slot, t));
}

fn push_capability(issues: &mut Vec<HealthIssue>, runtime: &RuntimeStatus, t: u64)
    ensures
        keys(final(issues)@) == keys(old(issues)@) + capability_keys(*runtime, t),
{
    if str_eq(runtime.capability_state.as_str(), "failed") {
        push_issue(issues, HealthIssue {
            id: String::from_str("runtime:hardware-detection"),
            subsystem: "runtime",
            title: String::from_str("Hardware detection failed"),
            blocking: false,
            summary: match &runtime.capability_summary {
                Some(x) => x.clone(),
                None => String::from_str("The safe CPU runtime remains available."),
            },
            last_error: copy_opt(&runtime.capability_summary),
            last_error_at_ms: Some(t),
            action: HealthAction { kind: "redetect-runtime", label: "Re-detect hardware", target_id: None },
        });
    }
    assert(keys(issues@) =~= keys(old(issues)@) + capability_keys(*runtime, t));
}

fn push_models(issues: &mut Vec<HealthIssue>, models: &Vec<ModelRow>, t: u64)
    ensures
        keys(final(issues)@) == keys(old(issues)@) + model_keys(models@, t),
{
    let ghost k1 = keys(issues@);
    let n = models.len();
    for i in 0..n
        invariant
            n == models@.len(),
            keys(issues@) == k1 + model_keys(models@.subrange(0, i as int), t),
    {
        proof {
            assert(models@.subrange(0, i + 1).drop_last() =~= models@.subrange(0, i as int));
        }
        let m = &models[i];
        let error = match &m.registry_error {
            Some(e) => Some(e.clone()),
            None => copy_opt(&m.error),
        };
        match error {
            Some(e) => {
                push_issue(issues, HealthIssue {
                    id: concat2("model:", m.id.as_str()),
                    subsystem: "models",
                    title: concat2(m.id.as_str(), " needs verification"),
                    blocking: false,
                    summary: e.clone(),
                    last_error: Some(e),
                    last_error_at_ms: Some(t),
                    action: HealthAction { kind: "verify-model", label: "Verify model", target_id: Some(m.id.clone()) },
                });
                proof {
                    assert(keys(issues@) =~= k1 + model_keys(models@.subrange(0, i + 1), t));
                }
            },
            None => {},
        }
    }
    proof {
        assert(models@.subrange(0, n as int) =~= models@);
    }
}

fn push_runtime_controls(issues: &mut Vec<HealthIssue>, controls: &Vec<RuntimeControlFile>, t: u64)
    ensures
        keys(final(issues)@) == keys(old(issues)@) + runtime_control_keys(controls@, t),
{
    let ghost k2 = keys(issues@);
    let c = controls.len();
    for j in 0..c
        invariant
            c == controls@.len(),
            keys(issues@) == k2 + runtime_control_keys(controls@.subrange(0, j as int), t),
    {
        proof {
            assert(controls@.subrange(0, j + 1).drop_last() =~= controls@.subrange(0, j as int));
        }
        let f = &controls[j];
        let recovered = match &f.recovery {
            Some(r) => r.quarantined.len() > 0 || r.warnings.len() > 0,
            None => false,
        };
        if f.errors.len() > 0 || f.validation_warnings.len() > 0 || recovered {
            let error = if f.errors.len() > 0 {
                f.errors[0].detail.clone()
            } else if f.validation_warnings.len() > 0 {
                f.validation_warnings[0].clone()
            } else {
                String::from_str("Runtime configuration was recovered.")
            };
            push_issue(issues, HealthIssue {
                id: concat2("runtime-control:", f.name.as_str()),
                subsystem: "configuration",
                title: concat2(f.name.as_str(), " runtime configuration needs attention"),
                blocking: false,
                summary: error.clone(),
                last_error: Some(error),
                last_error_at_ms: Some(t),
                action: restore_defaults_action(f.name.as_str()),
            });
            proof {
                assert(keys(issues@) =~= k2 + runtime_control_keys(controls@.subrange(0, j + 1), t));
            }
        }
    }
    proof {
        assert(controls@.subrange(0, c as int) =~= controls@);
    }
}

fn runtime_issues(observed_at_ms: u64, runtime: &RuntimeStatus, issues: &mut Vec<HealthIssue>)
    ensures
        keys(final(issues)@) == keys(old(issues)@) + runtime_keys(*runtime, observed_at_ms),
{
    let t = observed_at_ms;
    push_blocked(issues, "asr", "Speech model runtime is blocked", &runtime.asr_blocked, t);
    push_blocked(issues, "llm", "Language model runtime is blocked", &runtime.llm_blocked, t);
    push_slot(issues, "clip", "Image search model failed", &runtime.clip, t);
    push_slot(issues, "text-embedder", "Text search model failed", &runtime.text_embedder, t);
    push_capability(issues, runtime, t);
    push_models(issues, &runtime.models, t);
    push_runtime_controls(issues, &runtime.control_files, t);
    assert(keys(issues@) =~= keys(old(issues)@) + runtime_keys(*runtime, t));
}

// ---------------------------------------------------------------------------
// The whole projection
// ---------------------------------------------------------------------------

pub open spec fn opt_seq(o: Option<IssueKey>) -> Seq<IssueKey> {
    match o {
        Some(k) => seq![k],
        None => seq![],
    }
}

pub open spec fn diagnostics_keys(d: DiagnosticsStatus, t: u64) -> Seq<IssueKey> {
    match d.error {
        Some(e) => seq![("diagnostics:logging"@, "diagnostics"@, "Diagnostic logging is unavailable"@, false, e@, Some(e@),
            Some(t), reveal_logs_key())],
        None => seq![],
    }
}

pub open spec fn repair_reported(r: RepairIntegritySnapshot) -> bool {
    r.state@ == "degraded"@ || r.state@ == "cancelled"@ || r.errors@.len() > 0
}

pub open spec fn repair_summary(r: RepairIntegritySnapshot) -> Seq<char> {
    if r.errors@.len() > 0 {
        r.errors@[0]@
    } else {
        "Integrity repair ended "@ + r.state@ + "."@
    }
}

pub open spec fn repair_keys(r: RepairIntegritySnapshot, t: u64) -> Seq<IssueKey> {
    if repair_reported(r) {
        seq![(
            "repair:integrity"@,
            "repair"@,
            "Library integrity repair needs attention"@,
            false,
            repair_summary(r),
            Some(repair_summary(r)),
            match r.completed_at_ms {
                Some(c) => Some(c),
                None => Some(t),
            },
            ("retry-repair"@, "Retry repair"@, None),
        )]
    } else {
        seq![]
    }
}

/// The issue list, in its fixed order: database, volume inventory,
/// subsystems, roots, failed tasks, recovered shell control files, disk,
/// runtime, diagnostics, and integrity repair.
pub open spec fn spec_application_issues(
    t: u64,
    database: DatabaseStatus,
    volume_inventory_error: Option<Seq<char>>,
    subsystems: Seq<SubsystemStatus>,
    roots: Seq<RootStatus>,
    tasks: Seq<BackgroundTaskStatus>,
    control_files: Seq<ShellControlFileStatus>,
    disk: DiskHealthSnapshot,
    runtime: RuntimeStatus,
    diagnostics: DiagnosticsStatus,
    repair: RepairIntegritySnapshot,
) -> Seq<IssueKey> {
    opt_seq(spec_database_issue(t, database))
        + (match volume_inventory_error {
            Some(e) => seq![spec_volume_issue(t, e)],
            None => seq![],
        })
        + subsystem_keys(subsystems, t)
        + root_keys(roots, t)
        + task_keys(tasks)
        + control_keys(control_files, t)
        + disk_keys(disk, t)
        + runtime_keys(runtime, t)
        + diagnostics_keys(diagnostics, t)
        + repair_keys(repair, t)
}

pub open spec fn opt_str_seq(o: Option<&str>) -> Option<Seq<char>> {
    match o {
        Some(s) => Some(s@),
        None => None,
    }
}

fn push_diagnostics(issues: &mut Vec<HealthIssue>, diagnostics: &DiagnosticsStatus, t: u64)
    ensures
        keys(final(issues)@) == keys(old(issues)@) + diagnostics_keys(*diagnostics, t),
{
    match &diagnostics.error {
        Some(e) => {
            push_issue(issues, HealthIssue {
                id: String::from_str("diagnostics:logging"),
                subsystem: "diagnostics",
                title: String::from_str("Diagnostic logging is unavailable"),
                blocking: false,
                summary: e.clone(),
                last_error: Some(e.clone()),
                last_error_at_ms: Some(t),
                action: reveal_logs_action(),
            });
        },
        None => {},
    }
    assert(keys(issues@) =~= keys(old(issues)@) + diagnostics_keys(*diagnostics, t));
}

fn push_repair(issues: &mut Vec<HealthIssue>, r: &RepairIntegritySnapshot, t: u64)
    ensures
        keys(final(issues)@) == keys(old(issues)@) + repair_keys(*r, t),
{
    if str_eq(r.state, "degraded") || str_eq(r.state, "cancelled") || r.errors.len() > 0 {
        let summary = if r.errors.len() > 0 {
            r.errors[0].clone()
        } else {
            concat3("Integrity repair ended ", r.state, ".")
        };
        push_issue(issues, HealthIssue {
            id: String::from_str("repair:integrity"),
            subsystem: "repair",
            title: String::from_str("Library integrity repair needs attention"),
            blocking: false,
            summary: summary.clone(),
            last_error: Some(summary),
            last_error_at_ms: match r.completed_at_ms {
                Some(c) => Some(c),
                None => Some(t),
            },
            action: HealthAction { kind: "retry-repair", label: "Retry repair", target_id: None },
        });
    }
    assert(keys(issues@) =~= keys(old(issues)@) + repair_keys(*r, t));
}

/// One actionable list of issues from the detailed health snapshots.
pub fn application_issues(
    observed_at_ms: u64,
    database: &DatabaseStatus,
    volume_inventory_error: Option<&str>,
    subsystems: &Vec<SubsystemStatus>,
    roots: &Vec<RootStatus>,
    tasks: &Vec<BackgroundTaskStatus>,
    control_files: &Vec<ShellControlFileStatus>,
    disk: &DiskHealthSnapshot,
    runtime: &RuntimeStatus,
    diagnostics: &DiagnosticsStatus,
    repair_integrity: &RepairIntegritySnapshot,
) -> (r: Vec<HealthIssue>)
    ensures
        keys(r@) == spec_application_issues(observed_at_ms, *database, opt_str_seq(volume_inventory_error),
            subsystems@, roots@, tasks@, control_files@, *disk, *runtime, *diagnostics, *repair_integrity),
{
    let t = observed_at_ms;
    let mut issues: Vec<HealthIssue> = Vec::new();
    match database_issue(t, database) {
        Some(i) => push_issue(&mut issues, i),
        None => {},
    }
    let ghost p0 = opt_seq(spec_database_issue(t, *database));
    assert(keys(issues@) =~= p0);
    match volume_inventory_error {
        Some(e) => push_issue(&mut issues, volume_issue(t, e)),
        None => {},
    }
    let ghost p1 = p0 + (match opt_str_seq(volume_inventory_error) {
        Some(e) => seq![spec_volume_issue(t, e)],
        None => seq![],
    });
    assert(keys(issues@) =~= p1);
    append_issues(&mut issues, subsystem_issues(subsystems, t));
    append_issues(&mut issues, root_issues(roots, t));
    append_issues(&mut issues, task_issues(tasks));
    append_issues(&mut issues, control_issues(control_files, t));
    disk_issues(t, disk, &mut issues);
    runtime_issues(t, runtime, &mut issues);
    push_diagnostics(&mut issues, diagnostics, t);
    push_repair(&mut issues, repair_integrity, t);
    issues
}


// ---------------------------------------------------------------------------
// Laws
// ---------------------------------------------------------------------------

pub open spec fn any_blocking(s: Seq<IssueKey>) -> bool {
    exists|i: int| #![trigger s[i]] 0 <= i < s.len() && s[i].3
}

proof fn lemma_blocking_push(s: Seq<IssueKey>, k: IssueKey)
    ensures
        any_blocking(s.push(k)) == (any_blocking(s) || k.3),
{
    let p = s.push(k);
    if any_blocking(s) {
        let i = choose|i: int| #![trigger s[i]] 0 <= i < s.len() && s[i].3;
        assert(p[i] == s[i]);
    }
    if k.3 {
        assert(p[s.len() as int] == k);
    }
    if any_blocking(p) {
        let i = choose|i: int| #![trigger p[i]] 0 <= i < p.len() && p[i].3;
        if i < s.len() {
            assert(p[i] == s[i]);
        }
    }
}

proof fn lemma_blocking_add(a: Seq<IssueKey>, b: Seq<IssueKey>)
    ensures
        any_blocking(a + b) == (any_blocking(a) || any_blocking(b)),
{
    let c = a + b;
    if any_blocking(a) {
        let i = choose|i: int| #![trigger a[i]] 0 <= i < a.len() && a[i].3;
        assert(c[i] == a[i]);
    }
    if any_blocking(b) {
        let i = choose|i: int| #![trigger b[i]] 0 <= i < b.len() && b[i].3;
        assert(c[a.len() + i] == b[i]);
    }
    if any_blocking(c) {
        let i = choose|i: int| #![trigger c[i]] 0 <= i < c.len() && c[i].3;
        if i < a.len() {
            assert(c[i] == a[i]);
        } else {
            assert(c[i] == b[i - a.len()]);
        }
    }
}

proof fn lemma_subsystem_keys(subs: Seq<SubsystemStatus>, t: u64)
    ensures
        any_blocking(subsystem_keys(subs, t))
            == exists|i: int| #![trigger subs[i]] 0 <= i < subs.len() && subsystem_reported(subs[i]) && subs[i].blocking,
        subsystem_keys(subs, t).len() == 0
            <==> forall|i: int| #![trigger subs[i]] 0 <= i < subs.len() ==> !subsystem_reported(subs[i]),
    decreases subs.len(),
{
    if subs.len() > 0 {
        let d = subs.drop_last();
        lemma_subsystem_keys(d, t);
        lemma_blocking_push(subsystem_keys(d, t), subsystem_issue_key(subs.last(), t));
        assert forall|i: int| 0 <= i < d.len() implies #[trigger] d[i] == subs[i] by {}
        if exists|i: int| #![trigger subs[i]] 0 <= i < subs.len() && subsystem_reported(subs[i]) && subs[i].blocking {
            let i = choose|i: int| #![trigger subs[i]] 0 <= i < subs.len() && subsystem_reported(subs[i]) && subs[i].blocking;
            if i < d.len() {
                assert(d[i] == subs[i]);
            }
        }
        if !subsystem_reported(subs.last()) && forall|i: int| #![trigger d[i]] 0 <= i < d.len() ==> !subsystem_reported(d[i]) {
            assert forall|i: int| #![trigger subs[i]] 0 <= i < subs.len() implies !subsystem_reported(subs[i]) by {
                if i < d.len() {
                    assert(d[i] == subs[i]);
                }
            }
        }
    }
}

proof fn lemma_root_keys(roots: Seq<RootStatus>, t: u64)
    ensures
        !any_blocking(root_keys(roots, t)),
        root_keys(roots, t).len() == 0
            <==> forall|i: int| #![trigger roots[i]] 0 <= i < roots.len() ==> !root_reported(roots[i]),
    decreases roots.len(),
{
    if roots.len() > 0 {
        let d = roots.drop_last();
        lemma_root_keys(d, t);
        lemma_blocking_push(root_keys(d, t), root_issue_key(roots.last(), t));
        assert forall|i: int| 0 <= i < d.len() implies #[trigger] d[i] == roots[i] by {}
        if !root_reported(roots.last()) && forall|i: int| #![trigger d[i]] 0 <= i < d.len() ==> !root_reported(d[i]) {
            assert forall|i: int| #![trigger roots[i]] 0 <= i < roots.len() implies !root_reported(roots[i]) by {
                if i < d.len() {
                    assert(d[i] == roots[i]);
                }
            }
        }
    }
}

proof fn lemma_task_keys(tasks: Seq<BackgroundTaskStatus>)
    ensures
        !any_blocking(task_keys(tasks)),
        task_keys(tasks).len() == 0
            <==> forall|i: int| #![trigger tasks[i]] 0 <= i < tasks.len() ==> !task_reported(tasks[i]),
    decreases tasks.len(),
{
    if tasks.len() > 0 {
        let d = tasks.drop_last();
        lemma_task_keys(d);
        lemma_blocking_push(task_keys(d), task_issue_key(tasks.last()));
        assert forall|i: int| 0 <= i < d.len() implies #[trigger] d[i] == tasks[i] by {}
        if !task_reported(tasks.last()) && forall|i: int| #![trigger d[i]] 0 <= i < d.len() ==> !task_reported(d[i]) {
            assert forall|i: int| #![trigger tasks[i]] 0 <= i < tasks.len() implies !task_reported(tasks[i]) by {
                if i < d.len() {
                    assert(d[i] == tasks[i]);
                }
            }
        }
    }
}

proof fn lemma_control_keys(cs: Seq<ShellControlFileStatus>, t: u64)
    ensures
        !any_blocking(control_keys(cs, t)),
        control_keys(cs, t).len() == 0
            <==> forall|i: int| #![trigger cs[i]] 0 <= i < cs.len() ==> cs[i].state@ == "healthy"@,
    decreases cs.len(),
{
    if cs.len() > 0 {
        let d = cs.drop_last();
        lemma_control_keys(d, t);
        lemma_blocking_push(control_keys(d, t), control_issue_key(cs.last(), t));
        assert forall|i: int| 0 <= i < d.len() implies #[trigger] d[i] == cs[i] by {}
        if cs.last().state@ == "healthy"@ && forall|i: int| #![trigger d[i]] 0 <= i < d.len() ==> d[i].state@ == "healthy"@ {
            assert forall|i: int| #![trigger cs[i]] 0 <= i < cs.len() implies cs[i].state@ == "healthy"@ by {
                if i < d.len() {
                    assert(d[i] == cs[i]);
                }
            }
        }
    }
}

proof fn lemma_inventory_keys(stores: Seq<DiskStoreStatus>, t: u64)
    ensures
        !any_blocking(inventory_keys(stores, t)),
        inventory_keys(stores, t).len() == 0
            <==> forall|i: int| #![trigger stores[i]] 0 <= i < stores.len() ==> stores[i].inventory_errors == 0,
    decreases stores.len(),
{
    if stores.len() > 0 {
        let d = stores.drop_last();
        lemma_inventory_keys(d, t);
        lemma_blocking_push(inventory_keys(d, t), inventory_issue_key(stores.last(), t));
        assert forall|i: int| 0 <= i < d.len() implies #[trigger] d[i] == stores[i] by {}
        if stores.last().inventory_errors == 0 && forall|i: int| #![trigger d[i]] 0 <= i < d.len() ==> d[i].inventory_errors == 0 {
            assert forall|i: int| #![trigger stores[i]] 0 <= i < stores.len() implies stores[i].inventory_errors == 0 by {
                if i < d.len() {
                    assert(d[i] == stores[i]);
                }
            }
        }
    }
}

proof fn lemma_model_keys(models: Seq<ModelRow>, t: u64)
    ensures
        !any_blocking(model_keys(models, t)),
        model_keys(models, t).len() == 0
            <==> forall|i: int| #![trigger models[i]] 0 <= i < models.len() ==> model_error(models[i]) is None,
    decreases models.len(),
{
    if models.len() > 0 {
        let d = models.drop_last();
        lemma_model_keys(d, t);
        lemma_blocking_push(model_keys(d, t), model_issue_key(models.last(), t));
        assert forall|i: int| 0 <= i < d.len() implies #[trigger] d[i] == models[i] by {}
        if model_error(models.last()) is None && forall|i: int| #![trigger d[i]] 0 <= i < d.len() ==> model_error(d[i]) is None {
            assert forall|i: int| #![trigger models[i]] 0 <= i < models.len() implies model_error(models[i]) is None by {
                if i < d.len() {
                    assert(d[i] == models[i]);
                }
            }
        }
    }
}

proof fn lemma_runtime_control_keys(cs: Seq<RuntimeControlFile>, t: u64)
    ensures
        !any_blocking(runtime_control_keys(cs, t)),
        runtime_control_keys(cs, t).len() == 0
            <==> forall|i: int| #![trigger cs[i]] 0 <= i < cs.len() ==> !runtime_control_reported(cs[i]),
    decreases cs.len(),
{
    if cs.len() > 0 {
        let d = cs.drop_last();
        lemma_runtime_control_keys(d, t);
        lemma_blocking_push(runtime_control_keys(d, t), runtime_control_key(cs.last(), t));
        assert forall|i: int| 0 <= i < d.len() implies #[trigger] d[i] == cs[i] by {}
        if !runtime_control_reported(cs.last()) && forall|i: int| #![trigger d[i]] 0 <= i < d.len() ==> !runtime_control_reported(d[i]) {
            assert forall|i: int| #![trigger cs[i]] 0 <= i < cs.len() implies !runtime_control_reported(cs[i]) by {
                if i < d.len() {
                    assert(d[i] == cs[i]);
                }
            }
        }
    }
}

/// Nothing in the runtime status asks for attention.
pub open spec fn runtime_quiet(r: RuntimeStatus) -> bool {
    &&& r.asr_blocked is None
    &&& r.llm_blocked is None
    &&& r.clip.state != EmbedderState::Failed
    &&& r.text_embedder.state != EmbedderState::Failed
    &&& r.capability_state@ != "failed"@
    &&& forall|i: int| #![trigger r.models@[i]] 0 <= i < r.models@.len() ==> model_error(r.models@[i]) is None
    &&& forall|i: int| #![trigger r.control_files@[i]] 0 <= i < r.control_files@.len()
        ==> !runtime_control_reported(r.control_files@[i])
}

/// Both volumes have room, the WAL is healthy and every store was inventoried whole.
pub open spec fn disk_quiet(d: DiskHealthSnapshot) -> bool {
    &&& d.app_data_state == CapacityState::Healthy
    &&& d.models_state == CapacityState::Healthy
    &&& d.wal.state == WalState::Healthy
    &&& forall|i: int| #![trigger d.stores@[i]] 0 <= i < d.stores@.len() ==> d.stores@[i].inventory_errors == 0
}

/// Every snapshot reports its healthy state.
pub open spec fn all_quiet(
    database: DatabaseStatus,
    volume_inventory_error: Option<Seq<char>>,
    subsystems: Seq<SubsystemStatus>,
    roots: Seq<RootStatus>,
    tasks: Seq<BackgroundTaskStatus>,
    control_files: Seq<ShellControlFileStatus>,
    disk: DiskHealthSnapshot,
    runtime: RuntimeStatus,
    diagnostics: DiagnosticsStatus,
    repair: RepairIntegritySnapshot,
) -> bool {
    &&& database.state@ == "healthy"@
    &&& volume_inventory_error is None
    &&& forall|i: int| #![trigger subsystems[i]] 0 <= i < subsystems.len() ==> !subsystem_reported(subsystems[i])
    &&& forall|i: int| #![trigger roots[i]] 0 <= i < roots.len() ==> !root_reported(roots[i])
    &&& forall|i: int| #![trigger tasks[i]] 0 <= i < tasks.len() ==> !task_reported(tasks[i])
    &&& forall|i: int| #![trigger control_files[i]] 0 <= i < control_files.len() ==> control_files[i].state@ == "healthy"@
    &&& disk_quiet(disk)
    &&& runtime_quiet(runtime)
    &&& diagnostics.error is None
    &&& !repair_reported(repair)
}

/// The issue list is empty exactly when every snapshot it is projected from
/// reports its healthy state: nothing unhealthy goes unreported, and a
/// healthy application shows no issue.
pub proof fn law_no_issues_iff_all_healthy(
    t: u64,
    database: DatabaseStatus,
    volume_inventory_error: Option<Seq<char>>,
    subsystems: Seq<SubsystemStatus>,
    roots: Seq<RootStatus>,
    tasks: Seq<BackgroundTaskStatus>,
    control_files: Seq<ShellControlFileStatus>,
    disk: DiskHealthSnapshot,
    runtime: RuntimeStatus,
    diagnostics: DiagnosticsStatus,
    repair: RepairIntegritySnapshot,
)
    ensures
        spec_application_issues(t, database, volume_inventory_error, subsystems, roots, tasks, control_files, disk,
            runtime, diagnostics, repair).len() == 0
        <==> all_quiet(database, volume_inventory_error, subsystems, roots, tasks, control_files, disk, runtime,
            diagnostics, repair),
{
    lemma_subsystem_keys(subsystems, t);
    lemma_root_keys(roots, t);
    lemma_task_keys(tasks);
    lemma_control_keys(control_files, t);
    lemma_inventory_keys(disk.stores@, t);
    lemma_model_keys(runtime.models@, t);
    lemma_runtime_control_keys(runtime.control_files@, t);
}

/// An issue is blocking only for an unavailable database, a critical
/// application-data volume, a WAL held by a reader, or a reported subsystem
/// that is itself blocking; each of those always raises a blocking issue.
pub proof fn law_blocking_issues_have_a_blocking_cause(
    t: u64,
    database: DatabaseStatus,
    volume_inventory_error: Option<Seq<char>>,
    subsystems: Seq<SubsystemStatus>,
    roots: Seq<RootStatus>,
    tasks: Seq<BackgroundTaskStatus>,
    control_files: Seq<ShellControlFileStatus>,
    disk: DiskHealthSnapshot,
    runtime: RuntimeStatus,
    diagnostics: DiagnosticsStatus,
    repair: RepairIntegritySnapshot,
)
    ensures
        any_blocking(spec_application_issues(t, database, volume_inventory_error, subsystems, roots, tasks,
            control_files, disk, runtime, diagnostics, repair))
        <==> (database.state@ != "healthy"@
            || disk.app_data_state == CapacityState::Critical
            || disk.wal.state == WalState::Blocked
            || exists|i: int| #![trigger subsystems[i]] 0 <= i < subsystems.len() && subsystem_reported(subsystems[i])
                && subsystems[i].blocking),
{
    let a = opt_seq(spec_database_issue(t, database));
    let b = match volume_inventory_error {
        Some(e) => seq![spec_volume_issue(t, e)],
        None => seq![],
    };
    let c = subsystem_keys(subsystems, t);
    let d = root_keys(roots, t);
    let e = task_keys(tasks);
    let f = control_keys(control_files, t);
    let g = disk_keys(disk, t);
    let h = runtime_keys(runtime, t);
    let i = diagnostics_keys(diagnostics, t);
    let j = repair_keys(repair, t);
    lemma_blocking_add(a, b);
    lemma_blocking_add(a + b, c);
    lemma_blocking_add(a + b + c, d);
    lemma_blocking_add(a + b + c + d, e);
    lemma_blocking_add(a + b + c + d + e, f);
    lemma_blocking_add(a + b + c + d + e + f, g);
    lemma_blocking_add(a + b + c + d + e + f + g, h);
    lemma_blocking_add(a + b + c + d + e + f + g + h, i);
    lemma_blocking_add(a + b + c + d + e + f + g + h + i, j);
    lemma_subsystem_keys(subsystems, t);
    lemma_root_keys(roots, t);
    lemma_task_keys(tasks);
    lemma_control_keys(control_files, t);
    if database.state@ != "healthy"@ {
        assert(a[0].3);
    }
    if let Some(x) = volume_inventory_error {
        assert(!b[0].3);
        assert(!any_blocking(b));
    }
    // disk
    let cap = capacity_keys(disk, t);
    let w = if disk.wal.state != WalState::Healthy { seq![wal_issue_key(disk.wal, t)] } else { seq![] };
    lemma_blocking_add(cap, w);
    lemma_blocking_add(cap + w, inventory_keys(disk.stores@, t));
    lemma_inventory_keys(disk.stores@, t);
    let c1 = if disk.app_data_state != CapacityState::Healthy {
        seq![capacity_issue_key("app-data"@, "Application-data disk space"@, disk.app_data_state == CapacityState::Critical,
            store_available_from(disk.stores@, "database-and-wal"@, 0), disk.derived_work_paused, t)]
    } else {
        seq![]
    };
    let c2 = if disk.models_state != CapacityState::Healthy {
        seq![capacity_issue_key("models"@, "Model disk space"@, false,
            store_available_from(disk.stores@, "models"@, 0), disk.derived_work_paused, t)]
    } else {
        seq![]
    };
    lemma_blocking_add(c1, c2);
    if disk.app_data_state != CapacityState::Healthy {
        assert(c1[0].3 == (disk.app_data_state == CapacityState::Critical));
    }
    if disk.models_state != CapacityState::Healthy {
        assert(!c2[0].3);
    }
    if disk.wal.state != WalState::Healthy {
        assert(w[0].3 == (disk.wal.state == WalState::Blocked));
    }
    // runtime
    let r1 = blocked_keys("asr"@, "Speech model runtime is blocked"@, runtime.asr_blocked, t);
    let r2 = blocked_keys("llm"@, "Language model runtime is blocked"@, runtime.llm_blocked, t);
    let r3 = slot_keys("clip"@, "Image search model failed"@, runtime.clip, t);
    let r4 = slot_keys("text-embedder"@, "Text search model failed"@, runtime.text_embedder, t);
    let r5 = capability_keys(runtime, t);
    let r6 = model_keys(runtime.models@, t);
    let r7 = runtime_control_keys(runtime.control_files@, t);
    lemma_blocking_add(r1, r2);
    lemma_blocking_add(r1 + r2, r3);
    lemma_blocking_add(r1 + r2 + r3, r4);
    lemma_blocking_add(r1 + r2 + r3 + r4, r5);
    lemma_blocking_add(r1 + r2 + r3 + r4 + r5, r6);
    lemma_blocking_add(r1 + r2 + r3 + r4 + r5 + r6, r7);
    lemma_model_keys(runtime.models@, t);
    lemma_runtime_control_keys(runtime.control_files@, t);
    if r1.len() > 0 { assert(!r1[0].3); }
    if r2.len() > 0 { assert(!r2[0].3); }
    if r3.len() > 0 { assert(!r3[0].3); }
    if r4.len() > 0 { assert(!r4[0].3); }
    if r5.len() > 0 { assert(!r5[0].3); }
    if i.len() > 0 { assert(!i[0].3); }
    if j.len() > 0 { assert(!j[0].3); }
}

} // verus!
