//! Disk-capacity health and conservative admission for derived work.
//!
//! SQLite and journals remain admitted even when space is critically low:
//! refusing the user's small truth-bearing edit would be worse than trying
//! it. Large, safely reproducible writers (previews, full decodes, vectors,
//! maintenance) pause while the app-data volume is critical. The measured
//! inputs (free bytes, the WAL's metadata, the clock, the inventory walk) are
//! read by the shell and handed to the governor as plain values.
use vstd::prelude::*;
use crate::text::{str_eq, join_path, path_join};

verus! {

/// Leave enough room for SQLite/WAL, logs, and ordinary desktop operation.
pub const WARNING_FREE_BYTES: u64 = 5 * 1024 * 1024 * 1024;
pub const CRITICAL_FREE_BYTES: u64 = 2 * 1024 * 1024 * 1024;
/// A WAL this large outside an active burst deserves attention even while the
/// containing volume still has ample capacity.
pub const WAL_WARNING_BYTES: u64 = 64 * 1024 * 1024;
pub const WAL_CRITICAL_BYTES: u64 = 512 * 1024 * 1024;
/// Idle maintenance is due every six hours. A non-empty WAL older than that
/// means at least one maintenance opportunity has not truncated it.
pub const WAL_WARNING_AGE_MS: u64 = 6 * 60 * 60 * 1000;
pub const WAL_CRITICAL_AGE_MS: u64 = 24 * 60 * 60 * 1000;

#[derive(Debug, Clone, Copy, PartialEq, Eq, Structural)]
pub enum CapacityState {
    Healthy,
    Warning,
    Critical,
    Unknown,
}

#[derive(Debug, Clone, Copy, PartialEq, Eq, Structural)]
pub enum WalState {
    Healthy,
    Warning,
    Critical,
    Blocked,
    Unknown,
}

/// WAL-specific operational health, kept apart from the combined database
/// inventory: capacity, a stuck reader, and a WAL that has simply missed
/// maintenance need different recovery actions.
#[derive(Debug, Clone, PartialEq, Eq)]
pub struct WalHealthSnapshot {
    pub path: String,
    pub size_bytes: Option<u64>,
    pub modified_at_ms: Option<u64>,
    pub age_ms: Option<u64>,
    pub state: WalState,
    pub warning_bytes: u64,
    pub critical_bytes: u64,
    pub warning_age_ms: u64,
    pub critical_age_ms: u64,
    pub inventory_error: Option<String>,
    pub last_maintenance_attempt_at_ms: Option<u64>,
    pub last_maintenance_success_at_ms: Option<u64>,
    pub last_maintenance_failure_at_ms: Option<u64>,
    pub last_maintenance_error: Option<String>,
    /// True only while the latest maintenance attempt is unresolved because a
    /// reader held a WAL snapshot.
    pub blocked_by_reader: bool,
}

#[derive(Debug, Clone, PartialEq, Eq)]
pub struct DiskStoreStatus {
    pub name: &'static str,
    pub path: String,
    /// `None` until the off-thread inventory has completed.
    pub used_bytes: Option<u64>,
    pub file_count: Option<u64>,
    pub available_bytes: Option<u64>,
    pub state: CapacityState,
    /// An unreadable subtree makes usage a lower bound, never a healthy zero.
    pub inventory_errors: u64,
}

#[derive(Debug, Clone, PartialEq, Eq)]
pub struct DiskHealthSnapshot {
    pub observed_at_ms: u64,
    /// Worst state across app-data and configured models volumes.
    pub state: CapacityState,
    pub app_data_state: CapacityState,
    pub models_state: CapacityState,
    pub derived_work_paused: bool,
    pub warning_free_bytes: u64,
    pub critical_free_bytes: u64,
    pub wal: WalHealthSnapshot,
    pub stores: Vec<DiskStoreStatus>,
}

/// The retained record of idle WAL maintenance.
#[derive(Debug, Clone, PartialEq, Eq)]
pub struct WalMaintenanceHistory {
    pub last_attempt_at_ms: Option<u64>,
    pub last_success_at_ms: Option<u64>,
    pub last_failure_at_ms: Option<u64>,
    pub last_error: Option<String>,
    pub blocked_by_reader: bool,
}

impl Default for WalMaintenanceHistory {
    fn default() -> (r: Self)
        ensures
            r.last_attempt_at_ms is None,
            r.last_success_at_ms is None,
            r.last_failure_at_ms is None,
            r.last_error is None,
            !r.blocked_by_reader,
    {
        WalMaintenanceHistory {
            last_attempt_at_ms: None,
            last_success_at_ms: None,
            last_failure_at_ms: None,
            last_error: None,
            blocked_by_reader: false,
        }
    }
}

/// What the metadata of the WAL path showed.
#[derive(Debug, Clone, PartialEq, Eq)]
pub enum WalProbe {
    /// A regular file of `size` bytes; `modified_at_ms` when the platform
    /// reports a modification time.
    File { size: u64, modified_at_ms: Option<u64> },
    /// Something other than a regular file sits at the path.
    NotRegularFile,
    /// Nothing is at the path: an empty WAL.
    Missing,
    /// The metadata could not be read.
    Failed(String),
}

// ---------------------------------------------------------------------------
// Thresholds
// ---------------------------------------------------------------------------

pub open spec fn spec_capacity_state(available: Option<u64>) -> CapacityState {
    match available {
        None => CapacityState::Unknown,
        Some(bytes) => if bytes < CRITICAL_FREE_BYTES {
            CapacityState::Critical
        } else if bytes < WARNING_FREE_BYTES {
            CapacityState::Warning
        } else {
            CapacityState::Healthy
        },
    }
}

/// Classify free space: strictly below the critical floor is critical,
/// strictly below the warning floor is a warning, an unmeasured volume is
/// unknown (never zero).
pub fn capacity_state(available: Option<u64>) -> (r: CapacityState)
    ensures
        r == spec_capacity_state(available),
{
    match available {
        None => CapacityState::Unknown,
        Some(bytes) => if bytes < CRITICAL_FREE_BYTES {
            CapacityState::Critical
        } else if bytes < WARNING_FREE_BYTES {
            CapacityState::Warning
        } else {
            CapacityState::Healthy
        },
    }
}

/// How bad a capacity state is; unknown ranks between healthy and warning.
pub open spec fn severity(state: CapacityState) -> nat {
    match state {
        CapacityState::Healthy => 0,
        CapacityState::Unknown => 1,
        CapacityState::Warning => 2,
        CapacityState::Critical => 3,
    }
}

pub open spec fn spec_worst_state(left: CapacityState, right: CapacityState) -> CapacityState {
    if severity(left) >= severity(right) {
        left
    } else {
        right
    }
}

fn severity_of(state: CapacityState) -> (r: u8)
    ensures
        r as nat == severity(state),
{
    match state {
        CapacityState::Healthy => 0,
        CapacityState::Unknown => 1,
        CapacityState::Warning => 2,
        CapacityState::Critical => 3,
    }
}

/// The more severe of two capacity states (the left one on a tie).
pub fn worst_state(left: CapacityState, right: CapacityState) -> (r: CapacityState)
    ensures
        r == spec_worst_state(left, right),
{
    if severity_of(left) >= severity_of(right) {
        left
    } else {
        right
    }
}

/// `worst_state` is the maximum by severity: it is one of its arguments, it
/// is at least as severe as each, and it does not depend on argument order
/// or grouping.
pub proof fn law_worst_state_is_a_maximum(a: CapacityState, b: CapacityState, c: CapacityState)
    ensures
        spec_worst_state(a, b) == a || spec_worst_state(a, b) == b,
        severity(spec_worst_state(a, b)) >= severity(a),
        severity(spec_worst_state(a, b)) >= severity(b),
        spec_worst_state(a, b) == spec_worst_state(b, a),
        spec_worst_state(spec_worst_state(a, b), c) == spec_worst_state(a, spec_worst_state(b, c)),
        spec_worst_state(a, a) == a,
{
}

/// The latest maintenance attempt failed: a failure is recorded and no
/// success is at least as recent.
pub open spec fn latest_attempt_failed(h: WalMaintenanceHistory) -> bool {
    match h.last_failure_at_ms {
        Some(failure) => match h.last_success_at_ms {
            None => true,
            Some(success) => failure > success,
        },
        None => false,
    }
}

pub open spec fn spec_wal_state(
    size_bytes: Option<u64>,
    age_ms: Option<u64>,
    has_inventory_error: bool,
    history: WalMaintenanceHistory,
) -> WalState {
    if history.blocked_by_reader {
        WalState::Blocked
    } else if has_inventory_error || size_bytes is None {
        WalState::Unknown
    } else if size_bytes.unwrap() >= WAL_CRITICAL_BYTES || (age_ms is Some && age_ms.unwrap()
        >= WAL_CRITICAL_AGE_MS) {
        WalState::Critical
    } else if latest_attempt_failed(history) || size_bytes.unwrap() >= WAL_WARNING_BYTES || (
    age_ms is Some && age_ms.unwrap() >= WAL_WARNING_AGE_MS) {
        WalState::Warning
    } else {
        WalState::Healthy
    }
}

/// Classify the WAL: a reader-blocked maintenance wins, then an unknown
/// inventory, then critical size or age, then an overdue or failed
/// maintenance or warning size or age.
pub fn wal_state(
    size_bytes: Option<u64>,
    age_ms: Option<u64>,
    inventory_error: Option<&str>,
    history: &WalMaintenanceHistory,
) -> (r: WalState)
    ensures
        r == spec_wal_state(size_bytes, age_ms, inventory_error is Some, *history),
{
    if history.blocked_by_reader {
        return WalState::Blocked;
    }
    if inventory_error.is_some() || size_bytes.is_none() {
        return WalState::Unknown;
    }
    let bytes = size_bytes.unwrap();
    let age_critical = match age_ms {
        Some(age) => age >= WAL_CRITICAL_AGE_MS,
        None => false,
    };
    if bytes >= WAL_CRITICAL_BYTES || age_critical {
        return WalState::Critical;
    }
    let latest_failed = match history.last_failure_at_ms {
        Some(failure) => match history.last_success_at_ms {
            None => true,
            Some(success) => failure > success,
        },
        None => false,
    };
    let age_warning = match age_ms {
        Some(age) => age >= WAL_WARNING_AGE_MS,
        None => false,
    };
    if latest_failed || bytes >= WAL_WARNING_BYTES || age_warning {
        return WalState::Warning;
    }
    WalState::Healthy
}

// ---------------------------------------------------------------------------
// WAL snapshots
// ---------------------------------------------------------------------------

pub open spec fn not_regular_message() -> Seq<char> {
    "WAL path is not a regular file"@
}

pub open spec fn probe_size(p: WalProbe) -> Option<u64> {
    match p {
        WalProbe::File { size, .. } => Some(size),
        WalProbe::NotRegularFile => None,
        WalProbe::Missing => Some(0),
        WalProbe::Failed(_) => None,
    }
}

pub open spec fn probe_modified(p: WalProbe) -> Option<u64> {
    match p {
        WalProbe::File { modified_at_ms, .. } => modified_at_ms,
        _ => None,
    }
}

pub open spec fn probe_error(p: WalProbe) -> Option<Seq<char>> {
    match p {
        WalProbe::NotRegularFile => Some(not_regular_message()),
        WalProbe::Failed(e) => Some(e@),
        _ => None,
    }
}

/// The age of a non-empty WAL with a known modification time.
pub open spec fn spec_wal_age(size: Option<u64>, modified: Option<u64>, observed_at_ms: u64) -> Option<u64> {
    match (size, modified) {
        (Some(0), _) => None,
        (_, None) => None,
        (_, Some(m)) => Some(if observed_at_ms >= m { (observed_at_ms - m) as u64 } else { 0 }),
    }
}

pub open spec fn opt_text(o: Option<String>) -> Option<Seq<char>> {
    match o {
        Some(s) => Some(s@),
        None => None,
    }
}

/// The WAL snapshot for `path` at `observed_at_ms`, from the probe of its
/// metadata and the retained maintenance history.
pub open spec fn wal_snapshot_matches(
    w: WalHealthSnapshot,
    path: Seq<char>,
    observed_at_ms: u64,
    history: WalMaintenanceHistory,
    probe: WalProbe,
) -> bool {
    let size = probe_size(probe);
    let age = spec_wal_age(size, probe_modified(probe), observed_at_ms);
    &&& w.path@ == path
    &&& w.size_bytes == size
    &&& w.modified_at_ms == probe_modified(probe)
    &&& w.age_ms == age
    &&& opt_text(w.inventory_error) == probe_error(probe)
    &&& w.state == spec_wal_state(size, age, probe_error(probe) is Some, history)
    &&& w.warning_bytes == WAL_WARNING_BYTES
    &&& w.critical_bytes == WAL_CRITICAL_BYTES
    &&& w.warning_age_ms == WAL_WARNING_AGE_MS
    &&& w.critical_age_ms == WAL_CRITICAL_AGE_MS
    &&& w.last_maintenance_attempt_at_ms == history.last_attempt_at_ms
    &&& w.last_maintenance_success_at_ms == history.last_success_at_ms
    &&& w.last_maintenance_failure_at_ms == history.last_failure_at_ms
    &&& w.last_maintenance_error == history.last_error
    &&& w.blocked_by_reader == history.blocked_by_reader
}

pub fn copy_opt_string(o: &Option<String>) -> (r: Option<String>)
    ensures
        r == *o,
{
    match o {
        Some(s) => Some(s.clone()),
        None => None,
    }
}

/// Build the WAL snapshot from its probe and the maintenance history.
pub fn wal_snapshot(
    path: &str,
    observed_at_ms: u64,
    history: WalMaintenanceHistory,
    probe: &WalProbe,
) -> (w: WalHealthSnapshot)
    ensures
        wal_snapshot_matches(w, path@, observed_at_ms, history, *probe),
{
    let (size_bytes, modified_at_ms, inventory_error): (Option<u64>, Option<u64>, Option<String>) =
        match probe {
        WalProbe::File { size, modified_at_ms } => (Some(*size), *modified_at_ms, None),
        WalProbe::NotRegularFile => (
            None,
            None,
            Some(String::from_str("WAL path is not a regular file")),
        ),
        WalProbe::Missing => (Some(0), None, None),
        WalProbe::Failed(e) => (None, None, Some(e.clone())),
    };
    let age_ms: Option<u64> = match (size_bytes, modified_at_ms) {
        (Some(0), _) => None,
        (_, None) => None,
        (_, Some(m)) => Some(observed_at_ms.saturating_sub(m)),
    };
    let state = match &inventory_error {
        Some(e) => wal_state(size_bytes, age_ms, Some(e.as_str()), &history),
        None => wal_state(size_bytes, age_ms, None, &history),
    };
    WalHealthSnapshot {
        path: String::from_str(path),
        size_bytes,
        modified_at_ms,
        age_ms,
        state,
        warning_bytes: WAL_WARNING_BYTES,
        critical_bytes: WAL_CRITICAL_BYTES,
        warning_age_ms: WAL_WARNING_AGE_MS,
        critical_age_ms: WAL_CRITICAL_AGE_MS,
        inventory_error,
        last_maintenance_attempt_at_ms: history.last_attempt_at_ms,
        last_maintenance_success_at_ms: history.last_success_at_ms,
        last_maintenance_failure_at_ms: history.last_failure_at_ms,
        last_maintenance_error: history.last_error,
        blocked_by_reader: history.blocked_by_reader,
    }
}

pub open spec fn history_of(wal: WalHealthSnapshot) -> WalMaintenanceHistory {
    WalMaintenanceHistory {
        last_attempt_at_ms: wal.last_maintenance_attempt_at_ms,
        last_success_at_ms: wal.last_maintenance_success_at_ms,
        last_failure_at_ms: wal.last_maintenance_failure_at_ms,
        last_error: wal.last_maintenance_error,
        blocked_by_reader: wal.blocked_by_reader,
    }
}

/// The maintenance history a WAL snapshot carries.
pub fn history_from(wal: &WalHealthSnapshot) -> (h: WalMaintenanceHistory)
    ensures
        h == history_of(*wal),
{
    WalMaintenanceHistory {
        last_attempt_at_ms: wal.last_maintenance_attempt_at_ms,
        last_success_at_ms: wal.last_maintenance_success_at_ms,
        last_failure_at_ms: wal.last_maintenance_failure_at_ms,
        last_error: copy_opt_string(&wal.last_maintenance_error),
        blocked_by_reader: wal.blocked_by_reader,
    }
}

/// The history after one maintenance attempt at `at_ms`: a failure records
/// its time, its detail and whether a reader blocked it; a success records
/// its time and clears the reader block, keeping the last failure on record.
pub open spec fn spec_record_outcome(
    h: WalMaintenanceHistory,
    failure: Option<String>,
    blocked_by_reader: bool,
    at_ms: u64,
) -> WalMaintenanceHistory {
    match failure {
        Some(e) => WalMaintenanceHistory {
            last_attempt_at_ms: Some(at_ms),
            last_failure_at_ms: Some(at_ms),
            last_error: Some(e),
            blocked_by_reader,
            ..h
        },
        None => WalMaintenanceHistory {
            last_attempt_at_ms: Some(at_ms),
            last_success_at_ms: Some(at_ms),
            blocked_by_reader: false,
            ..h
        },
    }
}

// ---------------------------------------------------------------------------
// Stores and inventory usage
// ---------------------------------------------------------------------------

#[derive(Debug, Clone)]
pub struct StoreSpec {
    pub name: &'static str,
    pub path: String,
    pub on_models_volume: bool,
}

pub open spec fn store_name(i: int) -> Seq<char> {
    if i == 0 { "database-and-wal"@ }
    else if i == 1 { "previews"@ }
    else if i == 2 { "full-decode-cache"@ }
    else if i == 3 { "vectors"@ }
    else if i == 4 { "models"@ }
    else { "download-parts"@ }
}

pub open spec fn store_path(i: int, app_data: Seq<char>, models_dir: Seq<char>) -> Seq<char> {
    if i == 0 { path_join(app_data, "photoproof.db"@) }
    else if i == 1 || i == 2 { path_join(app_data, "previews"@) }
    else if i == 3 { path_join(app_data, "vectors"@) }
    else { models_dir }
}

/// The six inventoried stores in their fixed order.
pub open spec fn store_specs_match(s: Seq<StoreSpec>, app_data: Seq<char>, models_dir: Seq<char>) -> bool {
    &&& s.len() == 6
    &&& forall|i: int| 0 <= i < 6 ==> {
        &&& (#[trigger] s[i]).name@ == store_name(i)
        &&& s[i].path@ == store_path(i, app_data, models_dir)
        &&& s[i].on_models_volume == (i >= 4)
    }
}

pub fn store_specs(app_data: &str, models_dir: &str) -> (r: Vec<StoreSpec>)
    ensures
        store_specs_match(r@, app_data@, models_dir@),
{
    let mut r: Vec<StoreSpec> = Vec::new();
    r.push(StoreSpec { name: "database-and-wal", path: join_path(app_data, "photoproof.db"), on_models_volume: false });
    r.push(StoreSpec { name: "previews", path: join_path(app_data, "previews"), on_models_volume: false });
    r.push(StoreSpec { name: "full-decode-cache", path: join_path(app_data, "previews"), on_models_volume: false });
    r.push(StoreSpec { name: "vectors", path: join_path(app_data, "vectors"), on_models_volume: false });
    r.push(StoreSpec { name: "models", path: String::from_str(models_dir), on_models_volume: true });
    r.push(StoreSpec { name: "download-parts", path: String::from_str(models_dir), on_models_volume: true });
    proof {
        assert(r@[0].name@ == store_name(0));
        assert(r@[5].name@ == store_name(5));
    }
    r
}

#[derive(Debug, Default, Clone, Copy, PartialEq, Eq)]
pub struct Usage {
    pub bytes: u64,
    pub files: u64,
    pub errors: u64,
}

pub open spec fn sat_add(a: u64, b: u64) -> u64 {
    if a + b > u64::MAX { u64::MAX } else { (a + b) as u64 }
}

impl Usage {
    pub fn empty() -> (r: Usage)
        ensures
            r == (Usage { bytes: 0, files: 0, errors: 0 }),
    {
        Usage { bytes: 0, files: 0, errors: 0 }
    }

    /// Count one file of `bytes` (saturating).
    pub fn add_file(&mut self, bytes: u64)
        ensures
            final(self).bytes == sat_add(old(self).bytes, bytes),
            final(self).files == sat_add(old(self).files, 1),
            final(self).errors == old(self).errors,
    {
        self.bytes = self.bytes.saturating_add(bytes);
        self.files = self.files.saturating_add(1);
    }
}

/// One regular file met by the inventory walk: its path and its length.
#[derive(Debug, Clone)]
pub struct WalkedFile {
    pub path: String,
    pub bytes: u64,
}

/// The file name of a path: the text after its last `/`.
pub open spec fn file_name_of(path: Seq<char>) -> Seq<char>
    decreases path.len(),
{
    if path.len() == 0 {
        path
    } else if path.last() == '/' {
        seq![]
    } else {
        file_name_of(path.drop_last()).push(path.last())
    }
}

/// `pat` occurs in `s` at position `i`.
pub open spec fn occurs_at(s: Seq<char>, pat: Seq<char>, i: int) -> bool {
    0 <= i && i + pat.len() <= s.len() && s.subrange(i, i + pat.len()) == pat
}

pub open spec fn contains_text(s: Seq<char>, pat: Seq<char>) -> bool {
    exists|i: int| occurs_at(s, pat, i)
}

/// A preview artifact is a full decode when its file name contains `-full-v`.
pub open spec fn is_full_decode(path: Seq<char>) -> bool {
    contains_text(file_name_of(path), "-full-v"@)
}

/// The last `/`-separated component of a path (empty when it ends in `/`).
pub fn file_name(path: &str) -> (r: String)
    ensures
        r@ == file_name_of(path@),
{
    let n = path.unicode_len();
    let mut start: usize = n;
    proof {
        assert(path@.subrange(0, n as int) =~= path@);
        assert(path@.subrange(n as int, n as int) =~= seq![]);
        assert(path@ + seq![] =~= path@);
    }
    while start > 0 && path.get_char(start - 1) != '/'
        invariant
            n == path@.len(),
            start <= n,
            forall|k: int| start <= k < n ==> path@[k] != '/',
            file_name_of(path@) == file_name_of(path@.subrange(0, start as int)) + path@.subrange(start as int, n as int),
        decreases start,
    {
        proof {
            let pre = path@.subrange(0, start as int);
            assert(pre.drop_last() =~= path@.subrange(0, start - 1));
            assert(path@.subrange(start - 1, n as int) =~= seq![path@[start - 1]] + path@.subrange(start as int, n as int));
            assert(file_name_of(pre) == file_name_of(pre.drop_last()).push(pre.last()));
            assert(file_name_of(pre.drop_last()).push(pre.last()) + path@.subrange(start as int, n as int)
                =~= file_name_of(path@.subrange(0, start - 1)) + path@.subrange(start - 1, n as int));
        }
        start -= 1;
    }
    proof {
        let pre = path@.subrange(0, start as int);
        if start > 0 {
            assert(pre.last() == '/');
        }
        assert(file_name_of(pre) =~= seq![]);
    }
    let r = path.substring_char(start, n);
    String::from_str(r)
}

/// Whether `pat` occurs anywhere in `s`.
pub fn contains_str(s: &str, pat: &str) -> (r: bool)
    ensures
        r == contains_text(s@, pat@),
{
    let n = s.unicode_len();
    let m = pat.unicode_len();
    if m > n {
        proof {
            assert forall|i: int| !occurs_at(s@, pat@, i) by {}
        }
        return false;
    }
    if m == 0 {
        proof {
            assert(s@.subrange(0, 0) =~= pat@);
            assert(occurs_at(s@, pat@, 0));
        }
        return true;
    }
    let mut i: usize = 0;
    while i <= n - m
        invariant
            n == s@.len(),
            m == pat@.len(),
            m <= n,
            m >= 1,
            i <= n - m + 1,
            forall|k: int| 0 <= k < i ==> !occurs_at(s@, pat@, k),
        decreases n - m + 1 - i,
    {
        let cand = s.substring_char(i, i + m);
        if str_eq(cand, pat) {
            proof {
                assert(occurs_at(s@, pat@, i as int));
            }
            return true;
        }
        i += 1;
    }
    proof {
        assert forall|k: int| !occurs_at(s@, pat@, k) by {
            if 0 <= k && k + m <= n {
                assert(k < i);
            }
        }
    }
    false
}

/// The extension of a file name as `Path::extension` reads it: the text
/// after the last `.`, unless that dot is the name's first character.
pub open spec fn has_extension(name: Seq<char>, ext: Seq<char>) -> bool {
    let k = name.len() - ext.len() - 1;
    &&& name.len() >= ext.len() + 2
    &&& name[k] == '.'
    &&& name.subrange(k + 1, name.len() as int) == ext
    &&& forall|j: int| k < j < name.len() ==> name[j] != '.'
}

/// A partial model download: its file name has the extension `part`.
pub open spec fn is_partial_download(path: Seq<char>) -> bool {
    has_extension(file_name_of(path), "part"@)
}

/// Whether a file name has the extension `ext` (`ext` holds no `.`).
pub fn name_has_extension(name: &str, ext: &str) -> (r: bool)
    requires
        forall|j: int| 0 <= j < ext@.len() ==> ext@[j] != '.',
    ensures
        r == has_extension(name@, ext@),
{
    let n = name.unicode_len();
    let e = ext.unicode_len();
    if n < 2 || n - 2 < e {
        return false;
    }
    let k = n - e - 1;
    if name.get_char(k) != '.' {
        return false;
    }
    let tail = name.substring_char(k + 1, n);
    let same = str_eq(tail, ext);
    proof {
        if same {
            assert forall|j: int| k < j < n implies name@[j] != '.' by {
                assert(name@[j] == tail@[j - k - 1]);
            }
        }
    }
    same
}

/// Usage of the preview cache, split into derived previews and full decodes.
#[derive(Debug, Default, Clone, Copy)]
pub struct PreviewUsage {
    pub derived: Usage,
    pub full_decode: Usage,
}

/// Bytes and count of the files of `files` selected by `pick`, saturating.
pub open spec fn usage_of(files: Seq<WalkedFile>, pick: spec_fn(Seq<char>) -> bool) -> (u64, u64)
    decreases files.len(),
{
    if files.len() == 0 {
        (0, 0)
    } else {
        let prev = usage_of(files.drop_last(), pick);
        if pick(files.last().path@) {
            (sat_add(prev.0, files.last().bytes), sat_add(prev.1, 1))
        } else {
            prev
        }
    }
}

/// Split the walked preview files into derived previews and full decodes;
/// both carry the walk's error count.
pub fn preview_usage(files: &Vec<WalkedFile>, walk_errors: u64) -> (r: PreviewUsage)
    ensures
        (r.derived.bytes, r.derived.files) == usage_of(files@, |p: Seq<char>| !is_full_decode(p)),
        (r.full_decode.bytes, r.full_decode.files) == usage_of(files@, |p: Seq<char>| is_full_decode(p)),
        r.derived.errors == walk_errors,
        r.full_decode.errors == walk_errors,
{
    let mut derived = Usage::empty();
    let mut full = Usage::empty();
    let n = files.len();
    for i in 0..n
        invariant
            n == files@.len(),
            (derived.bytes, derived.files) == usage_of(files@.subrange(0, i as int), |p: Seq<char>| !is_full_decode(p)),
            (full.bytes, full.files) == usage_of(files@.subrange(0, i as int), |p: Seq<char>| is_full_decode(p)),
            derived.errors == 0,
            full.errors == 0,
    {
        let name = file_name(files[i].path.as_str());
        let is_full = contains_str(name.as_str(), "-full-v");
        proof {
            let pre = files@.subrange(0, i + 1);
            assert(pre.drop_last() =~= files@.subrange(0, i as int));
        }
        if is_full {
            full.add_file(files[i].bytes);
        } else {
            derived.add_file(files[i].bytes);
        }
    }
    proof {
        assert(files@.subrange(0, n as int) =~= files@);
    }
    derived.errors = walk_errors;
    full.errors = walk_errors;
    PreviewUsage { derived, full_decode: full }
}

/// Which files of a walked tree a store counts.
#[derive(Debug, Clone, Copy, PartialEq, Eq)]
pub enum UsageFilter {
    All,
    PartialDownloads,
}

pub open spec fn filter_picks(filter: UsageFilter, path: Seq<char>) -> bool {
    match filter {
        UsageFilter::All => true,
        UsageFilter::PartialDownloads => is_partial_download(path),
    }
}

/// Usage of the files of a walked tree that `filter` selects.
pub fn tree_usage(files: &Vec<WalkedFile>, walk_errors: u64, filter: UsageFilter) -> (r: Usage)
    ensures
        (r.bytes, r.files) == usage_of(files@, |p: Seq<char>| filter_picks(filter, p)),
        r.errors == walk_errors,
{
    let mut usage = Usage::empty();
    let n = files.len();
    for i in 0..n
        invariant
            n == files@.len(),
            (usage.bytes, usage.files) == usage_of(files@.subrange(0, i as int), |p: Seq<char>| filter_picks(filter, p)),
    {
        let counted = match filter {
            UsageFilter::All => true,
            UsageFilter::PartialDownloads => {
                let name = file_name(files[i].path.as_str());
                proof {
                    reveal_strlit("part");
                }
                name_has_extension(name.as_str(), "part")
            },
        };
        proof {
            let pre = files@.subrange(0, i + 1);
            assert(pre.drop_last() =~= files@.subrange(0, i as int));
        }
        if counted {
            usage.add_file(files[i].bytes);
        }
    }
    proof {
        assert(files@.subrange(0, n as int) =~= files@);
    }
    usage.errors = walk_errors;
    usage
}

/// What the metadata of one database file showed.
#[derive(Debug, Clone, Copy, PartialEq, Eq)]
pub enum FileProbe {
    RegularFile(u64),
    Other,
    Missing,
    Failed,
}

pub open spec fn database_usage_of(probes: Seq<FileProbe>) -> Usage
    decreases probes.len(),
{
    if probes.len() == 0 {
        Usage { bytes: 0, files: 0, errors: 0 }
    } else {
        let prev = database_usage_of(probes.drop_last());
        match probes.last() {
            FileProbe::RegularFile(b) => Usage {
                bytes: sat_add(prev.bytes, b),
                files: sat_add(prev.files, 1),
                errors: prev.errors,
            },
            FileProbe::Failed => Usage { errors: sat_add(prev.errors, 1), ..prev },
            _ => prev,
        }
    }
}

/// Usage of the database, its WAL and its shared-memory file: regular files
/// count, missing files do not, unreadable metadata counts as an error.
pub fn database_usage(probes: &Vec<FileProbe>) -> (r: Usage)
    ensures
        r == database_usage_of(probes@),
{
    let mut usage = Usage::empty();
    let n = probes.len();
    for i in 0..n
        invariant
            n == probes@.len(),
            usage == database_usage_of(probes@.subrange(0, i as int)),
    {
        proof {
            let pre = probes@.subrange(0, i + 1);
            assert(pre.drop_last() =~= probes@.subrange(0, i as int));
        }
        match probes[i] {
            FileProbe::RegularFile(b) => usage.add_file(b),
            FileProbe::Failed => usage.errors = usage.errors.saturating_add(1),
            _ => {},
        }
    }
    proof {
        assert(probes@.subrange(0, n as int) =~= probes@);
    }
    usage
}

/// The measured usage of every store, as the inventory walk produced it.
#[derive(Debug, Clone, Copy)]
pub struct InventoryUsage {
    pub database: Usage,
    pub previews: PreviewUsage,
    pub vectors: Usage,
    pub models: Usage,
    pub download_parts: Usage,
}

pub open spec fn usage_for_store(i: int, u: InventoryUsage) -> Usage {
    if i == 0 { u.database }
    else if i == 1 { u.previews.derived }
    else if i == 2 { u.previews.full_decode }
    else if i == 3 { u.vectors }
    else if i == 4 { u.models }
    else { u.download_parts }
}

// ---------------------------------------------------------------------------
// The governor
// ---------------------------------------------------------------------------

/// Whether a store lives on the models volume (by its name).
pub open spec fn on_models_volume(name: Seq<char>) -> bool {
    name == "models"@ || name == "download-parts"@
}

pub open spec fn free_for(name: Seq<char>, app_free: Option<u64>, models_free: Option<u64>) -> Option<u64> {
    if on_models_volume(name) { models_free } else { app_free }
}

/// Every store's free space and state follow its volume's measurement.
pub open spec fn stores_follow_capacity(
    stores: Seq<DiskStoreStatus>,
    app_free: Option<u64>,
    models_free: Option<u64>,
) -> bool {
    forall|i: int| 0 <= i < stores.len() ==> {
        &&& (#[trigger] stores[i]).available_bytes == free_for(stores[i].name@, app_free, models_free)
        &&& stores[i].state == spec_capacity_state(stores[i].available_bytes)
    }
}

/// The capacity fields of a snapshot follow the two measurements.
pub open spec fn capacity_matches(s: DiskHealthSnapshot, app_free: Option<u64>, models_free: Option<u64>) -> bool {
    &&& s.app_data_state == spec_capacity_state(app_free)
    &&& s.models_state == spec_capacity_state(models_free)
    &&& s.state == spec_worst_state(s.app_data_state, s.models_state)
    &&& s.derived_work_paused == (s.app_data_state == CapacityState::Critical)
    &&& stores_follow_capacity(s.stores@, app_free, models_free)
}

pub struct DiskGovernor {
    app_data: String,
    models_dir: String,
    derived_paused: bool,
    snapshot: DiskHealthSnapshot,
}

pub fn copy_store(s: &DiskStoreStatus) -> (r: DiskStoreStatus)
    ensures
        r == *s,
{
    DiskStoreStatus {
        name: s.name,
        path: s.path.clone(),
        used_bytes: s.used_bytes,
        file_count: s.file_count,
        available_bytes: s.available_bytes,
        state: s.state,
        inventory_errors: s.inventory_errors,
    }
}

pub fn copy_wal(w: &WalHealthSnapshot) -> (r: WalHealthSnapshot)
    ensures
        r == *w,
{
    WalHealthSnapshot {
        path: w.path.clone(),
        size_bytes: w.size_bytes,
        modified_at_ms: w.modified_at_ms,
        age_ms: w.age_ms,
        state: w.state,
        warning_bytes: w.warning_bytes,
        critical_bytes: w.critical_bytes,
        warning_age_ms: w.warning_age_ms,
        critical_age_ms: w.critical_age_ms,
        inventory_error: copy_opt_string(&w.inventory_error),
        last_maintenance_attempt_at_ms: w.last_maintenance_attempt_at_ms,
        last_maintenance_success_at_ms: w.last_maintenance_success_at_ms,
        last_maintenance_failure_at_ms: w.last_maintenance_failure_at_ms,
        last_maintenance_error: copy_opt_string(&w.last_maintenance_error),
        blocked_by_reader: w.blocked_by_reader,
    }
}

pub fn copy_snapshot(s: &DiskHealthSnapshot) -> (r: DiskHealthSnapshot)
    ensures
        r.observed_at_ms == s.observed_at_ms,
        r.state == s.state,
        r.app_data_state == s.app_data_state,
        r.models_state == s.models_state,
        r.derived_work_paused == s.derived_work_paused,
        r.warning_free_bytes == s.warning_free_bytes,
        r.critical_free_bytes == s.critical_free_bytes,
        r.wal == s.wal,
        r.stores@ == s.stores@,
{
    let mut stores: Vec<DiskStoreStatus> = Vec::new();
    let n = s.stores.len();
    for i in 0..n
        invariant
            n == s.stores@.len(),
            stores@ == s.stores@.subrange(0, i as int),
    {
        stores.push(copy_store(&s.stores[i]));
        proof {
            assert(stores@ =~= s.stores@.subrange(0, i + 1));
        }
    }
    proof {
        assert(stores@ =~= s.stores@);
    }
    DiskHealthSnapshot {
        observed_at_ms: s.observed_at_ms,
        state: s.state,
        app_data_state: s.app_data_state,
        models_state: s.models_state,
        derived_work_paused: s.derived_work_paused,
        warning_free_bytes: s.warning_free_bytes,
        critical_free_bytes: s.critical_free_bytes,
        wal: copy_wal(&s.wal),
        stores,
    }
}

/// The stores with their free space and state re-read from the volumes.
fn restamp_stores(stores: &Vec<DiskStoreStatus>, app_free: Option<u64>, models_free: Option<u64>) -> (r: Vec<
    DiskStoreStatus,
>)
    ensures
        r@.len() == stores@.len(),
        stores_follow_capacity(r@, app_free, models_free),
        forall|i: int| 0 <= i < r@.len() ==> {
            &&& (#[trigger] r@[i]).name == stores@[i].name
            &&& r@[i].path == stores@[i].path
            &&& r@[i].used_bytes == stores@[i].used_bytes
            &&& r@[i].file_count == stores@[i].file_count
            &&& r@[i].inventory_errors == stores@[i].inventory_errors
        },
{
    let mut r: Vec<DiskStoreStatus> = Vec::new();
    let n = stores.len();
    for i in 0..n
        invariant
            n == stores@.len(),
            r@.len() == i,
            stores_follow_capacity(r@, app_free, models_free),
            forall|j: int| 0 <= j < i ==> {
                &&& (#[trigger] r@[j]).name == stores@[j].name
                &&& r@[j].path == stores@[j].path
                &&& r@[j].used_bytes == stores@[j].used_bytes
                &&& r@[j].file_count == stores@[j].file_count
                &&& r@[j].inventory_errors == stores@[j].inventory_errors
            },
    {
        let s = &stores[i];
        proof {
            reveal_strlit("models");
            reveal_strlit("download-parts");
        }
        let free = if str_eq(s.name, "models") || str_eq(s.name, "download-parts") {
            models_free
        } else {
            app_free
        };
        r.push(DiskStoreStatus {
            name: s.name,
            path: s.path.clone(),
            used_bytes: s.used_bytes,
            file_count: s.file_count,
            available_bytes: free,
            state: capacity_state(free),
            inventory_errors: s.inventory_errors,
        });
    }
    r
}

impl DiskGovernor {
    pub closed spec fn view_snapshot(&self) -> DiskHealthSnapshot {
        self.snapshot
    }

    pub closed spec fn app_data_path(&self) -> Seq<char> {
        self.app_data@
    }

    pub closed spec fn models_path(&self) -> Seq<char> {
        self.models_dir@
    }

    /// The pause flag mirrors the snapshot, which pauses exactly while the
    /// app-data volume is critical.
    pub closed spec fn wf(&self) -> bool {
        &&& self.derived_paused == self.snapshot.derived_work_paused
        &&& self.snapshot.derived_work_paused == (self.snapshot.app_data_state
            == CapacityState::Critical)
        &&& self.snapshot.state == spec_worst_state(
            self.snapshot.app_data_state,
            self.snapshot.models_state,
        )
    }

    pub open spec fn wal_path(&self) -> Seq<char> {
        path_join(self.app_data_path(), "photoproof.db-wal"@)
    }

    fn wal_path_text(&self) -> (r: String)
        ensures
            r@ == self.wal_path(),
    {
        join_path(self.app_data.as_str(), "photoproof.db-wal")
    }

    /// Construction from sampled capacity and the WAL probe; no directory
    /// tree is walked yet, so usage is unknown.
    pub fn new(
        app_data: String,
        models_dir: String,
        app_free: Option<u64>,
        models_free: Option<u64>,
        wal_probe: &WalProbe,
        observed_at_ms: u64,
    ) -> (g: Self)
        ensures
            g.wf(),
            g.app_data_path() == app_data@,
            g.models_path() == models_dir@,
            capacity_matches(g.view_snapshot(), app_free, models_free),
            g.view_snapshot().observed_at_ms == observed_at_ms,
            g.view_snapshot().warning_free_bytes == WARNING_FREE_BYTES,
            g.view_snapshot().critical_free_bytes == CRITICAL_FREE_BYTES,
            wal_snapshot_matches(
                g.view_snapshot().wal,
                path_join(app_data@, "photoproof.db-wal"@),
                observed_at_ms,
                WalMaintenanceHistory {
                    last_attempt_at_ms: None,
                    last_success_at_ms: None,
                    last_failure_at_ms: None,
                    last_error: None,
                    blocked_by_reader: false,
                },
                *wal_probe,
            ),
            g.view_snapshot().stores@.len() == 6,
            forall|i: int| 0 <= i < 6 ==> {
                &&& (#[trigger] g.view_snapshot().stores@[i]).name@ == store_name(i)
                &&& g.view_snapshot().stores@[i].path@ == store_path(i, app_data@, models_dir@)
                &&& g.view_snapshot().stores@[i].used_bytes is None
                &&& g.view_snapshot().stores@[i].file_count is None
                &&& g.view_snapshot().stores@[i].inventory_errors == 0
            },
    {
        let app_state = capacity_state(app_free);
        let models_state = capacity_state(models_free);
        let paused = app_state == CapacityState::Critical;
        let wal = wal_snapshot(
            join_path(app_data.as_str(), "photoproof.db-wal").as_str(),
            observed_at_ms,
            WalMaintenanceHistory::default(),
            wal_probe,
        );
        let specs = store_specs(app_data.as_str(), models_dir.as_str());
        let mut stores: Vec<DiskStoreStatus> = Vec::new();
        for i in 0..6
            invariant
                store_specs_match(specs@, app_data@, models_dir@),
                stores@.len() == i,
                stores_follow_capacity(stores@, app_free, models_free),
                forall|j: int| 0 <= j < i ==> {
                    &&& (#[trigger] stores@[j]).name@ == store_name(j)
                    &&& stores@[j].path@ == store_path(j, app_data@, models_dir@)
                    &&& stores@[j].used_bytes is None
                    &&& stores@[j].file_count is None
                    &&& stores@[j].inventory_errors == 0
                },
        {
            let spec = &specs[i];
            proof {
                assert(specs@[i as int].name@ == store_name(i as int));
                assert(on_models_volume(store_name(i as int)) == (i >= 4)) by {
                    reveal_strlit("database-and-wal");
                    reveal_strlit("previews");
                    reveal_strlit("full-decode-cache");
                    reveal_strlit("vectors");
                    reveal_strlit("models");
                    reveal_strlit("download-parts");
                }
            }
            let free = if spec.on_models_volume { models_free } else { app_free };
            stores.push(DiskStoreStatus {
                name: spec.name,
                path: spec.path.clone(),
                used_bytes: None,
                file_count: None,
                available_bytes: free,
                state: capacity_state(free),
                inventory_errors: 0,
            });
        }
        DiskGovernor {
            app_data,
            models_dir,
            derived_paused: paused,
            snapshot: DiskHealthSnapshot {
                observed_at_ms,
                state: worst_state(app_state, models_state),
                app_data_state: app_state,
                models_state,
                derived_work_paused: paused,
                warning_free_bytes: WARNING_FREE_BYTES,
                critical_free_bytes: CRITICAL_FREE_BYTES,
                wal,
                stores,
            },
        }
    }

    /// Whether large derived writers must stay paused.
    pub fn derived_work_paused(&self) -> (r: bool)
        requires
            self.wf(),
        ensures
            r == self.view_snapshot().derived_work_paused,
            r == (self.view_snapshot().app_data_state == CapacityState::Critical),
    {
        self.derived_paused
    }

    /// The retained health snapshot.
    pub fn snapshot(&self) -> (r: DiskHealthSnapshot)
        ensures
            r.observed_at_ms == self.view_snapshot().observed_at_ms,
            r.state == self.view_snapshot().state,
            r.app_data_state == self.view_snapshot().app_data_state,
            r.models_state == self.view_snapshot().models_state,
            r.derived_work_paused == self.view_snapshot().derived_work_paused,
            r.warning_free_bytes == self.view_snapshot().warning_free_bytes,
            r.critical_free_bytes == self.view_snapshot().critical_free_bytes,
            r.wal == self.view_snapshot().wal,
            r.stores@ == self.view_snapshot().stores@,
    {
        copy_snapshot(&self.snapshot)
    }

    fn apply_capacity(&mut self, app_free: Option<u64>, models_free: Option<u64>)
        ensures
            final(self).wf(),
            capacity_matches(final(self).view_snapshot(), app_free, models_free),
            final(self).app_data_path() == old(self).app_data_path(),
            final(self).models_path() == old(self).models_path(),
            final(self).view_snapshot().observed_at_ms == old(self).view_snapshot().observed_at_ms,
            final(self).view_snapshot().wal == old(self).view_snapshot().wal,
            final(self).view_snapshot().warning_free_bytes == old(self).view_snapshot().warning_free_bytes,
            final(self).view_snapshot().critical_free_bytes == old(self).view_snapshot().critical_free_bytes,
            final(self).view_snapshot().stores@.len() == old(self).view_snapshot().stores@.len(),
            forall|i: int| 0 <= i < final(self).view_snapshot().stores@.len() ==> {
                &&& (#[trigger] final(self).view_snapshot().stores@[i]).name == old(self).view_snapshot().stores@[i].name
                &&& final(self).view_snapshot().stores@[i].path == old(self).view_snapshot().stores@[i].path
                &&& final(self).view_snapshot().stores@[i].used_bytes == old(self).view_snapshot().stores@[i].used_bytes
                &&& final(self).view_snapshot().stores@[i].file_count == old(self).view_snapshot().stores@[i].file_count
                &&& final(self).view_snapshot().stores@[i].inventory_errors == old(self).view_snapshot().stores@[i].inventory_errors
            },
    {
        let app_state = capacity_state(app_free);
        let models_state = capacity_state(models_free);
        let paused = app_state == CapacityState::Critical;
        self.derived_paused = paused;
        let stores = restamp_stores(&self.snapshot.stores, app_free, models_free);
        self.snapshot.state = worst_state(app_state, models_state);
        self.snapshot.app_data_state = app_state;
        self.snapshot.models_state = models_state;
        self.snapshot.derived_work_paused = paused;
        self.snapshot.stores = stores;
    }

    /// Replace the measured capacity without touching the clock or the WAL.
    pub fn inject_capacity_for_test(&mut self, app_free: Option<u64>, models_free: Option<u64>)
        ensures
            final(self).wf(),
            capacity_matches(final(self).view_snapshot(), app_free, models_free),
            final(self).view_snapshot().observed_at_ms == old(self).view_snapshot().observed_at_ms,
            final(self).view_snapshot().wal == old(self).view_snapshot().wal,
            final(self).view_snapshot().stores@.len() == old(self).view_snapshot().stores@.len(),
    {
        self.apply_capacity(app_free, models_free);
    }

    /// Fast capacity refresh: re-reads both volumes and the WAL, keeping the
    /// last inventory and the maintenance history.
    pub fn refresh_capacity(
        &mut self,
        app_free: Option<u64>,
        models_free: Option<u64>,
        wal_probe: &WalProbe,
        observed_at_ms: u64,
    ) -> (r: DiskHealthSnapshot)
        ensures
            final(self).wf(),
            final(self).app_data_path() == old(self).app_data_path(),
            final(self).models_path() == old(self).models_path(),
            capacity_matches(final(self).view_snapshot(), app_free, models_free),
            final(self).view_snapshot().observed_at_ms == observed_at_ms,
            wal_snapshot_matches(
                final(self).view_snapshot().wal,
                old(self).wal_path(),
                observed_at_ms,
                history_of(old(self).view_snapshot().wal),
                *wal_probe,
            ),
            final(self).view_snapshot().stores@.len() == old(self).view_snapshot().stores@.len(),
            r.wal == final(self).view_snapshot().wal,
            r.stores@ == final(self).view_snapshot().stores@,
            r.state == final(self).view_snapshot().state,
            r.derived_work_paused == final(self).view_snapshot().derived_work_paused,
            r.observed_at_ms == observed_at_ms,
    {
        self.apply_capacity(app_free, models_free);
        self.snapshot.observed_at_ms = observed_at_ms;
        let history = history_from(&self.snapshot.wal);
        let path = self.wal_path_text();
        self.snapshot.wal = wal_snapshot(path.as_str(), observed_at_ms, history, wal_probe);
        copy_snapshot(&self.snapshot)
    }

    /// Full component inventory from a completed walk of every store.
    pub fn refresh_inventory(
        &mut self,
        app_free: Option<u64>,
        models_free: Option<u64>,
        usage: &InventoryUsage,
        wal_probe: &WalProbe,
        observed_at_ms: u64,
    ) -> (r: DiskHealthSnapshot)
        ensures
            final(self).wf(),
            final(self).app_data_path() == old(self).app_data_path(),
            final(self).models_path() == old(self).models_path(),
            capacity_matches(final(self).view_snapshot(), app_free, models_free),
            final(self).view_snapshot().observed_at_ms == observed_at_ms,
            final(self).view_snapshot().warning_free_bytes == WARNING_FREE_BYTES,
            final(self).view_snapshot().critical_free_bytes == CRITICAL_FREE_BYTES,
            wal_snapshot_matches(
                final(self).view_snapshot().wal,
                old(self).wal_path(),
                observed_at_ms,
                history_of(old(self).view_snapshot().wal),
                *wal_probe,
            ),
            final(self).view_snapshot().stores@.len() == 6,
            forall|i: int| 0 <= i < 6 ==> {
                let s = #[trigger] final(self).view_snapshot().stores@[i];
                &&& s.name@ == store_name(i)
                &&& s.path@ == store_path(i, old(self).app_data_path(), old(self).models_path())
                &&& s.used_bytes == Some(usage_for_store(i, *usage).bytes)
                &&& s.file_count == Some(usage_for_store(i, *usage).files)
                &&& s.inventory_errors == usage_for_store(i, *usage).errors
            },
            r.wal == final(self).view_snapshot().wal,
            r.stores@ == final(self).view_snapshot().stores@,
            r.state == final(self).view_snapshot().state,
            r.derived_work_paused == final(self).view_snapshot().derived_work_paused,
    {
        let specs = store_specs(self.app_data.as_str(), self.models_dir.as_str());
        let mut stores: Vec<DiskStoreStatus> = Vec::new();
        for i in 0..6
            invariant
                store_specs_match(specs@, self.app_data@, self.models_dir@),
                stores@.len() == i,
                stores_follow_capacity(stores@, app_free, models_free),
                forall|j: int| 0 <= j < i ==> {
                    let s = #[trigger] stores@[j];
                    &&& s.name@ == store_name(j)
                    &&& s.path@ == store_path(j, self.app_data@, self.models_dir@)
                    &&& s.used_bytes == Some(usage_for_store(j, *usage).bytes)
                    &&& s.file_count == Some(usage_for_store(j, *usage).files)
                    &&& s.inventory_errors == usage_for_store(j, *usage).errors
                },
        {
            let spec = &specs[i];
            proof {
                assert(specs@[i as int].name@ == store_name(i as int));
                assert(on_models_volume(store_name(i as int)) == (i >= 4)) by {
                    reveal_strlit("database-and-wal");
                    reveal_strlit("previews");
                    reveal_strlit("full-decode-cache");
                    reveal_strlit("vectors");
                    reveal_strlit("models");
                    reveal_strlit("download-parts");
                }
            }
            let u = if i == 0 {
                usage.database
            } else if i == 1 {
                usage.previews.derived
            } else if i == 2 {
                usage.previews.full_decode
            } else if i == 3 {
                usage.vectors
            } else if i == 4 {
                usage.models
            } else {
                usage.download_parts
            };
            let free = if spec.on_models_volume { models_free } else { app_free };
            stores.push(DiskStoreStatus {
                name: spec.name,
                path: spec.path.clone(),
                used_bytes: Some(u.bytes),
                file_count: Some(u.files),
                available_bytes: free,
                state: capacity_state(free),
                inventory_errors: u.errors,
            });
        }
        let app_state = capacity_state(app_free);
        let models_state = capacity_state(models_free);
        let paused = app_state == CapacityState::Critical;
        self.derived_paused = paused;
        let history = history_from(&self.snapshot.wal);
        let path = self.wal_path_text();
        let wal = wal_snapshot(path.as_str(), observed_at_ms, history, wal_probe);
        self.snapshot = DiskHealthSnapshot {
            observed_at_ms,
            state: worst_state(app_state, models_state),
            app_data_state: app_state,
            models_state,
            derived_work_paused: paused,
            warning_free_bytes: WARNING_FREE_BYTES,
            critical_free_bytes: CRITICAL_FREE_BYTES,
            wal,
            stores,
        };
        copy_snapshot(&self.snapshot)
    }

    /// Record one idle maintenance attempt and immediately resample the WAL.
    pub fn record_wal_maintenance_outcome(
        &mut self,
        failure: Option<String>,
        blocked_by_reader: bool,
        wal_probe: &WalProbe,
        observed_at_ms: u64,
    ) -> (r: DiskHealthSnapshot)
        requires
            old(self).wf(),
        ensures
            final(self).wf(),
            final(self).app_data_path() == old(self).app_data_path(),
            final(self).models_path() == old(self).models_path(),
            final(self).view_snapshot().observed_at_ms == observed_at_ms,
            final(self).view_snapshot().state == old(self).view_snapshot().state,
            final(self).view_snapshot().app_data_state == old(self).view_snapshot().app_data_state,
            final(self).view_snapshot().models_state == old(self).view_snapshot().models_state,
            final(self).view_snapshot().derived_work_paused == old(self).view_snapshot().derived_work_paused,
            final(self).view_snapshot().stores@ == old(self).view_snapshot().stores@,
            wal_snapshot_matches(
                final(self).view_snapshot().wal,
                old(self).wal_path(),
                observed_at_ms,
                spec_record_outcome(
                    history_of(old(self).view_snapshot().wal),
                    failure,
                    blocked_by_reader,
                    observed_at_ms,
                ),
                *wal_probe,
            ),
            failure is Some ==> final(self).view_snapshot().wal.last_maintenance_error == failure,
            failure is Some ==> final(self).view_snapshot().wal.blocked_by_reader == blocked_by_reader,
            failure is None ==> final(self).view_snapshot().wal.last_maintenance_error
                == old(self).view_snapshot().wal.last_maintenance_error,
            r.wal == final(self).view_snapshot().wal,
            r.stores@ == final(self).view_snapshot().stores@,
            r.observed_at_ms == observed_at_ms,
    {
        let mut history = history_from(&self.snapshot.wal);
        history.last_attempt_at_ms = Some(observed_at_ms);
        match failure {
            Some(error) => {
                history.last_failure_at_ms = Some(observed_at_ms);
                history.last_error = Some(error);
                history.blocked_by_reader = blocked_by_reader;
            },
            None => {
                history.last_success_at_ms = Some(observed_at_ms);
                history.blocked_by_reader = false;
            },
        }
        self.snapshot.observed_at_ms = observed_at_ms;
        let path = self.wal_path_text();
        self.snapshot.wal = wal_snapshot(path.as_str(), observed_at_ms, history, wal_probe);
        copy_snapshot(&self.snapshot)
    }

    /// A successful idle checkpoint: the reader block clears, the last
    /// failure stays on record for diagnostics.
    pub fn record_wal_maintenance_success(&mut self, wal_probe: &WalProbe, observed_at_ms: u64) -> (r:
        DiskHealthSnapshot)
        requires
            old(self).wf(),
        ensures
            final(self).wf(),
            final(self).view_snapshot().stores@ == old(self).view_snapshot().stores@,
            final(self).view_snapshot().app_data_state == old(self).view_snapshot().app_data_state,
            wal_snapshot_matches(
                final(self).view_snapshot().wal,
                old(self).wal_path(),
                observed_at_ms,
                spec_record_outcome(history_of(old(self).view_snapshot().wal), None, false, observed_at_ms),
                *wal_probe,
            ),
            !r.wal.blocked_by_reader,
            r.wal.state != WalState::Blocked,
            r.wal.last_maintenance_success_at_ms == Some(observed_at_ms),
            r.wal.last_maintenance_failure_at_ms == old(self).view_snapshot().wal.last_maintenance_failure_at_ms,
            r.wal.last_maintenance_error == old(self).view_snapshot().wal.last_maintenance_error,
            r.wal == final(self).view_snapshot().wal,
            r.stores@ == final(self).view_snapshot().stores@,
    {
        self.record_wal_maintenance_outcome(None, false, wal_probe, observed_at_ms)
    }

    /// A failed idle maintenance; `blocked_by_reader` marks SQLite's busy
    /// checkpoint verdict as opposed to an unrelated I/O fault.
    pub fn record_wal_maintenance_failure(
        &mut self,
        error: &str,
        blocked_by_reader: bool,
        wal_probe: &WalProbe,
        observed_at_ms: u64,
    ) -> (r: DiskHealthSnapshot)
        requires
            old(self).wf(),
        ensures
            final(self).wf(),
            final(self).view_snapshot().stores@ == old(self).view_snapshot().stores@,
            final(self).view_snapshot().app_data_state == old(self).view_snapshot().app_data_state,
            wal_snapshot_matches(
                final(self).view_snapshot().wal,
                old(self).wal_path(),
                observed_at_ms,
                spec_record_outcome(
                    history_of(old(self).view_snapshot().wal),
                    final(self).view_snapshot().wal.last_maintenance_error,
                    blocked_by_reader,
                    observed_at_ms,
                ),
                *wal_probe,
            ),
            r.wal.blocked_by_reader == blocked_by_reader,
            blocked_by_reader ==> r.wal.state == WalState::Blocked,
            r.wal.last_maintenance_failure_at_ms == Some(observed_at_ms),
            r.wal.last_maintenance_error matches Some(e) && e@ == error@,
            r.wal == final(self).view_snapshot().wal,
            r.stores@ == final(self).view_snapshot().stores@,
    {
        self.record_wal_maintenance_outcome(Some(String::from_str(error)), blocked_by_reader, wal_probe, observed_at_ms)
    }
}

/// Recovery keeps the diagnosis: a failure followed by a success leaves the
/// WAL unblocked while the failure's time and detail remain on record.
pub proof fn law_recovery_keeps_failure_history(
    h: WalMaintenanceHistory,
    error: String,
    blocked: bool,
    t_fail: u64,
    t_ok: u64,
)
    ensures
        ({
            let failed = spec_record_outcome(h, Some(error), blocked, t_fail);
            let recovered = spec_record_outcome(failed, None, false, t_ok);
            &&& failed.blocked_by_reader == blocked
            &&& !recovered.blocked_by_reader
            &&& recovered.last_failure_at_ms == Some(t_fail)
            &&& recovered.last_error == failed.last_error
            &&& recovered.last_success_at_ms == Some(t_ok)
        }),
{
}

/// A reader-blocked maintenance makes the WAL blocked whatever its size, age
/// or inventory say; an unblocked, readable, small, fresh WAL whose latest
/// maintenance did not fail is healthy.
pub proof fn law_wal_state_precedence(
    size: Option<u64>,
    age: Option<u64>,
    has_error: bool,
    h: WalMaintenanceHistory,
)
    ensures
        h.blocked_by_reader ==> spec_wal_state(size, age, has_error, h) == WalState::Blocked,
        (!h.blocked_by_reader && !has_error && size is Some && size.unwrap() < WAL_WARNING_BYTES && (
        age is None || age.unwrap() < WAL_WARNING_AGE_MS) && !latest_attempt_failed(h))
            ==> spec_wal_state(size, age, has_error, h) == WalState::Healthy,
        (!h.blocked_by_reader && (has_error || size is None)) ==> spec_wal_state(size, age, has_error, h)
            == WalState::Unknown,
{
}


/// Free space is classified by its two floors alone: below the critical
/// floor it is critical, from the critical floor up to the warning floor a
/// warning, at or above the warning floor healthy; an unmeasured volume is
/// unknown.
pub proof fn law_capacity_floors(b: u64)
    ensures
        spec_capacity_state(None) == CapacityState::Unknown,
        b < CRITICAL_FREE_BYTES ==> spec_capacity_state(Some(b)) == CapacityState::Critical,
        (CRITICAL_FREE_BYTES <= b && b < WARNING_FREE_BYTES) ==> spec_capacity_state(Some(b))
            == CapacityState::Warning,
        WARNING_FREE_BYTES <= b ==> spec_capacity_state(Some(b)) == CapacityState::Healthy,
{
}

/// More free space never gives a worse state: if `b` bytes are free where
/// `a` were, the state of `b` is healthy, or the same as that of `a`, or a
/// warning where `a` was critical.
pub proof fn law_capacity_monotone(a: u64, b: u64)
    requires
        a <= b,
    ensures
        spec_capacity_state(Some(b)) == CapacityState::Healthy || spec_capacity_state(Some(b))
            == spec_capacity_state(Some(a)) || (spec_capacity_state(Some(b)) == CapacityState::Warning
            && spec_capacity_state(Some(a)) == CapacityState::Critical),
        spec_capacity_state(Some(a)) == CapacityState::Healthy ==> spec_capacity_state(Some(b))
            == CapacityState::Healthy,
{
}

/// For an unblocked WAL whose size was read without an inventory error: at
/// or over the critical size or the critical age it is critical, whatever
/// its maintenance history says; under both critical limits it is a warning
/// exactly when it is at or over the warning size or age or a failure was
/// recorded with no success at least as recent, and healthy otherwise.
pub proof fn law_wal_thresholds(size: u64, age: Option<u64>, h: WalMaintenanceHistory)
    requires
        !h.blocked_by_reader,
    ensures
        (size >= WAL_CRITICAL_BYTES || (age matches Some(a) && a >= WAL_CRITICAL_AGE_MS)) ==> spec_wal_state(
            Some(size),
            age,
            false,
            h,
        ) == WalState::Critical,
        (size < WAL_CRITICAL_BYTES && (age matches Some(a) ==> a < WAL_CRITICAL_AGE_MS)) ==> {
            let failed = h.last_failure_at_ms matches Some(f) && (h.last_success_at_ms matches Some(ok) ==> f > ok);
            let warned = failed || size >= WAL_WARNING_BYTES || (age matches Some(a) && a >= WAL_WARNING_AGE_MS);
            &&& warned ==> spec_wal_state(Some(size), age, false, h) == WalState::Warning
            &&& !warned ==> spec_wal_state(Some(size), age, false, h) == WalState::Healthy
        },
{
}

/// The maintenance history decides only between a warning and health: two
/// histories that agree on whether a reader blocks give the same state
/// whenever either gives a critical, unknown or blocked one.
pub proof fn law_wal_history_cannot_soften(
    size: Option<u64>,
    age: Option<u64>,
    has_error: bool,
    h1: WalMaintenanceHistory,
    h2: WalMaintenanceHistory,
)
    requires
        h1.blocked_by_reader == h2.blocked_by_reader,
        spec_wal_state(size, age, has_error, h1) == WalState::Critical || spec_wal_state(size, age, has_error, h1)
            == WalState::Unknown || spec_wal_state(size, age, has_error, h1) == WalState::Blocked,
    ensures
        spec_wal_state(size, age, has_error, h2) == spec_wal_state(size, age, has_error, h1),
{
}

} // verus!
