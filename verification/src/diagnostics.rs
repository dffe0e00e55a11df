//! Retained launch diagnostics: the names and contents of the files that
//! carry evidence across a crash. The active log is rotated to a
//! `photoproof-previous-*` file before a new launch opens it, only the
//! newest rotated logs are kept, and a launch marker that survives to the
//! next launch signals that the previous one did not shut down cleanly.
use vstd::prelude::*;
use crate::text::{concat2, concat3, decimal, join_path, path_join, u64_text};

verus! {

/// How many rotated logs are kept.
pub const RETAINED_LOGS: usize = 8;

pub const CURRENT_LOG: &'static str = "photoproof.log";

pub const LAUNCH_MARKER: &'static str = "launch-in-progress";

/// `s` begins with `p`.
pub open spec fn has_prefix(s: Seq<char>, p: Seq<char>) -> bool {
    p.len() <= s.len() && s.subrange(0, p.len() as int) == p
}

/// `s` ends with `p`.
pub open spec fn has_suffix(s: Seq<char>, p: Seq<char>) -> bool {
    p.len() <= s.len() && s.subrange(s.len() - p.len(), s.len() as int) == p
}

pub fn starts_with_text(s: &str, p: &str) -> (r: bool)
    ensures
        r == has_prefix(s@, p@),
{
    let n = s.unicode_len();
    let k = p.unicode_len();
    if k > n {
        return false;
    }
    let mut i: usize = 0;
    while i < k
        invariant
            n == s@.len(),
            k == p@.len(),
            k <= n,
            i <= k,
            forall|j: int| 0 <= j < i ==> s@[j] == p@[j],
        decreases k - i,
    {
        if s.get_char(i) != p.get_char(i) {
            proof {
                assert(s@.subrange(0, k as int)[i as int] != p@[i as int]);
            }
            return false;
        }
        i += 1;
    }
    proof {
        assert(s@.subrange(0, k as int) =~= p@);
    }
    true
}

pub fn ends_with_text(s: &str, p: &str) -> (r: bool)
    ensures
        r == has_suffix(s@, p@),
{
    let n = s.unicode_len();
    let k = p.unicode_len();
    if k > n {
        return false;
    }
    let start = n - k;
    let mut i: usize = 0;
    while i < k
        invariant
            n == s@.len(),
            k == p@.len(),
            k <= n,
            start == n - k,
            i <= k,
            forall|j: int| 0 <= j < i ==> s@[start + j] == p@[j],
        decreases k - i,
    {
        if s.get_char(start + i) != p.get_char(i) {
            proof {
                assert(s@.subrange(start as int, n as int)[i as int] != p@[i as int]);
            }
            return false;
        }
        i += 1;
    }
    proof {
        assert(s@.subrange(start as int, n as int) =~= p@);
    }
    true
}

/// The name a rotated log is given: the rotation time, then `-{sequence}`
/// when an earlier rotation in the same millisecond took the plain name.
pub open spec fn rotated_log_name_spec(stamp_ms: nat, sequence: nat) -> Seq<char> {
    "photoproof-previous-"@ + decimal(stamp_ms) + (if sequence == 0 {
        seq![]
    } else {
        "-"@ + decimal(sequence)
    }) + ".log"@
}

pub fn rotated_log_name(stamp_ms: u64, sequence: u32) -> (s: String)
    ensures
        s@ == rotated_log_name_spec(stamp_ms as nat, sequence as nat),
{
    let stamp = u64_text(stamp_ms);
    let head = concat2("photoproof-previous-", stamp.as_str());
    if sequence == 0 {
        proof {
            assert(head@ + seq![] =~= head@);
        }
        concat2(head.as_str(), ".log")
    } else {
        let seq_text = u64_text(sequence as u64);
        let mid = concat3(head.as_str(), "-", seq_text.as_str());
        let s = concat2(mid.as_str(), ".log");
        proof {
            assert(s@ =~= rotated_log_name_spec(stamp_ms as nat, sequence as nat));
        }
        s
    }
}

/// A file of the logs directory is a rotated log.
pub fn is_rotated_log_name(name: &str) -> (r: bool)
    ensures
        r == (has_prefix(name@, "photoproof-previous-"@) && has_suffix(name@, ".log"@)),
{
    starts_with_text(name, "photoproof-previous-") && ends_with_text(name, ".log")
}

/// Of `rotated` rotated logs, how many of the oldest are removed so that
/// no more than the retained number remain.
pub fn rotated_logs_to_remove(rotated: usize) -> (r: usize)
    ensures
        r == (if rotated > RETAINED_LOGS { rotated - RETAINED_LOGS } else { 0 }),
{
    rotated.saturating_sub(RETAINED_LOGS)
}

/// What the launch marker holds.
pub open spec fn launch_marker_spec(pid: nat, started_at_ms: nat, version: Seq<char>) -> Seq<char> {
    "pid="@ + decimal(pid) + "\nstarted_at_ms="@ + decimal(started_at_ms) + "\nversion="@ + version + "\n"@
}

pub fn launch_marker_text(pid: u32, started_at_ms: u64, version: &str) -> (s: String)
    ensures
        s@ == launch_marker_spec(pid as nat, started_at_ms as nat, version@),
{
    let p = u64_text(pid as u64);
    let t = u64_text(started_at_ms);
    let a = concat3("pid=", p.as_str(), "\nstarted_at_ms=");
    let b = concat3(a.as_str(), t.as_str(), "\nversion=");
    concat3(b.as_str(), version, "\n")
}

/// The extension of the temporary file the marker is written through.
pub open spec fn marker_temp_extension_spec(pid: nat, stamp_ms: nat, sequence: nat) -> Seq<char> {
    "tmp-"@ + decimal(pid) + "-"@ + decimal(stamp_ms) + "-"@ + decimal(sequence)
}

pub fn marker_temp_extension(pid: u32, stamp_ms: u64, sequence: u32) -> (s: String)
    ensures
        s@ == marker_temp_extension_spec(pid as nat, stamp_ms as nat, sequence as nat),
{
    let p = u64_text(pid as u64);
    let t = u64_text(stamp_ms);
    let q = u64_text(sequence as u64);
    let a = concat3("tmp-", p.as_str(), "-");
    let b = concat3(a.as_str(), t.as_str(), "-");
    concat2(b.as_str(), q.as_str())
}

/// The file a panic is recorded in.
pub open spec fn panic_log_name_spec(stamp_ms: nat, pid: nat) -> Seq<char> {
    "panic-"@ + decimal(stamp_ms) + "-"@ + decimal(pid) + ".log"@
}

pub fn panic_log_name(stamp_ms: u64, pid: u32) -> (s: String)
    ensures
        s@ == panic_log_name_spec(stamp_ms as nat, pid as nat),
{
    let t = u64_text(stamp_ms);
    let p = u64_text(pid as u64);
    let a = concat3("panic-", t.as_str(), "-");
    concat3(a.as_str(), p.as_str(), ".log")
}

/// Where a launch keeps its evidence, and whether the launch before it
/// ended without a clean shutdown.
#[derive(Debug, Clone)]
pub struct CrashDiagnostics {
    pub logs_dir: String,
    pub current_log: String,
    pub previous_unclean_launch: bool,
    /// The launch marker, removed once the launch shuts down cleanly.
    pub marker_path: String,
}

impl CrashDiagnostics {
    /// The layout under the application data directory: `logs/` holding
    /// the active log, and the launch marker beside it.
    pub fn new(app_data: &str, previous_unclean_launch: bool) -> (d: Self)
        ensures
            d.logs_dir@ == path_join(app_data@, "logs"@),
            d.current_log@ == path_join(path_join(app_data@, "logs"@), CURRENT_LOG@),
            d.marker_path@ == path_join(app_data@, LAUNCH_MARKER@),
            d.previous_unclean_launch == previous_unclean_launch,
    {
        let logs_dir = join_path(app_data, "logs");
        let current_log = join_path(logs_dir.as_str(), CURRENT_LOG);
        let marker_path = join_path(app_data, LAUNCH_MARKER);
        CrashDiagnostics { logs_dir, current_log, previous_unclean_launch, marker_path }
    }
}

} // verus!
