//! The startup integrity sweep's retained outcome. The sweep itself runs its
//! steps against the library; this module owns what it records: the repair
//! snapshot's transitions, the per-root summary, and the roots' health.
use vstd::prelude::*;
use crate::lifecycle::{Subsystem, SubsystemHealth};
use crate::text::{concat2, concat3, decimal, u64_text};

verus! {

/// Retained outcome of the startup repair pass.
#[derive(Debug, Clone)]
pub struct RepairIntegritySnapshot {
    pub state: &'static str,
    pub started_at_ms: Option<u64>,
    pub completed_at_ms: Option<u64>,
    pub vector_reconciled: Option<bool>,
    pub orphaned_passes_skipped: Option<usize>,
    pub retention: Option<RetentionRepairSnapshot>,
    pub roots: Option<RootRepairSnapshot>,
    pub errors: Vec<String>,
}

#[derive(Debug, Clone, Copy, PartialEq, Eq)]
pub struct RetentionRepairSnapshot {
    pub repended: usize,
    pub stale_orphans: usize,
    pub orphan_images: usize,
    pub retention_eligible: usize,
    pub retention_deferred_recent: usize,
    pub retention_deferred_unknown_timestamp: usize,
    pub retention_deferred_busy: usize,
    pub retention_dry_run: bool,
    pub reclaimed_images: usize,
    pub preview_rows_reclaimed: usize,
    pub preview_files_reclaimed: usize,
    pub preview_bytes_reclaimed: u64,
    pub vector_rows_reclaimed: usize,
    pub vector_spaces_compacted: usize,
    pub journal_vector_rows_retained: usize,
    pub temps_swept: usize,
}

#[derive(Debug, Clone, Copy, Default, PartialEq, Eq)]
pub struct RootRepairSnapshot {
    pub total_roots: usize,
    pub scanned_roots: usize,
    pub degraded_roots: usize,
    pub new_images: usize,
    pub superseded: usize,
    pub relinked: usize,
    pub retention_repairs_revived: usize,
    pub went_stale: usize,
    pub io_errors: usize,
}

/// What a completed walk of one root found.
#[derive(Debug, Clone, Copy, Default, PartialEq, Eq)]
pub struct ScanReport {
    pub new_images: usize,
    pub superseded: usize,
    pub relinked: usize,
    pub retention_repairs_revived: usize,
    pub went_stale: usize,
    pub io_errors: usize,
    /// The walk was incomplete, so unseen paths were not marked stale.
    pub stale_inference_suppressed: bool,
}

#[derive(Debug, Clone)]
pub enum RootReconcileOutcome {
    Scanned(ScanReport),
    Offline { volume_id: String },
    Failed { error: String },
}

#[derive(Debug, Clone)]
pub struct RootReconcileResult {
    pub root_id: String,
    pub outcome: RootReconcileOutcome,
}

/// The vector spaces the library keeps.
#[derive(Debug, Clone, Copy, PartialEq, Eq, Structural)]
pub enum VecKind {
    ImageClip,
    AnnotationChunk,
    ImageSummary,
}

/// The ingest passes that produce vectors.
#[derive(Debug, Clone, Copy, PartialEq, Eq, Structural)]
pub enum PassName {
    ImageEmbedding,
    TextEmbedding,
}

/// The ingest pass whose re-run rebuilds a vector space.
pub fn repend_pass_for(kind: VecKind) -> (r: PassName)
    ensures
        r == (if kind == VecKind::ImageClip { PassName::ImageEmbedding } else { PassName::TextEmbedding }),
{
    match kind {
        VecKind::ImageClip => PassName::ImageEmbedding,
        VecKind::AnnotationChunk | VecKind::ImageSummary => PassName::TextEmbedding,
    }
}

impl RepairIntegritySnapshot {
    /// The snapshot before the sweep has run: pending, nothing recorded.
    pub fn pending() -> (r: Self)
        ensures
            r.state@ == "pending"@,
            r.started_at_ms is None,
            r.completed_at_ms is None,
            r.vector_reconciled is None,
            r.orphaned_passes_skipped is None,
            r.retention is None,
            r.roots is None,
            r.errors@.len() == 0,
    {
        RepairIntegritySnapshot {
            state: "pending",
            started_at_ms: None,
            completed_at_ms: None,
            vector_reconciled: None,
            orphaned_passes_skipped: None,
            retention: None,
            roots: None,
            errors: Vec::new(),
        }
    }
}

impl Default for RepairIntegritySnapshot {
    fn default() -> (r: Self)
        ensures
            r.state@ == "pending"@,
            r.errors@.len() == 0,
    {
        Self::pending()
    }
}

/// A sweep begins: everything earlier is forgotten.
pub fn repair_started(now_ms: u64) -> (r: RepairIntegritySnapshot)
    ensures
        r.state@ == "running"@,
        r.started_at_ms == Some(now_ms),
        r.completed_at_ms is None,
        r.vector_reconciled is None,
        r.orphaned_passes_skipped is None,
        r.retention is None,
        r.roots is None,
        r.errors@.len() == 0,
{
    RepairIntegritySnapshot {
        state: "running",
        started_at_ms: Some(now_ms),
        completed_at_ms: None,
        vector_reconciled: None,
        orphaned_passes_skipped: None,
        retention: None,
        roots: None,
        errors: Vec::new(),
    }
}

/// The sweep was cancelled at `now_ms`; what it recorded so far stays.
pub fn repair_cancelled(repair: &mut RepairIntegritySnapshot, now_ms: u64)
    ensures
        final(repair).state@ == "cancelled"@,
        final(repair).completed_at_ms == Some(now_ms),
        final(repair).started_at_ms == old(repair).started_at_ms,
        final(repair).vector_reconciled == old(repair).vector_reconciled,
        final(repair).orphaned_passes_skipped == old(repair).orphaned_passes_skipped,
        final(repair).retention == old(repair).retention,
        final(repair).roots == old(repair).roots,
        final(repair).errors@ == old(repair).errors@,
{
    repair.state = "cancelled";
    repair.completed_at_ms = Some(now_ms);
}

/// Record a step failure as the step's prefix (such as `"preview
/// reconcile: "`) followed by the error.
pub fn repair_record_error(repair: &mut RepairIntegritySnapshot, prefix: &str, error: &str)
    ensures
        final(repair).errors@.len() == old(repair).errors@.len() + 1,
        final(repair).errors@.drop_last() == old(repair).errors@,
        final(repair).errors@.last()@ == prefix@ + error@,
        final(repair).state == old(repair).state,
        final(repair).started_at_ms == old(repair).started_at_ms,
        final(repair).completed_at_ms == old(repair).completed_at_ms,
        final(repair).vector_reconciled == old(repair).vector_reconciled,
        final(repair).orphaned_passes_skipped == old(repair).orphaned_passes_skipped,
        final(repair).retention == old(repair).retention,
        final(repair).roots == old(repair).roots,
{
    let line = concat2(prefix, error);
    repair.errors.push(line);
    proof {
        assert(final(repair).errors@.drop_last() =~= old(repair).errors@);
    }
}

pub open spec fn roots_degraded(r: RepairIntegritySnapshot) -> bool {
    match r.roots {
        Some(roots) => roots.degraded_roots > 0,
        None => false,
    }
}

/// The sweep finished at `now_ms`: completed when no step failed and no
/// root was degraded, degraded otherwise.
pub fn repair_finished(repair: &mut RepairIntegritySnapshot, now_ms: u64)
    ensures
        final(repair).state@ == (if old(repair).errors@.len() == 0 && !roots_degraded(*old(repair)) {
            "completed"@
        } else {
            "degraded"@
        }),
        final(repair).completed_at_ms == Some(now_ms),
        final(repair).errors@ == old(repair).errors@,
        final(repair).roots == old(repair).roots,
        final(repair).retention == old(repair).retention,
        final(repair).started_at_ms == old(repair).started_at_ms,
        final(repair).vector_reconciled == old(repair).vector_reconciled,
        final(repair).orphaned_passes_skipped == old(repair).orphaned_passes_skipped,
{
    let degraded_roots = match &repair.roots {
        Some(roots) => roots.degraded_roots > 0,
        None => false,
    };
    repair.state = if repair.errors.len() == 0 && !degraded_roots { "completed" } else { "degraded" };
    repair.completed_at_ms = Some(now_ms);
}

// ---------------------------------------------------------------------------
// Per-root summary
// ---------------------------------------------------------------------------

pub open spec fn scanned_of(o: RootReconcileOutcome) -> Option<ScanReport> {
    match o {
        RootReconcileOutcome::Scanned(r) => Some(r),
        _ => None,
    }
}

/// The summary of the first `n` reports, in mathematical integers.
pub open spec fn summary_of(reports: Seq<RootReconcileResult>) -> (int, int, int, int, int, int, int, int)
    decreases reports.len(),
{
    if reports.len() == 0 {
        (0, 0, 0, 0, 0, 0, 0, 0)
    } else {
        let p = summary_of(reports.drop_last());
        match scanned_of(reports.last().outcome) {
            Some(s) => (
                p.0 + 1,
                p.1 + if s.stale_inference_suppressed { 1int } else { 0 },
                p.2 + s.new_images,
                p.3 + s.superseded,
                p.4 + s.relinked,
                p.5 + s.retention_repairs_revived,
                p.6 + s.went_stale,
                p.7 + s.io_errors,
            ),
            None => (p.0, p.1 + 1, p.2, p.3, p.4, p.5, p.6, p.7),
        }
    }
}

pub open spec fn summary_fits(t: (int, int, int, int, int, int, int, int)) -> bool {
    &&& t.0 <= usize::MAX
    &&& t.1 <= usize::MAX
    &&& t.2 <= usize::MAX
    &&& t.3 <= usize::MAX
    &&& t.4 <= usize::MAX
    &&& t.5 <= usize::MAX
    &&& t.6 <= usize::MAX
    &&& t.7 <= usize::MAX
}

proof fn lemma_summary_monotone(reports: Seq<RootReconcileResult>, i: int)
    requires
        0 <= i <= reports.len(),
    ensures
        ({
            let a = summary_of(reports.subrange(0, i));
            let b = summary_of(reports);
            a.0 <= b.0 && a.1 <= b.1 && a.2 <= b.2 && a.3 <= b.3 && a.4 <= b.4 && a.5 <= b.5 && a.6 <= b.6 && a.7 <= b.7
        }),
    decreases reports.len() - i,
{
    if i < reports.len() {
        lemma_summary_monotone(reports, i + 1);
        assert(reports.subrange(0, i + 1).drop_last() =~= reports.subrange(0, i));
    } else {
        assert(reports.subrange(0, i) =~= reports);
    }
}

/// Totals across every root: scanned roots add their counters, an
/// incomplete walk or an offline or failed root counts as degraded.
pub fn summarize_roots(reports: &Vec<RootReconcileResult>) -> (r: RootRepairSnapshot)
    requires
        summary_fits(summary_of(reports@)),
    ensures
        ({
            let t = summary_of(reports@);
            &&& r.total_roots == reports@.len()
            &&& r.scanned_roots == t.0
            &&& r.degraded_roots == t.1
            &&& r.new_images == t.2
            &&& r.superseded == t.3
            &&& r.relinked == t.4
            &&& r.retention_repairs_revived == t.5
            &&& r.went_stale == t.6
            &&& r.io_errors == t.7
        }),
{
    let n = reports.len();
    let mut s = RootRepairSnapshot {
        total_roots: n,
        scanned_roots: 0,
        degraded_roots: 0,
        new_images: 0,
        superseded: 0,
        relinked: 0,
        retention_repairs_revived: 0,
        went_stale: 0,
        io_errors: 0,
    };
    for i in 0..n
        invariant
            n == reports@.len(),
            summary_fits(summary_of(reports@)),
            s.total_roots == n,
            ({
                let t = summary_of(reports@.subrange(0, i as int));
                s.scanned_roots == t.0 && s.degraded_roots == t.1 && s.new_images == t.2 && s.superseded == t.3
                    && s.relinked == t.4 && s.retention_repairs_revived == t.5 && s.went_stale == t.6
                    && s.io_errors == t.7
            }),
    {
        proof {
            lemma_summary_monotone(reports@, i + 1);
            assert(reports@.subrange(0, i + 1).drop_last() =~= reports@.subrange(0, i as int));
        }
        match &reports[i].outcome {
            RootReconcileOutcome::Scanned(report) => {
                s.scanned_roots = s.scanned_roots + 1;
                s.new_images = s.new_images + report.new_images;
                s.superseded = s.superseded + report.superseded;
                s.relinked = s.relinked + report.relinked;
                s.retention_repairs_revived = s.retention_repairs_revived + report.retention_repairs_revived;
                s.went_stale = s.went_stale + report.went_stale;
                s.io_errors = s.io_errors + report.io_errors;
                if report.stale_inference_suppressed {
                    s.degraded_roots = s.degraded_roots + 1;
                }
            },
            _ => {
                s.degraded_roots = s.degraded_roots + 1;
            },
        }
    }
    proof {
        assert(reports@.subrange(0, n as int) =~= reports@);
    }
    s
}

/// The degradation note of one root, if it has one.
pub open spec fn root_note(r: RootReconcileResult) -> Option<Seq<char>> {
    match r.outcome {
        RootReconcileOutcome::Scanned(s) => if s.stale_inference_suppressed {
            Some(r.root_id@ + ": incomplete filesystem walk ("@ + decimal(s.io_errors as nat) + " I/O errors)"@)
        } else {
            None
        },
        RootReconcileOutcome::Offline { volume_id } => Some(r.root_id@ + ": volume "@ + volume_id@ + " offline"@),
        RootReconcileOutcome::Failed { error } => Some(r.root_id@ + ": "@ + error@),
    }
}

pub open spec fn root_notes(reports: Seq<RootReconcileResult>) -> Seq<Seq<char>>
    decreases reports.len(),
{
    if reports.len() == 0 {
        seq![]
    } else {
        let p = root_notes(reports.drop_last());
        match root_note(reports.last()) {
            Some(n) => p.push(n),
            None => p,
        }
    }
}

fn root_note_text(r: &RootReconcileResult) -> (o: Option<String>)
    ensures
        match o {
            Some(s) => root_note(*r) == Some(s@),
            None => root_note(*r) is None,
        },
{
    match &r.outcome {
        RootReconcileOutcome::Scanned(s) => if s.stale_inference_suppressed {
            let head = concat2(r.root_id.as_str(), ": incomplete filesystem walk (");
            let n = u64_text(s.io_errors as u64);
            Some(concat3(head.as_str(), n.as_str(), " I/O errors)"))
        } else {
            None
        },
        RootReconcileOutcome::Offline { volume_id } => {
            let head = concat3(r.root_id.as_str(), ": volume ", volume_id.as_str());
            Some(concat2(head.as_str(), " offline"))
        },
        RootReconcileOutcome::Failed { error } => Some(concat3(r.root_id.as_str(), ": ", error.as_str())),
    }
}

/// The degradation notes of the roots, in report order.
pub fn degraded_root_notes(reports: &Vec<RootReconcileResult>) -> (r: Vec<String>)
    ensures
        r@.map_values(|s: String| s@) == root_notes(reports@),
{
    let mut r: Vec<String> = Vec::new();
    let n = reports.len();
    for i in 0..n
        invariant
            n == reports@.len(),
            r@.map_values(|s: String| s@) == root_notes(reports@.subrange(0, i as int)),
    {
        proof {
            assert(reports@.subrange(0, i + 1).drop_last() =~= reports@.subrange(0, i as int));
        }
        match root_note_text(&reports[i]) {
            Some(s) => {
                r.push(s);
                proof {
                    assert(r@.map_values(|s: String| s@) =~= root_notes(reports@.subrange(0, i + 1)));
                }
            },
            None => {},
        }
    }
    proof {
        assert(reports@.subrange(0, n as int) =~= reports@);
    }
    r
}

/// `parts` joined with `sep` between consecutive parts.
pub open spec fn joined(parts: Seq<Seq<char>>, sep: Seq<char>) -> Seq<char>
    decreases parts.len(),
{
    if parts.len() == 0 {
        seq![]
    } else if parts.len() == 1 {
        parts[0]
    } else {
        joined(parts.drop_last(), sep) + sep + parts.last()
    }
}

pub fn join_texts(parts: &Vec<String>, sep: &str) -> (r: String)
    ensures
        r@ == joined(parts@.map_values(|s: String| s@), sep@),
{
    let mut r = String::new();
    let n = parts.len();
    let ghost views = parts@.map_values(|s: String| s@);
    for i in 0..n
        invariant
            n == parts@.len(),
            views == parts@.map_values(|s: String| s@),
            r@ == joined(views.subrange(0, i as int), sep@),
    {
        proof {
            assert(views.subrange(0, i + 1).drop_last() =~= views.subrange(0, i as int));
        }
        if i > 0 {
            r.append(sep);
        } else {
            proof {
                assert(r@ =~= seq![]);
            }
        }
        r.append(parts[i].as_str());
        proof {
            if i == 0 {
                assert(r@ =~= views.subrange(0, 1)[0]);
            }
        }
    }
    proof {
        assert(views.subrange(0, n as int) =~= views);
    }
    r
}

/// The roots' health after a reconcile: healthy with no notes, otherwise
/// degraded with the notes joined by `; `.
pub fn roots_health(reports: &Vec<RootReconcileResult>) -> (h: SubsystemHealth)
    ensures
        root_notes(reports@).len() == 0 ==> h is Healthy,
        root_notes(reports@).len() > 0 ==> (h matches SubsystemHealth::Degraded { summary }
            && summary@ == joined(root_notes(reports@), "; "@)),
{
    let notes = degraded_root_notes(reports);
    if notes.len() == 0 {
        SubsystemHealth::Healthy
    } else {
        SubsystemHealth::Degraded { summary: join_texts(&notes, "; ") }
    }
}


// ---------------------------------------------------------------------------
// The library doctor's report and its retained form
// ---------------------------------------------------------------------------

/// What one run of the library doctor (preview cache, retention, temp
/// sweep) reported.
#[derive(Debug, Clone, Copy, Default, PartialEq, Eq)]
pub struct DoctorReport {
    pub repended: usize,
    pub stale_orphans: usize,
    pub orphan_images: usize,
    pub retention_eligible: usize,
    pub retention_deferred_recent: usize,
    pub retention_deferred_unknown_timestamp: usize,
    pub retention_deferred_busy: usize,
    pub retention_dry_run: bool,
    pub reclaimed_images: usize,
    pub preview_rows_reclaimed: usize,
    pub preview_files_reclaimed: usize,
    pub preview_bytes_reclaimed: u64,
    pub vector_rows_reclaimed: usize,
    pub vector_spaces_compacted: usize,
    pub journal_vector_rows_retained: usize,
    pub temps_swept: usize,
    /// The run stopped early because the sweep was cancelled.
    pub cancelled: bool,
}

pub open spec fn retention_of(r: DoctorReport) -> RetentionRepairSnapshot {
    RetentionRepairSnapshot {
        repended: r.repended,
        stale_orphans: r.stale_orphans,
        orphan_images: r.orphan_images,
        retention_eligible: r.retention_eligible,
        retention_deferred_recent: r.retention_deferred_recent,
        retention_deferred_unknown_timestamp: r.retention_deferred_unknown_timestamp,
        retention_deferred_busy: r.retention_deferred_busy,
        retention_dry_run: r.retention_dry_run,
        reclaimed_images: r.reclaimed_images,
        preview_rows_reclaimed: r.preview_rows_reclaimed,
        preview_files_reclaimed: r.preview_files_reclaimed,
        preview_bytes_reclaimed: r.preview_bytes_reclaimed,
        vector_rows_reclaimed: r.vector_rows_reclaimed,
        vector_spaces_compacted: r.vector_spaces_compacted,
        journal_vector_rows_retained: r.journal_vector_rows_retained,
        temps_swept: r.temps_swept,
    }
}

impl From<DoctorReport> for RetentionRepairSnapshot {
    fn from(r: DoctorReport) -> (s: Self) {
        RetentionRepairSnapshot {
            repended: r.repended,
            stale_orphans: r.stale_orphans,
            orphan_images: r.orphan_images,
            retention_eligible: r.retention_eligible,
            retention_deferred_recent: r.retention_deferred_recent,
            retention_deferred_unknown_timestamp: r.retention_deferred_unknown_timestamp,
            retention_deferred_busy: r.retention_deferred_busy,
            retention_dry_run: r.retention_dry_run,
            reclaimed_images: r.reclaimed_images,
            preview_rows_reclaimed: r.preview_rows_reclaimed,
            preview_files_reclaimed: r.preview_files_reclaimed,
            preview_bytes_reclaimed: r.preview_bytes_reclaimed,
            vector_rows_reclaimed: r.vector_rows_reclaimed,
            vector_spaces_compacted: r.vector_spaces_compacted,
            journal_vector_rows_retained: r.journal_vector_rows_retained,
            temps_swept: r.temps_swept,
        }
    }
}

impl vstd::std_specs::convert::FromSpecImpl<DoctorReport> for RetentionRepairSnapshot {
    open spec fn obeys_from_spec() -> bool {
        true
    }

    open spec fn from_spec(r: DoctorReport) -> RetentionRepairSnapshot {
        retention_of(r)
    }
}

// ---------------------------------------------------------------------------
// Per-root task errors
// ---------------------------------------------------------------------------

/// The task error a root's reconcile raises, if any.
pub open spec fn root_task_error(r: RootReconcileResult) -> Option<Seq<char>> {
    match r.outcome {
        RootReconcileOutcome::Scanned(s) => if s.stale_inference_suppressed {
            Some("root "@ + r.root_id@ + " walk incomplete; stale inference suppressed"@)
        } else {
            None
        },
        RootReconcileOutcome::Offline { .. } => None,
        RootReconcileOutcome::Failed { error } => Some("root "@ + r.root_id@ + " reconcile failed: "@ + error@),
    }
}

pub open spec fn root_task_errors(reports: Seq<RootReconcileResult>) -> Seq<Seq<char>>
    decreases reports.len(),
{
    if reports.len() == 0 {
        seq![]
    } else {
        let p = root_task_errors(reports.drop_last());
        match root_task_error(reports.last()) {
            Some(n) => p.push(n),
            None => p,
        }
    }
}

fn root_task_error_text(r: &RootReconcileResult) -> (o: Option<String>)
    ensures
        match o {
            Some(s) => root_task_error(*r) == Some(s@),
            None => root_task_error(*r) is None,
        },
{
    match &r.outcome {
        RootReconcileOutcome::Scanned(s) => if s.stale_inference_suppressed {
            Some(concat3("root ", r.root_id.as_str(), " walk incomplete; stale inference suppressed"))
        } else {
            None
        },
        RootReconcileOutcome::Offline { .. } => None,
        RootReconcileOutcome::Failed { error } => {
            let head = concat3("root ", r.root_id.as_str(), " reconcile failed: ");
            Some(concat2(head.as_str(), error.as_str()))
        },
    }
}

/// The task errors the roots raise, in report order.
pub fn root_task_error_lines(reports: &Vec<RootReconcileResult>) -> (r: Vec<String>)
    ensures
        r@.map_values(|s: String| s@) == root_task_errors(reports@),
{
    let mut r: Vec<String> = Vec::new();
    let n = reports.len();
    for i in 0..n
        invariant
            n == reports@.len(),
            r@.map_values(|s: String| s@) == root_task_errors(reports@.subrange(0, i as int)),
    {
        proof {
            assert(reports@.subrange(0, i + 1).drop_last() =~= reports@.subrange(0, i as int));
        }
        match root_task_error_text(&reports[i]) {
            Some(s) => {
                r.push(s);
                proof {
                    assert(r@.map_values(|s: String| s@) =~= root_task_errors(reports@.subrange(0, i + 1)));
                }
            },
            None => {},
        }
    }
    proof {
        assert(reports@.subrange(0, n as int) =~= reports@);
    }
    r
}

} // verus!
