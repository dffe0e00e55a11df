//! The startup integrity sweep as a decision machine. The caller performs
//! each step against the library (vector spaces, orphaned ingest passes,
//! the preview cache, the library roots) and hands the outcome back; the
//! machine records it in the retained repair snapshot and says which task
//! errors and which subsystem health to publish. A failed step never stops
//! the sweep: the next step still runs. A cancellation ends it at once.
use vstd::prelude::*;
use crate::doctor::{
    joined, repair_cancelled, repair_finished, repair_record_error, repair_started, repend_pass_for,
    retention_of, root_notes, root_task_error_lines, root_task_errors, roots_health, summarize_roots,
    summary_fits, summary_of, DoctorReport, PassName, RepairIntegritySnapshot, RetentionRepairSnapshot,
    RootReconcileResult, RootRepairSnapshot, VecKind,
};
use crate::lifecycle::{Subsystem, SubsystemHealth};
use crate::text::concat2;

verus! {

// ---------------------------------------------------------------------------
// Vector spaces
// ---------------------------------------------------------------------------

/// Why a vector space was reconciled.
#[derive(Debug, Clone, Copy, PartialEq, Eq, Structural)]
pub enum SpaceReconcileReason {
    DanglingActiveFileMissing,
    SupersededByActiveModel,
    OrphanFile,
}

/// The words a reconciled space is reported with.
pub fn reason_label(reason: SpaceReconcileReason) -> (s: &'static str)
    ensures
        s@ == (match reason {
            SpaceReconcileReason::DanglingActiveFileMissing => "dangling (file missing)"@,
            SpaceReconcileReason::SupersededByActiveModel => "superseded duplicate"@,
            SpaceReconcileReason::OrphanFile => "orphan file"@,
        }),
{
    match reason {
        SpaceReconcileReason::DanglingActiveFileMissing => "dangling (file missing)",
        SpaceReconcileReason::SupersededByActiveModel => "superseded duplicate",
        SpaceReconcileReason::OrphanFile => "orphan file",
    }
}

#[derive(Debug, Clone)]
pub struct ReconciledSpace {
    pub vec_kind: VecKind,
    pub model_id: String,
    pub rows: usize,
    pub reason: SpaceReconcileReason,
}

/// What reconciling the vector spaces against the ready models did: the
/// spaces it dropped, and the spaces whose vectors must be rebuilt.
#[derive(Debug, Clone)]
pub struct SpaceReconcileReport {
    pub reconciled: Vec<ReconciledSpace>,
    pub repend: Vec<(VecKind, String)>,
}

impl SpaceReconcileReport {
    pub open spec fn spec_is_empty(&self) -> bool {
        self.reconciled@.len() == 0 && self.repend@.len() == 0
    }

    #[verifier::when_used_as_spec(spec_is_empty)]
    pub fn is_empty(&self) -> (r: bool)
        ensures
            r == self.spec_is_empty(),
    {
        self.reconciled.len() == 0 && self.repend.len() == 0
    }
}

/// What the vector-space reconcile does next.
#[derive(Debug, Clone)]
pub enum VectorReconcileStep {
    /// Re-pend this ingest pass and hand back how it went.
    Repend(PassName),
    /// Done: the failure, if any, the task error to report, and the
    /// vectors' health.
    Done { failure: Option<String>, task_error: Option<String>, health: SubsystemHealth },
}

pub open spec fn all_ok(s: Seq<Result<usize, String>>) -> bool {
    forall|j: int| 0 <= j < s.len() ==> (#[trigger] s[j]) is Ok
}

pub open spec fn err_text(r: Result<usize, String>) -> Seq<char> {
    match r {
        Err(e) => e@,
        Ok(_) => seq![],
    }
}

pub open spec fn failed_with(step: VectorReconcileStep, prefix: Seq<char>, e: Seq<char>) -> bool {
    step matches VectorReconcileStep::Done { failure: Some(f), task_error: Some(t), health: SubsystemHealth::Degraded { summary } }
        && f@ == e && t@ == prefix + e && summary@ == e
}

pub open spec fn clean_done(step: VectorReconcileStep) -> bool {
    step matches VectorReconcileStep::Done { failure: None, task_error: None, health: SubsystemHealth::Healthy }
}

/// Reconcile the vector spaces against the models that are ready. Given the
/// reconcile's outcome and the outcomes of the re-pends made so far (in the
/// report's order), say what comes next: a failed reconcile or a failed
/// re-pend ends it degraded with that error; an empty report, or a report
/// whose re-pends all succeeded, ends it healthy; otherwise the next space's
/// pass is re-pended.
pub fn vector_reconcile_step(
    reconcile: &Result<SpaceReconcileReport, String>,
    repended: &Vec<Result<usize, String>>,
) -> (step: VectorReconcileStep)
    ensures
        reconcile matches Err(e) ==> failed_with(step, "vector reconcile failed: "@, e@),
        reconcile matches Ok(report) ==> {
            &&& report.spec_is_empty() ==> clean_done(step)
            &&& !report.spec_is_empty() ==> {
                &&& forall|i: int|
                    0 <= i < repended@.len() && all_ok(repended@.take(i)) && (#[trigger] repended@[i]) is Err
                        ==> failed_with(step, "vector re-pend failed: "@, err_text(repended@[i]))
                &&& all_ok(repended@) && repended@.len() < report.repend@.len() ==> step
                    == VectorReconcileStep::Repend(
                    if report.repend@[repended@.len() as int].0 == VecKind::ImageClip {
                        PassName::ImageEmbedding
                    } else {
                        PassName::TextEmbedding
                    },
                )
                &&& all_ok(repended@) && repended@.len() >= report.repend@.len() ==> clean_done(step)
            }
        },
{
    match reconcile {
        Err(e) => VectorReconcileStep::Done {
            failure: Some(e.clone()),
            task_error: Some(concat2("vector reconcile failed: ", e.as_str())),
            health: SubsystemHealth::Degraded { summary: e.clone() },
        },
        Ok(report) => {
            if report.is_empty() {
                return VectorReconcileStep::Done { failure: None, task_error: None, health: SubsystemHealth::Healthy };
            }
            let n = repended.len();
            let mut i: usize = 0;
            while i < n
                invariant
                    n == repended@.len(),
                    i <= n,
                    *reconcile == Ok::<SpaceReconcileReport, String>(*report),
                    !report.spec_is_empty(),
                    all_ok(repended@.take(i as int)),
                decreases n - i,
            {
                match &repended[i] {
                    Err(e) => {
                        proof {
                            assert forall|k: int|
                                0 <= k < repended@.len() && all_ok(repended@.take(k)) && #[trigger] repended@[k] is Err
                                implies k == i by {
                                if k < i {
                                    assert(repended@.take(i as int)[k] == repended@[k]);
                                } else if k > i {
                                    assert(repended@.take(k)[i as int] == repended@[i as int]);
                                }
                            }
                        }
                        return VectorReconcileStep::Done {
                            failure: Some(e.clone()),
                            task_error: Some(concat2("vector re-pend failed: ", e.as_str())),
                            health: SubsystemHealth::Degraded { summary: e.clone() },
                        };
                    },
                    Ok(_) => {},
                }
                proof {
                    assert forall|j: int| 0 <= j < i + 1 implies (#[trigger] repended@.take(i + 1)[j]) is Ok by {
                        if j < i {
                            assert(repended@.take(i + 1)[j] == repended@.take(i as int)[j]);
                        }
                    }
                }
                i = i + 1;
            }
            proof {
                assert(repended@.take(n as int) =~= repended@);
                assert forall|k: int| 0 <= k < repended@.len() implies (#[trigger] repended@[k]) is Ok by {
                    assert(repended@.take(n as int)[k] == repended@[k]);
                }
            }
            if n < report.repend.len() {
                VectorReconcileStep::Repend(repend_pass_for(report.repend[n].0))
            } else {
                VectorReconcileStep::Done { failure: None, task_error: None, health: SubsystemHealth::Healthy }
            }
        },
    }
}


// ---------------------------------------------------------------------------
// The sweep
// ---------------------------------------------------------------------------

/// The sweep's steps, in the order they run.
#[derive(Debug, Clone, Copy, PartialEq, Eq, Structural)]
pub enum DoctorStep {
    VectorSpaces,
    IngestPasses,
    PreviewCache,
    LibraryRoots,
}

impl DoctorStep {
    /// The progress, in hundredths, and the words reported as the step begins.
    pub fn progress(self) -> (r: (u8, &'static str))
        ensures
            match self {
                DoctorStep::VectorSpaces => r.0 == 5 && r.1@ == "checking vector spaces"@,
                DoctorStep::IngestPasses => r.0 == 25 && r.1@ == "checking ingest passes"@,
                DoctorStep::PreviewCache => r.0 == 45 && r.1@ == "checking preview cache"@,
                DoctorStep::LibraryRoots => r.0 == 65 && r.1@ == "reconciling library roots"@,
            },
    {
        match self {
            DoctorStep::VectorSpaces => (5, "checking vector spaces"),
            DoctorStep::IngestPasses => (25, "checking ingest passes"),
            DoctorStep::PreviewCache => (45, "checking preview cache"),
            DoctorStep::LibraryRoots => (65, "reconciling library roots"),
        }
    }
}

/// What the caller observed for the current step.
#[derive(Debug)]
pub enum DoctorEvent {
    /// The cancel flag was set before the current step began.
    Cancelled,
    /// The vector-space reconcile ended, with its failure if it failed.
    VectorSpaces { failure: Option<String> },
    /// Retiring the passes of images with no active path: how many were
    /// skipped, or the error.
    IngestPasses(Result<usize, String>),
    /// The library doctor's run over the preview cache.
    PreviewCache(Result<DoctorReport, String>),
    /// The walk of every library root, and whether the cancel flag was set
    /// when it returned.
    LibraryRoots { result: Result<Vec<RootReconcileResult>, String>, cancelled: bool },
}

/// What the caller publishes after a step: task errors, in order, and a
/// subsystem's new health.
#[derive(Debug)]
pub struct DoctorAction {
    pub task_errors: Vec<String>,
    pub health: Option<(Subsystem, SubsystemHealth)>,
}

/// The sweep in progress: the retained snapshot, the step to run next
/// (`None` once the sweep has ended), and whether the vector spaces
/// reconciled, which decides whether the active vector target is kept.
#[derive(Debug)]
pub struct StartupDoctor {
    pub repair: RepairIntegritySnapshot,
    pub step: Option<DoctorStep>,
    pub vector_reconciled: bool,
}

/// Every field of the snapshot but its error list agrees.
pub open spec fn same_record(a: RepairIntegritySnapshot, b: RepairIntegritySnapshot) -> bool {
    &&& a.state@ == b.state@
    &&& a.started_at_ms == b.started_at_ms
    &&& a.completed_at_ms == b.completed_at_ms
    &&& a.vector_reconciled == b.vector_reconciled
    &&& a.orphaned_passes_skipped == b.orphaned_passes_skipped
    &&& a.retention == b.retention
    &&& a.roots == b.roots
}

/// `after` is `before` with `line` appended.
pub open spec fn pushed(before: Seq<String>, after: Seq<String>, line: Seq<char>) -> bool {
    &&& after.len() == before.len() + 1
    &&& after.drop_last() == before
    &&& after.last()@ == line
}

/// `after` is `before` cancelled at `now`: everything recorded stays.
pub open spec fn cancelled_at(before: RepairIntegritySnapshot, after: RepairIntegritySnapshot, now: u64) -> bool {
    &&& same_record(after, RepairIntegritySnapshot { state: "cancelled", completed_at_ms: Some(now), ..before })
    &&& after.errors@ == before.errors@
}

/// The state a finished sweep ends in.
pub open spec fn finished_state(errors: nat, roots: Option<RootRepairSnapshot>) -> Seq<char> {
    if errors == 0 && !(roots matches Some(r) && r.degraded_roots > 0) {
        "completed"@
    } else {
        "degraded"@
    }
}

pub open spec fn summary_is(r: RootRepairSnapshot, reports: Seq<RootReconcileResult>) -> bool {
    let t = summary_of(reports);
    &&& r.total_roots == reports.len()
    &&& r.scanned_roots == t.0
    &&& r.degraded_roots == t.1
    &&& r.new_images == t.2
    &&& r.superseded == t.3
    &&& r.relinked == t.4
    &&& r.retention_repairs_revived == t.5
    &&& r.went_stale == t.6
    &&& r.io_errors == t.7
}

pub open spec fn roots_health_is(reports: Seq<RootReconcileResult>, h: SubsystemHealth) -> bool {
    &&& root_notes(reports).len() == 0 ==> h is Healthy
    &&& root_notes(reports).len() > 0 ==> (h matches SubsystemHealth::Degraded { summary }
        && summary@ == joined(root_notes(reports), "; "@))
}

/// The event answers the step the sweep is at.
pub open spec fn event_fits(step: DoctorStep, event: DoctorEvent) -> bool {
    match event {
        DoctorEvent::Cancelled => true,
        DoctorEvent::VectorSpaces { .. } => step == DoctorStep::VectorSpaces,
        DoctorEvent::IngestPasses(_) => step == DoctorStep::IngestPasses,
        DoctorEvent::PreviewCache(_) => step == DoctorStep::PreviewCache,
        DoctorEvent::LibraryRoots { result, .. } => step == DoctorStep::LibraryRoots && (result matches Ok(
            reports,
        ) ==> summary_fits(summary_of(reports@))),
    }
}

pub open spec fn quiet(a: DoctorAction) -> bool {
    a.task_errors@.len() == 0 && a.health is None
}

pub open spec fn one_error(a: DoctorAction, line: Seq<char>) -> bool {
    a.task_errors@.len() == 1 && a.task_errors@[0]@ == line
}

pub open spec fn degraded_to(a: DoctorAction, s: Subsystem, e: Seq<char>) -> bool {
    a.health matches Some((t, SubsystemHealth::Degraded { summary })) && t == s && summary@ == e
}

fn error_action(line: String, health: Option<(Subsystem, SubsystemHealth)>) -> (a: DoctorAction)
    ensures
        a.task_errors@.len() == 1,
        a.task_errors@[0] == line,
        a.health == health,
{
    let mut task_errors: Vec<String> = Vec::new();
    task_errors.push(line);
    DoctorAction { task_errors, health }
}

fn no_action() -> (a: DoctorAction)
    ensures
        quiet(a),
{
    DoctorAction { task_errors: Vec::new(), health: None }
}

impl StartupDoctor {
    /// The sweep begins at `now_ms`: the snapshot restarts as running and
    /// the vector spaces come first.
    pub fn begin(now_ms: u64) -> (d: Self)
        ensures
            d.repair.state@ == "running"@,
            d.repair.started_at_ms == Some(now_ms),
            d.repair.completed_at_ms is None,
            d.repair.vector_reconciled is None,
            d.repair.orphaned_passes_skipped is None,
            d.repair.retention is None,
            d.repair.roots is None,
            d.repair.errors@.len() == 0,
            d.step == Some(DoctorStep::VectorSpaces),
            !d.vector_reconciled,
    {
        StartupDoctor { repair: repair_started(now_ms), step: Some(DoctorStep::VectorSpaces), vector_reconciled: false }
    }

    /// Whether the active vector target is handed on once the sweep ends:
    /// only when the vector spaces reconciled.
    pub fn keeps_vector_target(&self) -> (r: bool)
        ensures
            r == self.vector_reconciled,
    {
        self.vector_reconciled
    }

    /// Take the outcome of the current step at `now_ms`, record it, and say
    /// what to publish. A cancellation ends the sweep with what was recorded
    /// so far; a failed step is recorded and the next step follows; the
    /// roots' step ends the sweep, completed when nothing failed and no root
    /// was degraded.
    pub fn advance(&mut self, event: DoctorEvent, now_ms: u64) -> (a: DoctorAction)
        requires
            old(self).step matches Some(step) && event_fits(step, event),
        ensures
            match event {
                DoctorEvent::Cancelled => {
                    &&& cancelled_at(old(self).repair, final(self).repair, now_ms)
                    &&& final(self).step is None
                    &&& final(self).vector_reconciled == old(self).vector_reconciled
                    &&& quiet(a)
                },
                DoctorEvent::VectorSpaces { failure } => {
                    &&& final(self).vector_reconciled == failure is None
                    &&& final(self).step == Some(DoctorStep::IngestPasses)
                    &&& same_record(
                        final(self).repair,
                        RepairIntegritySnapshot { vector_reconciled: Some(failure is None), ..old(self).repair },
                    )
                    &&& failure is None ==> final(self).repair.errors@ == old(self).repair.errors@
                    &&& failure matches Some(e) ==> pushed(
                        old(self).repair.errors@,
                        final(self).repair.errors@,
                        "vector reconcile: "@ + e@,
                    )
                    &&& quiet(a)
                },
                DoctorEvent::IngestPasses(result) => {
                    &&& final(self).vector_reconciled == old(self).vector_reconciled
                    &&& final(self).step == Some(DoctorStep::PreviewCache)
                    &&& result matches Ok(n) ==> {
                        &&& same_record(
                            final(self).repair,
                            RepairIntegritySnapshot { orphaned_passes_skipped: Some(n), ..old(self).repair },
                        )
                        &&& final(self).repair.errors@ == old(self).repair.errors@
                        &&& quiet(a)
                    }
                    &&& result matches Err(e) ==> {
                        &&& same_record(final(self).repair, old(self).repair)
                        &&& pushed(old(self).repair.errors@, final(self).repair.errors@, "orphaned-pass heal: "@ + e@)
                        &&& one_error(a, "orphaned-pass heal failed: "@ + e@)
                        &&& a.health is None
                    }
                },
                DoctorEvent::PreviewCache(result) => {
                    &&& final(self).vector_reconciled == old(self).vector_reconciled
                    &&& result matches Ok(r) ==> {
                        &&& r.cancelled ==> {
                            &&& cancelled_at(old(self).repair, final(self).repair, now_ms)
                            &&& final(self).step is None
                            &&& quiet(a)
                        }
                        &&& !r.cancelled ==> {
                        &&& same_record(
                            final(self).repair,
                            RepairIntegritySnapshot { retention: Some(retention_of(r)), ..old(self).repair },
                        )
                        &&& final(self).repair.errors@ == old(self).repair.errors@
                        &&& final(self).step == Some(DoctorStep::LibraryRoots)
                        &&& a.task_errors@.len() == 0
                        &&& a.health == Some((Subsystem::Previews, SubsystemHealth::Healthy))
                        }
                    }
                    &&& result matches Err(e) ==> {
                        &&& same_record(final(self).repair, old(self).repair)
                        &&& pushed(old(self).repair.errors@, final(self).repair.errors@, "preview reconcile: "@ + e@)
                        &&& final(self).step == Some(DoctorStep::LibraryRoots)
                        &&& one_error(a, "preview reconcile failed: "@ + e@)
                        &&& degraded_to(a, Subsystem::Previews, e@)
                    }
                },
                DoctorEvent::LibraryRoots { result, cancelled } => {
                    &&& final(self).vector_reconciled == old(self).vector_reconciled
                    &&& final(self).step is None
                    &&& result is Ok && cancelled ==> {
                        &&& cancelled_at(old(self).repair, final(self).repair, now_ms)
                        &&& quiet(a)
                    }
                    &&& result matches Ok(reports) ==> !cancelled ==> {
                        &&& final(self).repair.roots matches Some(r) && summary_is(r, reports@)
                        &&& same_record(
                            final(self).repair,
                            RepairIntegritySnapshot {
                                state: final(self).repair.state,
                                completed_at_ms: Some(now_ms),
                                roots: final(self).repair.roots,
                                ..old(self).repair
                            },
                        )
                        &&& final(self).repair.state@ == finished_state(
                            old(self).repair.errors@.len(),
                            final(self).repair.roots,
                        )
                        &&& final(self).repair.errors@ == old(self).repair.errors@
                        &&& a.task_errors@.map_values(|s: String| s@) == root_task_errors(reports@)
                        &&& a.health matches Some((s, h)) && s == Subsystem::Roots && roots_health_is(reports@, h)
                    }
                    &&& result matches Err(e) ==> {
                        &&& same_record(
                            final(self).repair,
                            RepairIntegritySnapshot {
                                state: "degraded",
                                completed_at_ms: Some(now_ms),
                                ..old(self).repair
                            },
                        )
                        &&& pushed(old(self).repair.errors@, final(self).repair.errors@, "filesystem reconcile: "@ + e@)
                        &&& one_error(a, "filesystem reconcile failed: "@ + e@)
                        &&& degraded_to(a, Subsystem::Roots, e@)
                    }
                },
            },
    {
        match event {
            DoctorEvent::Cancelled => {
                repair_cancelled(&mut self.repair, now_ms);
                self.step = None;
                no_action()
            },
            DoctorEvent::VectorSpaces { failure } => {
                let ok = failure.is_none();
                self.vector_reconciled = ok;
                self.repair.vector_reconciled = Some(ok);
                match &failure {
                    Some(e) => repair_record_error(&mut self.repair, "vector reconcile: ", e.as_str()),
                    None => {},
                }
                self.step = Some(DoctorStep::IngestPasses);
                no_action()
            },
            DoctorEvent::IngestPasses(result) => {
                self.step = Some(DoctorStep::PreviewCache);
                match result {
                    Ok(n) => {
                        self.repair.orphaned_passes_skipped = Some(n);
                        no_action()
                    },
                    Err(e) => {
                        repair_record_error(&mut self.repair, "orphaned-pass heal: ", e.as_str());
                        error_action(concat2("orphaned-pass heal failed: ", e.as_str()), None)
                    },
                }
            },
            DoctorEvent::PreviewCache(result) => {
                match result {
                    Ok(r) => {
                        if r.cancelled {
                            repair_cancelled(&mut self.repair, now_ms);
                            self.step = None;
                            no_action()
                        } else {
                            self.repair.retention = Some(RetentionRepairSnapshot::from(r));
                            self.step = Some(DoctorStep::LibraryRoots);
                            DoctorAction {
                                task_errors: Vec::new(),
                                health: Some((Subsystem::Previews, SubsystemHealth::Healthy)),
                            }
                        }
                    },
                    Err(e) => {
                        repair_record_error(&mut self.repair, "preview reconcile: ", e.as_str());
                        self.step = Some(DoctorStep::LibraryRoots);
                        let line = concat2("preview reconcile failed: ", e.as_str());
                        error_action(line, Some((Subsystem::Previews, SubsystemHealth::Degraded { summary: e })))
                    },
                }
            },
            DoctorEvent::LibraryRoots { result, cancelled } => {
                self.step = None;
                match result {
                    Ok(reports) => {
                        if cancelled {
                            repair_cancelled(&mut self.repair, now_ms);
                            return no_action();
                        }
                        let summary = summarize_roots(&reports);
                        let task_errors = root_task_error_lines(&reports);
                        let health = roots_health(&reports);
                        self.repair.roots = Some(summary);
                        repair_finished(&mut self.repair, now_ms);
                        DoctorAction { task_errors, health: Some((Subsystem::Roots, health)) }
                    },
                    Err(e) => {
                        repair_record_error(&mut self.repair, "filesystem reconcile: ", e.as_str());
                        repair_finished(&mut self.repair, now_ms);
                        let line = concat2("filesystem reconcile failed: ", e.as_str());
                        error_action(line, Some((Subsystem::Roots, SubsystemHealth::Degraded { summary: e })))
                    },
                }
            },
        }
    }
}

} // verus!
