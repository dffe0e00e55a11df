//! Data-transfer shapes the shell hands to its webviews. They are plain data;
//! the shell's serialisable copies carry the wire names.
use vstd::prelude::*;
use crate::embedders::ModelExecution;

verus! {

#[derive(Debug, Clone)]
pub struct RootDto {
    pub root_id: String,
    pub display_name: String,
    pub rel_path: String,
    pub volume_id: String,
    pub online: bool,
    /// Absolute directory when the volume is online.
    pub abs_path: Option<String>,
    /// Archived roots are hidden from the active rail list, kept whole.
    pub archived: bool,
}

/// Outcome of adding a root: a clean add, or the id of the active root the
/// new folder overlaps.
#[derive(Debug, Clone)]
pub enum AddRootOutcome {
    Added { root: RootDto },
    Overlap { existing_root_id: String },
}

#[derive(Debug, PartialEq, Eq)]
pub struct FolderNode {
    pub name: String,
    /// Root-relative folder path ("" = the root itself).
    pub rel_path: String,
    pub children: Vec<FolderNode>,
}

#[derive(Debug, Clone, PartialEq)]
pub struct GridItem {
    /// Content hash, lowercase hex: the image identity and preview key.
    pub hash: String,
    pub file_name: String,
    /// Root-relative path of the file.
    pub rel_path: String,
    /// Root the representative path sits under.
    pub root_id: Option<String>,
    /// EXIF capture timestamp (RFC 3339) when known.
    pub capture_ts: Option<String>,
    /// First-ingested timestamp (RFC 3339).
    pub added_ts: String,
    pub has_journal: bool,
    /// Folded current rating (0..=5), absent = unrated.
    pub rating: Option<u8>,
    /// Every active path for this image sits on an offline volume.
    pub offline: bool,
    /// A thumb artifact exists.
    pub preview_ready: bool,
}

/// What the capture indicator renders as the current scope.
#[derive(Debug, Clone, PartialEq, Eq)]
pub struct ScopeView {
    /// "single" | "multi" | "session".
    pub kind: &'static str,
    pub count: usize,
    /// First three target hashes, for micro-thumbnails.
    pub preview_hashes: Vec<String>,
}

#[derive(Debug, Clone)]
pub struct IndicatorState {
    pub current_scope: ScopeView,
    /// "disarmed" | "arming" | "armedIdle" | "armedSpeaking" | "disarmedError".
    pub mic: &'static str,
    pub streaming_utterance: Option<StreamingView>,
    pub degraded: DegradedFlags,
}

#[derive(Debug, Clone)]
pub struct StreamingView {
    pub bound_scope: ScopeView,
    pub started_at: String,
}

#[derive(Debug, Clone, Copy)]
pub struct DegradedFlags {
    pub asr_unavailable: bool,
}

/// Fire-and-forget pulse on every committed event; no text rides it.
#[derive(Debug, Clone, Copy)]
pub struct IndicatorPulse {
    pub event_kind: &'static str,
}

/// The images whose journal truth a committed mutation touched.
#[derive(Debug, Clone)]
pub struct JournalChanged {
    pub hashes: Vec<String>,
}

/// The images whose preview artifacts landed in an ingest drain.
#[derive(Debug, Clone)]
pub struct PreviewsChanged {
    pub hashes: Vec<String>,
}

/// The preview cache footprint with its configured budget, in bytes.
#[derive(Debug, Clone, Copy)]
pub struct PreviewCacheStatsDto {
    pub full_bytes: u64,
    pub full_files: u64,
    pub total_bytes: u64,
    pub budget_bytes: u64,
}

#[derive(Debug, Clone, Default, PartialEq, Eq)]
pub struct IngestStatus {
    pub running: bool,
    /// Completed work units (done + skipped) across all passes.
    pub done: u64,
    /// All known work units across all passes.
    pub total: u64,
    pub errors: u64,
    /// Pass kinds with work still queued, in name order.
    pub passes: Vec<PassRemaining>,
    /// A filesystem walk is in flight.
    pub scanning: bool,
    /// Files discovered so far by in-flight walks.
    pub discovered: u64,
}

/// One still-digesting pass kind: `remaining` = pending + running rows.
#[derive(Debug, Clone, PartialEq, Eq)]
pub struct PassRemaining {
    pub name: String,
    pub remaining: u64,
}

/// Lifecycle of one embedder role as the runtime reports it.
#[derive(Debug, Clone, Copy, PartialEq, Eq, Structural)]
pub enum EmbedderState {
    Idle,
    Queued,
    Building,
    Ready,
    Failed,
    Stopping,
}

/// One embedder role's slot with its current attempt identity.
#[derive(Debug, Clone, PartialEq, Eq)]
pub struct EmbedderSlot {
    pub state: EmbedderState,
    pub attempt_id: Option<u64>,
    pub model_id: Option<String>,
    pub generation: u64,
    pub started_at: Option<String>,
    pub error: Option<String>,
    /// How the ready helper's sessions execute.
    pub execution: Option<ModelExecution>,
}

/// One reported problem in a runtime control file.
#[derive(Debug, Clone)]
pub struct ControlFileErrorDetail {
    pub detail: String,
}

/// How a runtime control file was recovered when it was loaded.
#[derive(Debug, Clone)]
pub struct RuntimeControlRecovery {
    pub quarantined: Vec<String>,
    pub warnings: Vec<String>,
}

#[derive(Debug, Clone)]
pub struct RuntimeControlFile {
    pub name: String,
    pub errors: Vec<ControlFileErrorDetail>,
    pub validation_warnings: Vec<String>,
    pub recovery: Option<RuntimeControlRecovery>,
}

/// The runtime contract: readiness gates, tier, consent and per-model rows.
#[derive(Debug, Clone)]
pub struct RuntimeStatus {
    pub asr_ready: bool,
    pub llm_ready: bool,
    /// Some(reason) when the planned process can never become ready.
    pub asr_blocked: Option<String>,
    pub llm_blocked: Option<String>,
    pub clip_ready: bool,
    pub text_embedder_ready: bool,
    pub clip: EmbedderSlot,
    pub text_embedder: EmbedderSlot,
    pub tier_detected: u8,
    /// After the configured tier override, which always wins.
    pub tier_effective: u8,
    pub tier_overridden_above: bool,
    /// "undecided" | "later" | "never" | "download".
    pub consent: String,
    pub consent_offer_bytes: u64,
    /// "detected" | "failed" | ... as the hardware probe reports.
    pub capability_state: String,
    pub capability_summary: Option<String>,
    pub models: Vec<ModelRow>,
    pub control_files: Vec<RuntimeControlFile>,
    pub instance_lock_held: bool,
}

#[derive(Debug, Clone)]
pub struct ModelRow {
    pub id: String,
    pub role: String,
    /// "not-offered" | "not-downloaded" | "downloading" | "installed" | "failed".
    pub state: String,
    pub total_bytes: u64,
    pub downloaded_bytes: u64,
    pub license_name: String,
    pub license_url: String,
    pub acceptance_required: bool,
    pub accepted: bool,
    /// Download failure detail.
    pub error: Option<String>,
    /// Failure of the model's registry entry (verification, manifest).
    pub registry_error: Option<String>,
    /// The in-progress retry of an interrupted transfer.
    pub retry_hint: Option<String>,
}

#[derive(Debug, Clone)]
pub struct ExportReportDto {
    pub dir: String,
    pub manifest_path: String,
    pub images: usize,
    pub events: usize,
    pub sessions: usize,
}

#[derive(Debug, Clone, Copy)]
pub struct RebuildReportDto {
    pub files_scanned: usize,
    pub files_parsed: usize,
    pub failures: usize,
}

/// One folded journal row; retracted rows are included and flagged.
#[derive(Debug, Clone)]
pub struct JournalEntryDto {
    pub id: String,
    pub session_id: String,
    /// RFC 3339.
    pub ts: String,
    /// "remark" | "rating" | "stroke" | "redacted".
    pub kind: &'static str,
    /// "voice" | "typed" | "system".
    pub source: &'static str,
    pub text: Option<String>,
    pub original_text: Option<String>,
    pub corrected: bool,
    pub retracted: bool,
    pub rating: Option<u8>,
    pub targets: Vec<String>,
    pub linked_event: Option<String>,
    pub stroke: Option<StrokeDto>,
}

/// Stroke geometry riding a journal row: integer `[x, y, p, t]` tuples.
#[derive(Debug, Clone)]
pub struct StrokeDto {
    pub base_w: u32,
    pub orientation: u8,
    pub points: Vec<[i64; 4]>,
}

/// Input of a stroke commit, canonical integers only.
#[derive(Debug, Clone)]
pub struct StrokePayloadDto {
    pub base_w: u32,
    pub orientation: u8,
    pub points: Vec<[i64; 4]>,
    pub tool: String,
}

/// The minted stroke event and the session it landed in.
#[derive(Debug, Clone)]
pub struct StrokeCommitDto {
    pub id: String,
    pub session_id: String,
}

/// Outcome of a redaction.
#[derive(Debug, Clone)]
pub struct RedactReportDto {
    pub redacted: Vec<String>,
    pub sidecars_updated: usize,
    /// Labels of offline volumes whose sidecars are scrubbed on next mount.
    pub offline_pending: Vec<String>,
}

/// Where an image lives: its best online absolute path, if any.
#[derive(Debug, Clone)]
pub struct ImagePathsDto {
    pub abs_path: Option<String>,
    pub rel_path: String,
    pub volume_label: Option<String>,
    pub online: bool,
}

#[derive(Debug, Clone)]
pub struct CollectionDto {
    pub id: String,
    pub name: String,
    pub description: String,
    /// "active" | "shelved" | "done".
    pub status: String,
    pub created_ts: String,
    pub updated_ts: String,
    pub member_count: usize,
    pub note_count: usize,
}

#[derive(Debug, Clone)]
pub struct CollectionNoteDto {
    pub id: String,
    pub ts: String,
    pub text: String,
}

#[derive(Debug, Clone)]
pub struct TopicDto {
    pub id: String,
    pub phrase: String,
    /// "blend" | "annotation" | "clip".
    pub space: String,
    pub created_ts: String,
}

} // verus!
