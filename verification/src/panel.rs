//! Types of the debug panel and of the lens commands, with the few rules
//! they carry: the events tail is clamped, and an absent capture engine is
//! reported as voice being off rather than as an empty engine.
use vstd::prelude::*;

verus! {

/// The most event rows the debug panel's tail returns, whatever it asks for.
pub const MAX_TAIL_ROWS: u32 = 500;

#[derive(Debug, Clone)]
pub struct DebugEventRow {
    pub id: String,
    pub session_id: String,
    pub ts: String,
    pub kind: String,
    pub source: String,
    pub text: Option<String>,
    pub payload: Option<String>,
    pub target_event: Option<String>,
    pub linked_event: Option<String>,
    pub redacted_by: Option<String>,
    pub targets: Vec<String>,
}

#[derive(Debug, Clone)]
pub struct DebugScopeSnapshot {
    pub kind: &'static str,
    pub targets: Vec<String>,
    pub captured_at: String,
}

#[derive(Debug, Clone)]
pub struct DebugCapture {
    pub mic: &'static str,
    pub stream_open: bool,
    pub streaming_utterances: usize,
    pub abandoned: u64,
    pub asr_ready: bool,
    pub notes: Vec<String>,
    pub scope_ring: Vec<DebugScopeSnapshot>,
}

#[derive(Debug, Clone)]
pub struct DebugPassCounter {
    pub pass: String,
    pub version: i64,
    pub pending: u64,
    pub running: u64,
    pub done: u64,
    pub error: u64,
    pub skipped: u64,
}

#[derive(Debug, Clone)]
pub struct DebugSidecars {
    pub dirty: Vec<(String, String, String)>,
    pub redaction_queue: Vec<(String, String)>,
}

#[derive(Debug, Clone)]
pub struct DebugRuntime {
    pub processes: Vec<String>,
    pub status: crate::dto::RuntimeStatus,
}

#[derive(Debug, Clone, Copy, PartialEq, Eq)]
pub struct DebugDoctorReport {
    pub repended: usize,
    pub stale_orphans: usize,
    pub temps_swept: usize,
}

/// The number of tail rows actually read.
pub fn tail_limit(limit: u32) -> (r: u32)
    ensures
        r == if limit < MAX_TAIL_ROWS { limit } else { MAX_TAIL_ROWS },
{
    if limit < MAX_TAIL_ROWS {
        limit
    } else {
        MAX_TAIL_ROWS
    }
}

/// The capture tab when the in-process voice activity detector never
/// built: disarmed, no stream, and one note saying why.
pub fn absent_capture(asr_ready: bool, scope_ring: Vec<DebugScopeSnapshot>) -> (r: DebugCapture)
    ensures
        r.mic@ == "disarmed"@,
        !r.stream_open,
        r.streaming_utterances == 0,
        r.abandoned == 0,
        r.asr_ready == asr_ready,
        r.notes@.len() == 1,
        r.notes@[0]@ == "capture engine absent: in-process VAD failed to build"@,
        r.scope_ring == scope_ring,
{
    let mut notes: Vec<String> = Vec::new();
    notes.push(String::from_str("capture engine absent: in-process VAD failed to build"));
    DebugCapture {
        mic: "disarmed",
        stream_open: false,
        streaming_utterances: 0,
        abandoned: 0,
        asr_ready,
        notes,
        scope_ring,
    }
}

/// A group of near-duplicate images with its size.
#[derive(Debug, Clone)]
pub struct DuplicateGroupDto {
    pub image_hashes: Vec<String>,
    pub count: usize,
}

impl DuplicateGroupDto {
    pub fn of(image_hashes: Vec<String>) -> (r: DuplicateGroupDto)
        ensures
            r.image_hashes == image_hashes,
            r.count == image_hashes@.len(),
    {
        let count = image_hashes.len();
        DuplicateGroupDto { image_hashes, count }
    }
}

/// The images a lens works over.
#[derive(Debug, Clone)]
pub enum GraphScope {
    /// A folder under a root.
    Folder { root_id: String, folder: String },
    /// A collection's current members.
    Collection { id: String },
    /// The whole library.
    Library,
    /// An explicit list of image hashes, untrusted until resolved.
    Hashes { hashes: Vec<String> },
}

/// Which vectors topics are clustered in.
#[derive(Debug, Clone, Copy, PartialEq, Eq, Structural)]
pub enum ClusterSpace {
    /// What was said about the images.
    Annotation,
    /// What the images look like.
    Clip,
}

impl Default for ClusterSpace {
    fn default() -> (r: Self)
        ensures
            r == ClusterSpace::Annotation,
    {
        ClusterSpace::Annotation
    }
}

} // verus!
