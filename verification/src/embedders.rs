//! The isolated embedder helpers: the bounded binary protocol spoken with a
//! helper process over its pipes, and the per-role slot lifecycle that the
//! host converges onto the runtime plan. Processes, pipes, threads and the
//! clock stay with the caller; every decision about them is made here.
use vstd::prelude::*;
use vstd::utf8::{decode_utf8, encode_utf8, valid_utf8};
use crate::health::copy_opt;
use crate::text::{concat2, concat3, decimal, str_eq, u64_text};
use crate::dto::EmbedderState;
use crate::issues::opt_str_seq;
use crate::dto::EmbedderSlot;
use crate::time::{rfc3339_millis, rfc3339_text};
use vstd::string::StringSliceAdditionalSpecFns;

verus! {

pub const MAX_FRAME_BYTES: usize = 8388608;
pub const MAX_TEXT_BYTES: usize = 1048576;
pub const MAX_IMAGE_BYTES: usize = 8388600;
pub const MAX_MODEL_ID_BYTES: usize = 512;
pub const MAX_VECTOR_DIMS: usize = 65536;
pub const OP_EMBED_TEXT: u8 = 1;
pub const OP_EMBED_IMAGE: u8 = 2;
pub const RESP_READY: u8 = 16;
pub const RESP_EMBEDDING: u8 = 17;
pub const RESP_ERROR: u8 = 18;
pub const RESP_EXECUTION: u8 = 19;
/// Length of a frame header: magic, opcode and little-endian body length.
pub const FRAME_HEADER_BYTES: usize = 9;

// ---------------------------------------------------------------------------
// Frames
// ---------------------------------------------------------------------------

/// The protocol magic and version, `PPE1`.
pub open spec fn frame_magic() -> Seq<u8> {
    seq![0x50u8, 0x50u8, 0x45u8, 0x31u8]
}

/// `n` as four little-endian bytes.
pub open spec fn le32(n: nat) -> Seq<u8> {
    seq![(n % 256) as u8, ((n / 256) % 256) as u8, ((n / 65536) % 256) as u8, ((n / 16777216) % 256) as u8]
}

/// The little-endian value of the four bytes of `s` from `at`.
pub open spec fn le32_at(s: Seq<u8>, at: int) -> nat {
    (s[at] + 256 * s[at + 1] + 65536 * s[at + 2] + 16777216 * s[at + 3]) as nat
}

/// The little-endian value of the two bytes of `s` from `at`.
pub open spec fn le16_at(s: Seq<u8>, at: int) -> nat {
    (s[at] + 256 * s[at + 1]) as nat
}

/// A frame: magic, opcode, body length, body.
pub open spec fn frame_bytes(opcode: u8, body: Seq<u8>) -> Seq<u8> {
    frame_magic() + seq![opcode] + le32(body.len()) + body
}

#[derive(Debug, Clone, Copy, PartialEq, Eq, Structural)]
pub enum FrameErrorKind {
    InvalidData,
    UnexpectedEof,
}

/// Why a frame could not be written or read.
#[derive(Debug, Clone, Copy)]
pub struct FrameError {
    pub kind: FrameErrorKind,
    pub message: &'static str,
}

impl FrameError {
    pub fn kind(&self) -> (k: FrameErrorKind)
        ensures
            k == self.kind,
    {
        self.kind
    }
}

pub open spec fn oversized_message() -> Seq<char> {
    "embedder helper frame exceeds limit"@
}

pub open spec fn magic_message() -> Seq<char> {
    "embedder helper protocol magic/version mismatch"@
}

pub open spec fn eof_message() -> Seq<char> {
    "failed to fill whole buffer"@
}

fn le32_bytes(n: u32) -> (r: Vec<u8>)
    ensures
        r@ == le32(n as nat),
{
    let mut r: Vec<u8> = Vec::new();
    r.push((n % 256) as u8);
    r.push(((n / 256) % 256) as u8);
    r.push(((n / 65536) % 256) as u8);
    r.push(((n / 16777216) % 256) as u8);
    proof {
        assert(r@ =~= le32(n as nat));
    }
    r
}

/// Encodes one frame; a body over the protocol limit is refused before
/// anything is written.
pub fn write_frame(opcode: u8, body: &[u8]) -> (r: Result<Vec<u8>, FrameError>)
    ensures
        match r {
            Ok(bytes) => body@.len() <= MAX_FRAME_BYTES && bytes@ == frame_bytes(opcode, body@),
            Err(e) => body@.len() > MAX_FRAME_BYTES && e.kind == FrameErrorKind::InvalidData && e.message@
                == oversized_message(),
        },
{
    if body.len() > MAX_FRAME_BYTES {
        return Err(FrameError { kind: FrameErrorKind::InvalidData, message: "embedder helper frame exceeds limit" });
    }
    let mut out: Vec<u8> = Vec::new();
    out.push(0x50);
    out.push(0x50);
    out.push(0x45);
    out.push(0x31);
    out.push(opcode);
    let mut len = le32_bytes(body.len() as u32);
    out.append(&mut len);
    let n = body.len();
    let ghost head = out@;
    for i in 0..n
        invariant
            n == body@.len(),
            out@ == head + body@.subrange(0, i as int),
    {
        out.push(body[i]);
        proof {
            assert(out@ =~= head + body@.subrange(0, i + 1));
        }
    }
    proof {
        assert(body@.subrange(0, n as int) =~= body@);
        assert(out@ =~= frame_bytes(opcode, body@));
    }
    Ok(out)
}

/// What reading a frame from the front of `s` gives: the opcode and body,
/// or the reason it fails. The body length is checked against the limit
/// before any body byte is needed.
pub open spec fn spec_read_frame(s: Seq<u8>) -> Result<(u8, Seq<u8>), (FrameErrorKind, Seq<char>)> {
    if s.len() < 9 {
        Err((FrameErrorKind::UnexpectedEof, eof_message()))
    } else if s.subrange(0, 4) != frame_magic() {
        Err((FrameErrorKind::InvalidData, magic_message()))
    } else if le32_at(s, 5) > MAX_FRAME_BYTES {
        Err((FrameErrorKind::InvalidData, oversized_message()))
    } else if s.len() < 9 + le32_at(s, 5) {
        Err((FrameErrorKind::UnexpectedEof, eof_message()))
    } else {
        Ok((s[4], s.subrange(9, 9 + le32_at(s, 5) as int)))
    }
}

pub open spec fn frame_result_view(r: Result<(u8, Vec<u8>), FrameError>) -> Result<(u8, Seq<u8>), (FrameErrorKind, Seq<char>)> {
    match r {
        Ok((op, body)) => Ok((op, body@)),
        Err(e) => Err((e.kind, e.message@)),
    }
}

fn le32_read(s: &[u8], at: usize) -> (r: u32)
    requires
        at + 4 <= s@.len(),
    ensures
        r == le32_at(s@, at as int),
{
    let v: u32 = s[at] as u32 + 256 * (s[at + 1] as u32) + 65536 * (s[at + 2] as u32) + 16777216 * (s[at + 3] as u32);
    v
}

/// The header of a frame: its opcode and body length, refused on a wrong
/// magic or a length over the limit, so a reader never allocates an
/// oversized body.
pub fn frame_header(header: &[u8]) -> (r: Result<(u8, usize), FrameError>)
    requires
        header@.len() == FRAME_HEADER_BYTES,
    ensures
        match r {
            Ok((op, len)) => {
                &&& header@.subrange(0, 4) == frame_magic()
                &&& op == header@[4]
                &&& len == le32_at(header@, 5)
                &&& len <= MAX_FRAME_BYTES
            },
            Err(e) => {
                &&& e.kind == FrameErrorKind::InvalidData
                &&& if header@.subrange(0, 4) != frame_magic() {
                    e.message@ == magic_message()
                } else {
                    le32_at(header@, 5) > MAX_FRAME_BYTES && e.message@ == oversized_message()
                }
            },
        },
{
    if header[0] != 0x50 || header[1] != 0x50 || header[2] != 0x45 || header[3] != 0x31 {
        proof {
            assert(header@.subrange(0, 4) != frame_magic()) by {
                if header@.subrange(0, 4) == frame_magic() {
                    assert(header@.subrange(0, 4)[0] == header@[0]);
                    assert(header@.subrange(0, 4)[1] == header@[1]);
                    assert(header@.subrange(0, 4)[2] == header@[2]);
                    assert(header@.subrange(0, 4)[3] == header@[3]);
                }
            }
        }
        return Err(FrameError {
            kind: FrameErrorKind::InvalidData,
            message: "embedder helper protocol magic/version mismatch",
        });
    }
    proof {
        assert(header@.subrange(0, 4) =~= frame_magic());
    }
    let len = le32_read(header, 5);
    if len as usize > MAX_FRAME_BYTES {
        return Err(FrameError { kind: FrameErrorKind::InvalidData, message: "embedder helper frame exceeds limit" });
    }
    Ok((header[4], len as usize))
}

/// Reads one frame from the front of `bytes`.
pub fn read_frame(bytes: &[u8]) -> (r: Result<(u8, Vec<u8>), FrameError>)
    ensures
        frame_result_view(r) == spec_read_frame(bytes@),
{
    if bytes.len() < FRAME_HEADER_BYTES {
        return Err(FrameError { kind: FrameErrorKind::UnexpectedEof, message: "failed to fill whole buffer" });
    }
    if bytes[0] != 0x50 || bytes[1] != 0x50 || bytes[2] != 0x45 || bytes[3] != 0x31 {
        proof {
            assert(bytes@.subrange(0, 4) != frame_magic()) by {
                if bytes@.subrange(0, 4) == frame_magic() {
                    assert(bytes@.subrange(0, 4)[0] == bytes@[0]);
                    assert(bytes@.subrange(0, 4)[1] == bytes@[1]);
                    assert(bytes@.subrange(0, 4)[2] == bytes@[2]);
                    assert(bytes@.subrange(0, 4)[3] == bytes@[3]);
                }
            }
        }
        return Err(FrameError {
            kind: FrameErrorKind::InvalidData,
            message: "embedder helper protocol magic/version mismatch",
        });
    }
    proof {
        assert(bytes@.subrange(0, 4) =~= frame_magic());
    }
    let len32 = le32_read(bytes, 5);
    if len32 as usize > MAX_FRAME_BYTES {
        return Err(FrameError { kind: FrameErrorKind::InvalidData, message: "embedder helper frame exceeds limit" });
    }
    let len = len32 as usize;
    if bytes.len() - FRAME_HEADER_BYTES < len {
        return Err(FrameError { kind: FrameErrorKind::UnexpectedEof, message: "failed to fill whole buffer" });
    }
    let mut body: Vec<u8> = Vec::new();
    let total = bytes.len();
    for i in 0..len
        invariant
            total == bytes@.len(),
            len + 9 <= total,
            body@ == bytes@.subrange(9, 9 + i),
    {
        body.push(bytes[9 + i]);
        proof {
            assert(body@ =~= bytes@.subrange(9, 9 + i + 1));
        }
    }
    Ok((bytes[4], body))
}

proof fn lemma_le32_roundtrip(n: nat)
    requires
        n < 4294967296,
    ensures
        le32_at(le32(n), 0) == n,
{
    let x = n as u32;
    assert(x == x % 256 + 256 * ((x / 256) % 256) + 65536 * ((x / 65536) % 256) + 16777216 * ((x / 16777216) % 256))
        by (bit_vector);
}

/// A frame written for a body within the limit reads back as the same
/// opcode and body, whatever follows it.
pub proof fn law_frame_roundtrip(opcode: u8, body: Seq<u8>, rest: Seq<u8>)
    requires
        body.len() <= MAX_FRAME_BYTES,
    ensures
        spec_read_frame(frame_bytes(opcode, body) + rest) == Ok::<(u8, Seq<u8>), (FrameErrorKind, Seq<char>)>(
            (opcode, body),
        ),
{
    let s = frame_bytes(opcode, body) + rest;
    lemma_le32_roundtrip(body.len());
    let l = le32(body.len());
    assert(s[5] == l[0] && s[6] == l[1] && s[7] == l[2] && s[8] == l[3]);
    assert(le32_at(s, 5) == le32_at(l, 0));
    assert(s.subrange(0, 4) =~= frame_magic());
    assert(s.subrange(9, 9 + le32_at(s, 5) as int) =~= body);
}

// ---------------------------------------------------------------------------
// Payloads
// ---------------------------------------------------------------------------

/// std::str::from_utf8, owning its result: text exactly when the bytes are
/// valid UTF-8, and then the characters they encode. The error's wording is
/// std's and is not stated.
#[verifier::external_body]
fn utf8_text(bytes: &[u8]) -> (r: Result<String, String>)
    ensures
        r is Ok <==> valid_utf8(bytes@),
        r matches Ok(s) ==> s@ == decode_utf8(bytes@),
{
    match std::str::from_utf8(bytes) {
        Ok(text) => Ok(text.to_owned()),
        Err(error) => Err(error.to_string()),
    }
}

/// An error frame's text: refused over the text limit, otherwise the UTF-8
/// text of the body.
pub fn decode_error(body: &[u8]) -> (r: Result<String, String>)
    ensures
        body@.len() > MAX_TEXT_BYTES ==> (r matches Err(m) && m@ == "embedder helper error exceeds limit"@),
        body@.len() <= MAX_TEXT_BYTES ==> (r is Ok <==> valid_utf8(body@)),
        r matches Ok(s) ==> s@ == decode_utf8(body@),
{
    if body.len() > MAX_TEXT_BYTES {
        return Err(String::from_str("embedder helper error exceeds limit"));
    }
    utf8_text(body)
}


/// An embedding as the helper sent it: the model that produced it and each
/// component's IEEE-754 single-precision bits, in order.
#[derive(Debug, Clone)]
pub struct EmbeddingFrame {
    pub vector_bits: Vec<u32>,
    pub model_id: String,
}

/// The model id's length, from the first two bytes.
pub open spec fn model_len(s: Seq<u8>) -> int {
    le16_at(s, 0) as int
}

pub open spec fn model_bytes(s: Seq<u8>) -> Seq<u8> {
    s.subrange(2, 2 + model_len(s))
}

pub open spec fn vector_count(s: Seq<u8>) -> int {
    le32_at(s, 2 + model_len(s)) as int
}

/// The refusal found before the model id is read as text, if any.
pub open spec fn embedding_shape_error(s: Seq<u8>) -> Option<Seq<char>> {
    if s.len() < 6 {
        Some("short embedder helper embedding frame"@)
    } else if model_len(s) == 0 || model_len(s) > MAX_MODEL_ID_BYTES || s.len() < 6 + model_len(s) {
        Some("invalid embedder helper model length"@)
    } else {
        None
    }
}

/// The refusal found in the vector's length, if any.
pub open spec fn embedding_count_error(s: Seq<u8>) -> Option<Seq<char>> {
    let end = 2 + model_len(s) + 4 + 4 * vector_count(s);
    if end > usize::MAX {
        Some("embedding length overflow"@)
    } else if vector_count(s) == 0 || vector_count(s) > MAX_VECTOR_DIMS || s.len() != end {
        Some("invalid embedder helper vector length"@)
    } else {
        None
    }
}

/// The components' bits: four little-endian bytes each, after the count.
pub open spec fn vector_words(s: Seq<u8>) -> Seq<u32> {
    Seq::new(vector_count(s) as nat, |j: int| le32_at(s, 2 + model_len(s) + 4 + 4 * j) as u32)
}

/// An embedding frame: a two-byte model id length, the model id in UTF-8,
/// a four-byte component count, then the components.
pub fn decode_embedding(body: &[u8]) -> (r: Result<EmbeddingFrame, String>)
    ensures
        r is Ok <==> (embedding_shape_error(body@) is None && valid_utf8(model_bytes(body@))
            && embedding_count_error(body@) is None),
        embedding_shape_error(body@) matches Some(m) ==> (r matches Err(e) && e@ == m),
        (embedding_shape_error(body@) is None && valid_utf8(model_bytes(body@)))
            ==> (embedding_count_error(body@) matches Some(m) ==> (r matches Err(e) && e@ == m)),
        r matches Ok(f) ==> f.model_id@ == decode_utf8(model_bytes(body@)) && f.vector_bits@ == vector_words(body@),
{
    let n = body.len();
    if n < 6 {
        return Err(String::from_str("short embedder helper embedding frame"));
    }
    let mlen: usize = body[0] as usize + 256 * (body[1] as usize);
    assert(mlen == model_len(body@));
    if mlen == 0 || mlen > MAX_MODEL_ID_BYTES || n < 6 + mlen {
        return Err(String::from_str("invalid embedder helper model length"));
    }
    let mut model: Vec<u8> = Vec::new();
    for i in 0..mlen
        invariant
            n == body@.len(),
            6 + mlen <= n,
            model@ == body@.subrange(2, 2 + i),
    {
        model.push(body[2 + i]);
        proof {
            assert(model@ =~= body@.subrange(2, 2 + i + 1));
        }
    }
    let model_id = match utf8_text(model.as_slice()) {
        Ok(t) => t,
        Err(e) => return Err(e),
    };
    let count_offset: usize = 2 + mlen;
    let count32 = le32_read(body, count_offset);
    let count = count32 as usize;
    let end: usize = match count.checked_mul(4) {
        Some(bytes) => match (count_offset + 4).checked_add(bytes) {
            Some(e) => e,
            None => return Err(String::from_str("embedding length overflow")),
        },
        None => return Err(String::from_str("embedding length overflow")),
    };
    if count == 0 || count > MAX_VECTOR_DIMS || n != end {
        return Err(String::from_str("invalid embedder helper vector length"));
    }
    let mut bits: Vec<u32> = Vec::new();
    let base: usize = count_offset + 4;
    for j in 0..count
        invariant
            n == body@.len(),
            base == 2 + model_len(body@) + 4,
            count == vector_count(body@),
            n == base + 4 * count,
            bits@ == vector_words(body@).subrange(0, j as int),
    {
        let w = le32_read(body, base + 4 * j);
        bits.push(w);
        proof {
            assert(bits@ =~= vector_words(body@).subrange(0, j + 1));
        }
    }
    proof {
        assert(vector_words(body@).subrange(0, count as int) =~= vector_words(body@));
    }
    Ok(EmbeddingFrame { vector_bits: bits, model_id })
}


// ---------------------------------------------------------------------------
// Failures
// ---------------------------------------------------------------------------

/// How a helper call fails.
#[derive(Debug, Clone)]
pub enum ConnectorFailure {
    /// The request or the helper was refused, with an HTTP-like status.
    Backend { status: u16, message: String },
    /// A helper frame could not be decoded.
    Decode(String),
    /// The attempt was superseded or the helper is gone.
    Cancelled,
    /// The pipe to the helper failed.
    ConnectionLost(String),
}

// ---------------------------------------------------------------------------
// Helper arguments
// ---------------------------------------------------------------------------

#[derive(Debug, Clone, Copy, PartialEq, Eq, Structural)]
pub enum Role {
    Text,
    Clip,
}

pub open spec fn spec_role_label(r: Role) -> Seq<char> {
    match r {
        Role::Text => "text"@,
        Role::Clip => "clip"@,
    }
}

impl Role {
    pub fn label(self) -> (r: &'static str)
        ensures
            r@ == spec_role_label(self),
    {
        match self {
            Role::Text => "text",
            Role::Clip => "clip",
        }
    }
}

/// A byte a helper model id may hold: ASCII letters and digits, `-`, `_`, `.`.
pub open spec fn model_id_byte(b: u8) -> bool {
    (0x30 <= b <= 0x39) || (0x41 <= b <= 0x5a) || (0x61 <= b <= 0x7a) || b == 0x2d || b == 0x5f || b == 0x2e
}

pub open spec fn model_id_shape_ok(bytes: Seq<u8>) -> bool {
    &&& bytes.len() > 0
    &&& bytes.len() <= MAX_MODEL_ID_BYTES
    &&& forall|i: int| 0 <= i < bytes.len() ==> model_id_byte(#[trigger] bytes[i])
}

fn model_id_bytes_ok(bytes: &[u8]) -> (r: bool)
    ensures
        r == (forall|i: int| 0 <= i < bytes@.len() ==> model_id_byte(#[trigger] bytes@[i])),
{
    let n = bytes.len();
    for i in 0..n
        invariant
            n == bytes@.len(),
            forall|j: int| 0 <= j < i ==> model_id_byte(#[trigger] bytes@[j]),
    {
        let b = bytes[i];
        let ok = (0x30 <= b && b <= 0x39) || (0x41 <= b && b <= 0x5a) || (0x61 <= b && b <= 0x7a) || b == 0x2d || b
            == 0x5f || b == 0x2e;
        if !ok {
            return false;
        }
    }
    true
}

/// std::path::Path::is_absolute on the directory's text. What counts as
/// absolute is the platform's rule, so nothing is stated of the result.
#[verifier::external_body]
fn path_is_absolute(path: &str) -> bool {
    std::path::Path::new(path).is_absolute()
}

/// Why a helper may not be started with these arguments, if it may not: the
/// model id must be one the role's recipes know, non-empty, of at most the
/// id limit in bytes from the id alphabet; the models directory must be
/// absolute and of bounded length.
pub fn helper_args_failure(model_id: &str, known: bool, models_dir_absolute: bool, models_dir: &str) -> (r: Option<
    ConnectorFailure,
>)
    ensures
        !(known && model_id_shape_ok(model_id.spec_bytes())) ==> (r matches Some(ConnectorFailure::Backend {
            status,
            message,
        }) && status == 400 && message@ == "invalid embedder helper model id"@),
        (known && model_id_shape_ok(model_id.spec_bytes()) && !(models_dir_absolute && models_dir.spec_bytes().len()
            <= 32768)) ==> (r matches Some(ConnectorFailure::Backend { status, message }) && status == 400 && message@
            == "invalid embedder helper models directory"@),
        (known && model_id_shape_ok(model_id.spec_bytes()) && models_dir_absolute && models_dir.spec_bytes().len()
            <= 32768) ==> r is None,
{
    let bytes = model_id.as_bytes();
    if !known || bytes.len() == 0 || bytes.len() > MAX_MODEL_ID_BYTES || !model_id_bytes_ok(bytes) {
        return Some(ConnectorFailure::Backend {
            status: 400,
            message: String::from_str("invalid embedder helper model id"),
        });
    }
    if !models_dir_absolute || models_dir.as_bytes().len() > 32768 {
        return Some(ConnectorFailure::Backend {
            status: 400,
            message: String::from_str("invalid embedder helper models directory"),
        });
    }
    None
}

/// The arguments a helper is started with, checked with the platform's
/// notion of an absolute directory.
pub fn validate_helper_args(model_id: &str, known: bool, models_dir: &str) -> (r: Result<(), ConnectorFailure>)
    ensures
        !(known && model_id_shape_ok(model_id.spec_bytes())) ==> (r matches Err(ConnectorFailure::Backend {
            status,
            message,
        }) && status == 400 && message@ == "invalid embedder helper model id"@),
        (known && model_id_shape_ok(model_id.spec_bytes()) && models_dir.spec_bytes().len() > 32768) ==> (
        r matches Err(ConnectorFailure::Backend { status, message }) && status == 400 && message@
            == "invalid embedder helper models directory"@),
        r is Ok ==> known && model_id_shape_ok(model_id.spec_bytes()) && models_dir.spec_bytes().len() <= 32768,
        r matches Err(ConnectorFailure::Backend { status, .. }) ==> status == 400,
        r is Err ==> r matches Err(ConnectorFailure::Backend { .. }),
{
    match helper_args_failure(model_id, known, path_is_absolute(models_dir), models_dir) {
        Some(f) => Err(f),
        None => Ok(()),
    }
}

// ---------------------------------------------------------------------------
// Ready and execution frames
// ---------------------------------------------------------------------------

#[derive(Debug, Clone, Copy, PartialEq, Eq, Structural)]
pub enum ExecutionSelection {
    Cpu,
    CoreMl,
    Cuda,
    TensorRt,
    Unknown,
}

/// How one native session of a helper executes.
#[derive(Debug, Clone, PartialEq, Eq)]
pub struct SessionExecution {
    pub requested: Vec<String>,
    pub available: Vec<String>,
    pub registered: Vec<String>,
    pub selected: ExecutionSelection,
    pub actual: Vec<String>,
    pub fallback_reason: Option<String>,
    /// "configured" | "pending-profile" | "profiled" | "profile-unavailable" | "unknown".
    pub measurement: &'static str,
    pub profile_path: Option<String>,
}

#[derive(Debug, Clone, PartialEq, Eq)]
pub struct ModelExecution {
    pub model_id: String,
    pub sessions: Vec<SessionExecution>,
}

/// A ready (or execution-update) frame's JSON payload, field for field.
#[derive(Debug, Clone)]
pub struct ReadyWire {
    pub model_id: String,
    pub dims: usize,
    pub sessions: Vec<SessionWire>,
}

#[derive(Debug, Clone)]
pub struct SessionWire {
    pub requested: Vec<String>,
    pub available: Vec<String>,
    pub registered: Vec<String>,
    pub selected: String,
    pub actual: Vec<String>,
    pub fallback_reason: Option<String>,
    pub measurement: String,
    pub profile_path: Option<String>,
}

/// What a helper acknowledged when its sessions were constructed.
#[derive(Debug, Clone)]
pub struct ReadyFrame {
    pub model_id: String,
    pub dims: usize,
    pub execution: ModelExecution,
}

pub open spec fn spec_selection(s: Seq<char>) -> Option<ExecutionSelection> {
    if s == "cpu"@ {
        Some(ExecutionSelection::Cpu)
    } else if s == "core-ml"@ {
        Some(ExecutionSelection::CoreMl)
    } else if s == "cuda"@ {
        Some(ExecutionSelection::Cuda)
    } else if s == "tensor-rt"@ {
        Some(ExecutionSelection::TensorRt)
    } else if s == "unknown"@ {
        Some(ExecutionSelection::Unknown)
    } else {
        None
    }
}

pub open spec fn known_measurement(s: Seq<char>) -> bool {
    s == "configured"@ || s == "pending-profile"@ || s == "profiled"@ || s == "profile-unavailable"@ || s == "unknown"@
}

pub open spec fn known_provider(s: Seq<char>) -> bool {
    s == "CPU"@ || s == "CoreML"@ || s == "CUDA"@ || s == "TensorRT"@
}

pub open spec fn providers_ok(p: Seq<String>) -> bool {
    p.len() <= 8 && forall|i: int| 0 <= i < p.len() ==> known_provider(#[trigger] p[i]@)
}

pub open spec fn opt_text_len(o: Option<String>) -> nat {
    match o {
        Some(s) => encode_utf8(s@).len(),
        None => 0,
    }
}

/// The first refusal of a session, in the order the fields are checked.
pub open spec fn session_error(w: SessionWire) -> Option<Seq<char>> {
    if spec_selection(w.selected@) is None {
        Some("unknown helper execution selection "@ + w.selected@)
    } else if !known_measurement(w.measurement@) {
        Some("unknown helper execution measurement "@ + w.measurement@)
    } else if opt_text_len(w.fallback_reason) > 2048 || opt_text_len(w.profile_path) > 32768 {
        Some("helper execution detail exceeds protocol limit"@)
    } else if !providers_ok(w.requested@) {
        Some("invalid helper requested provider list"@)
    } else if !providers_ok(w.available@) {
        Some("invalid helper available provider list"@)
    } else if !providers_ok(w.registered@) {
        Some("invalid helper registered provider list"@)
    } else if !providers_ok(w.actual@) {
        Some("invalid helper actual provider list"@)
    } else {
        None
    }
}

/// The first refusal among the sessions, in order.
pub open spec fn sessions_error(ws: Seq<SessionWire>) -> Option<Seq<char>>
    decreases ws.len(),
{
    if ws.len() == 0 {
        None
    } else if session_error(ws[0]) is Some {
        session_error(ws[0])
    } else {
        sessions_error(ws.subrange(1, ws.len() as int))
    }
}

pub open spec fn session_is(e: SessionExecution, w: SessionWire) -> bool {
    &&& e.requested@ == w.requested@
    &&& e.available@ == w.available@
    &&& e.registered@ == w.registered@
    &&& Some(e.selected) == spec_selection(w.selected@)
    &&& e.actual@ == w.actual@
    &&& e.fallback_reason == w.fallback_reason
    &&& e.measurement@ == w.measurement@
    &&& e.profile_path == w.profile_path
}

pub open spec fn ready_shape_ok(w: ReadyWire) -> bool {
    &&& w.model_id@.len() > 0
    &&& encode_utf8(w.model_id@).len() <= MAX_MODEL_ID_BYTES
    &&& 0 < w.dims <= MAX_VECTOR_DIMS
    &&& w.sessions@.len() <= 4
}

fn opt_len(o: &Option<String>) -> (r: usize)
    ensures
        r == opt_text_len(*o),
{
    match o {
        Some(s) => s.as_str().as_bytes().len(),
        None => 0,
    }
}

fn providers_valid(p: &Vec<String>) -> (r: bool)
    ensures
        r == providers_ok(p@),
{
    if p.len() > 8 {
        return false;
    }
    let n = p.len();
    for i in 0..n
        invariant
            n == p@.len(),
            forall|j: int| 0 <= j < i ==> known_provider(#[trigger] p@[j]@),
    {
        let x = p[i].as_str();
        if !(str_eq(x, "CPU") || str_eq(x, "CoreML") || str_eq(x, "CUDA") || str_eq(x, "TensorRT")) {
            return false;
        }
    }
    true
}

fn copy_text_list(v: &Vec<String>) -> (r: Vec<String>)
    ensures
        r@ == v@,
{
    crate::health::copy_strings(v)
}

fn decode_session(w: &SessionWire) -> (r: Result<SessionExecution, String>)
    ensures
        match r {
            Ok(e) => session_error(*w) is None && session_is(e, *w),
            Err(m) => session_error(*w) == Some(m@),
        },
{
    let sel = w.selected.as_str();
    let selected = if str_eq(sel, "cpu") {
        ExecutionSelection::Cpu
    } else if str_eq(sel, "core-ml") {
        ExecutionSelection::CoreMl
    } else if str_eq(sel, "cuda") {
        ExecutionSelection::Cuda
    } else if str_eq(sel, "tensor-rt") {
        ExecutionSelection::TensorRt
    } else if str_eq(sel, "unknown") {
        ExecutionSelection::Unknown
    } else {
        return Err(crate::text::concat2("unknown helper execution selection ", sel));
    };
    let m = w.measurement.as_str();
    let measurement: &'static str = if str_eq(m, "configured") {
        "configured"
    } else if str_eq(m, "pending-profile") {
        "pending-profile"
    } else if str_eq(m, "profiled") {
        "profiled"
    } else if str_eq(m, "profile-unavailable") {
        "profile-unavailable"
    } else if str_eq(m, "unknown") {
        "unknown"
    } else {
        return Err(crate::text::concat2("unknown helper execution measurement ", m));
    };
    if opt_len(&w.fallback_reason) > 2048 || opt_len(&w.profile_path) > 32768 {
        return Err(String::from_str("helper execution detail exceeds protocol limit"));
    }
    if !providers_valid(&w.requested) {
        return Err(String::from_str("invalid helper requested provider list"));
    }
    if !providers_valid(&w.available) {
        return Err(String::from_str("invalid helper available provider list"));
    }
    if !providers_valid(&w.registered) {
        return Err(String::from_str("invalid helper registered provider list"));
    }
    if !providers_valid(&w.actual) {
        return Err(String::from_str("invalid helper actual provider list"));
    }
    Ok(SessionExecution {
        requested: copy_text_list(&w.requested),
        available: copy_text_list(&w.available),
        registered: copy_text_list(&w.registered),
        selected,
        actual: copy_text_list(&w.actual),
        fallback_reason: copy_opt(&w.fallback_reason),
        measurement,
        profile_path: copy_opt(&w.profile_path),
    })
}

proof fn lemma_sessions_error_prefix(ws: Seq<SessionWire>, i: int)
    requires
        0 <= i < ws.len(),
        forall|j: int| 0 <= j < i ==> session_error(#[trigger] ws[j]) is None,
    ensures
        sessions_error(ws) == (if session_error(ws[i]) is Some { session_error(ws[i]) } else { sessions_error(ws.subrange(i + 1, ws.len() as int)) }),
    decreases i,
{
    if i > 0 {
        let t = ws.subrange(1, ws.len() as int);
        assert(session_error(ws[0]) is None);
        assert forall|j: int| 0 <= j < i - 1 implies session_error(#[trigger] t[j]) is None by {
            assert(t[j] == ws[j + 1]);
        }
        lemma_sessions_error_prefix(t, i - 1);
        assert(t[i - 1] == ws[i]);
        assert(t.subrange(i, t.len() as int) =~= ws.subrange(i + 1, ws.len() as int));
    }
}

proof fn lemma_sessions_error_none(ws: Seq<SessionWire>)
    requires
        forall|j: int| 0 <= j < ws.len() ==> session_error(#[trigger] ws[j]) is None,
    ensures
        sessions_error(ws) is None,
    decreases ws.len(),
{
    if ws.len() > 0 {
        let t = ws.subrange(1, ws.len() as int);
        assert forall|j: int| 0 <= j < t.len() implies session_error(#[trigger] t[j]) is None by {
            assert(t[j] == ws[j + 1]);
        }
        lemma_sessions_error_none(t);
    }
}

/// A ready payload: a model id and dimension count within the protocol
/// limits, at most four sessions, and each session's selection,
/// measurement, detail lengths and provider lists from the closed
/// vocabulary. The first refusal is reported.
pub fn decode_ready_wire(wire: &ReadyWire) -> (r: Result<ReadyFrame, ConnectorFailure>)
    ensures
        match r {
            Ok(f) => {
                &&& ready_shape_ok(*wire)
                &&& sessions_error(wire.sessions@) is None
                &&& f.model_id == wire.model_id
                &&& f.dims == wire.dims
                &&& f.execution.model_id == wire.model_id
                &&& f.execution.sessions@.len() == wire.sessions@.len()
                &&& forall|i: int| 0 <= i < wire.sessions@.len() ==> session_is(
                    #[trigger] f.execution.sessions@[i],
                    wire.sessions@[i],
                )
            },
            Err(ConnectorFailure::Decode(m)) => if !ready_shape_ok(*wire) {
                m@ == "invalid embedder helper ready payload"@
            } else {
                sessions_error(wire.sessions@) == Some(m@)
            },
            Err(_) => false,
        },
{
    let id = wire.model_id.as_str();
    if id.unicode_len() == 0 || id.as_bytes().len() > MAX_MODEL_ID_BYTES || wire.dims == 0 || wire.dims > MAX_VECTOR_DIMS
        || wire.sessions.len() > 4 {
        return Err(ConnectorFailure::Decode(String::from_str("invalid embedder helper ready payload")));
    }
    let mut sessions: Vec<SessionExecution> = Vec::new();
    let n = wire.sessions.len();
    for i in 0..n
        invariant
            n == wire.sessions@.len(),
            ready_shape_ok(*wire),
            sessions@.len() == i,
            forall|j: int| 0 <= j < i ==> session_error(#[trigger] wire.sessions@[j]) is None,
            forall|j: int| 0 <= j < i ==> session_is(#[trigger] sessions@[j], wire.sessions@[j]),
    {
        match decode_session(&wire.sessions[i]) {
            Ok(e) => sessions.push(e),
            Err(m) => {
                proof {
                    lemma_sessions_error_prefix(wire.sessions@, i as int);
                }
                return Err(ConnectorFailure::Decode(m));
            },
        }
    }
    proof {
        lemma_sessions_error_none(wire.sessions@);
    }
    Ok(ReadyFrame {
        model_id: wire.model_id.clone(),
        dims: wire.dims,
        execution: ModelExecution { model_id: wire.model_id.clone(), sessions },
    })
}


// ---------------------------------------------------------------------------
// Attempts and slots
// ---------------------------------------------------------------------------

/// One build attempt of a role: its id, the model, the generation it was
/// queued under, and when it started (wall clock and monotonic).
#[derive(Debug)]
pub struct Attempt {
    pub id: u64,
    pub model_id: String,
    pub generation: u64,
    pub started_epoch_ms: i64,
    pub started_mono_ms: u64,
}

impl Attempt {
    pub fn clone_attempt(&self) -> (r: Attempt)
        ensures
            r == *self,
    {
        Attempt {
            id: self.id,
            model_id: self.model_id.clone(),
            generation: self.generation,
            started_epoch_ms: self.started_epoch_ms,
            started_mono_ms: self.started_mono_ms,
        }
    }
}

/// What a constructed helper acknowledged; its process stays with the caller.
#[derive(Debug)]
pub struct BuiltHelper {
    pub model_id: String,
    pub dims: usize,
    pub execution: ModelExecution,
}

/// One role's lifecycle. A role is `Queued` before dispatch, so status never
/// reports Idle while a build is pending, and `Building` once its worker has
/// entered helper construction.
#[derive(Debug)]
pub enum Slot {
    Idle,
    Queued { attempt: Attempt },
    Building { attempt: Attempt },
    Ready { attempt: Attempt, helper: BuiltHelper },
    Failed { attempt: Attempt, msg: String },
    /// Shutdown invalidated every landing generation and is reaping the
    /// role's helper.
    Stopping { attempt: Option<Attempt> },
}

pub open spec fn slot_attempt(s: Slot) -> Option<Attempt> {
    match s {
        Slot::Idle => None,
        Slot::Queued { attempt } => Some(attempt),
        Slot::Building { attempt } => Some(attempt),
        Slot::Ready { attempt, .. } => Some(attempt),
        Slot::Failed { attempt, .. } => Some(attempt),
        Slot::Stopping { attempt } => attempt,
    }
}

/// The model a slot is planned for, whatever its state.
pub open spec fn spec_planned_model(s: Slot) -> Option<Seq<char>> {
    match slot_attempt(s) {
        Some(a) => Some(a.model_id@),
        None => None,
    }
}

pub open spec fn slot_state(s: Slot) -> EmbedderState {
    match s {
        Slot::Idle => EmbedderState::Idle,
        Slot::Queued { .. } => EmbedderState::Queued,
        Slot::Building { .. } => EmbedderState::Building,
        Slot::Ready { .. } => EmbedderState::Ready,
        Slot::Failed { .. } => EmbedderState::Failed,
        Slot::Stopping { .. } => EmbedderState::Stopping,
    }
}

impl Slot {
    pub fn planned_model(&self) -> (r: Option<&str>)
        ensures
            opt_str_seq(r) == spec_planned_model(*self),
    {
        match self {
            Slot::Idle => None,
            Slot::Queued { attempt } => Some(attempt.model_id.as_str()),
            Slot::Building { attempt } => Some(attempt.model_id.as_str()),
            Slot::Ready { attempt, .. } => Some(attempt.model_id.as_str()),
            Slot::Failed { attempt, .. } => Some(attempt.model_id.as_str()),
            Slot::Stopping { attempt } => match attempt {
                Some(a) => Some(a.model_id.as_str()),
                None => None,
            },
        }
    }

    pub fn attempt(&self) -> (r: Option<&Attempt>)
        ensures
            match r {
                Some(a) => slot_attempt(*self) == Some(*a),
                None => slot_attempt(*self) is None,
            },
    {
        match self {
            Slot::Idle => None,
            Slot::Queued { attempt } => Some(attempt),
            Slot::Building { attempt } => Some(attempt),
            Slot::Ready { attempt, .. } => Some(attempt),
            Slot::Failed { attempt, .. } => Some(attempt),
            Slot::Stopping { attempt } => match attempt {
                Some(a) => Some(a),
                None => None,
            },
        }
    }
}

fn attempt_detail(verb: &str, a: &Attempt) -> (r: String)
    ensures
        r@ == verb@ + " "@ + a.model_id@ + " (attempt "@ + decimal(a.id as nat) + ", generation "@ + decimal(
            a.generation as nat,
        ) + ")"@,
{
    let head = concat3(verb, " ", a.model_id.as_str());
    let id = u64_text(a.id);
    let generation = u64_text(a.generation);
    let mid = concat3(head.as_str(), " (attempt ", id.as_str());
    let tail = concat3(mid.as_str(), ", generation ", generation.as_str());
    concat2(tail.as_str(), ")")
}

pub open spec fn spec_attempt_detail(verb: Seq<char>, a: Attempt) -> Seq<char> {
    verb + " "@ + a.model_id@ + " (attempt "@ + decimal(a.id as nat) + ", generation "@ + decimal(a.generation as nat)
        + ")"@
}

/// A role's debug line.
pub open spec fn spec_describe(role: Seq<char>, s: Slot) -> Seq<char> {
    role + ": "@ + match s {
        Slot::Idle => "idle (no model)"@,
        Slot::Queued { attempt } => spec_attempt_detail("queued"@, attempt),
        Slot::Building { attempt } => spec_attempt_detail("building"@, attempt),
        Slot::Ready { attempt, .. } => spec_attempt_detail("ready"@, attempt),
        Slot::Failed { attempt, msg } => spec_attempt_detail("FAILED"@, attempt) + " \u{2014} "@ + msg@,
        Slot::Stopping { attempt } => match attempt {
            Some(a) => spec_attempt_detail("stopping"@, a),
            None => "stopping"@,
        },
    }
}

/// The debug line naming a role's state, so a failed embedder is visible.
pub fn describe(role: &str, slot: &Slot) -> (r: String)
    ensures
        r@ == spec_describe(role@, *slot),
{
    let body = match slot {
        Slot::Idle => String::from_str("idle (no model)"),
        Slot::Queued { attempt } => attempt_detail("queued", attempt),
        Slot::Building { attempt } => attempt_detail("building", attempt),
        Slot::Ready { attempt, .. } => attempt_detail("ready", attempt),
        Slot::Failed { attempt, msg } => {
            let d = attempt_detail("FAILED", attempt);
            concat3(d.as_str(), " \u{2014} ", msg.as_str())
        },
        Slot::Stopping { attempt } => match attempt {
            Some(a) => attempt_detail("stopping", a),
            None => String::from_str("stopping"),
        },
    };
    concat3(role, ": ", body.as_str())
}

// ---------------------------------------------------------------------------
// Lanes
// ---------------------------------------------------------------------------

/// What `fetch_add(1)` leaves in a generation counter: the next value,
/// wrapping at the top.
pub open spec fn bump(g: u64) -> u64 {
    if g == u64::MAX { 0 } else { (g + 1) as u64 }
}

fn bumped(g: u64) -> (r: u64)
    ensures
        r == bump(g),
{
    g.wrapping_add(1)
}

/// One role: its slot and the generation a build must still carry to land.
#[derive(Debug)]
pub struct Lane {
    pub slot: Slot,
    pub generation: u64,
}

/// The attempt is the lane's queued attempt under the lane's generation.
pub open spec fn queued_current(l: Lane, a: Attempt) -> bool {
    l.generation == a.generation && (l.slot matches Slot::Queued { attempt: q } && q.id == a.id)
}

/// The attempt is the lane's building attempt under the lane's generation.
pub open spec fn building_current(l: Lane, a: Attempt) -> bool {
    l.generation == a.generation && (l.slot matches Slot::Building { attempt: b } && b.id == a.id)
}

/// The attempt is the lane's queued, building or ready attempt under the
/// lane's generation.
pub open spec fn live_current(l: Lane, a: Attempt) -> bool {
    &&& l.generation == a.generation
    &&& match l.slot {
        Slot::Queued { attempt } => attempt.id == a.id,
        Slot::Building { attempt } => attempt.id == a.id,
        Slot::Ready { attempt, .. } => attempt.id == a.id,
        _ => false,
    }
}

pub open spec fn timeout_message(role: Role, timeout_ms: u64) -> Seq<char> {
    spec_role_label(role) + " embedder build timed out after "@ + decimal((timeout_ms / 1000) as nat)
        + "s; native build landing invalidated"@
}

/// A queued or building attempt that has run for the timeout or longer.
pub open spec fn timed_out(s: Slot, now_mono_ms: u64, timeout_ms: u64) -> Option<Attempt> {
    let a = match s {
        Slot::Queued { attempt } => Some(attempt),
        Slot::Building { attempt } => Some(attempt),
        _ => None,
    };
    match a {
        Some(x) => if (if now_mono_ms >= x.started_mono_ms { now_mono_ms - x.started_mono_ms } else { 0 }) < timeout_ms {
            None
        } else {
            Some(x)
        },
        None => None,
    }
}

/// The watchdog fails a queued or a building attempt alike once it has run
/// for the timeout or longer (a clock reading before its start counts as no
/// time run): the slot holds that attempt, failed with the timeout message,
/// and the generation moves on by one, wrapping at the top. A younger
/// attempt, and any other slot, is left untouched.
pub proof fn law_watchdog_times_out_queued_and_building(l: Lane, n: Lane, role: Role, now: u64, timeout: u64)
    requires
        lane_expired(l, n, role, now, timeout),
    ensures
        ({
            let running = match l.slot {
                Slot::Queued { attempt } => Some(attempt),
                Slot::Building { attempt } => Some(attempt),
                _ => None,
            };
            match running {
                Some(a) => if timeout == 0 || now as int - a.started_mono_ms as int >= timeout as int {
                    &&& n.generation == (if l.generation == u64::MAX { 0 } else { l.generation + 1 })
                    &&& n.slot matches Slot::Failed { attempt: f, msg } && f == a && msg@ == spec_role_label(role)
                        + " embedder build timed out after "@ + decimal((timeout / 1000) as nat)
                        + "s; native build landing invalidated"@
                } else {
                    n == l
                },
                None => n == l,
            }
        }),
{
}

/// The lane after its watchdog looked at it.
pub open spec fn lane_expired(l: Lane, n: Lane, role: Role, now_mono_ms: u64, timeout_ms: u64) -> bool {
    match timed_out(l.slot, now_mono_ms, timeout_ms) {
        Some(a) => {
            &&& n.generation == bump(l.generation)
            &&& n.slot matches Slot::Failed { attempt: f, msg } && f == a && msg@ == timeout_message(role, timeout_ms)
        },
        None => n == l,
    }
}

impl Lane {
    pub fn new() -> (r: Lane)
        ensures
            r.slot is Idle,
            r.generation == 0,
    {
        Lane { slot: Slot::Idle, generation: 0 }
    }

    /// A lane rebuilds exactly when its planned model differs from the
    /// target; a failed slot for the same model does not retry by itself.
    pub fn needs_rebuild(&self, target: Option<&str>) -> (r: bool)
        ensures
            r == (spec_planned_model(self.slot) != opt_str_seq(target)),
    {
        match (self.slot.planned_model(), target) {
            (Some(a), Some(b)) => !str_eq(a, b),
            (None, None) => false,
            _ => true,
        }
    }

    /// The worker enters construction only for the lane's current queued attempt.
    pub fn begin_build_if_current(&mut self, attempt: &Attempt) -> (r: bool)
        ensures
            r == queued_current(*old(self), *attempt),
            r ==> final(self).generation == old(self).generation && final(self).slot == (Slot::Building {
                attempt: *attempt,
            }),
            !r ==> *final(self) == *old(self),
    {
        let current = self.generation == attempt.generation && match &self.slot {
            Slot::Queued { attempt: q } => q.id == attempt.id,
            _ => false,
        };
        if current {
            self.slot = Slot::Building { attempt: attempt.clone_attempt() };
        }
        current
    }

    /// A helper process may be registered only for the lane's current
    /// building attempt.
    pub fn publish_allowed(&self, attempt: &Attempt) -> (r: bool)
        ensures
            r == building_current(*self, *attempt),
    {
        self.generation == attempt.generation && match &self.slot {
            Slot::Building { attempt: b } => b.id == attempt.id,
            _ => false,
        }
    }

    /// A finished build lands only on its own current building attempt:
    /// Ready with the helper, or Failed with the load error. Anything else
    /// is stale and leaves the lane as it was (the caller discards it).
    pub fn land_build(&mut self, attempt: &Attempt, built: Result<BuiltHelper, String>) -> (r: bool)
        ensures
            r == building_current(*old(self), *attempt),
            !r ==> *final(self) == *old(self),
            r ==> final(self).generation == old(self).generation,
            r ==> match built {
                Ok(h) => final(self).slot == (Slot::Ready { attempt: *attempt, helper: h }),
                Err(e) => final(self).slot matches Slot::Failed { attempt: a, msg } && a == *attempt && msg@
                    == "ort load failed: "@ + e@,
            },
    {
        let current = self.publish_allowed(attempt);
        if !current {
            return false;
        }
        self.slot = match built {
            Ok(helper) => Slot::Ready { attempt: attempt.clone_attempt(), helper },
            Err(e) => Slot::Failed { attempt: attempt.clone_attempt(), msg: concat2("ort load failed: ", e.as_str()) },
        };
        true
    }

    /// Fails the lane's current queued, building or ready attempt; a stale
    /// attempt changes nothing.
    pub fn fail_attempt_if_current(&mut self, attempt: &Attempt, msg: String) -> (r: bool)
        ensures
            r == live_current(*old(self), *attempt),
            r ==> final(self).generation == old(self).generation && final(self).slot == (Slot::Failed {
                attempt: *attempt,
                msg,
            }),
            !r ==> *final(self) == *old(self),
    {
        let current = self.generation == attempt.generation && match &self.slot {
            Slot::Queued { attempt: a } => a.id == attempt.id,
            Slot::Building { attempt: a } => a.id == attempt.id,
            Slot::Ready { attempt: a, .. } => a.id == attempt.id,
            _ => false,
        };
        if current {
            self.slot = Slot::Failed { attempt: attempt.clone_attempt(), msg };
        }
        current
    }

    /// A queued or building attempt past the timeout fails and its
    /// generation is invalidated; the generation it was queued under is
    /// returned so its helper can be reaped.
    pub fn expire(&mut self, role: Role, now_mono_ms: u64, timeout_ms: u64) -> (r: Option<u64>)
        ensures
            lane_expired(*old(self), *final(self), role, now_mono_ms, timeout_ms),
            r == (match timed_out(old(self).slot, now_mono_ms, timeout_ms) {
                Some(a) => Some(a.generation),
                None => None,
            }),
    {
        let expired = match &self.slot {
            Slot::Queued { attempt } => now_mono_ms.saturating_sub(attempt.started_mono_ms) >= timeout_ms,
            Slot::Building { attempt } => now_mono_ms.saturating_sub(attempt.started_mono_ms) >= timeout_ms,
            _ => false,
        };
        if !expired {
            return None;
        }
        let a = match &self.slot {
            Slot::Queued { attempt } => attempt.clone_attempt(),
            Slot::Building { attempt } => attempt.clone_attempt(),
            _ => {
                return None;
            },
        };
        self.generation = bumped(self.generation);
        let secs = u64_text(timeout_ms / 1000);
        let head = concat3(role.label(), " embedder build timed out after ", secs.as_str());
        let msg = concat2(head.as_str(), "s; native build landing invalidated");
        let g = a.generation;
        self.slot = Slot::Failed { attempt: a, msg };
        Some(g)
    }

    /// An explicit restart clears only a failed slot.
    pub fn reset_failed(&mut self)
        ensures
            old(self).slot is Failed ==> final(self).slot is Idle && final(self).generation == bump(
                old(self).generation,
            ),
            !(old(self).slot is Failed) ==> *final(self) == *old(self),
    {
        if let Slot::Failed { .. } = &self.slot {
            self.generation = bumped(self.generation);
            self.slot = Slot::Idle;
        }
    }

    /// Shutdown: every landing generation is invalidated and the slot
    /// reports Stopping with the attempt it had.
    pub fn stop(&mut self)
        ensures
            final(self).generation == bump(old(self).generation),
            final(self).slot == (Slot::Stopping { attempt: slot_attempt(old(self).slot) }),
    {
        self.generation = bumped(self.generation);
        let attempt = match self.slot.attempt() {
            Some(a) => Some(a.clone_attempt()),
            None => None,
        };
        self.slot = Slot::Stopping { attempt };
    }

    /// Cancels the lane when it still references `model_id`.
    pub fn cancel_model(&mut self, model_id: &str) -> (r: bool)
        ensures
            r == (spec_planned_model(old(self).slot) == Some(model_id@)),
            r ==> final(self).slot is Idle && final(self).generation == bump(old(self).generation),
            !r ==> *final(self) == *old(self),
    {
        let refers = match self.slot.planned_model() {
            Some(m) => str_eq(m, model_id),
            None => false,
        };
        if refers {
            self.generation = bumped(self.generation);
            self.slot = Slot::Idle;
        }
        refers
    }
}


// ---------------------------------------------------------------------------
// The host
// ---------------------------------------------------------------------------

/// One reading of the clock: wall-clock epoch milliseconds and a monotonic
/// offset in milliseconds.
#[derive(Debug, Clone, Copy)]
pub struct ClockReading {
    pub epoch_ms: i64,
    pub monotonic_ms: u64,
}

/// How a runtime process is planned.
#[derive(Debug, Clone)]
pub enum ProcessPlan {
    Run { model_id: String },
    NotConfigured { reason: String, fixable_by_download: bool },
}

#[derive(Debug, Clone)]
pub struct RuntimePlan {
    pub effective_tier: u8,
    pub llm: ProcessPlan,
    pub asr: ProcessPlan,
    pub clip_embedder: ProcessPlan,
    pub text_embedder: ProcessPlan,
}

#[derive(Debug, Clone, Copy, PartialEq, Eq, Structural)]
pub enum EmbedderBackend {
    LocalOrt,
    OpenaiCompatible,
}

#[derive(Debug, Clone, Copy, PartialEq, Eq, Structural)]
pub enum TextEmbedderBackend {
    LocalOrt,
    LocalLlamacpp,
    OpenaiCompatible,
}

/// The model ids each role has a native recipe for.
#[derive(Debug, Clone)]
pub struct KnownModels {
    pub text: Vec<String>,
    pub clip: Vec<String>,
}

/// Work the caller performs for the host: reap a registered helper, or
/// start a worker for a queued attempt.
#[derive(Debug)]
pub enum HostCommand {
    Terminate { role: Role, generation: u64 },
    Dispatch { role: Role, attempt: Attempt },
}

/// Identity of each ready vector writer: its model and generation.
#[derive(Debug, Clone, PartialEq, Eq)]
pub struct ReadyVectorIdentities {
    pub text: Option<(String, u64)>,
    pub clip: Option<(String, u64)>,
}

/// The embedder host: both roles, the registry of helper processes by role
/// and generation, whether shutdown has begun, and the next attempt id.
#[derive(Debug)]
pub struct EmbedderHost {
    pub text: Lane,
    pub clip: Lane,
    pub helpers: Vec<(Role, u64)>,
    pub stopped: bool,
    pub next_attempt: u64,
    pub build_timeout_ms: u64,
}

pub open spec fn commands_view(c: Seq<HostCommand>) -> Seq<(Role, Option<u64>, Option<Attempt>)> {
    c.map_values(|x: HostCommand| match x {
        HostCommand::Terminate { role, generation } => (role, Some(generation), None),
        HostCommand::Dispatch { role, attempt } => (role, None, Some(attempt)),
    })
}

pub open spec fn terminations(role: Role, keys: Seq<(Role, u64)>) -> Seq<(Role, Option<u64>, Option<Attempt>)> {
    keys.map_values(|k: (Role, u64)| (k.0, Some(k.1), None::<Attempt>))
}

/// The registry entries of `role`, in registry order.
pub open spec fn of_role(keys: Seq<(Role, u64)>, role: Role) -> Seq<(Role, u64)> {
    keys.filter(is_role(role))
}

pub open spec fn is_role(role: Role) -> spec_fn((Role, u64)) -> bool {
    |k: (Role, u64)| k.0 == role
}

pub open spec fn other_role(role: Role) -> spec_fn((Role, u64)) -> bool {
    |k: (Role, u64)| k.0 != role
}

/// The registry entries of other roles, in registry order.
pub open spec fn not_of_role(keys: Seq<(Role, u64)>, role: Role) -> Seq<(Role, u64)> {
    keys.filter(other_role(role))
}

pub open spec fn lane_of(h: EmbedderHost, role: Role) -> Lane {
    match role {
        Role::Text => h.text,
        Role::Clip => h.clip,
    }
}

pub open spec fn plan_target(p: ProcessPlan, local: bool) -> Option<Seq<char>> {
    match p {
        ProcessPlan::Run { model_id } => if local { Some(model_id@) } else { None },
        _ => None,
    }
}

/// The image model this host builds for the plan: only on the local ORT backend.
pub open spec fn clip_plan_target(plan: RuntimePlan, backend: EmbedderBackend) -> Option<Seq<char>> {
    plan_target(plan.clip_embedder, backend == EmbedderBackend::LocalOrt)
}

/// The text model this host builds for the plan: only on the local ORT backend.
pub open spec fn text_plan_target(plan: RuntimePlan, backend: TextEmbedderBackend) -> Option<Seq<char>> {
    plan_target(plan.text_embedder, backend == TextEmbedderBackend::LocalOrt)
}

pub open spec fn knows(known: Seq<String>, model: Seq<char>) -> bool {
    exists|i: int| 0 <= i < known.len() && (#[trigger] known[i])@ == model
}

fn contains_text(known: &Vec<String>, model: &str) -> (r: bool)
    ensures
        r == knows(known@, model@),
{
    let n = known.len();
    for i in 0..n
        invariant
            n == known@.len(),
            forall|j: int| 0 <= j < i ==> (#[trigger] known@[j])@ != model@,
    {
        if str_eq(known[i].as_str(), model) {
            return true;
        }
    }
    false
}

/// Removes every registry entry of `role`, keeping the others in order.
fn take_role_helpers(helpers: &mut Vec<(Role, u64)>, role: Role) -> (taken: Vec<(Role, u64)>)
    ensures
        taken@ == of_role(old(helpers)@, role),
        final(helpers)@ == not_of_role(old(helpers)@, role),
{
    let ghost start = helpers@;
    let mut kept: Vec<(Role, u64)> = Vec::new();
    let mut taken: Vec<(Role, u64)> = Vec::new();
    let n = helpers.len();
    for i in 0..n
        invariant
            n == start.len(),
            helpers@ == start,
            taken@ == of_role(start.subrange(0, i as int), role),
            kept@ == not_of_role(start.subrange(0, i as int), role),
    {
        let k = helpers[i];
        proof {
            let p = start.subrange(0, i as int);
            assert(start.subrange(0, i + 1) =~= p.push(k));
            p.lemma_filter_push(k, is_role(role));
            p.lemma_filter_push(k, other_role(role));
        }
        if k.0 == role {
            taken.push(k);
        } else {
            kept.push(k);
        }
    }
    proof {
        assert(start.subrange(0, n as int) =~= start);
    }
    *helpers = kept;
    taken
}

fn terminate_commands(out: &mut Vec<HostCommand>, keys: Vec<(Role, u64)>)
    ensures
        commands_view(final(out)@) == commands_view(old(out)@) + keys@.map_values(
            |k: (Role, u64)| (k.0, Some(k.1), None::<Attempt>),
        ),
{
    let ghost start = commands_view(out@);
    let n = keys.len();
    for i in 0..n
        invariant
            n == keys@.len(),
            commands_view(out@) == start + keys@.subrange(0, i as int).map_values(
                |k: (Role, u64)| (k.0, Some(k.1), None::<Attempt>),
            ),
    {
        let k = keys[i];
        let ghost before = out@;
        out.push(HostCommand::Terminate { role: k.0, generation: k.1 });
        proof {
            assert(commands_view(out@) =~= commands_view(before).push((k.0, Some(k.1), None::<Attempt>)));
            assert(keys@.subrange(0, i + 1).map_values(|k: (Role, u64)| (k.0, Some(k.1), None::<Attempt>))
                =~= keys@.subrange(0, i as int).map_values(|k: (Role, u64)| (k.0, Some(k.1), None::<Attempt>)).push(
                (k.0, Some(k.1), None::<Attempt>),
            ));
        }
    }
    proof {
        assert(keys@.subrange(0, n as int) =~= keys@);
    }
}


pub open spec fn unknown_recipe_message(role: Role, model: Seq<char>) -> Seq<char> {
    "no ort "@ + spec_role_label(role) + " recipe for "@ + model
}

/// One role converged onto `target`: nothing changes when the lane is
/// already planned for it; otherwise the generation advances, the role's
/// registered helpers are reaped, and the lane drops to Idle, fails at once
/// for a model without a recipe, or queues a new attempt to dispatch.
pub open spec fn converged(
    old_lane: Lane,
    new_lane: Lane,
    old_helpers: Seq<(Role, u64)>,
    new_helpers: Seq<(Role, u64)>,
    old_next: u64,
    new_next: u64,
    role: Role,
    target: Option<Seq<char>>,
    known: Seq<String>,
    now: ClockReading,
    emitted: Seq<(Role, Option<u64>, Option<Attempt>)>,
) -> bool {
    if spec_planned_model(old_lane.slot) == target {
        &&& new_lane == old_lane
        &&& new_helpers == old_helpers
        &&& new_next == old_next
        &&& emitted.len() == 0
    } else {
        let reaped = terminations(role, of_role(old_helpers, role));
        &&& new_lane.generation == bump(old_lane.generation)
        &&& new_helpers == not_of_role(old_helpers, role)
        &&& match target {
            None => new_lane.slot is Idle && new_next == old_next && emitted == reaped,
            Some(m) => {
                &&& slot_attempt(new_lane.slot) matches Some(a) && {
                    &&& a.id == old_next
                    &&& a.model_id@ == m
                    &&& a.generation == new_lane.generation
                    &&& a.started_epoch_ms == now.epoch_ms
                    &&& a.started_mono_ms == now.monotonic_ms
                    &&& if knows(known, m) {
                        new_lane.slot is Queued && emitted == reaped + seq![(role, None::<u64>, Some(a))]
                    } else {
                        new_lane.slot matches Slot::Failed { msg, .. } && msg@ == unknown_recipe_message(role, m)
                            && emitted == reaped
                    }
                }
                &&& new_next == bump(old_next)
            },
        }
    }
}

fn converge_lane(
    lane: &mut Lane,
    helpers: &mut Vec<(Role, u64)>,
    next_attempt: &mut u64,
    role: Role,
    target: Option<&str>,
    known: &Vec<String>,
    now: ClockReading,
) -> (cmds: Vec<HostCommand>)
    ensures
        converged(
            *old(lane),
            *final(lane),
            old(helpers)@,
            final(helpers)@,
            *old(next_attempt),
            *final(next_attempt),
            role,
            opt_str_seq(target),
            known@,
            now,
            commands_view(cmds@),
        ),
        spec_planned_model(old(lane).slot) == opt_str_seq(target) ==> *final(helpers) == *old(helpers)
            && *final(next_attempt) == *old(next_attempt),
{
    let mut cmds: Vec<HostCommand> = Vec::new();
    if !lane.needs_rebuild(target) {
        return cmds;
    }
    lane.generation = bumped(lane.generation);
    let superseded = take_role_helpers(helpers, role);
    let ghost reaped_keys = superseded@;
    terminate_commands(&mut cmds, superseded);
    proof {
        assert(commands_view(cmds@) =~= terminations(role, reaped_keys));
    }
    match target {
        None => {
            lane.slot = Slot::Idle;
        },
        Some(model_id) => {
            let attempt = Attempt {
                id: *next_attempt,
                model_id: String::from_str(model_id),
                generation: lane.generation,
                started_epoch_ms: now.epoch_ms,
                started_mono_ms: now.monotonic_ms,
            };
            *next_attempt = bumped(*next_attempt);
            if !contains_text(known, model_id) {
                let head = concat3("no ort ", role.label(), " recipe for ");
                let msg = concat2(head.as_str(), model_id);
                lane.slot = Slot::Failed { attempt, msg };
            } else {
                let queued = attempt.clone_attempt();
                lane.slot = Slot::Queued { attempt: queued };
                let ghost before = cmds@;
                cmds.push(HostCommand::Dispatch { role, attempt });
                proof {
                    assert(commands_view(cmds@) =~= commands_view(before).push((role, None::<u64>, Some(attempt))));
                    assert(commands_view(cmds@) =~= terminations(role, of_role(old(helpers)@, role)) + seq![
                        (role, None::<u64>, Some(attempt)),
                    ]);
                }
            }
        },
    }
    cmds
}


pub open spec fn without_key(keys: Seq<(Role, u64)>, k: (Role, u64)) -> Seq<(Role, u64)> {
    keys.filter(not_key(k))
}

pub open spec fn not_key(k: (Role, u64)) -> spec_fn((Role, u64)) -> bool {
    |x: (Role, u64)| x != k
}

/// The termination of a registered helper, if it was registered.
pub open spec fn reap_if_present(keys: Seq<(Role, u64)>, k: (Role, u64)) -> Seq<(Role, Option<u64>, Option<Attempt>)> {
    if keys.contains(k) {
        seq![(k.0, Some(k.1), None::<Attempt>)]
    } else {
        seq![]
    }
}

proof fn lemma_contains_push(p: Seq<(Role, u64)>, x: (Role, u64), k: (Role, u64))
    ensures
        p.push(x).contains(k) == (p.contains(k) || x == k),
{
    let q = p.push(x);
    if p.contains(k) {
        let j = choose|j: int| 0 <= j < p.len() && p[j] == k;
        assert(q[j] == k);
    }
    if x == k {
        assert(q[p.len() as int] == x);
    }
    if q.contains(k) {
        let j = choose|j: int| 0 <= j < q.len() && q[j] == k;
        if j < p.len() {
            assert(p[j] == q[j]);
        }
    }
}

fn remove_helper(helpers: &mut Vec<(Role, u64)>, k: (Role, u64)) -> (r: bool)
    ensures
        r == old(helpers)@.contains(k),
        final(helpers)@ == without_key(old(helpers)@, k),
{
    let ghost start = helpers@;
    let mut kept: Vec<(Role, u64)> = Vec::new();
    let mut found = false;
    let n = helpers.len();
    for i in 0..n
        invariant
            n == start.len(),
            helpers@ == start,
            kept@ == without_key(start.subrange(0, i as int), k),
            found == start.subrange(0, i as int).contains(k),
    {
        let x = helpers[i];
        proof {
            let p = start.subrange(0, i as int);
            assert(start.subrange(0, i + 1) =~= p.push(x));
            p.lemma_filter_push(x, not_key(k));
            lemma_contains_push(p, x, k);
        }
        if x.0 == k.0 && x.1 == k.1 {
            found = true;
        } else {
            kept.push(x);
        }
    }
    proof {
        assert(start.subrange(0, n as int) =~= start);
    }
    *helpers = kept;
    found
}

/// The host after its watchdog ran: nothing once stopped; otherwise each
/// role's timed-out attempt fails, and the helper registered under that
/// attempt's generation is reaped, text first, then image.
pub open spec fn host_expired(h: EmbedderHost, n: EmbedderHost, now_mono_ms: u64, emitted: Seq<(Role, Option<u64>, Option<Attempt>)>) -> bool {
    if h.stopped {
        n == h && emitted.len() == 0
    } else {
        let tk = match timed_out(h.text.slot, now_mono_ms, h.build_timeout_ms) {
            Some(a) => Some((Role::Text, a.generation)),
            None => None,
        };
        let ck = match timed_out(h.clip.slot, now_mono_ms, h.build_timeout_ms) {
            Some(a) => Some((Role::Clip, a.generation)),
            None => None,
        };
        let h1 = match tk {
            Some(k) => without_key(h.helpers@, k),
            None => h.helpers@,
        };
        let e1 = match tk {
            Some(k) => reap_if_present(h.helpers@, k),
            None => seq![],
        };
        let h2 = match ck {
            Some(k) => without_key(h1, k),
            None => h1,
        };
        let e2 = match ck {
            Some(k) => reap_if_present(h1, k),
            None => seq![],
        };
        &&& lane_expired(h.text, n.text, Role::Text, now_mono_ms, h.build_timeout_ms)
        &&& lane_expired(h.clip, n.clip, Role::Clip, now_mono_ms, h.build_timeout_ms)
        &&& n.helpers@ == h2
        &&& emitted == e1 + e2
        &&& n.stopped == h.stopped
        &&& n.next_attempt == h.next_attempt
        &&& n.build_timeout_ms == h.build_timeout_ms
    }
}

/// The other role's lane and the host's settings are untouched.
pub open spec fn host_converged(
    h: EmbedderHost,
    n: EmbedderHost,
    role: Role,
    target: Option<Seq<char>>,
    known: Seq<String>,
    now: ClockReading,
    emitted: Seq<(Role, Option<u64>, Option<Attempt>)>,
) -> bool {
    &&& converged(lane_of(h, role), lane_of(n, role), h.helpers@, n.helpers@, h.next_attempt, n.next_attempt, role, target,
        known, now, emitted)
    &&& match role {
        Role::Text => n.clip == h.clip,
        Role::Clip => n.text == h.text,
    }
    &&& n.stopped == h.stopped
    &&& n.build_timeout_ms == h.build_timeout_ms
}

/// A role converged onto a different model discards every attempt made
/// under an earlier generation: none of them can start building, land, or
/// count as the live attempt afterwards.
pub proof fn law_replanned_role_discards_earlier_attempts(
    h: EmbedderHost,
    n: EmbedderHost,
    role: Role,
    target: Option<Seq<char>>,
    known: Seq<String>,
    now: ClockReading,
    emitted: Seq<(Role, Option<u64>, Option<Attempt>)>,
    a: Attempt,
)
    requires
        host_converged(h, n, role, target, known, now, emitted),
        spec_planned_model(lane_of(h, role).slot) != target,
        a.generation <= lane_of(h, role).generation,
        lane_of(h, role).generation < u64::MAX,
    ensures
        !queued_current(lane_of(n, role), a),
        !building_current(lane_of(n, role), a),
        !live_current(lane_of(n, role), a),
{
}

fn append_commands(out: &mut Vec<HostCommand>, more: Vec<HostCommand>)
    ensures
        commands_view(final(out)@) == commands_view(old(out)@) + commands_view(more@),
{
    let mut more = more;
    let ghost a = out@;
    let ghost b = more@;
    out.append(&mut more);
    proof {
        assert(out@ =~= a + b);
        assert(commands_view(a + b) =~= commands_view(a) + commands_view(b));
    }
}

impl EmbedderHost {
    pub fn new() -> (r: EmbedderHost)
        ensures
            r.text.slot is Idle && r.text.generation == 0,
            r.clip.slot is Idle && r.clip.generation == 0,
            r.helpers@.len() == 0,
            !r.stopped,
            r.next_attempt == 1,
            r.build_timeout_ms == 180000,
    {
        EmbedderHost::with_timeout(180000)
    }

    pub fn with_timeout(build_timeout_ms: u64) -> (r: EmbedderHost)
        ensures
            r.text.slot is Idle && r.text.generation == 0,
            r.clip.slot is Idle && r.clip.generation == 0,
            r.helpers@.len() == 0,
            !r.stopped,
            r.next_attempt == 1,
            r.build_timeout_ms == build_timeout_ms,
    {
        EmbedderHost {
            text: Lane::new(),
            clip: Lane::new(),
            helpers: Vec::new(),
            stopped: false,
            next_attempt: 1,
            build_timeout_ms,
        }
    }

    pub fn text_ready(&self) -> (r: bool)
        ensures
            r == (self.text.slot is Ready),
    {
        match &self.text.slot {
            Slot::Ready { .. } => true,
            _ => false,
        }
    }

    pub fn clip_ready(&self) -> (r: bool)
        ensures
            r == (self.clip.slot is Ready),
    {
        match &self.clip.slot {
            Slot::Ready { .. } => true,
            _ => false,
        }
    }

    /// True while either role still owns or is constructing this model.
    pub fn model_in_use(&self, model_id: &str) -> (r: bool)
        ensures
            r == (spec_planned_model(self.text.slot) == Some(model_id@) || spec_planned_model(self.clip.slot) == Some(
                model_id@,
            )),
    {
        let t = match self.text.slot.planned_model() {
            Some(m) => str_eq(m, model_id),
            None => false,
        };
        let c = match self.clip.slot.planned_model() {
            Some(m) => str_eq(m, model_id),
            None => false,
        };
        t || c
    }

    /// The identity of each ready vector writer.
    pub fn ready_vector_identities(&self) -> (r: ReadyVectorIdentities)
        ensures
            match self.text.slot {
                Slot::Ready { attempt, .. } => r.text matches Some((m, g)) && m@ == attempt.model_id@ && g
                    == attempt.generation,
                _ => r.text is None,
            },
            match self.clip.slot {
                Slot::Ready { attempt, .. } => r.clip matches Some((m, g)) && m@ == attempt.model_id@ && g
                    == attempt.generation,
                _ => r.clip is None,
            },
    {
        let text = match &self.text.slot {
            Slot::Ready { attempt, .. } => Some((attempt.model_id.clone(), attempt.generation)),
            _ => None,
        };
        let clip = match &self.clip.slot {
            Slot::Ready { attempt, .. } => Some((attempt.model_id.clone(), attempt.generation)),
            _ => None,
        };
        ReadyVectorIdentities { text, clip }
    }

    /// One line per role for the debug panel.
    pub fn debug_lines(&self) -> (r: Vec<String>)
        ensures
            r@.len() == 2,
            r@[0]@ == spec_describe("text-embedder"@, self.text.slot),
            r@[1]@ == spec_describe("clip-embedder"@, self.clip.slot),
    {
        let mut r: Vec<String> = Vec::new();
        r.push(describe("text-embedder", &self.text.slot));
        r.push(describe("clip-embedder", &self.clip.slot));
        r
    }

    /// The watchdog: fails attempts past the build timeout and reaps their
    /// helpers. Nothing happens once shutdown has begun.
    pub fn expire_timed_out(&mut self, now_mono_ms: u64) -> (cmds: Vec<HostCommand>)
        ensures
            host_expired(*old(self), *final(self), now_mono_ms, commands_view(cmds@)),
            (old(self).stopped || (timed_out(old(self).text.slot, now_mono_ms, old(self).build_timeout_ms) is None
                && timed_out(old(self).clip.slot, now_mono_ms, old(self).build_timeout_ms) is None)) ==> *final(self)
                == *old(self) && cmds@.len() == 0,
    {
        let mut cmds: Vec<HostCommand> = Vec::new();
        if self.stopped {
            return cmds;
        }
        let timeout = self.build_timeout_ms;
        let ghost h0 = self.helpers@;
        match self.text.expire(Role::Text, now_mono_ms, timeout) {
            Some(g) => {
                if remove_helper(&mut self.helpers, (Role::Text, g)) {
                    cmds.push(HostCommand::Terminate { role: Role::Text, generation: g });
                }
            },
            None => {},
        }
        let ghost h1 = self.helpers@;
        let ghost e1 = commands_view(cmds@);
        assert(e1 =~= (match timed_out(old(self).text.slot, now_mono_ms, timeout) {
            Some(a) => reap_if_present(h0, (Role::Text, a.generation)),
            None => seq![],
        }));
        match self.clip.expire(Role::Clip, now_mono_ms, timeout) {
            Some(g) => {
                if remove_helper(&mut self.helpers, (Role::Clip, g)) {
                    let ghost before = cmds@;
                    cmds.push(HostCommand::Terminate { role: Role::Clip, generation: g });
                    proof {
                        assert(commands_view(cmds@) =~= commands_view(before).push((Role::Clip, Some(g), None::<Attempt>)));
                    }
                }
            },
            None => {},
        }
        proof {
            assert(commands_view(cmds@) =~= e1 + (match timed_out(old(self).clip.slot, now_mono_ms, timeout) {
                Some(a) => reap_if_present(h1, (Role::Clip, a.generation)),
                None => seq![],
            }));
        }
        cmds
    }

    /// Converges both roles onto the plan: the image role first, then the
    /// text role, each built here only on the local ORT backend. Nothing
    /// happens once shutdown has begun, and a plan that changes nothing
    /// touches nothing.
    pub fn apply(
        &mut self,
        plan: &RuntimePlan,
        clip_backend: EmbedderBackend,
        text_backend: TextEmbedderBackend,
        known: &KnownModels,
        now: ClockReading,
    ) -> (cmds: Vec<HostCommand>)
        ensures
            old(self).stopped ==> *final(self) == *old(self) && cmds@.len() == 0,
            !old(self).stopped ==> exists|h1: EmbedderHost, h2: EmbedderHost, c1: Seq<(Role, Option<u64>, Option<Attempt>)>, c2: Seq<(Role, Option<u64>, Option<Attempt>)>, c3: Seq<(Role, Option<u64>, Option<Attempt>)>|
                #![trigger host_expired(*old(self), h1, now.monotonic_ms, c1), host_converged(h1, h2, Role::Clip, clip_plan_target(*plan, clip_backend), known.clip@, now, c2), host_converged(h2, *final(self), Role::Text, text_plan_target(*plan, text_backend), known.text@, now, c3)]
                {
                &&& host_expired(*old(self), h1, now.monotonic_ms, c1)
                &&& host_converged(h1, h2, Role::Clip, clip_plan_target(*plan, clip_backend), known.clip@, now, c2)
                &&& host_converged(h2, *final(self), Role::Text, text_plan_target(*plan, text_backend), known.text@, now, c3)
                &&& commands_view(cmds@) == c1 + c2 + c3
            },
            (!old(self).stopped && timed_out(old(self).text.slot, now.monotonic_ms, old(self).build_timeout_ms) is None
                && timed_out(old(self).clip.slot, now.monotonic_ms, old(self).build_timeout_ms) is None
                && spec_planned_model(old(self).clip.slot) == clip_plan_target(*plan, clip_backend)
                && spec_planned_model(old(self).text.slot) == text_plan_target(*plan, text_backend))
                ==> *final(self) == *old(self) && cmds@.len() == 0,
    {
        if self.stopped {
            return Vec::new();
        }
        let mut cmds = self.expire_timed_out(now.monotonic_ms);
        let ghost h1 = *self;
        let ghost c1 = commands_view(cmds@);
        let clip_target: Option<&str> = match &plan.clip_embedder {
            ProcessPlan::Run { model_id } => if clip_backend == EmbedderBackend::LocalOrt { Some(model_id.as_str()) } else { None },
            _ => None,
        };
        let c = converge_lane(&mut self.clip, &mut self.helpers, &mut self.next_attempt, Role::Clip, clip_target, &known.clip, now);
        let ghost c2 = commands_view(c@);
        append_commands(&mut cmds, c);
        let ghost h2 = *self;
        let text_target: Option<&str> = match &plan.text_embedder {
            ProcessPlan::Run { model_id } => if text_backend == TextEmbedderBackend::LocalOrt { Some(model_id.as_str()) } else { None },
            _ => None,
        };
        let t = converge_lane(&mut self.text, &mut self.helpers, &mut self.next_attempt, Role::Text, text_target, &known.text, now);
        let ghost c3 = commands_view(t@);
        append_commands(&mut cmds, t);
        proof {
            assert(host_expired(*old(self), h1, now.monotonic_ms, c1));
            assert(host_converged(h1, h2, Role::Clip, clip_plan_target(*plan, clip_backend), known.clip@, now, c2));
            assert(host_converged(h2, *self, Role::Text, text_plan_target(*plan, text_backend), known.text@, now, c3));
            assert(commands_view(cmds@) == c1 + c2 + c3);
        }
        cmds
    }

    /// Shutdown: every registered helper is reaped, both roles report
    /// Stopping with their generations invalidated, and later plans and
    /// retries are ignored.
    pub fn shutdown(&mut self) -> (cmds: Vec<HostCommand>)
        ensures
            final(self).stopped,
            final(self).helpers@.len() == 0,
            commands_view(cmds@) == old(self).helpers@.map_values(|k: (Role, u64)| (k.0, Some(k.1), None::<Attempt>)),
            final(self).text.generation == bump(old(self).text.generation),
            final(self).text.slot == (Slot::Stopping { attempt: slot_attempt(old(self).text.slot) }),
            final(self).clip.generation == bump(old(self).clip.generation),
            final(self).clip.slot == (Slot::Stopping { attempt: slot_attempt(old(self).clip.slot) }),
            final(self).next_attempt == old(self).next_attempt,
            final(self).build_timeout_ms == old(self).build_timeout_ms,
    {
        self.stopped = true;
        let mut all: Vec<(Role, u64)> = Vec::new();
        std::mem::swap(&mut all, &mut self.helpers);
        let mut cmds: Vec<HostCommand> = Vec::new();
        terminate_commands(&mut cmds, all);
        self.text.stop();
        self.clip.stop();
        proof {
            assert(commands_view(cmds@) =~= old(self).helpers@.map_values(
                |k: (Role, u64)| (k.0, Some(k.1), None::<Attempt>),
            ));
        }
        cmds
    }

    /// An explicit restart clears failed roles so the next plan rebuilds
    /// them; healthy roles are untouched, and nothing happens after shutdown.
    pub fn retry_failed(&mut self)
        ensures
            old(self).stopped ==> *final(self) == *old(self),
            !old(self).stopped ==> {
                &&& (old(self).text.slot is Failed ==> final(self).text.slot is Idle && final(self).text.generation
                    == bump(old(self).text.generation))
                &&& (!(old(self).text.slot is Failed) ==> final(self).text == old(self).text)
                &&& (old(self).clip.slot is Failed ==> final(self).clip.slot is Idle && final(self).clip.generation
                    == bump(old(self).clip.generation))
                &&& (!(old(self).clip.slot is Failed) ==> final(self).clip == old(self).clip)
                &&& final(self).helpers == old(self).helpers
                &&& final(self).stopped == old(self).stopped
                &&& final(self).next_attempt == old(self).next_attempt
                &&& final(self).build_timeout_ms == old(self).build_timeout_ms
            },
    {
        if self.stopped {
            return;
        }
        self.text.reset_failed();
        self.clip.reset_failed();
    }

    /// Cancels every role that still references `model_id`: its generation
    /// is invalidated, the slot is Idle, and the role's helpers are reaped.
    pub fn cancel_model(&mut self, model_id: &str) -> (cmds: Vec<HostCommand>)
        ensures
            ({
                let t = spec_planned_model(old(self).text.slot) == Some(model_id@);
                let c = spec_planned_model(old(self).clip.slot) == Some(model_id@);
                let h1 = if t { not_of_role(old(self).helpers@, Role::Text) } else { old(self).helpers@ };
                let e1 = if t { terminations(Role::Text, of_role(old(self).helpers@, Role::Text)) } else { seq![] };
                let h2 = if c { not_of_role(h1, Role::Clip) } else { h1 };
                let e2 = if c { terminations(Role::Clip, of_role(h1, Role::Clip)) } else { seq![] };
                &&& (t ==> final(self).text.slot is Idle && final(self).text.generation == bump(old(self).text.generation))
                &&& (!t ==> final(self).text == old(self).text)
                &&& (c ==> final(self).clip.slot is Idle && final(self).clip.generation == bump(old(self).clip.generation))
                &&& (!c ==> final(self).clip == old(self).clip)
                &&& final(self).helpers@ == h2
                &&& commands_view(cmds@) == e1 + e2
            }),
            final(self).stopped == old(self).stopped,
            final(self).next_attempt == old(self).next_attempt,
            final(self).build_timeout_ms == old(self).build_timeout_ms,
    {
        let mut cmds: Vec<HostCommand> = Vec::new();
        if self.text.cancel_model(model_id) {
            let taken = take_role_helpers(&mut self.helpers, Role::Text);
            terminate_commands(&mut cmds, taken);
        }
        let ghost e1 = commands_view(cmds@);
        if self.clip.cancel_model(model_id) {
            let taken = take_role_helpers(&mut self.helpers, Role::Clip);
            let mut more: Vec<HostCommand> = Vec::new();
            terminate_commands(&mut more, taken);
            append_commands(&mut cmds, more);
        }
        proof {
            assert(e1 =~= (if spec_planned_model(old(self).text.slot) == Some(model_id@) {
                terminations(Role::Text, of_role(old(self).helpers@, Role::Text))
            } else {
                seq![]
            }));
        }
        cmds
    }

    /// The role's worker enters construction for its current queued attempt.
    pub fn begin_build(&mut self, role: Role, attempt: &Attempt) -> (r: bool)
        ensures
            r == queued_current(lane_of(*old(self), role), *attempt),
            r ==> lane_of(*final(self), role).slot == (Slot::Building { attempt: *attempt })
                && lane_of(*final(self), role).generation == lane_of(*old(self), role).generation,
            !r ==> *final(self) == *old(self),
            r ==> match role {
                Role::Text => final(self).clip == old(self).clip,
                Role::Clip => final(self).text == old(self).text,
            },
            final(self).helpers == old(self).helpers,
            final(self).stopped == old(self).stopped,
            final(self).next_attempt == old(self).next_attempt,
            final(self).build_timeout_ms == old(self).build_timeout_ms,
    {
        match role {
            Role::Text => self.text.begin_build_if_current(attempt),
            Role::Clip => self.clip.begin_build_if_current(attempt),
        }
    }

    /// Registers the helper process of the role's current building attempt
    /// under its generation; a stale attempt may not register (its process
    /// is then the caller's to reap).
    pub fn publish_helper(&mut self, role: Role, attempt: &Attempt) -> (r: bool)
        ensures
            r == building_current(lane_of(*old(self), role), *attempt),
            r ==> final(self).helpers@ == (if old(self).helpers@.contains((role, attempt.generation)) {
                old(self).helpers@
            } else {
                old(self).helpers@.push((role, attempt.generation))
            }),
            !r ==> final(self).helpers == old(self).helpers,
            final(self).text == old(self).text,
            final(self).clip == old(self).clip,
            final(self).stopped == old(self).stopped,
            final(self).next_attempt == old(self).next_attempt,
            final(self).build_timeout_ms == old(self).build_timeout_ms,
    {
        let current = match role {
            Role::Text => self.text.publish_allowed(attempt),
            Role::Clip => self.clip.publish_allowed(attempt),
        };
        if !current {
            return false;
        }
        let key = (role, attempt.generation);
        let mut present = false;
        let n = self.helpers.len();
        for i in 0..n
            invariant
                n == self.helpers@.len(),
                present == self.helpers@.subrange(0, i as int).contains(key),
        {
            let x = self.helpers[i];
            proof {
                let p = self.helpers@.subrange(0, i as int);
                assert(self.helpers@.subrange(0, i + 1) =~= p.push(x));
                lemma_contains_push(p, x, key);
            }
            if x.0 == key.0 && x.1 == key.1 {
                present = true;
            }
        }
        proof {
            assert(self.helpers@.subrange(0, n as int) =~= self.helpers@);
        }
        if !present {
            self.helpers.push(key);
        }
        true
    }

    /// Lands a finished build on the role's current building attempt; a
    /// stale build changes nothing and is the caller's to discard.
    pub fn land_build(&mut self, role: Role, attempt: &Attempt, built: Result<BuiltHelper, String>) -> (r: bool)
        ensures
            r == building_current(lane_of(*old(self), role), *attempt),
            !r ==> *final(self) == *old(self),
            r ==> lane_of(*final(self), role).generation == lane_of(*old(self), role).generation,
            r ==> match built {
                Ok(h) => lane_of(*final(self), role).slot == (Slot::Ready { attempt: *attempt, helper: h }),
                Err(e) => lane_of(*final(self), role).slot matches Slot::Failed { attempt: a, msg } && a == *attempt
                    && msg@ == "ort load failed: "@ + e@,
            },
            match role {
                Role::Text => final(self).clip == old(self).clip,
                Role::Clip => final(self).text == old(self).text,
            },
            final(self).helpers == old(self).helpers,
            final(self).stopped == old(self).stopped,
            final(self).next_attempt == old(self).next_attempt,
            final(self).build_timeout_ms == old(self).build_timeout_ms,
    {
        match role {
            Role::Text => self.text.land_build(attempt, built),
            Role::Clip => self.clip.land_build(attempt, built),
        }
    }

    /// Fails the role's current queued, building or ready attempt (a dispatch
    /// failure, or a helper that died during inference); stale attempts
    /// change nothing, and the other role is never touched.
    pub fn fail_attempt(&mut self, role: Role, attempt: &Attempt, msg: String) -> (r: bool)
        ensures
            r == live_current(lane_of(*old(self), role), *attempt),
            r ==> lane_of(*final(self), role).slot == (Slot::Failed { attempt: *attempt, msg })
                && lane_of(*final(self), role).generation == lane_of(*old(self), role).generation,
            !r ==> *final(self) == *old(self),
            match role {
                Role::Text => final(self).clip == old(self).clip,
                Role::Clip => final(self).text == old(self).text,
            },
            final(self).helpers == old(self).helpers,
            final(self).stopped == old(self).stopped,
            final(self).next_attempt == old(self).next_attempt,
            final(self).build_timeout_ms == old(self).build_timeout_ms,
    {
        match role {
            Role::Text => self.text.fail_attempt_if_current(attempt, msg),
            Role::Clip => self.clip.fail_attempt_if_current(attempt, msg),
        }
    }
}


// ---------------------------------------------------------------------------
// Status
// ---------------------------------------------------------------------------

pub open spec fn opt_view_eq(a: Option<String>, b: Option<String>) -> bool {
    match (a, b) {
        (Some(x), Some(y)) => x@ == y@,
        (None, None) => true,
        _ => false,
    }
}

/// Two session descriptions say the same.
pub open spec fn session_same(a: SessionExecution, b: SessionExecution) -> bool {
    &&& a.requested@ == b.requested@
    &&& a.available@ == b.available@
    &&& a.registered@ == b.registered@
    &&& a.selected == b.selected
    &&& a.actual@ == b.actual@
    &&& a.fallback_reason == b.fallback_reason
    &&& a.measurement@ == b.measurement@
    &&& a.profile_path == b.profile_path
}

/// Two execution descriptions say the same.
pub open spec fn execution_same(a: ModelExecution, b: ModelExecution) -> bool {
    &&& a.model_id == b.model_id
    &&& a.sessions@.len() == b.sessions@.len()
    &&& forall|i: int| 0 <= i < a.sessions@.len() ==> session_same(#[trigger] a.sessions@[i], b.sessions@[i])
}

fn copy_session(e: &SessionExecution) -> (r: SessionExecution)
    ensures
        session_same(r, *e),
{
    SessionExecution {
        requested: copy_text_list(&e.requested),
        available: copy_text_list(&e.available),
        registered: copy_text_list(&e.registered),
        selected: e.selected,
        actual: copy_text_list(&e.actual),
        fallback_reason: copy_opt(&e.fallback_reason),
        measurement: e.measurement,
        profile_path: copy_opt(&e.profile_path),
    }
}

pub fn copy_execution(e: &ModelExecution) -> (r: ModelExecution)
    ensures
        execution_same(r, *e),
{
    let mut sessions: Vec<SessionExecution> = Vec::new();
    let n = e.sessions.len();
    for i in 0..n
        invariant
            n == e.sessions@.len(),
            sessions@.len() == i,
            forall|j: int| 0 <= j < i ==> session_same(#[trigger] sessions@[j], e.sessions@[j]),
    {
        sessions.push(copy_session(&e.sessions[i]));
    }
    ModelExecution { model_id: e.model_id.clone(), sessions }
}

/// The status a role reports: its state, attempt identity (or the lane's
/// generation when it has none), when the attempt started, the error of a
/// failed slot and the execution of a ready one.
pub open spec fn slot_dto_is(r: EmbedderSlot, s: Slot, idle_generation: u64) -> bool {
    &&& r.state == slot_state(s)
    &&& match slot_attempt(s) {
        Some(a) => {
            &&& r.attempt_id == Some(a.id)
            &&& opt_view_eq(r.model_id, Some(a.model_id))
            &&& r.generation == a.generation
            &&& r.started_at matches Some(t) && t@ == rfc3339_text(a.started_epoch_ms as int)
        },
        None => r.attempt_id is None && r.model_id is None && r.generation == idle_generation && r.started_at is None,
    }
    &&& match s {
        Slot::Failed { msg, .. } => r.error == Some(msg),
        _ => r.error is None,
    }
    &&& match s {
        Slot::Ready { helper, .. } => r.execution matches Some(e) && execution_same(e, helper.execution),
        _ => r.execution is None,
    }
}

impl Slot {
    pub fn to_dto(&self, idle_generation: u64) -> (r: EmbedderSlot)
        ensures
            slot_dto_is(r, *self, idle_generation),
    {
        let state = match self {
            Slot::Idle => EmbedderState::Idle,
            Slot::Queued { .. } => EmbedderState::Queued,
            Slot::Building { .. } => EmbedderState::Building,
            Slot::Ready { .. } => EmbedderState::Ready,
            Slot::Failed { .. } => EmbedderState::Failed,
            Slot::Stopping { .. } => EmbedderState::Stopping,
        };
        let (attempt_id, model_id, generation, started_at) = match self.attempt() {
            Some(a) => (Some(a.id), Some(a.model_id.clone()), a.generation, Some(rfc3339_millis(a.started_epoch_ms))),
            None => (None, None, idle_generation, None),
        };
        let error = match self {
            Slot::Failed { msg, .. } => Some(msg.clone()),
            _ => None,
        };
        let execution = match self {
            Slot::Ready { helper, .. } => Some(copy_execution(&helper.execution)),
            _ => None,
        };
        EmbedderSlot { state, attempt_id, model_id, generation, started_at, error, execution }
    }
}

impl EmbedderHost {
    pub fn text_slot(&self) -> (r: EmbedderSlot)
        ensures
            slot_dto_is(r, self.text.slot, self.text.generation),
    {
        self.text.slot.to_dto(self.text.generation)
    }

    pub fn clip_slot(&self) -> (r: EmbedderSlot)
        ensures
            slot_dto_is(r, self.clip.slot, self.clip.generation),
    {
        self.clip.slot.to_dto(self.clip.generation)
    }
}


// ---------------------------------------------------------------------------
// Requests and responses
// ---------------------------------------------------------------------------

/// A text inference request's body: the text's UTF-8 bytes, refused over
/// the text limit.
pub fn text_request_body(text: &str) -> (r: Result<Vec<u8>, ConnectorFailure>)
    ensures
        text.spec_bytes().len() > MAX_TEXT_BYTES ==> (r matches Err(ConnectorFailure::Backend { status, message })
            && status == 413 && message@ == "embedder text request exceeds protocol limit"@),
        r matches Ok(b) ==> text.spec_bytes().len() <= MAX_TEXT_BYTES && b@ == text.spec_bytes(),
        text.spec_bytes().len() <= MAX_TEXT_BYTES ==> r is Ok,
{
    let bytes = text.as_bytes();
    if bytes.len() > MAX_TEXT_BYTES {
        return Err(ConnectorFailure::Backend {
            status: 413,
            message: String::from_str("embedder text request exceeds protocol limit"),
        });
    }
    let mut body: Vec<u8> = Vec::new();
    let n = bytes.len();
    for i in 0..n
        invariant
            n == bytes@.len(),
            body@ == bytes@.subrange(0, i as int),
    {
        body.push(bytes[i]);
        proof {
            assert(body@ =~= bytes@.subrange(0, i + 1));
        }
    }
    proof {
        assert(bytes@.subrange(0, n as int) =~= bytes@);
    }
    Ok(body)
}

/// An image inference request's body: width and height as four
/// little-endian bytes each, then the RGB8 pixels. The pixels must be
/// exactly width × height × 3 bytes, none of them zero-sized, within the
/// image limit.
pub fn image_request_body(width: u32, height: u32, rgb8: &[u8]) -> (r: Result<Vec<u8>, ConnectorFailure>)
    ensures
        (width as int * height as int * 3 > usize::MAX) ==> (r matches Err(ConnectorFailure::Decode(m)) && m@
            == "image dimensions overflow"@),
        (width as int * height as int * 3 <= usize::MAX) ==> (r is Ok <==> (width != 0 && height != 0 && rgb8@.len()
            == width as int * height as int * 3 && rgb8@.len() <= MAX_IMAGE_BYTES)),
        (width as int * height as int * 3 <= usize::MAX && r is Err) ==> (r matches Err(ConnectorFailure::Backend {
            status,
            message,
        }) && status == 422 && message@ == "invalid embedder image payload"@),
        r matches Ok(b) ==> b@ == le32(width as nat) + le32(height as nat) + rgb8@,
{
    let w = width as usize;
    let h = height as usize;
    let expected: usize = match w.checked_mul(h) {
        Some(pixels) => match pixels.checked_mul(3) {
            Some(e) => e,
            None => {
                proof {
                    assert(w * h * 3 > usize::MAX) by (nonlinear_arith)
                        requires
                            pixels == w * h,
                            pixels * 3 > usize::MAX,
                    ;
                }
                return Err(ConnectorFailure::Decode(String::from_str("image dimensions overflow")));
            },
        },
        None => {
            proof {
                assert(w * h * 3 > usize::MAX) by (nonlinear_arith)
                    requires
                        w * h > usize::MAX,
                ;
            }
            return Err(ConnectorFailure::Decode(String::from_str("image dimensions overflow")));
        },
    };
    if width == 0 || height == 0 || expected != rgb8.len() || expected > MAX_IMAGE_BYTES {
        return Err(ConnectorFailure::Backend { status: 422, message: String::from_str("invalid embedder image payload") });
    }
    let mut body = le32_bytes(width);
    let mut hb = le32_bytes(height);
    body.append(&mut hb);
    let ghost head = body@;
    let n = rgb8.len();
    for i in 0..n
        invariant
            n == rgb8@.len(),
            body@ == head + rgb8@.subrange(0, i as int),
    {
        body.push(rgb8[i]);
        proof {
            assert(body@ =~= head + rgb8@.subrange(0, i + 1));
        }
    }
    proof {
        assert(rgb8@.subrange(0, n as int) =~= rgb8@);
    }
    Ok(body)
}

/// The answer to a helper's first frame: its ready payload, its error text,
/// or a refusal of any other opcode. `wire` is the ready payload as parsed
/// from JSON, or why it could not be parsed.
pub fn ready_response(kind: u8, body: &[u8], wire: Result<ReadyWire, String>) -> (r: Result<ReadyFrame, ConnectorFailure>)
    ensures
        kind == RESP_READY ==> match wire {
            Ok(w) => match r {
                Ok(f) => ready_shape_ok(w) && sessions_error(w.sessions@) is None && f.model_id == w.model_id && f.dims
                    == w.dims,
                Err(ConnectorFailure::Decode(_)) => !(ready_shape_ok(w) && sessions_error(w.sessions@) is None),
                Err(_) => false,
            },
            Err(e) => r matches Err(ConnectorFailure::Decode(m)) && m == e,
        },
        kind == RESP_ERROR ==> match r {
            Err(ConnectorFailure::Backend { status, message }) => status == 500 && body@.len() <= MAX_TEXT_BYTES
                && valid_utf8(body@) && message@ == decode_utf8(body@),
            Err(ConnectorFailure::Decode(_)) => !(body@.len() <= MAX_TEXT_BYTES && valid_utf8(body@)),
            _ => false,
        },
        (kind != RESP_READY && kind != RESP_ERROR) ==> (r matches Err(ConnectorFailure::Decode(m)) && m@
            == "expected helper ready frame, got opcode "@ + decimal(kind as nat)),
{
    if kind == RESP_READY {
        match wire {
            Ok(w) => decode_ready_wire(&w),
            Err(e) => Err(ConnectorFailure::Decode(e)),
        }
    } else if kind == RESP_ERROR {
        match decode_error(body) {
            Ok(message) => Err(ConnectorFailure::Backend { status: 500, message }),
            Err(e) => Err(ConnectorFailure::Decode(e)),
        }
    } else {
        let k = u64_text(kind as u64);
        Err(ConnectorFailure::Decode(concat2("expected helper ready frame, got opcode ", k.as_str())))
    }
}

/// What an inference call does after reading one response frame.
#[derive(Debug)]
pub enum RpcStep {
    /// An execution update was committed; read the next frame.
    ReadNext,
    /// The call is over with this result.
    Finish(Result<EmbeddingFrame, ConnectorFailure>),
}

/// One response of an inference call. At most one execution update may
/// precede the terminal embedding or error frame: an update for another
/// model, a second update, or an unknown opcode ends the call with a decode
/// failure. `updates_seen` counts the updates already committed; `wire` is
/// an update's payload as parsed from JSON.
pub fn rpc_response(
    execution: &mut ModelExecution,
    updates_seen: u64,
    kind: u8,
    body: &[u8],
    wire: Result<ReadyWire, String>,
) -> (r: RpcStep)
    requires
        updates_seen <= 1,
    ensures
        kind == RESP_EMBEDDING ==> (r matches RpcStep::Finish(res) && match res {
            Ok(f) => f.model_id@ == decode_utf8(model_bytes(body@)) && f.vector_bits@ == vector_words(body@),
            Err(ConnectorFailure::Decode(_)) => !(embedding_shape_error(body@) is None && valid_utf8(model_bytes(body@))
                && embedding_count_error(body@) is None),
            Err(_) => false,
        }) && *final(execution) == *old(execution),
        kind == RESP_ERROR ==> (r matches RpcStep::Finish(Err(_))) && *final(execution) == *old(execution),
        kind == RESP_EXECUTION ==> match r {
            RpcStep::ReadNext => updates_seen == 0 && (wire matches Ok(w) && ready_shape_ok(w) && sessions_error(
                w.sessions@,
            ) is None && w.model_id@ == old(execution).model_id@ && final(execution).model_id == w.model_id
                && final(execution).sessions@.len() == w.sessions@.len() && (forall|i: int|
                0 <= i < w.sessions@.len() ==> session_is(#[trigger] final(execution).sessions@[i], w.sessions@[i]))),
            RpcStep::Finish(Err(ConnectorFailure::Decode(_))) => *final(execution) == *old(execution),
            _ => false,
        },
        (kind == RESP_EXECUTION && updates_seen == 1) ==> (r matches RpcStep::Finish(Err(ConnectorFailure::Decode(m)))
            && m@ == "helper execution update had no terminal response"@),
        (kind != RESP_EXECUTION && kind != RESP_EMBEDDING && kind != RESP_ERROR) ==> (r matches RpcStep::Finish(
            Err(ConnectorFailure::Decode(m)),
        ) && m@ == "unexpected helper response opcode "@ + decimal(kind as nat)) && *final(execution) == *old(execution),
{
    if kind == RESP_EXECUTION {
        if updates_seen >= 1 {
            return RpcStep::Finish(Err(ConnectorFailure::Decode(String::from_str("helper execution update had no terminal response"))));
        }
        let update = match wire {
            Ok(w) => match decode_ready_wire(&w) {
                Ok(f) => f,
                Err(e) => return RpcStep::Finish(Err(e)),
            },
            Err(e) => return RpcStep::Finish(Err(ConnectorFailure::Decode(e))),
        };
        if !str_eq(update.execution.model_id.as_str(), execution.model_id.as_str()) {
            return RpcStep::Finish(Err(ConnectorFailure::Decode(String::from_str("helper execution update changed model identity"))));
        }
        *execution = update.execution;
        RpcStep::ReadNext
    } else if kind == RESP_EMBEDDING {
        match decode_embedding(body) {
            Ok(f) => RpcStep::Finish(Ok(f)),
            Err(e) => RpcStep::Finish(Err(ConnectorFailure::Decode(e))),
        }
    } else if kind == RESP_ERROR {
        match decode_error(body) {
            Ok(message) => RpcStep::Finish(Err(ConnectorFailure::Backend { status: 500, message })),
            Err(e) => RpcStep::Finish(Err(ConnectorFailure::Decode(e))),
        }
    } else {
        let k = u64_text(kind as u64);
        RpcStep::Finish(Err(ConnectorFailure::Decode(concat2("unexpected helper response opcode ", k.as_str()))))
    }
}

impl Lane {
    /// A proxy may serve inference only while its attempt is the lane's
    /// ready attempt under the lane's generation.
    pub fn ready_current(&self, attempt: &Attempt) -> (r: bool)
        ensures
            r == (self.generation == attempt.generation && (self.slot matches Slot::Ready { attempt: a, .. } && a.id
                == attempt.id)),
    {
        self.generation == attempt.generation && match &self.slot {
            Slot::Ready { attempt: a, .. } => a.id == attempt.id,
            _ => false,
        }
    }
}

} // verus!
