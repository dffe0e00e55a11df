//! Offline, checksummed app-data snapshots: the operations, their receipts
//! and manifests, the framed request handed to the helper, and every check
//! a backup must pass before a restore may replace app data. Walking,
//! copying and renaming files stays with the caller, which hands the
//! observed facts in.
use vstd::prelude::*;
use crate::text::{concat2, concat3, decimal, signed_decimal, str_eq, u64_text, i64_text};
use crate::embedders::le32;
use vstd::string::StringSliceAdditionalSpecFns;
use vstd::utf8::encode_utf8;

verus! {

pub const MAX_HELPER_REQUEST_BYTES: usize = 131072;

/// A backup or restore of the app-data directory, performed by the helper
/// only after the app has quit.
#[derive(Debug, Clone, PartialEq, Eq)]
pub enum OfflineOperation {
    Backup { app_data: String, destination: String },
    Restore { app_data: String, backup: String },
}

pub open spec fn spec_app_data(op: OfflineOperation) -> Seq<char> {
    match op {
        OfflineOperation::Backup { app_data, .. } => app_data@,
        OfflineOperation::Restore { app_data, .. } => app_data@,
    }
}

pub open spec fn spec_backup_path(op: OfflineOperation) -> Seq<char> {
    match op {
        OfflineOperation::Backup { destination, .. } => destination@,
        OfflineOperation::Restore { backup, .. } => backup@,
    }
}

pub open spec fn spec_operation_name(op: OfflineOperation) -> Seq<char> {
    match op {
        OfflineOperation::Backup { .. } => "backup"@,
        OfflineOperation::Restore { .. } => "restore"@,
    }
}

impl OfflineOperation {
    /// The app-data directory the operation reads or replaces.
    pub fn app_data(&self) -> (r: &str)
        ensures
            r@ == spec_app_data(*self),
    {
        match self {
            OfflineOperation::Backup { app_data, .. } => app_data.as_str(),
            OfflineOperation::Restore { app_data, .. } => app_data.as_str(),
        }
    }

    /// The backup directory written or read.
    pub fn backup_path(&self) -> (r: &str)
        ensures
            r@ == spec_backup_path(*self),
    {
        match self {
            OfflineOperation::Backup { destination, .. } => destination.as_str(),
            OfflineOperation::Restore { backup, .. } => backup.as_str(),
        }
    }

    pub fn name(&self) -> (r: &'static str)
        ensures
            r@ == spec_operation_name(*self),
    {
        match self {
            OfflineOperation::Backup { .. } => "backup",
            OfflineOperation::Restore { .. } => "restore",
        }
    }
}

/// The note the helper leaves in app data about what it did.
#[derive(Debug, Clone, PartialEq, Eq)]
pub struct OperationReceipt {
    pub operation: String,
    pub succeeded: bool,
    pub completed_at: String,
    pub backup_path: String,
    pub rollback_path: Option<String>,
    pub detail: String,
}

#[derive(Debug, Clone, PartialEq, Eq)]
pub struct BackupManifest {
    pub format: String,
    pub version: u32,
    pub files: Vec<BackupFile>,
}

#[derive(Debug, Clone, PartialEq, Eq)]
pub struct BackupFile {
    /// Backup-relative path.
    pub path: String,
    pub bytes: u64,
    /// Lowercase hexadecimal BLAKE3 digest.
    pub blake3: String,
}

#[derive(Debug, Clone)]
pub enum BackupError {
    MissingSource(String),
    DestinationExists(String),
    DestinationInsideSource(String),
    InvalidRelativePath(String),
    Checksum { path: String, expected: String, actual: String },
    Io(String),
    Manifest(String),
    HandoffPending,
    Helper(String),
    InvalidRequest(String),
}

pub open spec fn spec_backup_message(e: BackupError) -> Seq<char> {
    match e {
        BackupError::MissingSource(p) => "backup source does not exist: "@ + p@,
        BackupError::DestinationExists(p) => "backup destination must not already exist: "@ + p@,
        BackupError::DestinationInsideSource(p) => "backup path is inside its source: "@ + p@,
        BackupError::InvalidRelativePath(p) => "invalid backup-relative path: "@ + p@,
        BackupError::Checksum { path, expected, actual } => "backup checksum mismatch for "@ + path@ + ": expected "@
            + expected@ + ", got "@ + actual@,
        BackupError::Io(e) => "backup I/O: "@ + e@,
        BackupError::Manifest(e) => "backup manifest: "@ + e@,
        BackupError::HandoffPending => "a backup or restore handoff is already waiting for this app to quit"@,
        BackupError::Helper(e) => "could not start the offline backup/restore helper: "@ + e@,
        BackupError::InvalidRequest(e) => "backup/restore helper request is invalid: "@ + e@,
    }
}

impl BackupError {
    /// The error's text as the product shows it.
    pub fn message(&self) -> (r: String)
        ensures
            r@ == spec_backup_message(*self),
    {
        match self {
            BackupError::MissingSource(p) => concat2("backup source does not exist: ", p.as_str()),
            BackupError::DestinationExists(p) => concat2("backup destination must not already exist: ", p.as_str()),
            BackupError::DestinationInsideSource(p) => concat2("backup path is inside its source: ", p.as_str()),
            BackupError::InvalidRelativePath(p) => concat2("invalid backup-relative path: ", p.as_str()),
            BackupError::Checksum { path, expected, actual } => {
                let a = concat3("backup checksum mismatch for ", path.as_str(), ": expected ");
                let b = concat3(a.as_str(), expected.as_str(), ", got ");
                concat2(b.as_str(), actual.as_str())
            },
            BackupError::Io(e) => concat2("backup I/O: ", e.as_str()),
            BackupError::Manifest(e) => concat2("backup manifest: ", e.as_str()),
            BackupError::HandoffPending => String::from_str(
                "a backup or restore handoff is already waiting for this app to quit",
            ),
            BackupError::Helper(e) => concat2("could not start the offline backup/restore helper: ", e.as_str()),
            BackupError::InvalidRequest(e) => concat2("backup/restore helper request is invalid: ", e.as_str()),
        }
    }
}

// ---------------------------------------------------------------------------
// The helper request
// ---------------------------------------------------------------------------

/// The framed request: its length as four little-endian bytes, then the
/// serialized operation, refused over the protocol limit.
pub fn frame_request(request: &[u8]) -> (r: Result<Vec<u8>, BackupError>)
    ensures
        request@.len() > MAX_HELPER_REQUEST_BYTES ==> (r matches Err(BackupError::InvalidRequest(m)) && m@
            == "serialized request exceeds the protocol limit"@),
        request@.len() <= MAX_HELPER_REQUEST_BYTES ==> (r matches Ok(b) && b@ == le32(request@.len()) + request@),
{
    if request.len() > MAX_HELPER_REQUEST_BYTES {
        return Err(BackupError::InvalidRequest(String::from_str("serialized request exceeds the protocol limit")));
    }
    let n = request.len();
    let mut out: Vec<u8> = Vec::new();
    let l = n as u32;
    out.push((l % 256) as u8);
    out.push(((l / 256) % 256) as u8);
    out.push(((l / 65536) % 256) as u8);
    out.push(((l / 16777216) % 256) as u8);
    let ghost head = out@;
    assert(head =~= le32(n as nat));
    for i in 0..n
        invariant
            n == request@.len(),
            out@ == head + request@.subrange(0, i as int),
    {
        out.push(request[i]);
        proof {
            assert(out@ =~= head + request@.subrange(0, i + 1));
        }
    }
    proof {
        assert(request@.subrange(0, n as int) =~= request@);
    }
    Ok(out)
}

/// The request length announced by the four header bytes: refused when it
/// is zero or over the protocol limit, so the helper never allocates more.
pub fn request_length(header: &[u8]) -> (r: Result<usize, BackupError>)
    requires
        header@.len() == 4,
    ensures
        ({
            let n = header@[0] + 256 * header@[1] + 65536 * header@[2] + 16777216 * header@[3];
            &&& (1 <= n <= MAX_HELPER_REQUEST_BYTES) ==> r == Ok::<usize, BackupError>(n as usize)
            &&& !(1 <= n <= MAX_HELPER_REQUEST_BYTES) ==> (r matches Err(BackupError::InvalidRequest(m)) && m@
                == "request length "@ + decimal(n as nat) + " is outside the protocol limit"@)
        }),
{
    let n: u64 = header[0] as u64 + 256 * (header[1] as u64) + 65536 * (header[2] as u64) + 16777216 * (header[3] as u64);
    if n == 0 || n > MAX_HELPER_REQUEST_BYTES as u64 {
        let t = u64_text(n);
        return Err(BackupError::InvalidRequest(concat3("request length ", t.as_str(), " is outside the protocol limit")));
    }
    Ok(n as usize)
}

/// Nothing may follow the framed request before the pipe closes.
pub fn no_trailing_bytes(rest: &[u8]) -> (r: Result<(), BackupError>)
    ensures
        rest@.len() == 0 ==> r is Ok,
        rest@.len() > 0 ==> (r matches Err(BackupError::InvalidRequest(m)) && m@
            == "unexpected bytes followed the framed request"@),
{
    if rest.len() > 0 {
        return Err(BackupError::InvalidRequest(String::from_str("unexpected bytes followed the framed request")));
    }
    Ok(())
}

// ---------------------------------------------------------------------------
// Receipts and names
// ---------------------------------------------------------------------------

/// The receipt of a verified backup of `file_count` files.
pub fn backup_receipt(destination: &str, file_count: usize, completed_at: String) -> (r: OperationReceipt)
    ensures
        r.operation@ == "backup"@,
        r.succeeded,
        r.completed_at == completed_at,
        r.backup_path@ == destination@,
        r.rollback_path is None,
        r.detail@ == "Complete app-data backup verified ("@ + decimal(file_count as nat) + " files)."@,
{
    let n = u64_text(file_count as u64);
    OperationReceipt {
        operation: String::from_str("backup"),
        succeeded: true,
        completed_at,
        backup_path: String::from_str(destination),
        rollback_path: None,
        detail: concat3("Complete app-data backup verified (", n.as_str(), " files)."),
    }
}

/// The receipt of a verified restore that retained the previous app data.
pub fn restore_receipt(backup: &str, rollback: &str, file_count: usize, completed_at: String) -> (r: OperationReceipt)
    ensures
        r.operation@ == "restore"@,
        r.succeeded,
        r.completed_at == completed_at,
        r.backup_path@ == backup@,
        r.rollback_path matches Some(p) && p@ == rollback@,
        r.detail@ == "Backup restored and verified ("@ + decimal(file_count as nat)
            + " files). The previous app data was retained."@,
{
    let n = u64_text(file_count as u64);
    OperationReceipt {
        operation: String::from_str("restore"),
        succeeded: true,
        completed_at,
        backup_path: String::from_str(backup),
        rollback_path: Some(String::from_str(rollback)),
        detail: concat3("Backup restored and verified (", n.as_str(), " files). The previous app data was retained."),
    }
}

/// The receipt of an operation that failed, carrying the failure's text.
pub fn failure_receipt(operation: &OfflineOperation, completed_at: String, error: &BackupError) -> (r: OperationReceipt)
    ensures
        r.operation@ == spec_operation_name(*operation),
        !r.succeeded,
        r.completed_at == completed_at,
        r.backup_path@ == spec_backup_path(*operation),
        r.rollback_path is None,
        r.detail@ == spec_backup_message(*error),
{
    OperationReceipt {
        operation: String::from_str(operation.name()),
        succeeded: false,
        completed_at,
        backup_path: String::from_str(operation.backup_path()),
        rollback_path: None,
        detail: error.message(),
    }
}

/// A restore that failed before publication, after the previous app data
/// was reinstated.
pub fn restore_failed_reinstated(restore_error: &str, file_count: usize) -> (r: BackupError)
    ensures
        r matches BackupError::Helper(m) && m@ == "restore failed before publication and the previous app data was reinstated: "@
            + restore_error@ + "; verified backup contained "@ + decimal(file_count as nat) + " files"@,
{
    let n = u64_text(file_count as u64);
    let a = concat2("restore failed before publication and the previous app data was reinstated: ", restore_error);
    let b = concat3(a.as_str(), "; verified backup contained ", n.as_str());
    BackupError::Helper(concat2(b.as_str(), " files"))
}

/// A restore that failed and whose rollback directory could not be put back.
pub fn restore_failed_stranded(restore_error: &str, rollback: &str, rollback_error: &str) -> (r: BackupError)
    ensures
        r matches BackupError::Helper(m) && m@ == "restore failed ("@ + restore_error@ + "); rollback directory "@
            + rollback@ + " could not be reinstated: "@ + rollback_error@,
{
    let a = concat3("restore failed (", restore_error, "); rollback directory ");
    let b = concat3(a.as_str(), rollback, " could not be reinstated: ");
    BackupError::Helper(concat2(b.as_str(), rollback_error))
}

pub open spec fn app_data_name(name: Option<&str>) -> Seq<char> {
    match name {
        Some(n) => n@,
        None => "photoproof-app-data"@,
    }
}

/// The sibling name the previous app data is moved to during a restore.
pub fn rollback_name(name: Option<&str>, stamp_ms: i64, pid: u32) -> (r: String)
    ensures
        r@ == app_data_name(name) + ".pre-restore-"@ + signed_decimal(stamp_ms as int) + "-"@ + decimal(pid as nat),
{
    let base = match name {
        Some(n) => n,
        None => "photoproof-app-data",
    };
    let stamp = i64_text(stamp_ms);
    let p = u64_text(pid as u64);
    let a = concat3(base, ".pre-restore-", stamp.as_str());
    concat3(a.as_str(), "-", p.as_str())
}

/// The hidden sibling a restore is staged in before its atomic rename.
pub fn staging_name(name: Option<&str>, pid: u32) -> (r: String)
    ensures
        r@ == "."@ + app_data_name(name) + ".restore-"@ + decimal(pid as nat),
{
    let base = match name {
        Some(n) => n,
        None => "photoproof-app-data",
    };
    let p = u64_text(pid as u64);
    let a = concat3(".", base, ".restore-");
    concat2(a.as_str(), p.as_str())
}


// ---------------------------------------------------------------------------
// Relative paths
// ---------------------------------------------------------------------------

/// A `..` component of the path's bytes starts at `i`.
pub open spec fn parent_component_at(p: Seq<u8>, i: int) -> bool {
    &&& 0 <= i && i + 2 <= p.len()
    &&& p[i] == 0x2e && p[i + 1] == 0x2e
    &&& (i == 0 || p[i - 1] == 0x2f)
    &&& (i + 2 == p.len() || p[i + 2] == 0x2f)
}

/// A backup-relative path: non-empty, not rooted, not starting at the
/// current directory, and without a parent component, so that every
/// component names an entry below the backup root (POSIX separators).
pub open spec fn relative_ok(p: Seq<u8>) -> bool {
    &&& p.len() > 0
    &&& p[0] != 0x2f
    &&& !(p[0] == 0x2e && (p.len() == 1 || p[1] == 0x2f))
    &&& forall|i: int| !parent_component_at(p, i)
}

fn relative_bytes_ok(p: &[u8]) -> (r: bool)
    ensures
        r == relative_ok(p@),
{
    let n = p.len();
    if n == 0 || p[0] == 0x2f || (p[0] == 0x2e && (n == 1 || p[1] == 0x2f)) {
        return false;
    }
    let mut i: usize = 0;
    while i + 1 < n
        invariant
            n == p@.len(),
            i < n,
            forall|j: int| 0 <= j < i ==> !parent_component_at(p@, j),
        decreases n - i,
    {
        if p[i] == 0x2e && p[i + 1] == 0x2e && (i == 0 || p[i - 1] == 0x2f) && (i + 2 == n || p[i + 2] == 0x2f) {
            assert(parent_component_at(p@, i as int));
            return false;
        }
        i += 1;
    }
    assert forall|j: int| !parent_component_at(p@, j) by {
        if 0 <= j < i {
        } else {
            assert(!(0 <= j && j + 2 <= p@.len()) || j < i);
        }
    }
    true
}

/// Refuses any path that could escape the backup root.
pub fn validate_relative(path: &str) -> (r: Result<(), BackupError>)
    ensures
        relative_ok(path.spec_bytes()) ==> r is Ok,
        !relative_ok(path.spec_bytes()) ==> (r matches Err(BackupError::InvalidRelativePath(p)) && p@ == path@),
{
    if relative_bytes_ok(path.as_bytes()) {
        Ok(())
    } else {
        Err(BackupError::InvalidRelativePath(String::from_str(path)))
    }
}

// ---------------------------------------------------------------------------
// Digests
// ---------------------------------------------------------------------------

/// The BLAKE3 digest of some bytes, in lowercase hexadecimal.
pub uninterp spec fn blake3_hex(data: Seq<u8>) -> Seq<char>;

pub open spec fn lower_hex_char(c: char) -> bool {
    ('0' <= c && c <= '9') || ('a' <= c && c <= 'f')
}

/// blake3::hash rendered by Hash::to_hex and owned: the digest named
/// `blake3_hex` of exactly these bytes, which to_hex writes as 64
/// characters from 0-9a-f.
#[verifier::external_body]
fn blake3_hex_of(data: &[u8]) -> (r: String)
    ensures
        r@ == blake3_hex(data@),
        r@.len() == 64,
        forall|i: int| 0 <= i < r@.len() ==> lower_hex_char(#[trigger] r@[i]),
{
    blake3::hash(data).to_hex().to_string()
}

/// A file's length and digest.
#[derive(Debug, Clone, PartialEq, Eq)]
pub struct FileDigest {
    pub bytes: u64,
    pub blake3: String,
}

/// The length and BLAKE3 digest of a file's contents.
pub fn digest(contents: &[u8]) -> (r: FileDigest)
    ensures
        r.bytes == contents@.len(),
        r.blake3@ == blake3_hex(contents@),
        r.blake3@.len() == 64,
{
    FileDigest { bytes: contents.len() as u64, blake3: blake3_hex_of(contents) }
}

/// What reading one listed file gave.
#[derive(Debug, Clone)]
pub enum FileObservation {
    Read(FileDigest),
    Unreadable(String),
}

pub open spec fn digest_text(bytes: u64, hash: Seq<char>) -> Seq<char> {
    decimal(bytes as nat) + " bytes / "@ + hash
}

/// A listed file was read whole and matches its length and digest.
pub open spec fn file_matches(f: BackupFile, o: FileObservation) -> bool {
    o matches FileObservation::Read(d) && d.bytes == f.bytes && d.blake3@ == f.blake3@
}

/// The error a file that does not match reports.
pub open spec fn file_error_is(e: BackupError, f: BackupFile, o: FileObservation) -> bool {
    match o {
        FileObservation::Unreadable(x) => e matches BackupError::Io(m) && m == x,
        FileObservation::Read(d) => e matches BackupError::Checksum { path, expected, actual } && path@ == f.path@
            && expected@ == digest_text(f.bytes, f.blake3@) && actual@ == digest_text(d.bytes, d.blake3@),
    }
}

fn check_file(f: &BackupFile, o: &FileObservation) -> (r: Result<(), BackupError>)
    ensures
        r is Ok <==> file_matches(*f, *o),
        r matches Err(e) ==> file_error_is(e, *f, *o),
{
    match o {
        FileObservation::Unreadable(x) => Err(BackupError::Io(x.clone())),
        FileObservation::Read(d) => {
            if d.bytes != f.bytes || !str_eq(d.blake3.as_str(), f.blake3.as_str()) {
                let eb = u64_text(f.bytes);
                let expected = concat3(eb.as_str(), " bytes / ", f.blake3.as_str());
                let ab = u64_text(d.bytes);
                let actual = concat3(ab.as_str(), " bytes / ", d.blake3.as_str());
                Err(BackupError::Checksum { path: f.path.clone(), expected, actual })
            } else {
                Ok(())
            }
        },
    }
}

/// Every restored file matches its manifest entry; the first that does not
/// is reported, in manifest order. `observed[i]` is what reading the
/// restored copy of the manifest's file `i` gave.
pub fn verify_restored_files(manifest: &BackupManifest, observed: &Vec<FileObservation>) -> (r: Result<(), BackupError>)
    requires
        observed@.len() == manifest.files@.len(),
    ensures
        r is Ok <==> forall|i: int| 0 <= i < observed@.len() ==> file_matches(
            #[trigger] manifest.files@[i],
            observed@[i],
        ),
        forall|i: int|
            0 <= i < observed@.len() && !file_matches(#[trigger] manifest.files@[i], observed@[i]) && (forall|j: int|
                0 <= j < i ==> file_matches(#[trigger] manifest.files@[j], observed@[j])) ==> (r matches Err(e)
                && file_error_is(e, manifest.files@[i], observed@[i])),
{
    let n = observed.len();
    for i in 0..n
        invariant
            n == observed@.len(),
            n == manifest.files@.len(),
            forall|j: int| 0 <= j < i ==> file_matches(#[trigger] manifest.files@[j], observed@[j]),
    {
        match check_file(&manifest.files[i], &observed[i]) {
            Ok(()) => {},
            Err(e) => {
                proof {
                    assert forall|k: int|
                        0 <= k < observed@.len() && !file_matches(#[trigger] manifest.files@[k], observed@[k]) && (
                        forall|j: int| 0 <= j < k ==> file_matches(#[trigger] manifest.files@[j], observed@[j])) implies k
                        == i by {
                        if k < i {
                        } else if k > i {
                            assert(file_matches(manifest.files@[i as int], observed@[i as int]) == false);
                        }
                    }
                }
                return Err(e);
            },
        }
    }
    Ok(())
}

// ---------------------------------------------------------------------------
// Whole-backup verification
// ---------------------------------------------------------------------------

/// How often `x` occurs in `s`.
pub open spec fn occurrences(s: Seq<String>, x: Seq<char>) -> nat
    decreases s.len(),
{
    if s.len() == 0 {
        0
    } else {
        occurrences(s.drop_last(), x) + if s.last()@ == x { 1nat } else { 0nat }
    }
}

/// The two lists hold the same paths, each as often: equal lengths, and
/// every path of the first occurs in the second as often as in the first.
pub open spec fn same_paths(listed: Seq<String>, actual: Seq<String>) -> bool {
    &&& listed.len() == actual.len()
    &&& forall|i: int| 0 <= i < listed.len() ==> occurrences(listed, (#[trigger] listed[i])@) == occurrences(
        actual,
        listed[i]@,
    )
}

fn count_of(s: &Vec<String>, x: &str) -> (c: usize)
    ensures
        c == occurrences(s@, x@),
{
    let mut c: usize = 0;
    let n = s.len();
    for j in 0..n
        invariant
            n == s@.len(),
            c == occurrences(s@.subrange(0, j as int), x@),
            c <= j,
    {
        proof {
            assert(s@.subrange(0, j + 1).drop_last() =~= s@.subrange(0, j as int));
        }
        if str_eq(s[j].as_str(), x) {
            c += 1;
        }
    }
    proof {
        assert(s@.subrange(0, n as int) =~= s@);
    }
    c
}

fn same_path_lists(listed: &Vec<String>, actual: &Vec<String>) -> (r: bool)
    ensures
        r == same_paths(listed@, actual@),
{
    if listed.len() != actual.len() {
        return false;
    }
    let n = listed.len();
    for i in 0..n
        invariant
            n == listed@.len(),
            n == actual@.len(),
            forall|k: int| 0 <= k < i ==> occurrences(listed@, (#[trigger] listed@[k])@) == occurrences(
                actual@,
                listed@[k]@,
            ),
    {
        let x = listed[i].as_str();
        if count_of(listed, x) != count_of(actual, x) {
            return false;
        }
    }
    true
}

/// The payload directory as the caller walked it.
#[derive(Debug, Clone)]
pub enum PayloadListing {
    /// Every regular file below the payload root, backup-relative.
    Files(Vec<String>),
    /// A symbolic link was found at this backup-relative path.
    Symlink(String),
    /// The walk failed with this I/O error.
    Unreadable(String),
}

/// A listed file passes: its path stays below the backup root and its
/// copy matches its length and digest.
pub open spec fn listed_file_ok(f: BackupFile, o: FileObservation) -> bool {
    relative_ok(encode_utf8(f.path@)) && file_matches(f, o)
}

/// The error a listed file that does not pass reports.
pub open spec fn listed_file_error_is(e: BackupError, f: BackupFile, o: FileObservation) -> bool {
    if !relative_ok(encode_utf8(f.path@)) {
        e matches BackupError::InvalidRelativePath(p) && p@ == f.path@
    } else {
        file_error_is(e, f, o)
    }
}

pub open spec fn manifest_header_ok(m: BackupManifest) -> bool {
    m.format@ == "photoproof-app-data-backup"@ && m.version == 1
}

pub open spec fn manifest_paths(m: BackupManifest) -> Seq<String> {
    m.files@.map_values(|f: BackupFile| f.path)
}

/// A backup is sound: a supported manifest, every listed file below the root
/// and matching its checksum, and a payload holding exactly the listed files.
/// The first failure is reported: the manifest's format, then each listed
/// file in order, then the payload walk, then the payload's contents.
/// `observed[i]` is what reading the payload copy of listed file `i` gave.
pub fn verify_manifest(manifest: &BackupManifest, observed: &Vec<FileObservation>, payload: &PayloadListing) -> (r: Result<(), BackupError>)
    requires
        observed@.len() == manifest.files@.len(),
    ensures
        !manifest_header_ok(*manifest) ==> (r matches Err(BackupError::Manifest(m)) && m@
            == "unsupported backup format/version"@),
        manifest_header_ok(*manifest) ==> {
            &&& forall|i: int|
                0 <= i < observed@.len() && !listed_file_ok(#[trigger] manifest.files@[i], observed@[i]) && (forall|j: int|
                    0 <= j < i ==> listed_file_ok(#[trigger] manifest.files@[j], observed@[j])) ==> (r matches Err(e)
                    && listed_file_error_is(e, manifest.files@[i], observed@[i]))
            &&& (forall|j: int| 0 <= j < observed@.len() ==> listed_file_ok(#[trigger] manifest.files@[j], observed@[j]))
                ==> match *payload {
                PayloadListing::Symlink(p) => r matches Err(BackupError::InvalidRelativePath(q)) && q == p,
                PayloadListing::Unreadable(x) => r matches Err(BackupError::Io(q)) && q == x,
                PayloadListing::Files(list) => if same_paths(manifest_paths(*manifest), list@) {
                    r is Ok
                } else {
                    r matches Err(BackupError::Manifest(m)) && m@ == "payload contains missing or unmanifested files"@
                },
            }
        },
{
    if !str_eq(manifest.format.as_str(), "photoproof-app-data-backup") || manifest.version != 1 {
        return Err(BackupError::Manifest(String::from_str("unsupported backup format/version")));
    }
    let n = observed.len();
    let mut listed: Vec<String> = Vec::new();
    for i in 0..n
        invariant
            n == observed@.len(),
            n == manifest.files@.len(),
            manifest_header_ok(*manifest),
            listed@ == manifest_paths(*manifest).subrange(0, i as int),
            forall|j: int| 0 <= j < i ==> listed_file_ok(#[trigger] manifest.files@[j], observed@[j]),
    {
        let f = &manifest.files[i];
        match validate_relative(f.path.as_str()) {
            Ok(()) => {},
            Err(e) => {
                proof {
                    assert forall|k: int|
                        0 <= k < observed@.len() && !listed_file_ok(#[trigger] manifest.files@[k], observed@[k]) && (
                        forall|j: int| 0 <= j < k ==> listed_file_ok(#[trigger] manifest.files@[j], observed@[j])) implies k
                        == i by {
                        if k > i {
                            assert(!listed_file_ok(manifest.files@[i as int], observed@[i as int]));
                        }
                    }
                }
                return Err(e);
            },
        }
        match check_file(f, &observed[i]) {
            Ok(()) => {},
            Err(e) => {
                proof {
                    assert forall|k: int|
                        0 <= k < observed@.len() && !listed_file_ok(#[trigger] manifest.files@[k], observed@[k]) && (
                        forall|j: int| 0 <= j < k ==> listed_file_ok(#[trigger] manifest.files@[j], observed@[j])) implies k
                        == i by {
                        if k > i {
                            assert(!listed_file_ok(manifest.files@[i as int], observed@[i as int]));
                        }
                    }
                }
                return Err(e);
            },
        }
        listed.push(f.path.clone());
        proof {
            assert(listed@ =~= manifest_paths(*manifest).subrange(0, i + 1));
        }
    }
    proof {
        assert(manifest_paths(*manifest).subrange(0, n as int) =~= manifest_paths(*manifest));
    }
    match payload {
        PayloadListing::Symlink(p) => Err(BackupError::InvalidRelativePath(p.clone())),
        PayloadListing::Unreadable(x) => Err(BackupError::Io(x.clone())),
        PayloadListing::Files(list) => {
            if same_path_lists(&listed, list) {
                Ok(())
            } else {
                Err(BackupError::Manifest(String::from_str("payload contains missing or unmanifested files")))
            }
        },
    }
}


// ---------------------------------------------------------------------------
// Validating an operation
// ---------------------------------------------------------------------------

/// `path` lies at or below `base`, comparing whole components, for
/// normalized paths as canonicalization returns them (no `.` or `..`
/// components, no repeated or trailing separators).
pub open spec fn within(path: Seq<char>, base: Seq<char>) -> bool {
    ||| path == base
    ||| (base.len() > 0 && path.len() > base.len() && path.subrange(0, base.len() as int) == base && (base.last() == '/'
        || path[base.len() as int] == '/'))
}

pub fn path_within(path: &str, base: &str) -> (r: bool)
    ensures
        r == within(path@, base@),
{
    let pn = path.unicode_len();
    let bn = base.unicode_len();
    if str_eq(path, base) {
        return true;
    }
    if bn == 0 || pn <= bn {
        return false;
    }
    let mut i: usize = 0;
    while i < bn
        invariant
            pn == path@.len(),
            bn == base@.len(),
            bn < pn,
            i <= bn,
            forall|j: int| 0 <= j < i ==> path@[j] == base@[j],
        decreases bn - i,
    {
        if path.get_char(i) != base.get_char(i) {
            proof {
                assert(path@.subrange(0, bn as int)[i as int] != base@[i as int]);
            }
            return false;
        }
        i += 1;
    }
    proof {
        assert(path@.subrange(0, bn as int) =~= base@);
    }
    base.get_char(bn - 1) == '/' || path.get_char(bn) == '/'
}

pub fn clone_backup_error(e: &BackupError) -> (r: BackupError)
    ensures
        r == *e,
{
    match e {
        BackupError::MissingSource(p) => BackupError::MissingSource(p.clone()),
        BackupError::DestinationExists(p) => BackupError::DestinationExists(p.clone()),
        BackupError::DestinationInsideSource(p) => BackupError::DestinationInsideSource(p.clone()),
        BackupError::InvalidRelativePath(p) => BackupError::InvalidRelativePath(p.clone()),
        BackupError::Checksum { path, expected, actual } => BackupError::Checksum {
            path: path.clone(),
            expected: expected.clone(),
            actual: actual.clone(),
        },
        BackupError::Io(x) => BackupError::Io(x.clone()),
        BackupError::Manifest(x) => BackupError::Manifest(x.clone()),
        BackupError::HandoffPending => BackupError::HandoffPending,
        BackupError::Helper(x) => BackupError::Helper(x.clone()),
        BackupError::InvalidRequest(x) => BackupError::InvalidRequest(x.clone()),
    }
}

/// What the file system said about the paths of an operation.
#[derive(Debug)]
pub struct OperationFacts {
    pub app_data_absolute: bool,
    pub app_data_is_dir: bool,
    /// The destination (backup) or the backup (restore) is absolute.
    pub target_absolute: bool,
    /// A backup's destination already exists.
    pub target_exists: bool,
    /// A restore's backup is an existing directory.
    pub target_is_dir: bool,
    /// The app-data directory, canonicalized, or why it could not be.
    pub source_canonical: Result<String, String>,
    /// The destination's nearest existing ancestor, canonicalized, or the
    /// error of looking for it.
    pub nearest_canonical: Result<String, BackupError>,
    /// Why a restore's backup failed verification, if it did.
    pub backup_failure: Option<BackupError>,
}

/// `r` is what checking `op` against `facts` gives: the first failing
/// check's error, or success.
pub open spec fn operation_check_is(op: OfflineOperation, facts: OperationFacts, r: Result<(), BackupError>) -> bool {
    &&& !(facts.app_data_absolute && facts.app_data_is_dir) ==> (r matches Err(BackupError::InvalidRequest(m)) && m@
            == "app-data path is not an existing absolute directory: "@ + spec_app_data(op))
    &&& (facts.app_data_absolute && facts.app_data_is_dir) ==> match op {
            OfflineOperation::Backup { destination, .. } => if !facts.target_absolute {
                r matches Err(BackupError::InvalidRequest(m)) && m@ == "backup destination is not absolute"@
            } else if facts.target_exists {
                r matches Err(BackupError::DestinationExists(p)) && p == destination
            } else {
                match facts.source_canonical {
                    Err(x) => r matches Err(BackupError::Io(m)) && m == x,
                    Ok(source) => match facts.nearest_canonical {
                        Err(e) => r == Err::<(), BackupError>(e),
                        Ok(nearest) => if within(nearest@, source@) {
                            r matches Err(BackupError::DestinationInsideSource(p)) && p == destination
                        } else {
                            r is Ok
                        },
                    },
                }
            },
            OfflineOperation::Restore { backup, .. } => if !(facts.target_absolute && facts.target_is_dir) {
                r matches Err(BackupError::InvalidRequest(m)) && m@ == "backup is not an existing absolute directory: "@
                    + backup@
            } else {
                match facts.backup_failure {
                    None => r is Ok,
                    Some(e) => r == Err::<(), BackupError>(e),
                }
            },
        }
}

/// An operation the helper may perform: an existing absolute app-data
/// directory; for a backup, an absolute destination that does not exist
/// and is not inside the app data; for a restore, an existing absolute
/// backup that verifies. The first failing check is reported.
pub fn validate_operation(operation: &OfflineOperation, facts: &OperationFacts) -> (r: Result<(), BackupError>)
    ensures
        operation_check_is(*operation, *facts, r),
{
    if !facts.app_data_absolute || !facts.app_data_is_dir {
        return Err(BackupError::InvalidRequest(concat2(
            "app-data path is not an existing absolute directory: ",
            operation.app_data(),
        )));
    }
    match operation {
        OfflineOperation::Backup { destination, .. } => {
            if !facts.target_absolute {
                return Err(BackupError::InvalidRequest(String::from_str("backup destination is not absolute")));
            }
            if facts.target_exists {
                return Err(BackupError::DestinationExists(destination.clone()));
            }
            let source = match &facts.source_canonical {
                Ok(s) => s,
                Err(x) => return Err(BackupError::Io(x.clone())),
            };
            let nearest = match &facts.nearest_canonical {
                Ok(n) => n,
                Err(e) => return Err(clone_backup_error(e)),
            };
            if path_within(nearest.as_str(), source.as_str()) {
                return Err(BackupError::DestinationInsideSource(destination.clone()));
            }
            Ok(())
        },
        OfflineOperation::Restore { backup, .. } => {
            if !facts.target_absolute || !facts.target_is_dir {
                return Err(BackupError::InvalidRequest(concat2(
                    "backup is not an existing absolute directory: ",
                    backup.as_str(),
                )));
            }
            match &facts.backup_failure {
                None => Ok(()),
                Some(e) => Err(clone_backup_error(e)),
            }
        },
    }
}

/// Whether the helper may be started for `operation` now: the operation
/// must pass its checks, and no earlier handoff may still be waiting for
/// this process to exit (at most one per process).
pub fn arm_helper(operation: &OfflineOperation, facts: &OperationFacts, handoff_waiting: bool) -> (r: Result<
    (),
    BackupError,
>)
    ensures
        !handoff_waiting ==> operation_check_is(*operation, *facts, r),
        (handoff_waiting && operation_check_is(*operation, *facts, Ok(()))) ==> r == Err::<(), BackupError>(
            BackupError::HandoffPending,
        ),
        (handoff_waiting && !operation_check_is(*operation, *facts, Ok(()))) ==> r is Err && operation_check_is(
            *operation,
            *facts,
            r,
        ),
{
    let checked = validate_operation(operation, facts);
    match checked {
        Err(e) => Err(e),
        Ok(()) => if handoff_waiting {
            Err(BackupError::HandoffPending)
        } else {
            Ok(())
        },
    }
}

/// The first argument that starts this executable as the offline helper.
pub open spec fn helper_arg() -> Seq<char> {
    "--photoproof-backup-helper"@
}

/// The first argument that starts the helper's acceptance run.
pub open spec fn helper_smoke_arg() -> Seq<char> {
    "--photoproof-backup-helper-smoke"@
}

/// The argument that starts the offline helper.
pub fn offline_helper_arg() -> (r: &'static str)
    ensures
        r@ == helper_arg(),
{
    "--photoproof-backup-helper"
}

/// The argument that starts the helper's acceptance run.
pub fn offline_helper_smoke_arg() -> (r: &'static str)
    ensures
        r@ == helper_smoke_arg(),
{
    "--photoproof-backup-helper-smoke"
}

/// Whether the process's first argument asks for the offline helper.
pub fn is_offline_helper_arg(arg: Option<&str>) -> (r: bool)
    ensures
        r == (arg matches Some(a) && a@ == helper_arg()),
{
    match arg {
        Some(a) => str_eq(a, offline_helper_arg()),
        None => false,
    }
}

/// Whether the process's first argument asks for the helper's acceptance
/// run.
pub fn is_offline_helper_smoke_arg(arg: Option<&str>) -> (r: bool)
    ensures
        r == (arg matches Some(a) && a@ == helper_smoke_arg()),
{
    match arg {
        Some(a) => str_eq(a, offline_helper_smoke_arg()),
        None => false,
    }
}


/// The manifest of a new backup: the current format and version over the
/// copied files, in the order they were copied.
pub fn new_manifest(files: Vec<BackupFile>) -> (r: BackupManifest)
    ensures
        manifest_header_ok(r),
        r.files == files,
{
    BackupManifest { format: String::from_str("photoproof-app-data-backup"), version: 1, files }
}

} // verus!
