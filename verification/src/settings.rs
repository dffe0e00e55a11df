//! The user's shell settings and the one rule every settings command
//! follows: a change is persisted before it is published, so a failed write
//! never leaves this launch showing a value that would revert on restart.
use vstd::prelude::*;
use crate::health::copy_opt;
use crate::text::{concat3, str_eq};
use crate::os::CmdError;

verus! {

/// Which file of a stacked RAW+JPEG pair the grid shows.
#[derive(Debug, Clone, Copy, PartialEq, Eq, Structural)]
pub enum StackDisplay {
    Jpeg,
    Raw,
}

/// How hard background processing may work.
#[derive(Debug, Clone, Copy, PartialEq, Eq, Structural)]
pub enum ProcessingIntensity {
    Low,
    Balanced,
    High,
}

/// What happens to a newly added folder.
#[derive(Debug, Clone, Copy, PartialEq, Eq, Structural)]
pub enum NewRootPolicy {
    ProcessNow,
    ProcessLater,
    PreviewOnly,
}

#[derive(Debug, Clone, PartialEq, Eq)]
pub struct AppSettings {
    pub stack_display: StackDisplay,
    pub external_editor: Option<String>,
    pub last_export_ts: Option<String>,
    pub processing_intensity: ProcessingIntensity,
    pub processing_paused: bool,
    pub new_root_policy: NewRootPolicy,
    pub defer_text_embeddings: bool,
    pub defer_image_embeddings: bool,
    /// The processing policy each root was added with, by root id.
    pub root_processing_policies: Vec<(String, NewRootPolicy)>,
    /// The most the 1:1 preview cache may hold, in bytes.
    pub preview_cache_budget_bytes: u64,
}

/// The 1:1 preview cache budget a fresh installation starts with.
pub const DEFAULT_PREVIEW_CACHE_BUDGET_BYTES: u64 = 2147483648;

/// The settings as values: text as characters, the root policies as
/// pairs of root id and policy.
pub struct SettingsView {
    pub stack_display: StackDisplay,
    pub external_editor: Option<Seq<char>>,
    pub last_export_ts: Option<Seq<char>>,
    pub processing_intensity: ProcessingIntensity,
    pub processing_paused: bool,
    pub new_root_policy: NewRootPolicy,
    pub defer_text_embeddings: bool,
    pub defer_image_embeddings: bool,
    pub root_processing_policies: Seq<(Seq<char>, NewRootPolicy)>,
    pub preview_cache_budget_bytes: u64,
}

pub open spec fn text_view(o: Option<String>) -> Option<Seq<char>> {
    match o {
        Some(s) => Some(s@),
        None => None,
    }
}

impl View for AppSettings {
    type V = SettingsView;

    open spec fn view(&self) -> SettingsView {
        SettingsView {
            stack_display: self.stack_display,
            external_editor: text_view(self.external_editor),
            last_export_ts: text_view(self.last_export_ts),
            processing_intensity: self.processing_intensity,
            processing_paused: self.processing_paused,
            new_root_policy: self.new_root_policy,
            defer_text_embeddings: self.defer_text_embeddings,
            defer_image_embeddings: self.defer_image_embeddings,
            root_processing_policies: policy_view(self.root_processing_policies@),
            preview_cache_budget_bytes: self.preview_cache_budget_bytes,
        }
    }
}

impl Default for AppSettings {
    fn default() -> (r: Self)
        ensures
            r.stack_display == StackDisplay::Jpeg,
            r.external_editor is None,
            r.last_export_ts is None,
            r.processing_intensity == ProcessingIntensity::Balanced,
            !r.processing_paused,
            r.new_root_policy == NewRootPolicy::ProcessNow,
            !r.defer_text_embeddings,
            !r.defer_image_embeddings,
            r.root_processing_policies@.len() == 0,
            r.preview_cache_budget_bytes == DEFAULT_PREVIEW_CACHE_BUDGET_BYTES,
    {
        AppSettings {
            stack_display: StackDisplay::Jpeg,
            external_editor: None,
            last_export_ts: None,
            processing_intensity: ProcessingIntensity::Balanced,
            processing_paused: false,
            new_root_policy: NewRootPolicy::ProcessNow,
            defer_text_embeddings: false,
            defer_image_embeddings: false,
            root_processing_policies: Vec::new(),
            preview_cache_budget_bytes: DEFAULT_PREVIEW_CACHE_BUDGET_BYTES,
        }
    }
}

impl AppSettings {
    pub fn clone_settings(&self) -> (r: AppSettings)
        ensures
            r@ == self@,
    {
        AppSettings {
            stack_display: self.stack_display,
            external_editor: copy_opt(&self.external_editor),
            last_export_ts: copy_opt(&self.last_export_ts),
            processing_intensity: self.processing_intensity,
            processing_paused: self.processing_paused,
            new_root_policy: self.new_root_policy,
            defer_text_embeddings: self.defer_text_embeddings,
            defer_image_embeddings: self.defer_image_embeddings,
            root_processing_policies: copy_policies(&self.root_processing_policies),
            preview_cache_budget_bytes: self.preview_cache_budget_bytes,
        }
    }
}

fn copy_policies(v: &Vec<(String, NewRootPolicy)>) -> (r: Vec<(String, NewRootPolicy)>)
    ensures
        r@ == v@,
{
    let mut r: Vec<(String, NewRootPolicy)> = Vec::new();
    let n = v.len();
    for i in 0..n
        invariant
            n == v@.len(),
            r@ == v@.subrange(0, i as int),
    {
        let e = &v[i];
        r.push((e.0.clone(), e.1));
        proof {
            assert(r@ =~= v@.subrange(0, i + 1));
        }
    }
    proof {
        assert(v@.subrange(0, n as int) =~= v@);
    }
    r
}

/// The root policies as plain text keys.
pub open spec fn policy_view(s: Seq<(String, NewRootPolicy)>) -> Seq<(Seq<char>, NewRootPolicy)> {
    s.map_values(|e: (String, NewRootPolicy)| (e.0@, e.1))
}

pub open spec fn other_root(k: Seq<char>) -> spec_fn((Seq<char>, NewRootPolicy)) -> bool {
    |e: (Seq<char>, NewRootPolicy)| e.0 != k
}

/// The policies after `root` is given `policy` (or loses its policy):
/// every other root keeps its entry in order, and the root's entry, if any,
/// comes last.
pub open spec fn policies_after(
    before: Seq<(Seq<char>, NewRootPolicy)>,
    root: Seq<char>,
    policy: Option<NewRootPolicy>,
) -> Seq<(Seq<char>, NewRootPolicy)> {
    before.filter(other_root(root)) + match policy {
        Some(p) => seq![(root, p)],
        None => seq![],
    }
}

/// One change a settings command makes.
#[derive(Debug, Clone)]
pub enum SettingsChange {
    StackDisplay(StackDisplay),
    /// The editor as typed; blank text clears it.
    ExternalEditor(String),
    ProcessingPolicy {
        intensity: ProcessingIntensity,
        paused: bool,
        new_root_policy: NewRootPolicy,
        defer_text_embeddings: bool,
        defer_image_embeddings: bool,
    },
    LastExport(String),
    /// Record the policy a root is processed with, or forget it (`None`).
    RootPolicy { root_id: String, policy: Option<NewRootPolicy> },
    /// The 1:1 preview cache budget, in bytes.
    PreviewCacheBudget(u64),
}

/// A character with the Unicode White_Space property, as `char::is_whitespace` tests it.
pub open spec fn is_blank(c: char) -> bool {
    ||| ('\u{9}' <= c && c <= '\u{d}')
    ||| c == ' '
    ||| c == '\u{85}'
    ||| c == '\u{a0}'
    ||| c == '\u{1680}'
    ||| ('\u{2000}' <= c && c <= '\u{200a}')
    ||| c == '\u{2028}'
    ||| c == '\u{2029}'
    ||| c == '\u{202f}'
    ||| c == '\u{205f}'
    ||| c == '\u{3000}'
}

fn blank(c: char) -> (r: bool)
    ensures
        r == is_blank(c),
{
    ('\u{9}' <= c && c <= '\u{d}') || c == ' ' || c == '\u{85}' || c == '\u{a0}' || c == '\u{1680}' || ('\u{2000}' <= c
        && c <= '\u{200a}') || c == '\u{2028}' || c == '\u{2029}' || c == '\u{202f}' || c == '\u{205f}' || c == '\u{3000}'
}

/// The settings a change leaves; an editor text is kept as typed unless it
/// is all ASCII whitespace, which clears the editor.
pub open spec fn changed_is(before: SettingsView, change: SettingsChange, after: SettingsView) -> bool {
    match change {
        SettingsChange::StackDisplay(d) => after == (SettingsView { stack_display: d, ..before }),
        SettingsChange::ExternalEditor(e) => {
            &&& after == (SettingsView { external_editor: after.external_editor, ..before })
            &&& if forall|i: int| 0 <= i < e@.len() ==> is_blank(#[trigger] e@[i]) {
                after.external_editor is None
            } else {
                after.external_editor == Some(trim_blank(e@))
            }
        },
        SettingsChange::ProcessingPolicy {
            intensity,
            paused,
            new_root_policy,
            defer_text_embeddings,
            defer_image_embeddings,
        } => after == (SettingsView {
            processing_intensity: intensity,
            processing_paused: paused,
            new_root_policy,
            defer_text_embeddings,
            defer_image_embeddings,
            ..before
        }),
        SettingsChange::LastExport(ts) => after == (SettingsView { last_export_ts: Some(ts@), ..before }),
        SettingsChange::RootPolicy { root_id, policy } => after == (SettingsView {
            root_processing_policies: policies_after(before.root_processing_policies, root_id@, policy),
            ..before
        }),
        SettingsChange::PreviewCacheBudget(b) => after == (SettingsView { preview_cache_budget_bytes: b, ..before }),
    }
}

fn updated_policies(v: &Vec<(String, NewRootPolicy)>, root_id: String, policy: Option<NewRootPolicy>) -> (r: Vec<(String, NewRootPolicy)>)
    ensures
        policy_view(r@) == policies_after(policy_view(v@), root_id@, policy),
{
    let mut r: Vec<(String, NewRootPolicy)> = Vec::new();
    let n = v.len();
    let ghost pv = policy_view(v@);
    for i in 0..n
        invariant
            n == v@.len(),
            pv == policy_view(v@),
            policy_view(r@) == pv.subrange(0, i as int).filter(other_root(root_id@)),
    {
        let e = &v[i];
        proof {
            let pre = pv.subrange(0, i as int);
            assert(pv.subrange(0, i + 1) =~= pre.push(pv[i as int]));
            pre.lemma_filter_push(pv[i as int], other_root(root_id@));
        }
        if !str_eq(e.0.as_str(), root_id.as_str()) {
            let ghost before = r@;
            r.push((e.0.clone(), e.1));
            proof {
                assert(policy_view(r@) =~= policy_view(before).push((e.0@, e.1)));
            }
        }
    }
    proof {
        assert(pv.subrange(0, n as int) =~= pv);
    }
    match policy {
        Some(p) => {
            let ghost before = r@;
            let ghost k = root_id@;
            r.push((root_id, p));
            proof {
                assert(policy_view(r@) =~= policy_view(before) + seq![(k, p)]);
            }
        },
        None => {
            proof {
                assert(policy_view(r@) =~= policy_view(r@) + seq![]);
            }
        },
    }
    r
}

/// Leading and trailing blanks removed.
pub open spec fn trim_blank(s: Seq<char>) -> Seq<char>
    decreases s.len(),
{
    if s.len() == 0 {
        s
    } else if is_blank(s[0]) {
        trim_blank(s.subrange(1, s.len() as int))
    } else if is_blank(s.last()) {
        trim_blank(s.drop_last())
    } else {
        s
    }
}

proof fn lemma_trim_empty(s: Seq<char>)
    ensures
        (trim_blank(s).len() == 0) == (forall|i: int| 0 <= i < s.len() ==> is_blank(#[trigger] s[i])),
    decreases s.len(),
{
    if s.len() > 0 {
        if is_blank(s[0]) {
            let t = s.subrange(1, s.len() as int);
            lemma_trim_empty(t);
            if forall|i: int| 0 <= i < t.len() ==> is_blank(#[trigger] t[i]) {
                assert forall|i: int| 0 <= i < s.len() implies is_blank(#[trigger] s[i]) by {
                    if i > 0 {
                        assert(s[i] == t[i - 1]);
                    }
                }
            } else {
                let j = choose|j: int| 0 <= j < t.len() && !is_blank(#[trigger] t[j]);
                assert(s[j + 1] == t[j]);
            }
        } else if is_blank(s.last()) {
            let t = s.drop_last();
            lemma_trim_empty(t);
            assert(!is_blank(s[0]));
            assert(t[0] == s[0]);
        } else {
        }
    }
}

fn trimmed(s: &str) -> (r: String)
    ensures
        r@ == trim_blank(s@),
{
    let n = s.unicode_len();
    let mut start: usize = 0;
    assert(s@.subrange(0, n as int) =~= s@);
    while start < n
        invariant
            n == s@.len(),
            start <= n,
            trim_blank(s@) == trim_blank(s@.subrange(start as int, n as int)),
        ensures
            start <= n,
            trim_blank(s@) == trim_blank(s@.subrange(start as int, n as int)),
            start < n ==> !is_blank(s@[start as int]),
        decreases n - start,
    {
        if !blank(s.get_char(start)) {
            break;
        }
        proof {
            let t = s@.subrange(start as int, n as int);
            assert(t.subrange(1, t.len() as int) =~= s@.subrange(start + 1, n as int));
        }
        start += 1;
    }
    let mut end: usize = n;
    while end > start
        invariant
            n == s@.len(),
            start <= end <= n,
            start < n ==> !is_blank(s@[start as int]),
            trim_blank(s@) == trim_blank(s@.subrange(start as int, end as int)),
        ensures
            start <= end <= n,
            trim_blank(s@) == trim_blank(s@.subrange(start as int, end as int)),
            start < end ==> !is_blank(s@[start as int]) && !is_blank(s@[end - 1]),
        decreases end - start,
    {
        if !blank(s.get_char(end - 1)) {
            break;
        }
        proof {
            let t = s@.subrange(start as int, end as int);
            assert(!is_blank(t[0]));
            assert(t.drop_last() =~= s@.subrange(start as int, end - 1));
        }
        end -= 1;
    }
    proof {
        let t = s@.subrange(start as int, end as int);
        if t.len() > 0 {
            assert(t[0] == s@[start as int]);
            assert(t.last() == s@[end - 1]);
        }
    }
    String::from_str(s.substring_char(start, end))
}

/// The settings after `change`.
pub fn apply_change(settings: &mut AppSettings, change: SettingsChange)
    ensures
        changed_is(old(settings)@, change, final(settings)@),
{
    match change {
        SettingsChange::StackDisplay(d) => settings.stack_display = d,
        SettingsChange::ExternalEditor(e) => {
            let t = trimmed(e.as_str());
            proof {
                lemma_trim_empty(e@);
            }
            settings.external_editor = if t.as_str().unicode_len() == 0 { None } else { Some(t) };
        },
        SettingsChange::ProcessingPolicy {
            intensity,
            paused,
            new_root_policy,
            defer_text_embeddings,
            defer_image_embeddings,
        } => {
            settings.processing_intensity = intensity;
            settings.processing_paused = paused;
            settings.new_root_policy = new_root_policy;
            settings.defer_text_embeddings = defer_text_embeddings;
            settings.defer_image_embeddings = defer_image_embeddings;
        },
        SettingsChange::LastExport(ts) => settings.last_export_ts = Some(ts),
        SettingsChange::RootPolicy { root_id, policy } => {
            settings.root_processing_policies = updated_policies(&settings.root_processing_policies, root_id, policy);
        },
        SettingsChange::PreviewCacheBudget(b) => settings.preview_cache_budget_bytes = b,
    }
}


/// Applies `change` to a candidate copy, persists the candidate, and only
/// then publishes it as the current settings. When persisting fails the
/// current settings are left exactly as they were and the failure is
/// returned.
pub fn persist_then_publish_settings<E, P>(current: &mut AppSettings, change: SettingsChange, persist: P) -> (r: Result<AppSettings, E>)
    where
        P: FnOnce(&AppSettings) -> Result<(), E>,
    requires
        forall|s: AppSettings| call_requires(persist, (&s,)),
    ensures
        r is Err ==> *final(current) == *old(current),
        r is Ok ==> changed_is(old(current)@, change, final(current)@) && exists|res: Result<(), E>|
            call_ensures(persist, (&*final(current),), res) && res is Ok,
        r matches Ok(c) ==> c@ == final(current)@,
        r matches Err(e) ==> exists|c: AppSettings| changed_is(old(current)@, change, c@) && call_ensures(
            persist,
            (&c,),
            Err::<(), E>(e),
        ),
{
    let mut candidate = current.clone_settings();
    apply_change(&mut candidate, change);
    let outcome = persist(&candidate);
    match outcome {
        Ok(_) => {
            let published = candidate.clone_settings();
            *current = candidate;
            Ok(published)
        },
        Err(e) => Err(e),
    }
}

/// A control file the shell reloads live.
#[derive(Debug, Clone, Copy, PartialEq, Eq, Structural)]
pub enum LiveControlFile {
    Settings,
    Config,
    Tuning,
}

/// What `{:?}` makes of a text: quoted, with quotes, backslashes and
/// special characters escaped.
pub uninterp spec fn debug_quoted(s: Seq<char>) -> Seq<char>;

/// Calls std's `Debug` formatting of `str` (through `format!("{:?}")`). The
/// contract names the result and claims nothing else of it.
#[verifier::external_body]
fn debug_text(s: &str) -> (r: String)
    ensures
        r@ == debug_quoted(s@),
{
    format!("{s:?}")
}

/// The control file a restore-defaults request names.
pub fn control_file(name: &str) -> (r: Result<LiveControlFile, CmdError>)
    ensures
        name@ == "settings"@ ==> r == Ok::<LiveControlFile, CmdError>(LiveControlFile::Settings),
        name@ == "config"@ ==> r == Ok::<LiveControlFile, CmdError>(LiveControlFile::Config),
        name@ == "tuning"@ ==> r == Ok::<LiveControlFile, CmdError>(LiveControlFile::Tuning),
        !(name@ == "settings"@ || name@ == "config"@ || name@ == "tuning"@) ==> (r matches Err(CmdError::Invalid(m))
            && m@ == "unknown control file "@ + debug_quoted(name@) + "; expected settings, config, or tuning"@),
{
    proof {
        reveal_strlit("settings");
        reveal_strlit("config");
        reveal_strlit("tuning");
        assert("settings"@[0] != "config"@[0]);
        assert("settings"@[0] != "tuning"@[0]);
        assert("config"@[0] != "tuning"@[0]);
    }
    if str_eq(name, "settings") {
        Ok(LiveControlFile::Settings)
    } else if str_eq(name, "config") {
        Ok(LiveControlFile::Config)
    } else if str_eq(name, "tuning") {
        Ok(LiveControlFile::Tuning)
    } else {
        let quoted = debug_text(name);
        Err(CmdError::Invalid(concat3("unknown control file ", quoted.as_str(), "; expected settings, config, or tuning")))
    }
}

} // verus!
