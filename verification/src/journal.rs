//! The journal tab of one image: the canonical fold's live entries together
//! with the retracted content rows, flagged and showing their folded text,
//! in log order; what undoing a retraction states again; the receipt a
//! redaction shows; and the metadata tab's file identity. The event closure
//! arrives as a list; like a map keyed by event id, the last event listed
//! under an id is the one that counts.
use vstd::prelude::*;
use crate::capture::{StrokePayload, StrokePoint};
use crate::dto::{JournalEntryDto, RedactReportDto, StrokeDto};
use crate::folders::{insert_sorted, lex_less, sorted_strict, text_less, views, lemma_lex_total, lemma_lex_transitive};
use crate::health::{copy_opt, copy_strings};
use crate::os::{last_slash, last_slash_before, join_mount, spec_join_mount, BestPath, CmdError};
use crate::text::{concat2, str_eq};
use crate::time::{rfc3339_millis, rfc3339_text};
use vstd::relations::injective_on;
use vstd::set_lib::{lemma_int_range, lemma_len_subset, lemma_map_size, set_int_range};

verus! {

#[derive(Debug, Clone, Copy, PartialEq, Eq, Structural)]
pub enum EventKind {
    Remark,
    Rating,
    Stroke,
    Revision,
    Retraction,
    /// Any kind the journal tab does not show.
    Other,
}

/// Remarks, ratings and strokes carry content; revisions and retractions
/// only act on other events.
pub open spec fn is_content(k: EventKind) -> bool {
    k is Remark || k is Rating || k is Stroke
}

#[derive(Debug, Clone, Copy, PartialEq, Eq, Structural)]
pub enum EventSource {
    Voice,
    Typed,
    System,
    Pencil,
}

pub open spec fn source_label(s: EventSource) -> Seq<char> {
    match s {
        EventSource::Voice => "voice"@,
        EventSource::Typed => "typed"@,
        EventSource::System => "system"@,
        EventSource::Pencil => "pencil"@,
    }
}

impl EventSource {
    pub fn label(&self) -> (r: &'static str)
        ensures
            r@ == source_label(*self),
    {
        match self {
            EventSource::Voice => "voice",
            EventSource::Typed => "typed",
            EventSource::System => "system",
            EventSource::Pencil => "pencil",
        }
    }
}

/// What an event carries besides its text.
#[derive(Debug, Clone)]
pub enum EventPayload {
    Empty,
    Rating(u8),
    Stroke(StrokePayload),
}

/// One logged event of an image's closure, as the journal reads it.
#[derive(Debug, Clone)]
pub struct JournalEvent {
    /// Sortable id; id order is log order.
    pub id: String,
    pub session_id: String,
    pub ts_ms: i64,
    pub kind: EventKind,
    pub source: EventSource,
    pub text: Option<String>,
    pub payload: EventPayload,
    /// Content hashes of the images the event is about.
    pub targets: Vec<String>,
    /// The event a revision or retraction acts on.
    pub target_event: Option<String>,
    pub linked_event: Option<String>,
    /// Redacted: the content is gone.
    pub scrubbed: bool,
}

// ---------------------------------------------------------------------------
// The closure as a map keyed by id
// ---------------------------------------------------------------------------

/// `i` is the last event listed under its id: the one a map keeps.
pub open spec fn latest(ev: Seq<JournalEvent>, i: int) -> bool {
    0 <= i < ev.len() && forall|j: int| i < j < ev.len() ==> #[trigger] ev[j].id@ != ev[i].id@
}

/// Where a lookup of `id` among the first `k` events lands: its last
/// occurrence.
pub open spec fn find_before(ev: Seq<JournalEvent>, id: Seq<char>, k: int) -> Option<int>
    decreases k,
{
    if k <= 0 {
        None
    } else if ev[k - 1].id@ == id {
        Some(k - 1)
    } else {
        find_before(ev, id, k - 1)
    }
}

pub open spec fn find(ev: Seq<JournalEvent>, id: Seq<char>) -> Option<int> {
    find_before(ev, id, ev.len() as int)
}

proof fn lemma_find_before(ev: Seq<JournalEvent>, id: Seq<char>, k: int)
    requires
        k <= ev.len(),
    ensures
        match find_before(ev, id, k) {
            Some(p) => 0 <= p < k && ev[p].id@ == id && forall|j: int| p < j < k ==> #[trigger] ev[j].id@ != id,
            None => forall|j: int| 0 <= j < k ==> #[trigger] ev[j].id@ != id,
        },
    decreases k,
{
    if k > 0 {
        lemma_find_before(ev, id, k - 1);
    }
}

/// A lookup by id lands on the event a map keeps under it.
proof fn lemma_find(ev: Seq<JournalEvent>, id: Seq<char>)
    ensures
        match find(ev, id) {
            Some(p) => latest(ev, p) && ev[p].id@ == id,
            None => forall|j: int| 0 <= j < ev.len() ==> #[trigger] ev[j].id@ != id,
        },
{
    lemma_find_before(ev, id, ev.len() as int);
}

fn find_event(ev: &Vec<JournalEvent>, id: &str) -> (r: Option<usize>)
    ensures
        r matches Some(p) ==> find(ev@, id@) == Some(p as int),
        r is None ==> find(ev@, id@) is None,
{
    let mut k = ev.len();
    while k > 0
        invariant
            k <= ev@.len(),
            find(ev@, id@) == find_before(ev@, id@, k as int),
        decreases k,
    {
        if str_eq(ev[k - 1].id.as_str(), id) {
            return Some(k - 1);
        }
        k -= 1;
    }
    None
}

/// Which events a map keyed by id keeps.
fn kept_events(ev: &Vec<JournalEvent>) -> (keep: Vec<bool>)
    ensures
        keep@.len() == ev@.len(),
        forall|i: int| 0 <= i < ev@.len() ==> keep@[i] == latest(ev@, i),
{
    let n = ev.len();
    let mut keep: Vec<bool> = Vec::new();
    for i in 0..n
        invariant
            n == ev@.len(),
            keep@.len() == i,
            forall|k: int| 0 <= k < i ==> keep@[k] == latest(ev@, k),
    {
        let mut last = true;
        let mut j = i + 1;
        while j < n
            invariant
                n == ev@.len(),
                i < n,
                i + 1 <= j <= n,
                last == forall|m: int| i < m < j ==> #[trigger] ev@[m].id@ != ev@[i as int].id@,
            decreases n - j,
        {
            if str_eq(ev[j].id.as_str(), ev[i].id.as_str()) {
                last = false;
            }
            j += 1;
        }
        keep.push(last);
    }
    keep
}

/// `e` is a retraction of the event `id`.
pub open spec fn retracts(e: JournalEvent, id: Seq<char>) -> bool {
    e.kind == EventKind::Retraction && (e.target_event matches Some(t) && t@ == id)
}

/// Some kept retraction targets `id`.
pub open spec fn is_retracted(ev: Seq<JournalEvent>, id: Seq<char>) -> bool {
    exists|j: int| latest(ev, j) && #[trigger] retracts(ev[j], id)
}

/// Some kept retraction among the first `k` events targets `id`.
pub open spec fn retracted_among(ev: Seq<JournalEvent>, id: Seq<char>, k: int) -> bool {
    exists|j: int| 0 <= j < k && latest(ev, j) && #[trigger] retracts(ev[j], id)
}

pub open spec fn listed(ids: Seq<String>, id: Seq<char>) -> bool {
    exists|k: int| 0 <= k < ids.len() && #[trigger] ids[k]@ == id
}

/// The ids the kept retractions target.
struct Retracted {
    ids: Vec<String>,
}

impl Retracted {
    spec fn holds(&self, ev: Seq<JournalEvent>) -> bool {
        forall|id: Seq<char>| #[trigger] listed(self.ids@, id) <==> is_retracted(ev, id)
    }

    fn of(ev: &Vec<JournalEvent>, keep: &Vec<bool>) -> (r: Retracted)
        requires
            keep@.len() == ev@.len(),
            forall|i: int| 0 <= i < ev@.len() ==> keep@[i] == latest(ev@, i),
        ensures
            r.holds(ev@),
    {
        let n = ev.len();
        let mut ids: Vec<String> = Vec::new();
        for i in 0..n
            invariant
                n == ev@.len(),
                keep@.len() == n,
                forall|m: int| 0 <= m < n ==> keep@[m] == latest(ev@, m),
                forall|id: Seq<char>| #[trigger] listed(ids@, id) <==> retracted_among(ev@, id, i as int),
        {
            let ghost before = ids@;
            if keep[i] && ev[i].kind == EventKind::Retraction {
                match &ev[i].target_event {
                    Some(t) => {
                        ids.push(t.clone());
                    },
                    None => {},
                }
            }
            proof {
                assert forall|id: Seq<char>| #[trigger] listed(ids@, id) <==> retracted_among(ev@, id, i + 1) by {
                    if retracted_among(ev@, id, i + 1) {
                        let j = choose|j: int| 0 <= j < i + 1 && latest(ev@, j) && #[trigger] retracts(ev@[j], id);
                        if j < i {
                            assert(retracted_among(ev@, id, i as int));
                            assert(listed(before, id));
                            let k = choose|k: int| 0 <= k < before.len() && #[trigger] before[k]@ == id;
                            assert(ids@[k] == before[k]);
                        } else {
                            assert(ids@[before.len() as int]@ == id);
                        }
                    }
                    if listed(ids@, id) {
                        let k = choose|k: int| 0 <= k < ids@.len() && #[trigger] ids@[k]@ == id;
                        if k < before.len() {
                            assert(before[k] == ids@[k]);
                            assert(listed(before, id));
                            assert(retracted_among(ev@, id, i as int));
                        } else {
                            assert(retracts(ev@[i as int], id));
                        }
                    }
                }
            }
        }
        proof {
            assert forall|id: Seq<char>| #[trigger] listed(ids@, id) <==> is_retracted(ev@, id) by {
                if is_retracted(ev@, id) {
                    let j = choose|j: int| latest(ev@, j) && #[trigger] retracts(ev@[j], id);
                    assert(retracted_among(ev@, id, n as int));
                }
            }
        }
        Retracted { ids }
    }

    fn contains(&self, id: &str) -> (r: bool)
        ensures
            r == listed(self.ids@, id@),
    {
        lists(&self.ids, id)
    }
}

fn lists(v: &Vec<String>, x: &str) -> (r: bool)
    ensures
        r == listed(v@, x@),
{
    let n = v.len();
    for k in 0..n
        invariant
            n == v@.len(),
            forall|m: int| 0 <= m < k ==> #[trigger] v@[m]@ != x@,
    {
        if str_eq(v[k].as_str(), x) {
            return true;
        }
    }
    false
}

// ---------------------------------------------------------------------------
// Revision chains
// ---------------------------------------------------------------------------

/// One hop along a revision chain: a revision leads to the event it
/// revises, anything else is where the chain ends.
pub open spec fn hop(ev: Seq<JournalEvent>, i: int) -> Option<int> {
    if ev[i].kind != EventKind::Revision {
        Some(i)
    } else {
        match ev[i].target_event {
            Some(t) => find(ev, t@),
            None => None,
        }
    }
}

pub open spec fn hops(ev: Seq<JournalEvent>, i: int, k: nat) -> Option<int>
    decreases k,
{
    if k == 0 {
        Some(i)
    } else {
        match hops(ev, i, (k - 1) as nat) {
            Some(j) => hop(ev, j),
            None => None,
        }
    }
}

/// The event a revision chain starting at `i` ends in. A chain through
/// every event of the closure either ends by then or runs in a circle; a
/// circle or a hop to an event that is not there has no root.
pub open spec fn root_pos(ev: Seq<JournalEvent>, i: int) -> Option<int> {
    match hops(ev, i, ev.len()) {
        Some(j) => if ev[j].kind != EventKind::Revision {
            Some(j)
        } else {
            None
        },
        None => None,
    }
}

proof fn lemma_hops_in_range(ev: Seq<JournalEvent>, i: int, k: nat)
    requires
        0 <= i < ev.len(),
    ensures
        hops(ev, i, k) matches Some(j) ==> 0 <= j < ev.len(),
    decreases k,
{
    if k > 0 {
        lemma_hops_in_range(ev, i, (k - 1) as nat);
        if let Some(j) = hops(ev, i, (k - 1) as nat) {
            if ev[j].kind == EventKind::Revision {
                if let Some(t) = ev[j].target_event {
                    lemma_find(ev, t@);
                }
            }
        }
    }
}

proof fn lemma_hops_stay(ev: Seq<JournalEvent>, i: int, k: nat, m: nat)
    requires
        k <= m,
        hops(ev, i, k) is None || (hops(ev, i, k) matches Some(j) && ev[j].kind != EventKind::Revision),
    ensures
        hops(ev, i, m) == hops(ev, i, k),
    decreases m - k,
{
    if k < m {
        lemma_hops_stay(ev, i, k, (m - 1) as nat);
    }
}

proof fn lemma_hops_split(ev: Seq<JournalEvent>, i: int, m: nat, t: nat)
    ensures
        hops(ev, i, m + t) == match hops(ev, i, m) {
            Some(x) => hops(ev, x, t),
            None => None,
        },
    decreases t,
{
    if t > 0 {
        lemma_hops_split(ev, i, m, (t - 1) as nat);
        assert(hops(ev, i, m + t) == match hops(ev, i, (m + t - 1) as nat) {
            Some(y) => hop(ev, y),
            None => None,
        });
    }
}

/// Once a chain revisits a position it repeats: every later hop lands where
/// one of the hops of the first round did.
proof fn lemma_hops_repeat(ev: Seq<JournalEvent>, i: int, a: nat, b: nat, m: nat) -> (m2: nat)
    requires
        a < b <= m,
        hops(ev, i, a) == hops(ev, i, b),
        hops(ev, i, a) is Some,
    ensures
        a <= m2 < b,
        hops(ev, i, m) == hops(ev, i, m2),
    decreases m,
{
    let t = (m - b) as nat;
    lemma_hops_split(ev, i, b, t);
    lemma_hops_split(ev, i, a, t);
    let m1 = (a + t) as nat;
    if m1 < b {
        m1
    } else {
        lemma_hops_repeat(ev, i, a, b, m1)
    }
}

/// Of `n + 1` hops into `n` events, two land on the same one.
proof fn lemma_hops_collide(ev: Seq<JournalEvent>, i: int) -> (ab: (nat, nat))
    requires
        0 <= i < ev.len(),
        forall|m: nat| m <= ev.len() ==> (#[trigger] hops(ev, i, m)) is Some,
    ensures
        ab.0 < ab.1 <= ev.len(),
        hops(ev, i, ab.0) == hops(ev, i, ab.1),
{
    let n = ev.len() as int;
    let dom = set_int_range(0, n + 1);
    let range = set_int_range(0, n);
    let f = |m: int| match hops(ev, i, m as nat) {
        Some(p) => p,
        None => -1,
    };
    lemma_int_range(0, n + 1);
    lemma_int_range(0, n);
    let img = dom.map(f);
    assert forall|p: int| img.contains(p) implies range.contains(p) by {
        let m = choose|m: int| dom.contains(m) && f(m) == p;
        lemma_hops_in_range(ev, i, m as nat);
        assert(hops(ev, i, m as nat) is Some);
    }
    lemma_len_subset(img, range);
    if injective_on(f, dom) {
        lemma_map_size(dom, img, f);
        assert(false);
    }
    let (a, b) = choose|a: int, b: int| dom.contains(a) && dom.contains(b) && #[trigger] f(a) == #[trigger] f(b) && a != b;
    assert(hops(ev, i, a as nat) is Some && hops(ev, i, b as nat) is Some);
    if a < b {
        (a as nat, b as nat)
    } else {
        (b as nat, a as nat)
    }
}

/// A revision chain that ends in an event after any number of hops has
/// that event as its root: following the chain past as many hops as the
/// closure has events finds nothing new.
pub proof fn law_root_is_where_the_chain_ends(ev: Seq<JournalEvent>, i: int, k: nat, j: int)
    requires
        0 <= i < ev.len(),
        hops(ev, i, k) == Some(j),
        ev[j].kind != EventKind::Revision,
    ensures
        root_pos(ev, i) == Some(j),
{
    let n = ev.len();
    if k <= n {
        lemma_hops_stay(ev, i, k, n);
    } else if exists|m: nat|
        m <= n && (#[trigger] hops(ev, i, m) is None || (hops(ev, i, m) matches Some(x) && ev[x].kind
            != EventKind::Revision)) {
        let m = choose|m: nat|
            m <= n && (#[trigger] hops(ev, i, m) is None || (hops(ev, i, m) matches Some(x) && ev[x].kind
                != EventKind::Revision));
        lemma_hops_stay(ev, i, m, k);
        lemma_hops_stay(ev, i, m, n);
    } else {
        let (a, b) = lemma_hops_collide(ev, i);
        let m2 = lemma_hops_repeat(ev, i, a, b, k);
        assert(hops(ev, i, m2) is Some);
    }
}

fn root_of(ev: &Vec<JournalEvent>, i: usize) -> (r: Option<usize>)
    requires
        i < ev@.len(),
    ensures
        r matches Some(p) ==> root_pos(ev@, i as int) == Some(p as int) && p < ev@.len(),
        r is None ==> root_pos(ev@, i as int) is None,
{
    let n = ev.len();
    let mut cur = i;
    let mut k: usize = 0;
    while k < n
        invariant
            n == ev@.len(),
            i < n,
            k <= n,
            cur < n,
            hops(ev@, i as int, k as nat) == Some(cur as int),
        decreases n - k,
    {
        if ev[cur].kind != EventKind::Revision {
            proof {
                lemma_hops_stay(ev@, i as int, k as nat, n as nat);
            }
            return Some(cur);
        }
        match &ev[cur].target_event {
            None => {
                proof {
                    assert(hops(ev@, i as int, (k + 1) as nat) is None);
                    lemma_hops_stay(ev@, i as int, (k + 1) as nat, n as nat);
                }
                return None;
            },
            Some(t) => match find_event(ev, t.as_str()) {
                None => {
                    proof {
                        assert(hops(ev@, i as int, (k + 1) as nat) is None);
                        lemma_hops_stay(ev@, i as int, (k + 1) as nat, n as nat);
                    }
                    return None;
                },
                Some(p) => {
                    proof {
                        lemma_find(ev@, t@);
                    }
                    cur = p;
                },
            },
        }
        k += 1;
    }
    if ev[cur].kind != EventKind::Revision {
        Some(cur)
    } else {
        None
    }
}

// ---------------------------------------------------------------------------
// Folded text of a remark
// ---------------------------------------------------------------------------

/// A kept, live (neither retracted nor scrubbed) revision with text whose
/// chain ends in the event `root_id`.
pub open spec fn live_revision(ev: Seq<JournalEvent>, j: int, root_id: Seq<char>) -> bool {
    &&& latest(ev, j)
    &&& ev[j].kind == EventKind::Revision
    &&& !is_retracted(ev, ev[j].id@)
    &&& !ev[j].scrubbed
    &&& (root_pos(ev, j) matches Some(p) && ev[p].id@ == root_id)
    &&& ev[j].text is Some
}

/// The live revision of `root_id` with the greatest id among the first `k`
/// events.
pub open spec fn newest_revision(ev: Seq<JournalEvent>, root_id: Seq<char>, k: int) -> Option<int>
    decreases k,
{
    if k <= 0 {
        None
    } else {
        let prev = newest_revision(ev, root_id, k - 1);
        if live_revision(ev, k - 1, root_id) && match prev {
            Some(b) => lex_less(ev[b].id@, ev[k - 1].id@),
            None => true,
        } {
            Some(k - 1)
        } else {
            prev
        }
    }
}

/// A remark's effective text: the text of its newest live revision, marked
/// as corrected; else its own text.
pub open spec fn effective_text_of(ev: Seq<JournalEvent>, root: JournalEvent) -> (Option<String>, bool) {
    match newest_revision(ev, root.id@, ev.len() as int) {
        Some(j) => (ev[j].text, true),
        None => (root.text, false),
    }
}

fn effective_text(ev: &Vec<JournalEvent>, keep: &Vec<bool>, retracted: &Retracted, root: &JournalEvent) -> (r: (
    Option<String>,
    bool,
))
    requires
        keep@.len() == ev@.len(),
        forall|i: int| 0 <= i < ev@.len() ==> keep@[i] == latest(ev@, i),
        retracted.holds(ev@),
    ensures
        r == effective_text_of(ev@, *root),
{
    let n = ev.len();
    let mut best: Option<usize> = None;
    for j in 0..n
        invariant
            n == ev@.len(),
            keep@.len() == n,
            forall|i: int| 0 <= i < n ==> keep@[i] == latest(ev@, i),
            retracted.holds(ev@),
            match best {
                Some(b) => newest_revision(ev@, root.id@, j as int) == Some(b as int) && b < j,
                None => newest_revision(ev@, root.id@, j as int) is None,
            },
    {
        let mut live = false;
        if keep[j] && ev[j].kind == EventKind::Revision && !ev[j].scrubbed && ev[j].text.is_some() {
            let gone = retracted.contains(ev[j].id.as_str());
            proof {
                assert(listed(retracted.ids@, ev@[j as int].id@) <==> is_retracted(ev@, ev@[j as int].id@));
            }
            if !gone {
                match root_of(ev, j) {
                    Some(p) => {
                        live = str_eq(ev[p].id.as_str(), root.id.as_str());
                    },
                    None => {},
                }
            }
        }
        assert(live == live_revision(ev@, j as int, root.id@));
        let newer = match best {
            Some(b) => text_less(ev[b].id.as_str(), ev[j].id.as_str()),
            None => true,
        };
        if live && newer {
            best = Some(j);
        }
    }
    match best {
        Some(b) => (copy_opt(&ev[b].text), true),
        None => (copy_opt(&root.text), false),
    }
}

// ---------------------------------------------------------------------------
// Rows
// ---------------------------------------------------------------------------

/// A stroke's geometry as a row carries it.
pub open spec fn stroke_dto_is(p: StrokePayload, d: StrokeDto) -> bool {
    &&& d.base_w == p.base_w
    &&& d.orientation == p.orientation
    &&& d.points@.len() == p.points@.len()
    &&& forall|i: int| 0 <= i < p.points@.len() ==> {
        let pt = #[trigger] p.points@[i];
        let q = d.points@[i];
        q[0] == pt.x && q[1] == pt.y && q[2] == pt.p && q[3] == pt.t
    }
}

fn stroke_dto(p: &StrokePayload) -> (r: StrokeDto)
    ensures
        stroke_dto_is(*p, r),
{
    let n = p.points.len();
    let mut points: Vec<[i64; 4]> = Vec::new();
    for i in 0..n
        invariant
            n == p.points@.len(),
            points@.len() == i,
            forall|k: int| 0 <= k < i ==> {
                let pt = #[trigger] p.points@[k];
                let q = points@[k];
                q[0] == pt.x && q[1] == pt.y && q[2] == pt.p && q[3] == pt.t
            },
    {
        let pt: StrokePoint = p.points[i];
        let q: [i64; 4] = [pt.x as i64, pt.y as i64, pt.p as i64, pt.t as i64];
        points.push(q);
    }
    StrokeDto { base_w: p.base_w, orientation: p.orientation, points }
}

/// The stroke a payload carries, if it is one.
pub open spec fn payload_stroke_is(p: EventPayload, d: Option<StrokeDto>) -> bool {
    match p {
        EventPayload::Stroke(s) => d matches Some(x) && stroke_dto_is(s, x),
        _ => d is None,
    }
}

pub open spec fn payload_rating(p: EventPayload) -> Option<u8> {
    match p {
        EventPayload::Rating(v) => Some(v),
        _ => None,
    }
}

/// A retracted content event's row: flagged, and showing what the fold
/// would show of it; a scrubbed event shows only the redacted stub.
pub open spec fn retracted_row_is(ev: Seq<JournalEvent>, e: JournalEvent, d: JournalEntryDto) -> bool {
    &&& d.id@ == e.id@
    &&& d.session_id@ == e.session_id@
    &&& d.ts@ == rfc3339_text(e.ts_ms as int)
    &&& d.source@ == source_label(e.source)
    &&& d.retracted
    &&& d.targets@ == e.targets@
    &&& if e.scrubbed {
        &&& d.kind@ == "redacted"@
        &&& d.text is None && d.original_text is None && !d.corrected
        &&& d.rating is None && d.linked_event is None && d.stroke is None
    } else if e.kind == EventKind::Remark {
        &&& d.kind@ == "remark"@
        &&& (d.text, d.corrected) == effective_text_of(ev, e)
        &&& d.original_text == (if d.corrected { e.text } else { None })
        &&& d.rating is None && d.linked_event is None && d.stroke is None
    } else if e.kind == EventKind::Rating {
        &&& d.kind@ == "rating"@
        &&& d.text is None && d.original_text is None && !d.corrected
        &&& d.rating == payload_rating(e.payload)
        &&& d.linked_event is None && d.stroke is None
    } else {
        &&& d.kind@ == "stroke"@
        &&& d.text is None && d.original_text is None && !d.corrected
        &&& d.rating is None
        &&& d.linked_event == e.linked_event
        &&& payload_stroke_is(e.payload, d.stroke)
    }
}

fn retracted_row(ev: &Vec<JournalEvent>, keep: &Vec<bool>, retracted: &Retracted, e: &JournalEvent) -> (r:
    JournalEntryDto)
    requires
        keep@.len() == ev@.len(),
        forall|i: int| 0 <= i < ev@.len() ==> keep@[i] == latest(ev@, i),
        retracted.holds(ev@),
    ensures
        retracted_row_is(ev@, *e, r),
{
    let id = e.id.clone();
    let session_id = e.session_id.clone();
    let ts = rfc3339_millis(e.ts_ms);
    let source = e.source.label();
    let targets = copy_strings(&e.targets);
    if e.scrubbed {
        return JournalEntryDto {
            id,
            session_id,
            ts,
            kind: "redacted",
            source,
            text: None,
            original_text: None,
            corrected: false,
            retracted: true,
            rating: None,
            targets,
            linked_event: None,
            stroke: None,
        };
    }
    match e.kind {
        EventKind::Remark => {
            let (text, corrected) = effective_text(ev, keep, retracted, e);
            let original_text = if corrected {
                copy_opt(&e.text)
            } else {
                None
            };
            JournalEntryDto {
                id,
                session_id,
                ts,
                kind: "remark",
                source,
                text,
                original_text,
                corrected,
                retracted: true,
                rating: None,
                targets,
                linked_event: None,
                stroke: None,
            }
        },
        EventKind::Rating => {
            let rating = match &e.payload {
                EventPayload::Rating(v) => Some(*v),
                _ => None,
            };
            JournalEntryDto {
                id,
                session_id,
                ts,
                kind: "rating",
                source,
                text: None,
                original_text: None,
                corrected: false,
                retracted: true,
                rating,
                targets,
                linked_event: None,
                stroke: None,
            }
        },
        _ => {
            let stroke = match &e.payload {
                EventPayload::Stroke(p) => Some(stroke_dto(p)),
                _ => None,
            };
            JournalEntryDto {
                id,
                session_id,
                ts,
                kind: "stroke",
                source,
                text: None,
                original_text: None,
                corrected: false,
                retracted: true,
                rating: None,
                targets,
                linked_event: copy_opt(&e.linked_event),
                stroke,
            }
        },
    }
}

// ---------------------------------------------------------------------------
// Stating retracted content again
// ---------------------------------------------------------------------------

/// A new event that states a retracted event's content again.
#[derive(Debug)]
pub enum Restatement {
    Remark { text: String, targets: Vec<String> },
    Rating { value: u8, targets: Vec<String> },
    Stroke { payload: StrokePayload, target: String },
}

/// Some event of the closure retracts `id`.
pub open spec fn retracted_in(ev: Seq<JournalEvent>, id: Seq<char>) -> bool {
    exists|j: int| 0 <= j < ev.len() && #[trigger] retracts(ev[j], id)
}

pub open spec fn same_stroke(a: StrokePayload, b: StrokePayload) -> bool {
    a.base_w == b.base_w && a.orientation == b.orientation && a.points@ == b.points@ && a.tool == b.tool
}

fn copy_stroke(p: &StrokePayload) -> (r: StrokePayload)
    ensures
        same_stroke(r, *p),
{
    let n = p.points.len();
    let mut points: Vec<StrokePoint> = Vec::new();
    for i in 0..n
        invariant
            n == p.points@.len(),
            points@ == p.points@.subrange(0, i as int),
    {
        points.push(p.points[i]);
        proof {
            assert(points@ =~= p.points@.subrange(0, i + 1));
        }
    }
    proof {
        assert(points@ =~= p.points@);
    }
    StrokePayload { base_w: p.base_w, orientation: p.orientation, points, tool: p.tool }
}

/// Undoing the retraction of `root`, given the closure that holds its
/// retractions and revisions: a new remark with the folded text, a new
/// rating with the same value, or a new stroke with the same geometry on
/// its first target. Nothing is stated again for an event that carries no
/// content, is not retracted, is scrubbed, or whose content is gone.
pub fn restate(root: &JournalEvent, closure: &Vec<JournalEvent>) -> (r: Option<Restatement>)
    ensures
        (!is_content(root.kind) || !retracted_in(closure@, root.id@) || root.scrubbed) ==> r is None,
        (is_content(root.kind) && retracted_in(closure@, root.id@) && !root.scrubbed) ==> match root.kind {
            EventKind::Remark => match effective_text_of(closure@, *root).0 {
                Some(t) => r matches Some(Restatement::Remark { text, targets }) && text == t && targets@
                    == root.targets@,
                None => r is None,
            },
            EventKind::Rating => match root.payload {
                EventPayload::Rating(v) => r matches Some(Restatement::Rating { value, targets }) && value == v
                    && targets@ == root.targets@,
                _ => r is None,
            },
            _ => match root.payload {
                EventPayload::Stroke(p) => if root.targets@.len() > 0 {
                    r matches Some(Restatement::Stroke { payload, target }) && same_stroke(payload, p) && target
                        == root.targets@[0]
                } else {
                    r is None
                },
                _ => r is None,
            },
        },
{
    let content = match root.kind {
        EventKind::Remark | EventKind::Rating | EventKind::Stroke => true,
        _ => false,
    };
    if !content {
        return None;
    }
    let n = closure.len();
    let mut found = false;
    for j in 0..n
        invariant
            n == closure@.len(),
            found == exists|m: int| 0 <= m < j && #[trigger] retracts(closure@[m], root.id@),
    {
        if closure[j].kind == EventKind::Retraction {
            match &closure[j].target_event {
                Some(t) => {
                    if str_eq(t.as_str(), root.id.as_str()) {
                        found = true;
                    }
                },
                None => {},
            }
        }
        proof {
            if retracts(closure@[j as int], root.id@) {
                assert(found);
            }
        }
    }
    if !found || root.scrubbed {
        return None;
    }
    match root.kind {
        EventKind::Remark => {
            let keep = kept_events(closure);
            let retracted = Retracted::of(closure, &keep);
            let (text, _) = effective_text(closure, &keep, &retracted, root);
            match text {
                Some(t) => Some(Restatement::Remark { text: t, targets: copy_strings(&root.targets) }),
                None => None,
            }
        },
        EventKind::Rating => match &root.payload {
            EventPayload::Rating(v) => Some(Restatement::Rating { value: *v, targets: copy_strings(&root.targets) }),
            _ => None,
        },
        _ => match &root.payload {
            EventPayload::Stroke(p) => {
                if root.targets.len() == 0 {
                    return None;
                }
                Some(Restatement::Stroke { payload: copy_stroke(p), target: root.targets[0].clone() })
            },
            _ => None,
        },
    }
}

// ---------------------------------------------------------------------------
// Log order
// ---------------------------------------------------------------------------

/// Key `j` goes before key `k` in a stable sort: it is smaller, or equal and
/// listed earlier.
pub open spec fn goes_before(keys: Seq<Seq<char>>, j: int, k: int) -> bool {
    lex_less(keys[j], keys[k]) || (keys[j] == keys[k] && j < k)
}

/// Where key `k` stands once the first `m` keys are sorted stably: the
/// number of them that go before it.
pub open spec fn rank_among(keys: Seq<Seq<char>>, m: int, k: int) -> int
    decreases m,
{
    if m <= 0 {
        0
    } else {
        rank_among(keys, m - 1, k) + if goes_before(keys, m - 1, k) {
            1int
        } else {
            0int
        }
    }
}

pub open spec fn rank(keys: Seq<Seq<char>>, k: int) -> int {
    rank_among(keys, keys.len() as int, k)
}

proof fn lemma_rank_bounds(keys: Seq<Seq<char>>, m: int, k: int)
    requires
        0 <= m <= keys.len(),
        0 <= k < keys.len(),
    ensures
        0 <= rank_among(keys, m, k) <= m,
        k < m ==> rank_among(keys, m, k) <= m - 1,
    decreases m,
{
    if m > 0 {
        lemma_rank_bounds(keys, m - 1, k);
        if m - 1 == k {
            assert(!lex_less(keys[k], keys[k]));
        }
    }
}

proof fn lemma_rank_le(keys: Seq<Seq<char>>, m: int, s: int, t: int)
    requires
        0 <= m <= keys.len(),
        0 <= s < keys.len(),
        0 <= t < keys.len(),
        forall|j: int| 0 <= j < m && #[trigger] goes_before(keys, j, s) ==> goes_before(keys, j, t),
    ensures
        rank_among(keys, m, s) <= rank_among(keys, m, t),
    decreases m,
{
    if m > 0 {
        lemma_rank_le(keys, m - 1, s, t);
    }
}

proof fn lemma_rank_lt(keys: Seq<Seq<char>>, m: int, s: int, t: int, j0: int)
    requires
        0 <= m <= keys.len(),
        0 <= s < keys.len(),
        0 <= t < keys.len(),
        0 <= j0 < m,
        forall|j: int| 0 <= j < m && #[trigger] goes_before(keys, j, s) ==> goes_before(keys, j, t),
        goes_before(keys, j0, t),
        !goes_before(keys, j0, s),
    ensures
        rank_among(keys, m, s) + 1 <= rank_among(keys, m, t),
    decreases m,
{
    if m - 1 == j0 {
        lemma_rank_le(keys, m - 1, s, t);
    } else {
        lemma_rank_lt(keys, m - 1, s, t, j0);
    }
}

/// Placing key `m` after the first `m` keys are sorted: it goes where its
/// rank says, and each earlier key moves up by one exactly when key `m`
/// goes before it.
proof fn lemma_rank_insert(keys: Seq<Seq<char>>, m: int, s: int)
    requires
        0 <= s < m < keys.len(),
    ensures
        rank_among(keys, m + 1, m) == rank_among(keys, m, m),
        rank_among(keys, m + 1, s) == if rank_among(keys, m, s) < rank_among(keys, m, m) {
            rank_among(keys, m, s)
        } else {
            rank_among(keys, m, s) + 1
        },
{
    assert(!lex_less(keys[m], keys[m]));
    if lex_less(keys[m], keys[s]) {
        assert forall|j: int| 0 <= j < m && #[trigger] goes_before(keys, j, m) implies goes_before(keys, j, s) by {
            if lex_less(keys[j], keys[m]) {
                lemma_lex_transitive(keys[j], keys[m], keys[s]);
            }
        }
        lemma_rank_le(keys, m, m, s);
    } else {
        if keys[m] != keys[s] {
            lemma_lex_total(keys[m], keys[s]);
        }
        assert forall|j: int| 0 <= j < m && #[trigger] goes_before(keys, j, s) implies goes_before(keys, j, m) by {
            if lex_less(keys[j], keys[s]) && keys[s] != keys[m] {
                lemma_lex_transitive(keys[j], keys[s], keys[m]);
            } else if keys[j] == keys[s] && keys[s] != keys[m] {
            }
        }
        assert(!lex_less(keys[s], keys[s]));
        lemma_rank_lt(keys, m, s, m, s);
    }
}

/// Rows come out in log order: a row whose id sorts first stands first, and
/// of two rows with the same id the one listed first stands first; every
/// row has a place among them.
pub proof fn law_rows_in_log_order(keys: Seq<Seq<char>>, s: int, t: int)
    requires
        0 <= s < keys.len(),
        0 <= t < keys.len(),
        goes_before(keys, s, t),
    ensures
        rank(keys, s) < rank(keys, t),
        0 <= rank(keys, s) < keys.len(),
{
    assert(!lex_less(keys[s], keys[s]));
    assert forall|j: int| 0 <= j < keys.len() && #[trigger] goes_before(keys, j, s) implies goes_before(keys, j, t) by {
        if lex_less(keys[j], keys[s]) && lex_less(keys[s], keys[t]) {
            lemma_lex_transitive(keys[j], keys[s], keys[t]);
        }
    }
    lemma_rank_lt(keys, keys.len() as int, s, t, s);
    lemma_rank_bounds(keys, keys.len() as int, s);
}

// ---------------------------------------------------------------------------
// The journal tab
// ---------------------------------------------------------------------------

/// An entry of the canonical fold, as the event store folds it: retracted
/// events are left out, revisions are folded into their remark, and a
/// redacted event is an inert stub.
#[derive(Debug)]
pub enum FoldedEntry {
    Remark { id: String, ts_ms: i64, source: EventSource, targets: Vec<String>, text: String, corrected: bool },
    Rating { id: String, ts_ms: i64, targets: Vec<String>, value: u8 },
    Stroke { id: String, ts_ms: i64, target: String, linked_event: Option<String>, payload: StrokePayload },
    RedactedStub { id: String, ts_ms: i64, source: EventSource },
}

pub open spec fn folded_id(f: FoldedEntry) -> Seq<char> {
    match f {
        FoldedEntry::Remark { id, .. } => id@,
        FoldedEntry::Rating { id, .. } => id@,
        FoldedEntry::Stroke { id, .. } => id@,
        FoldedEntry::RedactedStub { id, .. } => id@,
    }
}

/// The row of folded entry `f`, whose logged event is `e`: the fold's
/// content, with the session taken from the event (and, for ratings and
/// strokes, the source too); a corrected remark also shows the event's own
/// text as the original.
pub open spec fn folded_row_with(f: FoldedEntry, e: JournalEvent, d: JournalEntryDto) -> bool {
    &&& d.id@ == folded_id(f)
    &&& d.session_id@ == e.session_id@
    &&& !d.retracted
    &&& match f {
        FoldedEntry::Remark { ts_ms, source, targets, text, corrected, .. } => {
            &&& d.ts@ == rfc3339_text(ts_ms as int)
            &&& d.kind@ == "remark"@
            &&& d.source@ == source_label(source)
            &&& d.text == Some(text)
            &&& d.corrected == corrected
            &&& d.original_text == (if corrected { e.text } else { None })
            &&& d.rating is None && d.linked_event is None && d.stroke is None
            &&& d.targets@ == targets@
        },
        FoldedEntry::Rating { ts_ms, targets, value, .. } => {
            &&& d.ts@ == rfc3339_text(ts_ms as int)
            &&& d.kind@ == "rating"@
            &&& d.source@ == source_label(e.source)
            &&& d.text is None && d.original_text is None && !d.corrected
            &&& d.rating == Some(value)
            &&& d.linked_event is None && d.stroke is None
            &&& d.targets@ == targets@
        },
        FoldedEntry::Stroke { ts_ms, target, linked_event, payload, .. } => {
            &&& d.ts@ == rfc3339_text(ts_ms as int)
            &&& d.kind@ == "stroke"@
            &&& d.source@ == source_label(e.source)
            &&& d.text is None && d.original_text is None && !d.corrected
            &&& d.rating is None
            &&& d.linked_event == linked_event
            &&& (d.stroke matches Some(x) && stroke_dto_is(payload, x))
            &&& d.targets@ == seq![target]
        },
        FoldedEntry::RedactedStub { ts_ms, source, .. } => {
            &&& d.ts@ == rfc3339_text(ts_ms as int)
            &&& d.kind@ == "redacted"@
            &&& d.source@ == source_label(source)
            &&& d.text is None && d.original_text is None && !d.corrected
            &&& d.rating is None && d.linked_event is None && d.stroke is None
            &&& d.targets@.len() == 0
        },
    }
}

/// A kept content event about `image` that is retracted gets a flagged row.
pub open spec fn shows_retracted(ev: Seq<JournalEvent>, i: int, image: Seq<char>) -> bool {
    &&& latest(ev, i)
    &&& is_content(ev[i].kind)
    &&& is_retracted(ev, ev[i].id@)
    &&& listed(ev[i].targets@, image)
}

pub open spec fn retracted_rows_before(ev: Seq<JournalEvent>, image: Seq<char>, k: int) -> Seq<int>
    decreases k,
{
    if k <= 0 {
        Seq::empty()
    } else if shows_retracted(ev, k - 1, image) {
        retracted_rows_before(ev, image, k - 1).push(k - 1)
    } else {
        retracted_rows_before(ev, image, k - 1)
    }
}

/// The events that get a flagged row, in closure order.
pub open spec fn retracted_rows(ev: Seq<JournalEvent>, image: Seq<char>) -> Seq<int> {
    retracted_rows_before(ev, image, ev.len() as int)
}

/// The ids of the rows before they are put in log order: the fold's
/// entries, then the flagged rows.
pub open spec fn row_keys(folded: Seq<FoldedEntry>, ev: Seq<JournalEvent>, image: Seq<char>) -> Seq<Seq<char>> {
    folded.map_values(|f: FoldedEntry| folded_id(f)) + retracted_rows(ev, image).map_values(|i: int| ev[i].id@)
}

/// Row `d` is the one that source `s` gives.
pub open spec fn row_is(folded: Seq<FoldedEntry>, ev: Seq<JournalEvent>, image: Seq<char>, s: int, d: JournalEntryDto) -> bool {
    if s < folded.len() {
        match find(ev, folded_id(folded[s])) {
            Some(p) => folded_row_with(folded[s], ev[p], d),
            None => false,
        }
    } else {
        retracted_row_is(ev, ev[retracted_rows(ev, image)[s - folded.len()]], d)
    }
}

/// After the first `m` rows are in order, source `s`'s row stands where its
/// rank among them says.
pub open spec fn placed(
    folded: Seq<FoldedEntry>,
    ev: Seq<JournalEvent>,
    image: Seq<char>,
    out: Seq<JournalEntryDto>,
    m: int,
    s: int,
) -> bool {
    row_is(folded, ev, image, s, out[rank_among(row_keys(folded, ev, image), m, s)])
}

/// The first fold entry whose event is not in the closure, among the first
/// `k`.
pub open spec fn first_missing_before(folded: Seq<FoldedEntry>, ev: Seq<JournalEvent>, k: int) -> Option<int>
    decreases k,
{
    if k <= 0 {
        None
    } else {
        match first_missing_before(folded, ev, k - 1) {
            Some(x) => Some(x),
            None => if find(ev, folded_id(folded[k - 1])) is None {
                Some(k - 1)
            } else {
                None
            },
        }
    }
}

pub open spec fn first_missing(folded: Seq<FoldedEntry>, ev: Seq<JournalEvent>) -> Option<int> {
    first_missing_before(folded, ev, folded.len() as int)
}

proof fn lemma_first_missing_stays(folded: Seq<FoldedEntry>, ev: Seq<JournalEvent>, k: int)
    requires
        0 <= k <= folded.len(),
        first_missing_before(folded, ev, k) is Some,
    ensures
        first_missing(folded, ev) == first_missing_before(folded, ev, k),
    decreases folded.len() - k,
{
    if k < folded.len() {
        assert(first_missing_before(folded, ev, k + 1) == first_missing_before(folded, ev, k));
        lemma_first_missing_stays(folded, ev, k + 1);
    }
}

proof fn lemma_rows_len(ev: Seq<JournalEvent>, image: Seq<char>, n: int)
    requires
        0 <= n,
    ensures
        retracted_rows_before(ev, image, n).len() <= n,
    decreases n,
{
    if n > 0 {
        lemma_rows_len(ev, image, n - 1);
    }
}

proof fn lemma_rows_prefix(ev: Seq<JournalEvent>, image: Seq<char>, k: int, n: int)
    requires
        0 <= k <= n,
    ensures
        retracted_rows_before(ev, image, k).len() <= retracted_rows_before(ev, image, n).len(),
        retracted_rows_before(ev, image, n).len() <= n,
        retracted_rows_before(ev, image, n).subrange(0, retracted_rows_before(ev, image, k).len() as int)
            == retracted_rows_before(ev, image, k),
    decreases n - k,
{
    lemma_rows_len(ev, image, n);
    if k < n {
        lemma_rows_prefix(ev, image, k, n - 1);
        let a = retracted_rows_before(ev, image, k);
        let b = retracted_rows_before(ev, image, n - 1);
        let c = retracted_rows_before(ev, image, n);
        if shows_retracted(ev, n - 1, image) {
            assert(c.subrange(0, a.len() as int) =~= b.subrange(0, a.len() as int));
        }
    } else {
        let a = retracted_rows_before(ev, image, k);
        assert(a.subrange(0, a.len() as int) =~= a);
    }
}

proof fn lemma_rank_insert_last(keys: Seq<Seq<char>>, m: int)
    requires
        0 <= m < keys.len(),
    ensures
        rank_among(keys, m + 1, m) == rank_among(keys, m, m),
{
    assert(!lex_less(keys[m], keys[m]));
}

fn folded_row(f: &FoldedEntry, e: &JournalEvent) -> (d: JournalEntryDto)
    ensures
        folded_row_with(*f, *e, d),
{
    match f {
        FoldedEntry::Remark { id, ts_ms, source, targets, text, corrected } => JournalEntryDto {
            id: id.clone(),
            session_id: e.session_id.clone(),
            ts: rfc3339_millis(*ts_ms),
            kind: "remark",
            source: source.label(),
            text: Some(text.clone()),
            original_text: if *corrected {
                copy_opt(&e.text)
            } else {
                None
            },
            corrected: *corrected,
            retracted: false,
            rating: None,
            targets: copy_strings(targets),
            linked_event: None,
            stroke: None,
        },
        FoldedEntry::Rating { id, ts_ms, targets, value } => JournalEntryDto {
            id: id.clone(),
            session_id: e.session_id.clone(),
            ts: rfc3339_millis(*ts_ms),
            kind: "rating",
            source: e.source.label(),
            text: None,
            original_text: None,
            corrected: false,
            retracted: false,
            rating: Some(*value),
            targets: copy_strings(targets),
            linked_event: None,
            stroke: None,
        },
        FoldedEntry::Stroke { id, ts_ms, target, linked_event, payload } => {
            let mut targets: Vec<String> = Vec::new();
            targets.push(target.clone());
            proof {
                assert(targets@ =~= seq![*target]);
            }
            JournalEntryDto {
                id: id.clone(),
                session_id: e.session_id.clone(),
                ts: rfc3339_millis(*ts_ms),
                kind: "stroke",
                source: e.source.label(),
                text: None,
                original_text: None,
                corrected: false,
                retracted: false,
                rating: None,
                targets,
                linked_event: copy_opt(linked_event),
                stroke: Some(stroke_dto(payload)),
            }
        },
        FoldedEntry::RedactedStub { id, ts_ms, source } => JournalEntryDto {
            id: id.clone(),
            session_id: e.session_id.clone(),
            ts: rfc3339_millis(*ts_ms),
            kind: "redacted",
            source: source.label(),
            text: None,
            original_text: None,
            corrected: false,
            retracted: false,
            rating: None,
            targets: Vec::new(),
            linked_event: None,
            stroke: None,
        },
    }
}

fn folded_entry_id(f: &FoldedEntry) -> (r: &str)
    ensures
        r@ == folded_id(*f),
{
    match f {
        FoldedEntry::Remark { id, .. } => id.as_str(),
        FoldedEntry::Rating { id, .. } => id.as_str(),
        FoldedEntry::Stroke { id, .. } => id.as_str(),
        FoldedEntry::RedactedStub { id, .. } => id.as_str(),
    }
}

/// Puts `row`, the row of source `m`, where its rank among the first
/// `m + 1` keys says.
fn place(out: &mut Vec<JournalEntryDto>, seen: &mut Vec<String>, row: JournalEntryDto, Ghost(keys): Ghost<Seq<Seq<char>>>)
    requires
        old(out)@.len() == old(seen)@.len(),
        old(seen)@.len() < keys.len(),
        forall|j: int| 0 <= j < old(seen)@.len() ==> #[trigger] old(seen)@[j]@ == keys[j],
        row.id@ == keys[old(seen)@.len() as int],
    ensures
        final(seen)@.len() == old(seen)@.len() + 1,
        forall|j: int| 0 <= j < final(seen)@.len() ==> #[trigger] final(seen)@[j]@ == keys[j],
        final(out)@ == old(out)@.insert(rank_among(keys, old(seen)@.len() as int, old(seen)@.len() as int), row),
        final(out)@.len() == old(out)@.len() + 1,
{
    let m = seen.len();
    let mut p: usize = 0;
    for j in 0..m
        invariant
            m == seen@.len(),
            m < keys.len(),
            forall|i: int| 0 <= i < m ==> #[trigger] seen@[i]@ == keys[i],
            row.id@ == keys[m as int],
            p == rank_among(keys, j as int, m as int),
            p <= j,
    {
        let before = text_less(seen[j].as_str(), row.id.as_str()) || str_eq(seen[j].as_str(), row.id.as_str());
        assert(before == goes_before(keys, j as int, m as int));
        if before {
            p += 1;
        }
    }
    proof {
        lemma_rank_bounds(keys, m as int, m as int);
    }
    seen.push(row.id.clone());
    out.insert(p, row);
}

/// The journal tab of `image`: a row for each entry of the canonical fold,
/// plus a flagged row for each kept, retracted content event about the
/// image, all in log (id) order, rows with equal ids in that order. A fold
/// entry whose event is missing from the closure is refused.
pub fn journal_entries(folded: &Vec<FoldedEntry>, closure: &Vec<JournalEvent>, image: &str) -> (r: Result<
    Vec<JournalEntryDto>,
    CmdError,
>)
    ensures
        first_missing(folded@, closure@) matches Some(k) ==> (r matches Err(CmdError::Invalid(m)) && m@
            == "folded event missing from closure: "@ + folded_id(folded@[k])),
        first_missing(folded@, closure@) is None ==> (r matches Ok(rows) && rows@.len() == row_keys(
            folded@,
            closure@,
            image@,
        ).len() && forall|s: int|
            0 <= s < rows@.len() ==> #[trigger] row_is(
                folded@,
                closure@,
                image@,
                s,
                rows@[rank(row_keys(folded@, closure@, image@), s)],
            )),
{
    let ghost keys = row_keys(folded@, closure@, image@);
    let ghost wanted = retracted_rows(closure@, image@);
    let nf = folded.len();
    let n = closure.len();
    proof {
        assert(keys.len() == nf + wanted.len());
    }
    let mut out: Vec<JournalEntryDto> = Vec::new();
    let mut seen: Vec<String> = Vec::new();
    for k in 0..nf
        invariant
            nf == folded@.len(),
            n == closure@.len(),
            keys == row_keys(folded@, closure@, image@),
            wanted == retracted_rows(closure@, image@),
            keys.len() == nf + wanted.len(),
            first_missing_before(folded@, closure@, k as int) is None,
            out@.len() == k,
            seen@.len() == k,
            forall|j: int| 0 <= j < k ==> #[trigger] seen@[j]@ == keys[j],
            forall|s: int| 0 <= s < out@.len() ==> #[trigger] placed(folded@, closure@, image@, out@, out@.len() as int, s),
    {
        let f = &folded[k];
        let id = folded_entry_id(f);
        let e = match find_event(closure, id) {
            Some(p) => p,
            None => {
                proof {
                    assert(first_missing_before(folded@, closure@, k + 1) == Some(k as int));
                    lemma_first_missing_stays(folded@, closure@, k + 1);
                }
                return Err(CmdError::Invalid(concat2("folded event missing from closure: ", id)));
            },
        };
        proof {
            lemma_find(closure@, id@);
        }
        let row = folded_row(f, &closure[e]);
        assert(keys[k as int] == folded_id(folded@[k as int]));
        let ghost before = out@;
        place(&mut out, &mut seen, row, Ghost(keys));
        proof {
            assert forall|s: int| 0 <= s < out@.len() implies #[trigger] placed(folded@, closure@, image@, out@, out@.len() as int, s) by {
                lemma_rank_bounds(keys, k as int, k as int);
                if s < k {
                    lemma_rank_insert(keys, k as int, s);
                    lemma_rank_bounds(keys, k as int, s);
                    assert(placed(folded@, closure@, image@, before, before.len() as int, s));
                } else {
                    lemma_rank_insert_last(keys, k as int);
                }
            }
        }
    }
    assert(first_missing(folded@, closure@) is None);
    let keep = kept_events(closure);
    let retracted = Retracted::of(closure, &keep);
    let mut w: usize = 0;
    for i in 0..n
        invariant
            nf == folded@.len(),
            n == closure@.len(),
            keep@.len() == n,
            forall|m: int| 0 <= m < n ==> keep@[m] == latest(closure@, m),
            retracted.holds(closure@),
            keys == row_keys(folded@, closure@, image@),
            wanted == retracted_rows(closure@, image@),
            keys.len() == nf + wanted.len(),
            retracted_rows_before(closure@, image@, i as int) == wanted.subrange(0, w as int),
            w <= wanted.len(),
            out@.len() == nf + w,
            seen@.len() == nf + w,
            forall|j: int| 0 <= j < nf + w ==> #[trigger] seen@[j]@ == keys[j],
            forall|s: int| 0 <= s < out@.len() ==> #[trigger] placed(folded@, closure@, image@, out@, out@.len() as int, s),
    {
        proof {
            lemma_rows_prefix(closure@, image@, i + 1, n as int);
        }
        let e = &closure[i];
        let content = match e.kind {
            EventKind::Remark | EventKind::Rating | EventKind::Stroke => true,
            _ => false,
        };
        let gone = retracted.contains(e.id.as_str());
        let about = lists(&e.targets, image);
        proof {
            assert(listed(retracted.ids@, e.id@) <==> is_retracted(closure@, e.id@));
        }
        if keep[i] && content && gone && about {
            assert(shows_retracted(closure@, i as int, image@));
            let row = retracted_row(closure, &keep, &retracted, e);
            let ghost m = nf + w;
            assert(retracted_rows_before(closure@, image@, i + 1) == wanted.subrange(0, w as int).push(i as int));
            assert(wanted.subrange(0, w + 1)[w as int] == wanted[w as int]);
            assert(wanted[w as int] == i);
            assert(keys[m] == closure@[i as int].id@);
            let ghost before = out@;
            place(&mut out, &mut seen, row, Ghost(keys));
            proof {
                assert forall|s: int| 0 <= s < out@.len() implies #[trigger] placed(folded@, closure@, image@, out@, out@.len() as int, s) by {
                    lemma_rank_bounds(keys, m, m);
                    if s < m {
                        lemma_rank_insert(keys, m, s);
                        lemma_rank_bounds(keys, m, s);
                        assert(placed(folded@, closure@, image@, before, before.len() as int, s));
                    } else {
                        lemma_rank_insert_last(keys, m);
                    }
                }
                assert(wanted.subrange(0, w + 1) =~= wanted.subrange(0, w as int).push(i as int));
            }
            w += 1;
        }
    }
    proof {
        assert(wanted.subrange(0, w as int) =~= wanted);
        assert forall|s: int| 0 <= s < out@.len() implies #[trigger] row_is(folded@, closure@, image@, s, out@[rank(keys, s)]) by {
            assert(placed(folded@, closure@, image@, out@, out@.len() as int, s));
        }
    }
    Ok(out)
}

// ---------------------------------------------------------------------------
// Redaction report
// ---------------------------------------------------------------------------

/// A volume as the library knows it.
#[derive(Debug, Clone)]
pub struct VolumeState {
    pub online: bool,
    pub label: Option<String>,
}

/// A path of an image whose sidecars a redaction queued for rewriting.
#[derive(Debug, Clone)]
pub struct QueuedPath {
    pub active: bool,
    pub volume_id: String,
    /// The path's volume, if the library knows it.
    pub volume: Option<VolumeState>,
}

/// The name the interface gives an offline volume a queued path waits on:
/// its label, else its id.
pub open spec fn pending_label(p: QueuedPath) -> Option<Seq<char>> {
    match p.volume {
        Some(v) => if p.active && !v.online {
            Some(
                match v.label {
                    Some(l) => l@,
                    None => p.volume_id@,
                },
            )
        } else {
            None
        },
        None => None,
    }
}

/// The events a redaction scrubbed: the target of each marker it minted
/// whose event could be read, in order.
pub open spec fn scrubbed_ids(targets: Seq<Option<String>>) -> Seq<Seq<char>>
    decreases targets.len(),
{
    if targets.len() == 0 {
        Seq::empty()
    } else {
        let prev = scrubbed_ids(targets.drop_last());
        match targets.last() {
            Some(t) => prev.push(t@),
            None => prev,
        }
    }
}

/// The receipt of a redaction as the interface shows it: the scrubbed event
/// ids (each marker's target, in order), how many sidecars were rewritten
/// at once (adjacent ones and session journals), and the names of the
/// offline volumes whose sidecars wait for the next mount, sorted, each
/// once.
pub fn redact_report(
    marker_targets: &Vec<Option<String>>,
    queued: &Vec<QueuedPath>,
    adjacent_rewritten: usize,
    journals_rewritten: usize,
) -> (r: RedactReportDto)
    requires
        adjacent_rewritten + journals_rewritten <= usize::MAX,
    ensures
        views(r.redacted@) == scrubbed_ids(marker_targets@),
        r.sidecars_updated == adjacent_rewritten + journals_rewritten,
        sorted_strict(views(r.offline_pending@)),
        forall|l: Seq<char>| #[trigger] views(r.offline_pending@).contains(l) <==> exists|k: int|
            0 <= k < queued@.len() && pending_label(#[trigger] queued@[k]) == Some(l),
{
    let mut redacted: Vec<String> = Vec::new();
    let nm = marker_targets.len();
    for i in 0..nm
        invariant
            nm == marker_targets@.len(),
            views(redacted@) == scrubbed_ids(marker_targets@.subrange(0, i as int)),
    {
        proof {
            assert(marker_targets@.subrange(0, i + 1).drop_last() =~= marker_targets@.subrange(0, i as int));
        }
        match &marker_targets[i] {
            Some(t) => {
                redacted.push(t.clone());
                proof {
                    assert(views(redacted@) =~= scrubbed_ids(marker_targets@.subrange(0, i as int)).push(t@));
                }
            },
            None => {},
        }
    }
    proof {
        assert(marker_targets@.subrange(0, nm as int) =~= marker_targets@);
    }
    let mut pending: Vec<String> = Vec::new();
    let nq = queued.len();
    for k in 0..nq
        invariant
            nq == queued@.len(),
            sorted_strict(views(pending@)),
            forall|l: Seq<char>| #[trigger] views(pending@).contains(l) <==> exists|j: int|
                0 <= j < k && pending_label(#[trigger] queued@[j]) == Some(l),
    {
        let q = &queued[k];
        let ghost before = views(pending@);
        match &q.volume {
            Some(v) => {
                if q.active && !v.online {
                    let name = match &v.label {
                        Some(l) => l.clone(),
                        None => q.volume_id.clone(),
                    };
                    insert_sorted(&mut pending, name);
                }
            },
            None => {},
        }
        proof {
            assert forall|l: Seq<char>| #[trigger] views(pending@).contains(l) <==> exists|j: int|
                0 <= j < k + 1 && pending_label(#[trigger] queued@[j]) == Some(l) by {
                if exists|j: int| 0 <= j < k + 1 && pending_label(#[trigger] queued@[j]) == Some(l) {
                    let j = choose|j: int| 0 <= j < k + 1 && pending_label(#[trigger] queued@[j]) == Some(l);
                    if j < k {
                        assert(before.contains(l));
                    }
                }
                if views(pending@).contains(l) && !before.contains(l) {
                    assert(pending_label(queued@[k as int]) == Some(l));
                }
            }
        }
    }
    RedactReportDto {
        redacted,
        sidecars_updated: adjacent_rewritten + journals_rewritten,
        offline_pending: pending,
    }
}

// ---------------------------------------------------------------------------
// Metadata tab
// ---------------------------------------------------------------------------

/// The display preview of an image, when one was made.
#[derive(Debug, Clone)]
pub struct PreviewArtifactState {
    /// Where the preview came from.
    pub source: String,
    /// The preview still waits for a full decode.
    pub needs_full_decode: bool,
}

/// What the metadata tab shows of where an image lives and of its preview.
#[derive(Debug, Clone)]
pub struct MetadataView {
    pub file_name: String,
    pub rel_path: String,
    pub abs_path: Option<String>,
    pub preview_source: Option<String>,
    pub preview_pending: bool,
}

/// The file name of a volume-relative path: the text after its last
/// separator.
pub open spec fn file_name_of(rel: Seq<char>) -> Seq<char> {
    rel.subrange(last_slash(rel) + 1, rel.len() as int)
}

/// The metadata tab's file identity and preview state: the best path's
/// volume-relative path and file name (empty when the image has no known
/// path), its absolute path while the volume is online and mounted, and the
/// display preview's source; the preview is pending while there is none or
/// it still waits for a full decode.
pub fn metadata_view(best: Option<BestPath>, artifact: Option<PreviewArtifactState>) -> (r: MetadataView)
    ensures
        match best {
            None => r.rel_path@.len() == 0 && r.file_name@.len() == 0 && r.abs_path is None,
            Some(b) => {
                &&& r.rel_path == b.rel_path
                &&& r.file_name@ == file_name_of(b.rel_path@)
                &&& match (b.online, b.mount_point) {
                    (true, Some(m)) => r.abs_path matches Some(p) && p@ == spec_join_mount(m@, b.rel_path@),
                    _ => r.abs_path is None,
                }
            },
        },
        match artifact {
            None => r.preview_source is None && r.preview_pending,
            Some(a) => r.preview_source == Some(a.source) && r.preview_pending == a.needs_full_decode,
        },
{
    let (rel_path, abs_path) = match best {
        Some(b) => {
            let abs = if b.online {
                match &b.mount_point {
                    Some(m) => Some(join_mount(m.as_str(), b.rel_path.as_str())),
                    None => None,
                }
            } else {
                None
            };
            (b.rel_path, abs)
        },
        None => (String::new(), None),
    };
    let n = rel_path.as_str().unicode_len();
    proof {
        assert(rel_path@.subrange(0, n as int) =~= rel_path@);
    }
    let file_name = match last_slash_before(rel_path.as_str(), n) {
        Some(i) => String::from_str(rel_path.as_str().substring_char(i + 1, n)),
        None => String::from_str(rel_path.as_str()),
    };
    proof {
        if last_slash(rel_path@) == -1 {
            assert(rel_path@.subrange(0, rel_path@.len() as int) =~= rel_path@);
        }
    }
    let (preview_source, preview_pending) = match artifact {
        Some(a) => (Some(a.source), a.needs_full_decode),
        None => (None, true),
    };
    MetadataView { file_name, rel_path, abs_path, preview_source, preview_pending }
}

} // verus!
