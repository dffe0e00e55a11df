//! One monotone application-state clock for cross-window convergence. Every
//! committed mutation advances the clock and stamps the affected domains with
//! the new revision; a window applies a catch-up snapshot only when its
//! revision is newer than the last one it committed.
use vstd::prelude::*;
use crate::os::CmdError;
use crate::settings::AppSettings;
use crate::dto::{CollectionDto, PreviewCacheStatsDto, RootDto, RuntimeStatus, TopicDto};

verus! {

#[derive(Debug, Clone, Copy, PartialEq, Eq, Structural)]
pub enum StateDomain {
    Settings,
    Roots,
    Collections,
    Topics,
    Runtime,
    PreviewCache,
}

#[derive(Debug, Clone, PartialEq, Eq)]
pub struct ApplicationStateChanged {
    pub revision: u64,
    pub domains: Vec<StateDomain>,
}

#[derive(Debug, Clone, Copy, PartialEq, Eq, Structural)]
pub struct ApplicationStateRevisions {
    pub settings: u64,
    pub roots: u64,
    pub collections: u64,
    pub topics: u64,
    pub runtime: u64,
    pub preview_cache: u64,
}

impl Default for ApplicationStateRevisions {
    fn default() -> (r: Self)
        ensures
            r == (ApplicationStateRevisions {
                settings: 0,
                roots: 0,
                collections: 0,
                topics: 0,
                runtime: 0,
                preview_cache: 0,
            }),
    {
        ApplicationStateRevisions {
            settings: 0,
            roots: 0,
            collections: 0,
            topics: 0,
            runtime: 0,
            preview_cache: 0,
        }
    }
}

/// The revision a domain carries in `r`.
pub open spec fn domain_revision(r: ApplicationStateRevisions, d: StateDomain) -> u64 {
    match d {
        StateDomain::Settings => r.settings,
        StateDomain::Roots => r.roots,
        StateDomain::Collections => r.collections,
        StateDomain::Topics => r.topics,
        StateDomain::Runtime => r.runtime,
        StateDomain::PreviewCache => r.preview_cache,
    }
}

/// `r` with domain `d` stamped `rev`.
pub open spec fn stamp(r: ApplicationStateRevisions, d: StateDomain, rev: u64) -> ApplicationStateRevisions {
    match d {
        StateDomain::Settings => ApplicationStateRevisions { settings: rev, ..r },
        StateDomain::Roots => ApplicationStateRevisions { roots: rev, ..r },
        StateDomain::Collections => ApplicationStateRevisions { collections: rev, ..r },
        StateDomain::Topics => ApplicationStateRevisions { topics: rev, ..r },
        StateDomain::Runtime => ApplicationStateRevisions { runtime: rev, ..r },
        StateDomain::PreviewCache => ApplicationStateRevisions { preview_cache: rev, ..r },
    }
}

pub proof fn lemma_stamp(r: ApplicationStateRevisions, d: StateDomain, rev: u64)
    ensures
        forall|e: StateDomain| #[trigger]
            domain_revision(stamp(r, d, rev), e) == if e == d {
                rev
            } else {
                domain_revision(r, e)
            },
{
    assert forall|e: StateDomain| #[trigger]
        domain_revision(stamp(r, d, rev), e) == if e == d {
            rev
        } else {
            domain_revision(r, e)
        } by {
        match d {
            StateDomain::Settings => {},
            StateDomain::Roots => {},
            StateDomain::Collections => {},
            StateDomain::Topics => {},
            StateDomain::Runtime => {},
            StateDomain::PreviewCache => {},
        }
        match e {
            StateDomain::Settings => {},
            StateDomain::Roots => {},
            StateDomain::Collections => {},
            StateDomain::Topics => {},
            StateDomain::Runtime => {},
            StateDomain::PreviewCache => {},
        }
    }
}

/// What a publication of `domains` does to a clock at `(rev, r)`: the clock
/// advances by one and exactly the named domains carry the new revision.
pub open spec fn published(
    rev: u64,
    r: ApplicationStateRevisions,
    domains: Seq<StateDomain>,
    rev2: u64,
    r2: ApplicationStateRevisions,
) -> bool {
    &&& rev2 == rev + 1
    &&& forall|d: StateDomain| #[trigger]
        domain_revision(r2, d) == if domains.contains(d) {
            rev2
        } else {
            domain_revision(r, d)
        }
}

/// No domain carries a revision beyond the clock.
pub open spec fn revisions_bounded(rev: u64, r: ApplicationStateRevisions) -> bool {
    forall|d: StateDomain| #[trigger] domain_revision(r, d) <= rev
}

#[derive(Debug)]
pub struct StateConvergence {
    revision: u64,
    revisions: ApplicationStateRevisions,
}

impl StateConvergence {
    pub closed spec fn revision(&self) -> u64 {
        self.revision
    }

    pub closed spec fn revisions(&self) -> ApplicationStateRevisions {
        self.revisions
    }

    pub closed spec fn wf(&self) -> bool {
        revisions_bounded(self.revision, self.revisions)
    }

    pub fn new() -> (r: Self)
        ensures
            r.wf(),
            r.revision() == 0,
            forall|d: StateDomain| #[trigger] domain_revision(r.revisions(), d) == 0,
    {
        StateConvergence { revision: 0, revisions: ApplicationStateRevisions::default() }
    }

    /// The committed clock and the per-domain revisions.
    pub fn snapshot(&self) -> (r: (u64, ApplicationStateRevisions))
        ensures
            r == (self.revision(), self.revisions()),
    {
        (self.revision, self.revisions)
    }

    /// Advance the clock for a committed mutation of `domains`; the returned
    /// event carries the new revision and the domains in the order given.
    pub fn publish(&mut self, domains: Vec<StateDomain>) -> (r: ApplicationStateChanged)
        requires
            old(self).wf(),
            old(self).revision() < u64::MAX,
        ensures
            final(self).wf(),
            published(
                old(self).revision(),
                old(self).revisions(),
                domains@,
                final(self).revision(),
                final(self).revisions(),
            ),
            r.revision == final(self).revision(),
            r.domains@ == domains@,
    {
        let revision = self.revision + 1;
        let ghost start = self.revisions;
        let mut revs = self.revisions;
        let n = domains.len();
        for i in 0..n
            invariant
                n == domains@.len(),
                revision == old(self).revision() + 1,
                revisions_bounded(revision, revs),
                forall|d: StateDomain| #[trigger]
                    domain_revision(revs, d) == if domains@.subrange(0, i as int).contains(d) {
                        revision
                    } else {
                        domain_revision(start, d)
                    },
        {
            let d = domains[i];
            let ghost prev = revs;
            match d {
                StateDomain::Settings => revs.settings = revision,
                StateDomain::Roots => revs.roots = revision,
                StateDomain::Collections => revs.collections = revision,
                StateDomain::Topics => revs.topics = revision,
                StateDomain::Runtime => revs.runtime = revision,
                StateDomain::PreviewCache => revs.preview_cache = revision,
            }
            proof {
                assert(revs == stamp(prev, d, revision));
                lemma_stamp(prev, d, revision);
                assert forall|e: StateDomain| #[trigger]
                    domains@.subrange(0, i + 1).contains(e) <==> (domains@.subrange(
                        0,
                        i as int,
                    ).contains(e) || e == d) by {
                    let pre = domains@.subrange(0, i as int);
                    let post = domains@.subrange(0, i + 1);
                    if post.contains(e) {
                        let k = choose|k: int| 0 <= k < post.len() && post[k] == e;
                        if k < i {
                            assert(pre[k] == e);
                        }
                    }
                    if pre.contains(e) {
                        let k = choose|k: int| 0 <= k < pre.len() && pre[k] == e;
                        assert(post[k] == e);
                    }
                    if e == d {
                        assert(post[i as int] == e);
                    }
                }
            }
        }
        proof {
            assert(domains@.subrange(0, n as int) =~= domains@);
        }
        self.revision = revision;
        self.revisions = revs;
        ApplicationStateChanged { revision, domains }
    }
}

impl Default for StateConvergence {
    fn default() -> (r: Self)
        ensures
            r.wf(),
            r.revision() == 0,
            forall|d: StateDomain| #[trigger] domain_revision(r.revisions(), d) == 0,
    {
        Self::new()
    }
}

/// Publication is monotone: the clock strictly grows, no domain revision ever
/// decreases, and a named domain always equals the clock afterwards.
pub proof fn law_publication_is_monotone(
    rev: u64,
    r: ApplicationStateRevisions,
    domains: Seq<StateDomain>,
    rev2: u64,
    r2: ApplicationStateRevisions,
)
    requires
        revisions_bounded(rev, r),
        published(rev, r, domains, rev2, r2),
    ensures
        rev2 > rev,
        revisions_bounded(rev2, r2),
        forall|d: StateDomain| #[trigger] domain_revision(r2, d) >= domain_revision(r, d),
        forall|d: StateDomain| domains.contains(d) ==> #[trigger] domain_revision(r2, d) == rev2,
{
    assert forall|d: StateDomain| #[trigger] domain_revision(r2, d) >= domain_revision(r, d) by {
        assert(domain_revision(r, d) <= rev);
    }
    assert forall|d: StateDomain| #[trigger] domain_revision(r2, d) <= rev2 by {
        assert(domain_revision(r, d) <= rev);
    }
}

/// A catch-up snapshot assembled between two clock readings is consistent
/// only when the clock did not move in between.
pub fn snapshot_is_stable(
    before: (u64, ApplicationStateRevisions),
    after: (u64, ApplicationStateRevisions),
) -> (r: bool)
    ensures
        r == (before == after),
{
    before.0 == after.0 && before.1 == after.1
}


/// How many times a catch-up snapshot is assembled before giving up.
pub const SNAPSHOT_STABILITY_ATTEMPTS: usize = 8;

/// What to do after assembling a catch-up snapshot.
#[derive(Debug, Clone)]
pub enum SnapshotStep {
    /// The revision clock did not move: the snapshot is consistent.
    Accept,
    /// The clock moved; assemble it again.
    Retry,
    /// The clock kept moving for every attempt.
    GiveUp(CmdError),
}

/// After attempt `attempt` (counting from zero) read the clock `before` and
/// `after` assembling a snapshot: accept a stable one, retry an unstable
/// one, and give up once every attempt was unstable.
pub fn snapshot_step(
    attempt: usize,
    before: (u64, ApplicationStateRevisions),
    after: (u64, ApplicationStateRevisions),
) -> (r: SnapshotStep)
    requires
        attempt < SNAPSHOT_STABILITY_ATTEMPTS,
    ensures
        before == after ==> r is Accept,
        (before != after && attempt + 1 < SNAPSHOT_STABILITY_ATTEMPTS) ==> r is Retry,
        (before != after && attempt + 1 == SNAPSHOT_STABILITY_ATTEMPTS) ==> (r matches SnapshotStep::GiveUp(
            CmdError::Unavailable(m),
        ) && m@ == "application state is changing; retry the snapshot"@),
{
    if snapshot_is_stable(before, after) {
        SnapshotStep::Accept
    } else if attempt + 1 < SNAPSHOT_STABILITY_ATTEMPTS {
        SnapshotStep::Retry
    } else {
        SnapshotStep::GiveUp(CmdError::Unavailable(String::from_str("application state is changing; retry the snapshot")))
    }
}

/// The versioned catch-up snapshot every window converges from.
#[derive(Debug, Clone)]
pub struct ApplicationStateSnapshot {
    pub revision: u64,
    pub revisions: ApplicationStateRevisions,
    pub settings: AppSettings,
    pub roots: Vec<RootDto>,
    pub archived_roots: Vec<RootDto>,
    pub collections: Vec<CollectionDto>,
    pub topics: Vec<TopicDto>,
    pub runtime: RuntimeStatus,
    pub preview_cache: PreviewCacheStatsDto,
}

} // verus!
