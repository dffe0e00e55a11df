//! Admission and shutdown ownership for finite IPC command work.
//!
//! Every command that can touch application state takes a permit from this
//! registry before it runs. Shutdown closes admission first and then reports
//! which admitted commands have not yet released their permits. The registry
//! is plain state behind `&mut self`; the shell keeps it behind a mutex and a
//! condition variable and waits for releases between reports.
use vstd::prelude::*;

verus! {

#[derive(Debug, Clone, Copy, PartialEq, Eq, Structural)]
pub enum CommandClass {
    Read,
    Mutation,
}

/// One admitted, not yet released command.
#[derive(Debug, Clone, Copy)]
pub struct CommandWorkSnapshot {
    pub id: u64,
    pub name: &'static str,
    pub class: CommandClass,
    pub started_at_ms: u64,
}

/// Admission was refused because shutdown has begun.
#[derive(Debug, Clone, Copy, PartialEq, Eq)]
pub struct CommandAdmissionClosed;

#[derive(Debug, Clone, PartialEq, Eq)]
pub struct CommandShutdownReport {
    pub acknowledged: bool,
    pub remaining: Vec<&'static str>,
}

/// Proof that a command was admitted; hand it back with `release`.
#[derive(Debug)]
pub struct CommandWorkPermit {
    pub id: u64,
}

pub struct CommandWorkRegistry {
    accepting: bool,
    next_id: u64,
    active: Vec<CommandWorkSnapshot>,
}

/// The ids of `s` strictly increase (so each id occurs once).
pub open spec fn ids_sorted(s: Seq<CommandWorkSnapshot>) -> bool {
    forall|i: int, j: int| 0 <= i < j < s.len() ==> #[trigger] s[i].id < #[trigger] s[j].id
}

/// Some entry of `s` carries id `k`.
pub open spec fn has_id(s: Seq<CommandWorkSnapshot>, k: u64) -> bool {
    exists|i: int| 0 <= i < s.len() && #[trigger] s[i].id == k
}

/// `s` holds the entry `e` (with all of its fields).
pub open spec fn holds(s: Seq<CommandWorkSnapshot>, e: CommandWorkSnapshot) -> bool {
    exists|i: int| 0 <= i < s.len() && #[trigger] s[i] == e
}

/// The id after `id` in admission order: `wrapping_add(1).max(1)`.
pub open spec fn successor_id(id: u64) -> u64 {
    if id == u64::MAX { 1 } else { (id + 1) as u64 }
}

impl CommandWorkRegistry {
    pub closed spec fn wf(&self) -> bool {
        &&& self.next_id >= 1
        &&& ids_sorted(self.active@)
    }

    /// Admitted and unreleased work, ordered by id.
    pub closed spec fn active(&self) -> Seq<CommandWorkSnapshot> {
        self.active@
    }

    pub closed spec fn accepting(&self) -> bool {
        self.accepting
    }

    /// The id the next admission will receive.
    pub closed spec fn next_id(&self) -> u64 {
        self.next_id
    }

    /// Admitted work is listed in admission order, each id once, and ids
    /// start at one.
    pub proof fn law_active_work_in_admission_order(&self)
        requires
            self.wf(),
        ensures
            ids_sorted(self.active()),
            self.next_id() >= 1,
    {
    }

    /// A fresh registry: accepting, nothing active, first id 1.
    pub fn new() -> (r: Self)
        ensures
            r.wf(),
            r.accepting(),
            r.next_id() == 1,
            r.active().len() == 0,
    {
        CommandWorkRegistry { accepting: true, next_id: 1, active: Vec::new() }
    }

    /// Accept one unit of command work started at `started_at_ms`.
    pub fn admit_command(&mut self, name: &'static str, class: CommandClass, started_at_ms: u64) -> (r:
        Result<CommandWorkPermit, CommandAdmissionClosed>)
        requires
            old(self).wf(),
        ensures
            final(self).wf(),
            final(self).accepting() == old(self).accepting(),
            r is Err <==> !old(self).accepting(),
            r is Err ==> final(self).active() == old(self).active() && final(self).next_id()
                == old(self).next_id(),
            r matches Ok(permit) ==> {
                let e = CommandWorkSnapshot {
                    id: permit.id,
                    name,
                    class,
                    started_at_ms,
                };
                &&& permit.id == old(self).next_id()
                &&& final(self).next_id() == successor_id(old(self).next_id())
                &&& holds(final(self).active(), e)
                &&& forall|k: u64| #[trigger]
                    has_id(final(self).active(), k) <==> (has_id(old(self).active(), k) || k
                        == permit.id)
                &&& forall|x: CommandWorkSnapshot|
                    x.id != permit.id ==> (#[trigger] holds(final(self).active(), x) <==> holds(
                        old(self).active(),
                        x,
                    ))
            },
    {
        if !self.accepting {
            return Err(CommandAdmissionClosed);
        }
        let id = self.next_id;
        self.next_id = if id == u64::MAX { 1 } else { id + 1 };
        let entry = CommandWorkSnapshot { id, name, class, started_at_ms };
        let ghost before = self.active@;
        let len = self.active.len();
        let mut p: usize = 0;
        while p < len && self.active[p].id < id
            invariant
                len == self.active.len(),
                self.active@ == before,
                ids_sorted(before),
                p <= len,
                forall|i: int| 0 <= i < p ==> #[trigger] before[i].id < id,
            decreases len - p,
        {
            p += 1;
        }
        if p < len && self.active[p].id == id {
            self.active.set(p, entry);
            proof {
                let after = self.active@;
                assert(after == before.update(p as int, entry));
                assert forall|k: u64| #[trigger]
                    has_id(after, k) <==> (has_id(before, k) || k == id) by {
                    if has_id(before, k) {
                        let i = choose|i: int| 0 <= i < before.len() && #[trigger] before[i].id == k;
                        if i != p {
                            assert(after[i].id == k);
                        } else {
                            assert(after[p as int].id == k);
                        }
                    }
                    if k == id {
                        assert(after[p as int].id == k);
                    }
                    if has_id(after, k) {
                        let i = choose|i: int| 0 <= i < after.len() && #[trigger] after[i].id == k;
                        if i != p {
                            assert(before[i].id == k);
                        }
                    }
                }
                assert forall|x: CommandWorkSnapshot|
                    x.id != id implies (#[trigger] holds(after, x) <==> holds(before, x)) by {
                    if holds(after, x) {
                        let i = choose|i: int| 0 <= i < after.len() && #[trigger] after[i] == x;
                        assert(i != p);
                        assert(before[i] == x);
                    }
                    if holds(before, x) {
                        let i = choose|i: int| 0 <= i < before.len() && #[trigger] before[i] == x;
                        assert(i != p);
                        assert(after[i] == x);
                    }
                }
                assert(after[p as int] == entry);
            }
        } else {
            self.active.insert(p, entry);
            proof {
                let after = self.active@;
                assert(after == before.insert(p as int, entry));
                assert forall|i: int, j: int|
                    0 <= i < j < after.len() implies #[trigger] after[i].id < #[trigger] after[j].id by {
                    if i < p && j == p {
                    } else if i == p {
                        assert(after[j] == before[j - 1]);
                        if p < before.len() {
                            assert(before[p as int].id >= id);
                            assert(before[p as int].id != id);
                            if j - 1 > p {
                                assert(before[p as int].id < before[j - 1].id);
                            }
                        }
                    }
                }
                assert forall|k: u64| #[trigger]
                    has_id(after, k) <==> (has_id(before, k) || k == id) by {
                    if has_id(before, k) {
                        let i = choose|i: int| 0 <= i < before.len() && #[trigger] before[i].id == k;
                        if i < p {
                            assert(after[i].id == k);
                        } else {
                            assert(after[i + 1].id == k);
                        }
                    }
                    if k == id {
                        assert(after[p as int].id == k);
                    }
                    if has_id(after, k) {
                        let i = choose|i: int| 0 <= i < after.len() && #[trigger] after[i].id == k;
                        if i < p {
                            assert(before[i].id == k);
                        } else if i > p {
                            assert(before[i - 1].id == k);
                        }
                    }
                }
                assert forall|x: CommandWorkSnapshot|
                    x.id != id implies (#[trigger] holds(after, x) <==> holds(before, x)) by {
                    if holds(after, x) {
                        let i = choose|i: int| 0 <= i < after.len() && #[trigger] after[i] == x;
                        if i < p {
                            assert(before[i] == x);
                        } else {
                            assert(i != p);
                            assert(before[i - 1] == x);
                        }
                    }
                    if holds(before, x) {
                        let i = choose|i: int| 0 <= i < before.len() && #[trigger] before[i] == x;
                        if i < p {
                            assert(after[i] == x);
                        } else {
                            assert(after[i + 1] == x);
                        }
                    }
                }
                assert(after[p as int] == entry);
            }
        }
        Ok(CommandWorkPermit { id })
    }

    /// Release the permit of finished command work.
    pub fn release(&mut self, permit: CommandWorkPermit)
        requires
            old(self).wf(),
        ensures
            final(self).wf(),
            final(self).accepting() == old(self).accepting(),
            final(self).next_id() == old(self).next_id(),
            !has_id(final(self).active(), permit.id),
            forall|k: u64| #[trigger]
                has_id(final(self).active(), k) <==> (has_id(old(self).active(), k) && k
                    != permit.id),
            forall|x: CommandWorkSnapshot|
                x.id != permit.id ==> (#[trigger] holds(final(self).active(), x) <==> holds(
                    old(self).active(),
                    x,
                )),
    {
        let id = permit.id;
        let ghost before = self.active@;
        let len = self.active.len();
        let mut p: usize = 0;
        while p < len && self.active[p].id != id
            invariant
                len == self.active.len(),
                self.active@ == before,
                p <= len,
                forall|i: int| 0 <= i < p ==> #[trigger] before[i].id != id,
            decreases len - p,
        {
            p += 1;
        }
        if p < len {
            self.active.remove(p);
            proof {
                let after = self.active@;
                assert(after == before.remove(p as int));
                assert forall|i: int, j: int|
                    0 <= i < j < after.len() implies #[trigger] after[i].id < #[trigger] after[j].id by {
                    if i < p && j >= p {
                        assert(after[j] == before[j + 1]);
                    } else if i >= p {
                        assert(after[i] == before[i + 1]);
                        assert(after[j] == before[j + 1]);
                    }
                }
                assert forall|k: u64| #[trigger]
                    has_id(after, k) <==> (has_id(before, k) && k != id) by {
                    if has_id(before, k) && k != id {
                        let i = choose|i: int| 0 <= i < before.len() && #[trigger] before[i].id == k;
                        if i < p {
                            assert(after[i].id == k);
                        } else {
                            assert(i != p);
                            assert(after[i - 1].id == k);
                        }
                    }
                    if has_id(after, k) {
                        let i = choose|i: int| 0 <= i < after.len() && #[trigger] after[i].id == k;
                        if i < p {
                            assert(before[i].id == k);
                            assert(before[i].id < before[p as int].id);
                        } else {
                            assert(before[i + 1].id == k);
                            assert(before[p as int].id < before[i + 1].id);
                        }
                    }
                }
                assert forall|x: CommandWorkSnapshot|
                    x.id != id implies (#[trigger] holds(after, x) <==> holds(before, x)) by {
                    if holds(after, x) {
                        let i = choose|i: int| 0 <= i < after.len() && #[trigger] after[i] == x;
                        if i < p {
                            assert(before[i] == x);
                        } else {
                            assert(before[i + 1] == x);
                        }
                    }
                    if holds(before, x) {
                        let i = choose|i: int| 0 <= i < before.len() && #[trigger] before[i] == x;
                        if i < p {
                            assert(after[i] == x);
                        } else {
                            assert(i != p);
                            assert(after[i - 1] == x);
                        }
                    }
                }
                assert(!has_id(after, id));
            }
        } else {
            proof {
                assert(!has_id(before, id));
            }
        }
    }

    /// The admitted and unreleased work, ordered by id.
    pub fn snapshots(&self) -> (r: Vec<CommandWorkSnapshot>)
        requires
            self.wf(),
        ensures
            r@ == self.active(),
    {
        let mut r: Vec<CommandWorkSnapshot> = Vec::new();
        let len = self.active.len();
        for i in 0..len
            invariant
                len == self.active@.len(),
                r@ == self.active@.subrange(0, i as int),
        {
            r.push(self.active[i]);
            proof {
                assert(r@ =~= self.active@.subrange(0, i + 1));
            }
        }
        proof {
            assert(r@ =~= self.active@);
        }
        r
    }

    /// Close admission; every later `admit` is refused.
    pub fn begin_shutdown(&mut self)
        requires
            old(self).wf(),
        ensures
            final(self).wf(),
            !final(self).accepting(),
            final(self).active() == old(self).active(),
            final(self).next_id() == old(self).next_id(),
    {
        self.accepting = false;
    }

    /// Whether no admitted work is outstanding.
    pub fn is_idle(&self) -> (r: bool)
        ensures
            r == (self.active().len() == 0),
    {
        self.active.len() == 0
    }

    /// The report a shutdown gives now: acknowledged exactly when nothing is
    /// outstanding, and the names of the outstanding work in id order.
    pub fn shutdown_report(&self) -> (r: CommandShutdownReport)
        ensures
            r.acknowledged == (self.active().len() == 0),
            r.remaining@.len() == self.active().len(),
            forall|i: int| 0 <= i < r.remaining@.len() ==> #[trigger] r.remaining@[i] == self.active()[i].name,
    {
        let mut remaining: Vec<&'static str> = Vec::new();
        let len = self.active.len();
        for i in 0..len
            invariant
                len == self.active@.len(),
                remaining@.len() == i,
                forall|j: int| 0 <= j < i ==> #[trigger] remaining@[j] == self.active@[j].name,
        {
            remaining.push(self.active[i].name);
        }
        CommandShutdownReport { acknowledged: len == 0, remaining }
    }

    /// Close admission and report. With exclusive access no release can
    /// arrive while waiting, so the report is final for any `timeout`; the
    /// shell's shared registry waits on releases up to `timeout` itself.
    pub fn shutdown(&mut self, timeout: std::time::Duration) -> (r: CommandShutdownReport)
        requires
            old(self).wf(),
        ensures
            final(self).wf(),
            !final(self).accepting(),
            final(self).active() == old(self).active(),
            r.acknowledged == (old(self).active().len() == 0),
            r.remaining@.len() == old(self).active().len(),
            forall|i: int| 0 <= i < r.remaining@.len() ==> #[trigger] r.remaining@[i] == old(self).active()[i].name,
    {
        self.begin_shutdown();
        self.shutdown_report()
    }
}

impl Default for CommandWorkRegistry {
    fn default() -> (r: Self)
        ensures
            r.wf(),
            r.accepting(),
            r.next_id() == 1,
            r.active().len() == 0,
    {
        Self::new()
    }
}

} // verus!
