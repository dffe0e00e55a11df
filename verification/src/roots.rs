//! The library's roots as the interface shows them, and the decisions of
//! adding a root: register it, persist the policy it is processed with,
//! start its initial scan when the policy asks for one, watch it, and
//! describe it. A failed step after registration rolls the root back so no
//! active root is left without its processing contract.
use vstd::prelude::*;
use crate::dto::{AddRootOutcome, RootDto};
use crate::health::{root_display_name, spec_root_display_name, RootRecord};
use crate::os::{trim_end_len, trim_end_slashes, CmdError};
use crate::settings::{NewRootPolicy, SettingsChange};
use crate::text::{concat2, concat3, str_eq};
use crate::doctor::{join_texts, joined};

verus! {

/// The absolute directory of a root under its volume's mount point: the
/// mount itself for a root at the top of the volume, otherwise the mount
/// without trailing separators, a separator, and the root's path.
pub open spec fn spec_root_abs_path(mount: Option<Seq<char>>, rel: Seq<char>) -> Option<Seq<char>> {
    match mount {
        None => None,
        Some(m) => Some(if rel.len() == 0 { m } else { trim_end_slashes(m) + "/"@ + rel }),
    }
}

pub fn root_abs_path(mount: Option<&str>, rel: &str) -> (r: Option<String>)
    ensures
        opt_text(r) == spec_root_abs_path(opt_str(mount), rel@),
{
    match mount {
        None => None,
        Some(m) => {
            if rel.unicode_len() == 0 {
                Some(String::from_str(m))
            } else {
                let n = m.unicode_len();
                proof {
                    assert(m@.subrange(0, n as int) =~= m@);
                }
                let k = trim_end_len(m, n);
                Some(concat3(m.substring_char(0, k), "/", rel))
            }
        },
    }
}

pub open spec fn opt_text(o: Option<String>) -> Option<Seq<char>> {
    match o {
        Some(s) => Some(s@),
        None => None,
    }
}

pub open spec fn opt_str(o: Option<&str>) -> Option<Seq<char>> {
    match o {
        Some(s) => Some(s@),
        None => None,
    }
}

/// A root's volume as its record reads: online or not, and where it is
/// mounted.
#[derive(Debug, Clone)]
pub struct RootVolume {
    pub online: bool,
    pub mount_point: Option<String>,
}

pub open spec fn root_dto_is(d: RootDto, root: RootRecord, volume: Option<RootVolume>) -> bool {
    let (online, mount) = match volume {
        Some(v) => (v.online, opt_text(v.mount_point)),
        None => (false, None),
    };
    &&& d.root_id == root.root_id
    &&& d.display_name@ == spec_root_display_name(root)
    &&& d.rel_path == root.rel_path
    &&& d.volume_id == root.volume_id
    &&& d.online == online
    &&& opt_text(d.abs_path) == spec_root_abs_path(mount, root.rel_path@)
    &&& d.archived == (root.state@ == "archived"@)
}

/// A root as the interface lists it; a root whose volume has no record is
/// offline with no absolute path.
pub fn root_dto(root: &RootRecord, volume: &Option<RootVolume>) -> (d: RootDto)
    ensures
        root_dto_is(d, *root, *volume),
{
    let (online, abs_path) = match volume {
        Some(v) => {
            let mount = match &v.mount_point {
                Some(m) => Some(m.as_str()),
                None => None,
            };
            (v.online, root_abs_path(mount, root.rel_path.as_str()))
        },
        None => (false, None),
    };
    RootDto {
        root_id: root.root_id.clone(),
        display_name: root_display_name(root),
        rel_path: root.rel_path.clone(),
        volume_id: root.volume_id.clone(),
        online,
        abs_path,
        archived: str_eq(root.state.as_str(), "archived"),
    }
}

/// Whether a root added under `policy` is walked at once.
pub fn initial_scan_wanted(policy: NewRootPolicy) -> (r: bool)
    ensures
        r == (policy != NewRootPolicy::ProcessLater),
{
    match policy {
        NewRootPolicy::ProcessNow | NewRootPolicy::PreviewOnly => true,
        NewRootPolicy::ProcessLater => false,
    }
}

// ---------------------------------------------------------------------------
// Adding a root
// ---------------------------------------------------------------------------

/// How registering the folder went.
#[derive(Debug)]
pub enum RegisterOutcome {
    Registered { root_id: String },
    /// The folder overlaps an active root, which the rail navigates to.
    Overlapping { existing_root_id: String },
    Failed(CmdError),
}

#[derive(Debug, Clone, Copy, PartialEq, Eq, Structural)]
pub enum AddRootStage {
    Registering,
    PersistingPolicy,
    StartingScan,
    RollingBack,
    Watching,
    Describing,
    Done,
}

/// What the caller observed for the current stage.
#[derive(Debug)]
pub enum AddRootEvent {
    /// The folder was registered (or not), with the settings' default
    /// policy for new roots at that moment.
    Registered { outcome: RegisterOutcome, default_policy: NewRootPolicy },
    /// Persisting the root's policy failed with this error, or succeeded.
    PolicyPersisted { failure: Option<CmdError> },
    /// Starting the initial scan failed with this error, or succeeded.
    ScanStarted { failure: Option<String> },
    /// Rolling the new root back failed with this error, or succeeded.
    RolledBack { failure: Option<CmdError> },
    /// The watcher was started, or could not be (polled rescans still run).
    WatcherStarted,
    /// The registered root as listed, `None` when it vanished, or the error
    /// of looking it up.
    Described(Result<Option<RootDto>, CmdError>),
}

/// What the caller does next.
#[derive(Debug)]
pub enum AddRootAction {
    /// Persist this settings change and publish it only once persisted.
    Persist(SettingsChange),
    /// Remove the registered root, ignoring a failure to do so.
    RemoveRoot { root_id: String },
    /// Start the root's initial scan.
    StartScan { root_id: String },
    /// Stop watching and remove the root, then forget its policy.
    RollBack { root_id: String },
    StartWatcher { root_id: String },
    Describe { root_id: String },
    /// The command's answer.
    Finish(Result<AddRootOutcome, CmdError>),
}

/// An add-root command in progress.
#[derive(Debug)]
pub struct AddRoot {
    pub requested: Option<NewRootPolicy>,
    pub stage: AddRootStage,
    pub root_id: String,
    pub policy: NewRootPolicy,
    pub scan_failure: String,
}

pub open spec fn finishes_with_error(a: AddRootAction, e: CmdError) -> bool {
    a matches AddRootAction::Finish(Err(x)) && x == e
}

pub open spec fn event_fits(stage: AddRootStage, event: AddRootEvent) -> bool {
    match event {
        AddRootEvent::Registered { .. } => stage == AddRootStage::Registering,
        AddRootEvent::PolicyPersisted { .. } => stage == AddRootStage::PersistingPolicy,
        AddRootEvent::ScanStarted { .. } => stage == AddRootStage::StartingScan,
        AddRootEvent::RolledBack { .. } => stage == AddRootStage::RollingBack,
        AddRootEvent::WatcherStarted => stage == AddRootStage::Watching,
        AddRootEvent::Described(_) => stage == AddRootStage::Describing,
    }
}

fn one(a: AddRootAction) -> (v: Vec<AddRootAction>)
    ensures
        v@ == seq![a],
{
    let mut v: Vec<AddRootAction> = Vec::new();
    v.push(a);
    proof {
        assert(v@ =~= seq![a]);
    }
    v
}

impl AddRoot {
    /// The command begins by registering the folder.
    pub fn begin(requested: Option<NewRootPolicy>) -> (a: Self)
        ensures
            a.requested == requested,
            a.stage == AddRootStage::Registering,
    {
        AddRoot {
            requested,
            stage: AddRootStage::Registering,
            root_id: String::new(),
            policy: NewRootPolicy::ProcessNow,
            scan_failure: String::new(),
        }
    }

    /// Take the outcome of the current stage and say what to do next.
    pub fn step(&mut self, event: AddRootEvent) -> (actions: Vec<AddRootAction>)
        requires
            event_fits(old(self).stage, event),
        ensures
            final(self).requested == old(self).requested,
            match event {
                AddRootEvent::Registered { outcome, default_policy } => match outcome {
                    RegisterOutcome::Registered { root_id } => {
                        let effective = match old(self).requested {
                            Some(p) => p,
                            None => default_policy,
                        };
                        &&& final(self).stage == AddRootStage::PersistingPolicy
                        &&& final(self).root_id == root_id
                        &&& final(self).policy == effective
                        &&& actions@.len() == 1
                        &&& actions@[0] matches AddRootAction::Persist(SettingsChange::RootPolicy { root_id: r, policy: p })
                            && r == root_id && p == Some(effective)
                    },
                    RegisterOutcome::Overlapping { existing_root_id } => {
                        &&& final(self).stage == AddRootStage::Done
                        &&& actions@.len() == 1
                        &&& actions@[0] matches AddRootAction::Finish(Ok(AddRootOutcome::Overlap { existing_root_id: x }))
                            && x == existing_root_id
                    },
                    RegisterOutcome::Failed(e) => {
                        &&& final(self).stage == AddRootStage::Done
                        &&& actions@.len() == 1
                        &&& finishes_with_error(actions@[0], e)
                    },
                },
                AddRootEvent::PolicyPersisted { failure } => match failure {
                    Some(e) => {
                        &&& final(self).stage == AddRootStage::Done
                        &&& actions@.len() == 2
                        &&& actions@[0] matches AddRootAction::RemoveRoot { root_id } && root_id == old(self).root_id
                        &&& finishes_with_error(actions@[1], e)
                    },
                    None => {
                        &&& final(self).root_id == old(self).root_id
                        &&& final(self).policy == old(self).policy
                        &&& actions@.len() == 1
                        &&& if old(self).policy != NewRootPolicy::ProcessLater {
                            &&& final(self).stage == AddRootStage::StartingScan
                            &&& actions@[0] matches AddRootAction::StartScan { root_id } && root_id == old(self).root_id
                        } else {
                            &&& final(self).stage == AddRootStage::Watching
                            &&& actions@[0] matches AddRootAction::StartWatcher { root_id } && root_id
                                == old(self).root_id
                        }
                    },
                },
                AddRootEvent::ScanStarted { failure } => {
                    &&& final(self).root_id == old(self).root_id
                    &&& actions@.len() == 1
                    &&& match failure {
                        Some(e) => {
                            &&& final(self).stage == AddRootStage::RollingBack
                            &&& final(self).scan_failure == e
                            &&& actions@[0] matches AddRootAction::RollBack { root_id } && root_id == old(self).root_id
                        },
                        None => {
                            &&& final(self).stage == AddRootStage::Watching
                            &&& actions@[0] matches AddRootAction::StartWatcher { root_id } && root_id
                                == old(self).root_id
                        },
                    }
                },
                AddRootEvent::RolledBack { failure } => {
                    &&& final(self).stage == AddRootStage::Done
                    &&& actions@.len() == 1
                    &&& match failure {
                        Some(e) => finishes_with_error(actions@[0], e),
                        None => actions@[0] matches AddRootAction::Finish(Err(CmdError::Unavailable(m))) && m@
                            == "could not start initial folder scan: "@ + old(self).scan_failure@,
                    }
                },
                AddRootEvent::WatcherStarted => {
                    &&& final(self).stage == AddRootStage::Describing
                    &&& final(self).root_id == old(self).root_id
                    &&& actions@.len() == 1
                    &&& actions@[0] matches AddRootAction::Describe { root_id } && root_id == old(self).root_id
                },
                AddRootEvent::Described(found) => {
                    &&& final(self).stage == AddRootStage::Done
                    &&& actions@.len() == 1
                    &&& match found {
                        Ok(Some(d)) => actions@[0] matches AddRootAction::Finish(Ok(AddRootOutcome::Added { root }))
                            && root == d,
                        Ok(None) => actions@[0] matches AddRootAction::Finish(Err(CmdError::Invalid(m))) && m@
                            == "root vanished after register"@,
                        Err(e) => finishes_with_error(actions@[0], e),
                    }
                },
            },
    {
        match event {
            AddRootEvent::Registered { outcome, default_policy } => match outcome {
                RegisterOutcome::Registered { root_id } => {
                    let effective = match self.requested {
                        Some(p) => p,
                        None => default_policy,
                    };
                    self.stage = AddRootStage::PersistingPolicy;
                    self.policy = effective;
                    self.root_id = root_id.clone();
                    one(AddRootAction::Persist(SettingsChange::RootPolicy { root_id, policy: Some(effective) }))
                },
                RegisterOutcome::Overlapping { existing_root_id } => {
                    self.stage = AddRootStage::Done;
                    one(AddRootAction::Finish(Ok(AddRootOutcome::Overlap { existing_root_id })))
                },
                RegisterOutcome::Failed(e) => {
                    self.stage = AddRootStage::Done;
                    one(AddRootAction::Finish(Err(e)))
                },
            },
            AddRootEvent::PolicyPersisted { failure } => match failure {
                Some(e) => {
                    self.stage = AddRootStage::Done;
                    let mut v: Vec<AddRootAction> = Vec::new();
                    v.push(AddRootAction::RemoveRoot { root_id: self.root_id.clone() });
                    v.push(AddRootAction::Finish(Err(e)));
                    v
                },
                None => {
                    if initial_scan_wanted(self.policy) {
                        self.stage = AddRootStage::StartingScan;
                        one(AddRootAction::StartScan { root_id: self.root_id.clone() })
                    } else {
                        self.stage = AddRootStage::Watching;
                        one(AddRootAction::StartWatcher { root_id: self.root_id.clone() })
                    }
                },
            },
            AddRootEvent::ScanStarted { failure } => match failure {
                Some(e) => {
                    self.stage = AddRootStage::RollingBack;
                    self.scan_failure = e;
                    one(AddRootAction::RollBack { root_id: self.root_id.clone() })
                },
                None => {
                    self.stage = AddRootStage::Watching;
                    one(AddRootAction::StartWatcher { root_id: self.root_id.clone() })
                },
            },
            AddRootEvent::RolledBack { failure } => {
                self.stage = AddRootStage::Done;
                match failure {
                    Some(e) => one(AddRootAction::Finish(Err(e))),
                    None => {
                        let m = concat2("could not start initial folder scan: ", self.scan_failure.as_str());
                        one(AddRootAction::Finish(Err(CmdError::Unavailable(m))))
                    },
                }
            },
            AddRootEvent::WatcherStarted => {
                self.stage = AddRootStage::Describing;
                one(AddRootAction::Describe { root_id: self.root_id.clone() })
            },
            AddRootEvent::Described(found) => {
                self.stage = AddRootStage::Done;
                match found {
                    Ok(Some(d)) => one(AddRootAction::Finish(Ok(AddRootOutcome::Added { root: d }))),
                    Ok(None) => one(
                        AddRootAction::Finish(Err(CmdError::Invalid(String::from_str("root vanished after register")))),
                    ),
                    Err(e) => one(AddRootAction::Finish(Err(e))),
                }
            },
        }
    }
}

// ---------------------------------------------------------------------------
// Watching and recovering roots
// ---------------------------------------------------------------------------

/// Only an active root may be watched: a missing or inactive root is
/// refused, naming the root (and its state).
pub fn watchable(root_id: &str, root: Option<&RootRecord>) -> (r: Result<(), CmdError>)
    ensures
        match root {
            None => r matches Err(CmdError::Invalid(m)) && m@ == "unknown root "@ + root_id@,
            Some(rec) => if rec.state@ == "active"@ {
                r is Ok
            } else {
                r matches Err(CmdError::Invalid(m)) && m@ == "root "@ + root_id@ + " is "@ + rec.state@
                    + "; only active roots can be watched"@
            },
        },
{
    match root {
        None => Err(CmdError::Invalid(concat2("unknown root ", root_id))),
        Some(rec) => {
            if str_eq(rec.state.as_str(), "active") {
                Ok(())
            } else {
                let head = concat3("root ", root_id, " is ");
                Err(CmdError::Invalid(concat3(head.as_str(), rec.state.as_str(), "; only active roots can be watched")))
            }
        },
    }
}

/// The answer of a recovery that attempted every active root: success when
/// nothing failed, otherwise unavailable with every failure joined by `; `.
pub fn recovery_outcome(failures: &Vec<String>) -> (r: Option<CmdError>)
    ensures
        failures@.len() == 0 ==> r is None,
        failures@.len() > 0 ==> (r matches Some(CmdError::Unavailable(m)) && m@ == "folder recovery was incomplete: "@
            + joined(failures@.map_values(|s: String| s@), "; "@)),
{
    if failures.len() == 0 {
        None
    } else {
        let all = join_texts(failures, "; ");
        Some(CmdError::Unavailable(concat2("folder recovery was incomplete: ", all.as_str())))
    }
}

} // verus!
