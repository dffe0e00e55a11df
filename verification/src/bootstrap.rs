//! Minimal shell bootstrap truth that exists even when full application
//! construction fails: the webview can always query it and render the real
//! blocking error with its one permitted recovery action.
use vstd::prelude::*;
use crate::text::str_eq;

verus! {

#[derive(Debug, Clone, PartialEq, Eq)]
pub struct BootstrapStatus {
    pub state: &'static str,
    pub error: Option<String>,
    pub recovery_action: Option<&'static str>,
}

pub struct BootstrapState {
    status: BootstrapStatus,
}

/// The only recovery action a fatal bootstrap may carry that this layer acts on.
pub open spec fn reset_identity_action() -> Seq<char> {
    "reset-device-identity"@
}

pub open spec fn opening_label() -> Seq<char> {
    "opening"@
}

pub open spec fn ready_label() -> Seq<char> {
    "ready"@
}

pub open spec fn fatal_label() -> Seq<char> {
    "fatal"@
}

fn copy_error(e: &Option<String>) -> (r: Option<String>)
    ensures
        r == *e,
{
    match e {
        Some(s) => Some(s.clone()),
        None => None,
    }
}

impl BootstrapState {
    pub closed spec fn status(&self) -> BootstrapStatus {
        self.status
    }

    /// The state before any outcome: `opening`, no error, no action.
    pub fn new() -> (r: Self)
        ensures
            r.status().state@ == opening_label(),
            r.status().error is None,
            r.status().recovery_action is None,
    {
        BootstrapState {
            status: BootstrapStatus { state: "opening", error: None, recovery_action: None },
        }
    }

    /// Full construction succeeded.
    pub fn ready(&mut self)
        ensures
            final(self).status().state@ == ready_label(),
            final(self).status().error is None,
            final(self).status().recovery_action is None,
    {
        self.status = BootstrapStatus { state: "ready", error: None, recovery_action: None };
    }

    /// Construction failed for good with `error`; `recovery_action` names the
    /// only recovery the shell may offer for it.
    pub fn fatal(&mut self, error: &str, recovery_action: Option<&'static str>)
        ensures
            final(self).status().state@ == fatal_label(),
            final(self).status().error matches Some(e) && e@ == error@,
            final(self).status().recovery_action == recovery_action,
    {
        self.status = BootstrapStatus {
            state: "fatal",
            error: Some(String::from_str(error)),
            recovery_action,
        };
    }

    /// The current status, as the webview reads it.
    pub fn snapshot(&self) -> (r: BootstrapStatus)
        ensures
            r == self.status(),
    {
        BootstrapStatus {
            state: self.status.state,
            error: copy_error(&self.status.error),
            recovery_action: self.status.recovery_action,
        }
    }

    /// A clean relaunch is offered only after a fatal bootstrap.
    pub fn relaunch_allowed(&self) -> (r: bool)
        ensures
            r == (self.status().state@ == fatal_label()),
    {
        str_eq(self.status.state, "fatal")
    }

    /// Resetting the device identity is offered only for a fatal bootstrap
    /// whose recovery action is exactly `reset-device-identity`.
    pub fn reset_device_identity_allowed(&self) -> (r: bool)
        ensures
            r == (self.status().state@ == fatal_label() && (match self.status().recovery_action {
                Some(a) => a@ == reset_identity_action(),
                None => false,
            })),
    {
        if !str_eq(self.status.state, "fatal") {
            return false;
        }
        match self.status.recovery_action {
            Some(a) => str_eq(a, "reset-device-identity"),
            None => false,
        }
    }
}

impl Default for BootstrapState {
    fn default() -> (r: Self)
        ensures
            r.status().state@ == opening_label(),
            r.status().error is None,
            r.status().recovery_action is None,
    {
        Self::new()
    }
}

} // verus!
