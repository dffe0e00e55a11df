//! The application lifecycle as the health projection reads it: the current
//! phase, the phases entered so far, and each subsystem's health.
use vstd::prelude::*;

verus! {

#[derive(Debug, Clone, Copy, PartialEq, Eq, Structural)]
pub enum LifecyclePhase {
    Cold,
    OpeningData,
    Usable,
    Reconciling,
    Ready,
    Stopping,
}

#[derive(Debug, Clone, Copy, PartialEq, Eq, Structural)]
pub enum Subsystem {
    Storage,
    Settings,
    Roots,
    Watchers,
    Ingest,
    Maintenance,
    Previews,
    Vectors,
    Runtime,
    Capture,
}

#[derive(Debug, Clone, PartialEq, Eq)]
pub enum SubsystemHealth {
    Unknown,
    Healthy,
    Degraded { summary: String },
    Unavailable { summary: String },
}

/// When a phase was entered and how long it lasted.
#[derive(Debug, Clone, Copy)]
pub struct PhaseTiming {
    pub phase: LifecyclePhase,
    pub entered_at_ms: u64,
    pub elapsed_ms: u64,
}

#[derive(Debug, Clone)]
pub struct LifecycleSnapshot {
    pub phase: LifecyclePhase,
    pub phase_history: Vec<PhaseTiming>,
    /// Each subsystem's health, in subsystem order.
    pub health: Vec<(Subsystem, SubsystemHealth)>,
}

} // verus!
