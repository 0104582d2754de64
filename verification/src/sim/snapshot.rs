//! Discrete simulation events as the engine emits them and the event log shows them.

use vstd::prelude::*;

verus! {

/// Classification of a discrete simulation event.
#[derive(Debug, Clone, Copy, PartialEq, Eq, Structural)]
pub enum SimEventType {
    /// A new mobile terminal was admitted.
    Arrival,
    /// A mobile terminal left the simulation (normal departure).
    Departure,
    /// A handoff was completed successfully.
    HandoffSuccess,
    /// A handoff attempt failed.
    HandoffFailure,
    /// A mobile's SLA constraint was violated.
    SlaViolation,
    /// A base station was taken offline.
    TowerFailure,
    /// A previously offline base station came back online.
    TowerRestore,
    /// A sudden burst of new mobiles was injected.
    MobileSurge,
}

/// A single discrete event emitted by the simulation engine.
#[derive(Debug, Clone)]
pub struct SimEvent {
    /// Tick at which this event occurred.
    pub tick: u64,
    /// Mobile terminal involved (0 if not applicable).
    pub mobile_id: u32,
    /// Event classification.
    pub event_type: SimEventType,
    /// Human-readable detail string.
    pub detail: String,
}

} // verus!
