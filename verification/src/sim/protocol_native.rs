//! The built-in handoff protocols, by name and description. Their decisions compare
//! received powers, which is radio arithmetic done outside this library.

use vstd::prelude::*;

verus! {

/// 3G UMTS soft handoff: maintain an active set of up to 3 cells within 6 dB
/// of the best SINR.
#[derive(Debug, Clone, Copy)]
pub struct Gen3SoftHandoff;

/// 4G LTE A3 event handoff: hard handoff when best neighbour exceeds serving
/// cell by more than 3 dB (hysteresis).
#[derive(Debug, Clone, Copy)]
pub struct Gen4LteA3;

/// 5G NR Conditional Handoff (CHO): prepare at 1 dB gap, execute at 2 dB gap.
#[derive(Debug, Clone, Copy)]
pub struct Gen5NrCho;

/// Strongest-Signal-First handoff — kept for backward compatibility.
#[derive(Debug, Clone, Copy)]
pub struct StrongestFirstProtocol;

impl Gen3SoftHandoff {
    /// Short human-readable name shown in the protocol selector.
    pub fn name(&self) -> (s: &'static str)
        ensures
            s@ == "Gen3 Soft Handoff (UMTS)"@,
    {
        "Gen3 Soft Handoff (UMTS)"
    }

    /// One-sentence description.
    pub fn description(&self) -> (s: &'static str)
        ensures
            s@ == "UMTS active-set management: add/remove cells within 6 dB of best SINR."@,
    {
        "UMTS active-set management: add/remove cells within 6 dB of best SINR."
    }
}

impl Gen4LteA3 {
    /// Short human-readable name shown in the protocol selector.
    pub fn name(&self) -> (s: &'static str)
        ensures
            s@ == "Gen4 LTE A3 Handoff"@,
    {
        "Gen4 LTE A3 Handoff"
    }

    /// One-sentence description.
    pub fn description(&self) -> (s: &'static str)
        ensures
            s@ == "LTE A3 event: handoff when best neighbour SINR > serving SINR + 3 dB."@,
    {
        "LTE A3 event: handoff when best neighbour SINR > serving SINR + 3 dB."
    }
}

impl Gen5NrCho {
    /// Short human-readable name shown in the protocol selector.
    pub fn name(&self) -> (s: &'static str)
        ensures
            s@ == "Gen5 NR Conditional Handoff"@,
    {
        "Gen5 NR Conditional Handoff"
    }

    /// One-sentence description.
    pub fn description(&self) -> (s: &'static str)
        ensures
            s@ == "5G NR CHO: prepare handoff at 1 dB gap, execute at 2 dB gap (tight hysteresis)."@,
    {
        "5G NR CHO: prepare handoff at 1 dB gap, execute at 2 dB gap (tight hysteresis)."
    }
}

impl StrongestFirstProtocol {
    /// Short human-readable name shown in the protocol selector.
    pub fn name(&self) -> (s: &'static str)
        ensures
            s@ == "Strongest-First (Legacy)"@,
    {
        "Strongest-First (Legacy)"
    }

    /// One-sentence description.
    pub fn description(&self) -> (s: &'static str)
        ensures
            s@ == "Always hand off to the base with the highest received power."@,
    {
        "Always hand off to the base with the highest received power."
    }
}

/// A built-in protocol that can be started by index from the protocol selector.
#[derive(Debug, Clone, Copy, PartialEq, Eq, Structural)]
pub enum NativeProtocolKind {
    Gen3SoftHandoff,
    Gen4LteA3,
    Gen5NrCho,
}

/// The built-in protocol at position `index` of the registry, if that position holds
/// one: the registry lists Gen3, Gen4 and Gen5 first, then any loaded rule files.
pub open spec fn spec_native_protocol_for_index(index: int) -> Option<NativeProtocolKind> {
    if index == 0 {
        Some(NativeProtocolKind::Gen3SoftHandoff)
    } else if index == 1 {
        Some(NativeProtocolKind::Gen4LteA3)
    } else if index == 2 {
        Some(NativeProtocolKind::Gen5NrCho)
    } else {
        None
    }
}

/// The built-in protocol that the registry holds at `index`, if any.
pub fn native_protocol_for_index(index: usize) -> (k: Option<NativeProtocolKind>)
    ensures
        k == spec_native_protocol_for_index(index as int),
{
    if index == 0 {
        Some(NativeProtocolKind::Gen3SoftHandoff)
    } else if index == 1 {
        Some(NativeProtocolKind::Gen4LteA3)
    } else if index == 2 {
        Some(NativeProtocolKind::Gen5NrCho)
    } else {
        None
    }
}

} // verus!
