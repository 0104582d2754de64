//! A/B test configuration and the per-run choices of the A/B runner that involve
//! no statistics: which seed each run uses and how an unregistered protocol is named.

use vstd::prelude::*;
use vstd::string::*;
use crate::text::{decimal, decimal_string};

verus! {

/// Configuration for one A/B test run.
#[derive(Debug, Clone, Copy, PartialEq, Eq, Structural)]
pub struct AbTestConfig {
    /// Index into the registry for protocol A.
    pub protocol_a_index: usize,
    /// Index into the registry for protocol B.
    pub protocol_b_index: usize,
    /// Number of independent headless runs per protocol.
    pub n_runs: u32,
    /// Simulation ticks per run.
    pub ticks_per_run: u64,
    /// If true, both protocols use the same base seed per pair of runs.
    pub same_seed: bool,
}

impl Default for AbTestConfig {
    fn default() -> (c: Self)
        ensures
            c.protocol_a_index == 0,
            c.protocol_b_index == 1,
            c.n_runs == 10,
            c.ticks_per_run == 1000,
            c.same_seed,
    {
        AbTestConfig { protocol_a_index: 0, protocol_b_index: 1, n_runs: 10, ticks_per_run: 1000, same_seed: true }
    }
}

/// The seed of run `run` of either protocol: `run * 100 + 1` when seeds are shared,
/// so that run `run` of protocol A and run `run` of protocol B see the same seed;
/// else 0, which the engine reads as "pick a random seed".
pub open spec fn spec_run_seed(run: u32, same_seed: bool) -> int {
    if same_seed {
        run * 100 + 1
    } else {
        0
    }
}

/// The simulation seed used for one run of the A/B test.
pub fn run_seed(run: u32, same_seed: bool) -> (seed: u64)
    ensures
        seed == spec_run_seed(run, same_seed),
{
    if same_seed {
        (run as u64) * 100 + 1
    } else {
        0
    }
}

/// With shared seeds the two protocols are compared on paired runs: a pair's seed
/// depends only on the run number, never 0 (so never randomised), and distinct
/// runs use distinct seeds.
pub proof fn shared_seeds_pair_runs(r1: u32, r2: u32)
    ensures
        spec_run_seed(r1, true) != 0,
        r1 != r2 ==> spec_run_seed(r1, true) != spec_run_seed(r2, true),
        spec_run_seed(r1, false) == 0,
{
}

/// The name reported for a protocol index that the registry does not hold.
pub fn fallback_protocol_name(index: usize) -> (s: String)
    ensures
        s@ == "Protocol #"@ + decimal(index as nat),
{
    let mut s = String::from_str("Protocol #");
    let num = decimal_string(index as u64);
    s.append(num.as_str());
    s
}

} // verus!
