//! Base-station channel accounting.

use vstd::prelude::*;

verus! {

/// Whether a base with `total_channels` channels is at capacity once `connected`
/// mobiles are attached to it: every channel is occupied.
pub fn channels_full(connected: usize, total_channels: u32) -> (full: bool)
    ensures
        full == (connected >= total_channels),
{
    connected as u64 >= total_channels as u64
}

} // verus!
