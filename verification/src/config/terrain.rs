//! Terrain layout kinds.

use vstd::prelude::*;

verus! {

/// Available terrain layout types.
#[derive(Debug, Clone, Copy, PartialEq, Eq, Structural)]
pub enum TerrainType {
    UrbanGrid,
    Suburban,
    Rural,
    Highway,
}

} // verus!
