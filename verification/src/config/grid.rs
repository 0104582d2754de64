//! GridConfig — spatial layout parameters for the simulation grid.

use vstd::prelude::*;
use vstd::string::*;
use crate::text::{decimal, decimal_string};

verus! {

/// Defines the discrete grid used to position mobiles and base stations.
#[derive(Debug, Clone, Copy, PartialEq, Eq, Structural)]
pub struct GridConfig {
    /// Number of dimensions (always 2 for 2-D simulation).
    pub dimension: u32,
    /// Number of city blocks along one axis.
    pub no_block: u32,
    /// Distance resolution in metres per grid step.
    pub dist_res: u32,
    /// Side length in metres of a single city block.
    pub block_size: u32,
}

impl Default for GridConfig {
    fn default() -> (g: Self)
        ensures
            g.dimension == 2,
            g.no_block == 12,
            g.dist_res == 50,
            g.block_size == 400,
    {
        GridConfig { dimension: 2, no_block: 12, dist_res: 50, block_size: 400 }
    }
}

impl GridConfig {
    /// Total side length in metres: `no_block * block_size`.
    pub open spec fn spec_total_length(self) -> int {
        self.no_block * self.block_size
    }

    /// Grid points per block: `block_size / dist_res`.
    pub open spec fn spec_points_per_block(self) -> int {
        self.block_size as int / self.dist_res as int
    }

    /// Grid points along one axis: `no_block * points_per_block`.
    pub open spec fn spec_total_points(self) -> int {
        self.no_block * self.spec_points_per_block()
    }

    /// The first constraint that the grid breaks, as the message `validate` reports, if any.
    pub open spec fn validation_error(self) -> Option<Seq<char>> {
        if self.no_block < 1 || self.no_block > 50 {
            Some("no_block must be 1–50, got "@ + decimal(self.no_block as nat))
        } else if self.dist_res == 0 {
            Some("dist_res must be > 0"@)
        } else if self.block_size < 100 || self.block_size > 2000 {
            Some("block_size must be 100–2000, got "@ + decimal(self.block_size as nat))
        } else {
            None
        }
    }

    /// Total side length of the grid in metres (`no_block * block_size`).
    pub fn total_length(&self) -> (len: u32)
        requires
            self.spec_total_length() <= u32::MAX,
        ensures
            len == self.spec_total_length(),
    {
        self.no_block * self.block_size
    }

    /// Largest valid coordinate in metres (`total_length - dist_res`).
    pub fn max_coord(&self) -> (c: u32)
        requires
            self.spec_total_length() <= u32::MAX,
            self.dist_res <= self.spec_total_length(),
        ensures
            c == self.spec_total_length() - self.dist_res,
    {
        self.total_length() - self.dist_res
    }

    /// Number of grid points per block (`block_size / dist_res`).
    pub fn points_per_block(&self) -> (p: u32)
        requires
            self.dist_res > 0,
        ensures
            p == self.spec_points_per_block(),
    {
        self.block_size / self.dist_res
    }

    /// Total number of grid points along one axis (`no_block * points_per_block`).
    pub fn total_points(&self) -> (p: u32)
        requires
            self.dist_res > 0,
            self.spec_total_points() <= u32::MAX,
        ensures
            p == self.spec_total_points(),
    {
        self.no_block * self.points_per_block()
    }

    /// Validates all field constraints.
    ///
    /// Returns `Err` with a human-readable message on the first violation found.
    pub fn validate(&self) -> (r: Result<(), String>)
        ensures
            r is Ok <==> self.validation_error() is None,
            r matches Err(m) ==> self.validation_error() == Some(m@),
    {
        if self.no_block < 1 || self.no_block > 50 {
            let mut msg = String::from_str("no_block must be 1–50, got ");
            let num = decimal_string(self.no_block as u64);
            msg.append(num.as_str());
            return Err(msg);
        }
        if self.dist_res == 0 {
            return Err(String::from_str("dist_res must be > 0"));
        }
        if self.block_size < 100 || self.block_size > 2000 {
            let mut msg = String::from_str("block_size must be 100–2000, got ");
            let num = decimal_string(self.block_size as u64);
            msg.append(num.as_str());
            return Err(msg);
        }
        Ok(())
    }
}

/// A grid that passes `validate` has every derived measure defined: its total length,
/// points per block and total points are computed without overflow or division by zero.
pub proof fn validated_grid_measures_are_defined(g: GridConfig)
    requires
        g.validation_error() is None,
    ensures
        g.spec_total_length() <= u32::MAX,
        g.dist_res > 0,
        g.spec_total_points() <= u32::MAX,
        g.spec_points_per_block() * g.dist_res <= g.block_size,
        g.spec_total_points() * g.dist_res <= g.spec_total_length(),
{
    let ppb = g.spec_points_per_block();
    assert(ppb * g.dist_res <= g.block_size) by (nonlinear_arith)
        requires
            ppb == g.block_size as int / g.dist_res as int,
            g.dist_res > 0,
    ;
    assert(g.no_block * g.block_size <= 50 * 2000) by (nonlinear_arith)
        requires
            g.no_block <= 50,
            g.block_size <= 2000,
    ;
    assert(0 <= ppb <= g.block_size) by (nonlinear_arith)
        requires
            ppb == g.block_size as int / g.dist_res as int,
            g.dist_res > 0,
    ;
    assert(g.no_block * ppb <= g.no_block * g.block_size) by (nonlinear_arith)
        requires
            0 <= ppb <= g.block_size,
    ;
    assert(g.no_block * ppb * g.dist_res <= g.no_block * g.block_size) by (nonlinear_arith)
        requires
            ppb * g.dist_res <= g.block_size,
            0 <= ppb,
    ;
}

} // verus!
