//! Dispatch geometry: the simulation domain's dimensions, the per-workgroup
//! tile size, and the pure mapping from domain size to workgroup dispatch
//! counts.

use vstd::prelude::*;

verus! {

/// Constant description of the simulation domain: grid dimensions in cells
/// and the tile of cells covered by one compute workgroup.
#[derive(Clone, Copy, Debug)]
pub struct GridGeometry {
    pub width: u32,
    pub height: u32,
    pub tile_width: u32,
    pub tile_height: u32,
}

/// Number of workgroups needed to cover `extent` cells with tiles of
/// `tile` cells: the quotient, rounded up.
pub open spec fn ceil_div(extent: nat, tile: nat) -> nat
    recommends
        tile > 0,
{
    if extent % tile == 0 {
        extent / tile
    } else {
        extent / tile + 1
    }
}

impl GridGeometry {
    /// A geometry is well formed when its tiles are non-empty, so that a
    /// dispatch count exists for every extent.
    pub open spec fn wf(self) -> bool {
        self.tile_width > 0 && self.tile_height > 0
    }

    /// Dispatch counts as a mathematical triple.
    pub open spec fn dispatch_counts_spec(self) -> (nat, nat, nat) {
        (
            ceil_div(self.width as nat, self.tile_width as nat),
            ceil_div(self.height as nat, self.tile_height as nat),
            1nat,
        )
    }

    /// Workgroup dispatch counts per axis: enough tiles to cover the whole
    /// grid on each axis, one layer deep.
    pub fn dispatch_counts(&self) -> (counts: (u32, u32, u32))
        requires
            self.wf(),
        ensures
            counts.0 as nat == ceil_div(self.width as nat, self.tile_width as nat),
            counts.1 as nat == ceil_div(self.height as nat, self.tile_height as nat),
            counts.2 == 1,
    {
        (
            axis_workgroups(self.width, self.tile_width),
            axis_workgroups(self.height, self.tile_height),
            1,
        )
    }

    /// Number of cells in the grid.
    pub open spec fn cell_count(self) -> nat {
        self.width as nat * self.height as nat
    }
}

/// Workgroups needed along one axis.
fn axis_workgroups(extent: u32, tile: u32) -> (n: u32)
    requires
        tile > 0,
    ensures
        n as nat == ceil_div(extent as nat, tile as nat),
{
    let quotient: u32 = extent / tile;
    let remainder: u32 = extent % tile;
    if remainder == 0 {
        quotient
    } else {
        proof {
            lemma_div_strictly_smaller(extent as nat, tile as nat);
        }
        quotient + 1
    }
}

/// When the remainder is non-zero the quotient is strictly below the
/// dividend, so rounding up cannot overflow the dividend's type.
proof fn lemma_div_strictly_smaller(extent: nat, tile: nat)
    requires
        tile > 0,
        extent % tile != 0,
    ensures
        extent / tile < extent,
{
    vstd::arithmetic::div_mod::lemma_fundamental_div_mod(extent as int, tile as int);
    if tile == 1 {
        assert(extent % tile == 0);
    } else {
        vstd::arithmetic::div_mod::lemma_div_is_strictly_smaller(extent as int, tile as int);
    }
}

/// A grid whose dimensions are exact multiples of the tile size dispatches
/// exactly `width / tile_width` by `height / tile_height` workgroups in one
/// layer.
pub proof fn lemma_dispatch_counts_exact(g: GridGeometry)
    requires
        g.wf(),
        g.width as nat % (g.tile_width as nat) == 0,
        g.height as nat % (g.tile_height as nat) == 0,
    ensures
        g.dispatch_counts_spec() == (
            g.width as nat / (g.tile_width as nat),
            g.height as nat / (g.tile_height as nat),
            1nat,
        ),
{
}

} // verus!
