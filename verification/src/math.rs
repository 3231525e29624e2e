//! Integer vectors for sizes and positions.

use vstd::prelude::*;

verus! {

/// A pair of unsigned 32-bit components, used for sizes and positions.
#[derive(Clone, Copy, Debug, PartialEq, Eq, Hash, Structural)]
pub struct UVec2 {
    /// Horizontal component
    pub x: u32,
    /// Vertical component
    pub y: u32,
}

impl UVec2 {
    /// Creates a vector from its two components.
    pub fn new(x: u32, y: u32) -> (v: UVec2)
        ensures
            v == (UVec2 { x, y }),
    {
        UVec2 { x, y }
    }

    /// Whether either component is zero.
    pub open spec fn has_zero_axis(self) -> bool {
        self.x == 0 || self.y == 0
    }

    /// Number of cells of a grid with this size.
    pub fn area(self) -> (cells: u64)
        ensures
            cells == self.x * self.y,
    {
        assert(self.x * self.y <= 0xffff_ffff * 0xffff_ffff) by (nonlinear_arith)
            requires
                self.x <= 0xffff_ffff,
                self.y <= 0xffff_ffff,
        ;
        (self.x as u64) * (self.y as u64)
    }
}

impl From<(u32, u32)> for UVec2 {
    fn from(v: (u32, u32)) -> (r: UVec2) {
        UVec2 { x: v.0, y: v.1 }
    }
}

impl vstd::std_specs::convert::FromSpecImpl<(u32, u32)> for UVec2 {
    open spec fn obeys_from_spec() -> bool {
        true
    }

    open spec fn from_spec(v: (u32, u32)) -> UVec2 {
        UVec2 { x: v.0, y: v.1 }
    }
}

impl From<[u32; 2]> for UVec2 {
    fn from(v: [u32; 2]) -> (r: UVec2) {
        UVec2 { x: v[0], y: v[1] }
    }
}

impl vstd::std_specs::convert::FromSpecImpl<[u32; 2]> for UVec2 {
    open spec fn obeys_from_spec() -> bool {
        true
    }

    open spec fn from_spec(v: [u32; 2]) -> UVec2 {
        UVec2 { x: v[0], y: v[1] }
    }
}

} // verus!
