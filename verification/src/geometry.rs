//! Integer geometry for the panel core.
//!
//! Logical coordinates come from the shell's layout; physical coordinates
//! are logical values multiplied by the output's integer scale factor.
//! Every coordinate the core handles stays within [`COORD_LIMIT`], and the
//! scale within [`SCALE_LIMIT`], so scaling and rectangle arithmetic never
//! overflow.

use vstd::prelude::*;

verus! {

/// Largest magnitude a logical or physical coordinate may have.
pub const COORD_LIMIT: i32 = 0x100000;

/// Largest integer output scale the core accepts.
pub const SCALE_LIMIT: i32 = 16;

/// A point, in logical or physical pixels depending on context.
#[derive(Clone, Copy, Debug, PartialEq, Eq, Structural)]
pub struct Loc {
    pub x: i32,
    pub y: i32,
}

/// A size in pixels; both extents are non-negative.
#[derive(Clone, Copy, Debug, PartialEq, Eq, Structural)]
pub struct Extent {
    pub w: i32,
    pub h: i32,
}

/// An axis-aligned rectangle: a location and a size.
#[derive(Clone, Copy, Debug, PartialEq, Eq, Structural)]
pub struct Rect {
    pub loc: Loc,
    pub size: Extent,
}

impl Loc {
    /// Both coordinates within the panel's coordinate limit.
    pub open spec fn bounded(self) -> bool {
        -COORD_LIMIT <= self.x <= COORD_LIMIT && -COORD_LIMIT <= self.y <= COORD_LIMIT
    }

    pub fn new(x: i32, y: i32) -> (r: Loc)
        ensures
            r == (Loc { x, y }),
    {
        Loc { x, y }
    }

    /// Spec-level form of [`Loc::to_physical`].
    pub open spec fn spec_to_physical(self, scale: i32) -> Loc {
        Loc { x: (self.x * scale) as i32, y: (self.y * scale) as i32 }
    }

    /// Logical position to physical pixels at the given output scale.
    pub fn to_physical(self, scale: i32) -> (r: Loc)
        requires
            self.bounded(),
            1 <= scale <= SCALE_LIMIT,
        ensures
            r.x == self.x * scale,
            r.y == self.y * scale,
            r == self.spec_to_physical(scale),
    {
        proof {
            assert(-COORD_LIMIT * SCALE_LIMIT <= self.x * scale <= COORD_LIMIT * SCALE_LIMIT
                && -COORD_LIMIT * SCALE_LIMIT <= self.y * scale <= COORD_LIMIT * SCALE_LIMIT)
                by (nonlinear_arith)
                requires
                    -COORD_LIMIT <= self.x <= COORD_LIMIT,
                    -COORD_LIMIT <= self.y <= COORD_LIMIT,
                    1 <= scale <= SCALE_LIMIT,
            ;
        }
        Loc { x: self.x * scale, y: self.y * scale }
    }
}

impl Extent {
    /// Non-negative and within the panel's coordinate limit.
    pub open spec fn bounded(self) -> bool {
        0 <= self.w <= COORD_LIMIT && 0 <= self.h <= COORD_LIMIT
    }

    pub fn new(w: i32, h: i32) -> (r: Extent)
        ensures
            r == (Extent { w, h }),
    {
        Extent { w, h }
    }

    /// Spec-level form of [`Extent::to_physical`].
    pub open spec fn spec_to_physical(self, scale: i32) -> Extent {
        Extent { w: (self.w * scale) as i32, h: (self.h * scale) as i32 }
    }

    /// Logical size to physical pixels at the given output scale.
    pub fn to_physical(self, scale: i32) -> (r: Extent)
        requires
            self.bounded(),
            1 <= scale <= SCALE_LIMIT,
        ensures
            r.w == self.w * scale,
            r.h == self.h * scale,
            r == self.spec_to_physical(scale),
    {
        proof {
            assert(0 <= self.w * scale <= COORD_LIMIT * SCALE_LIMIT && 0 <= self.h * scale
                <= COORD_LIMIT * SCALE_LIMIT) by (nonlinear_arith)
                requires
                    0 <= self.w <= COORD_LIMIT,
                    0 <= self.h <= COORD_LIMIT,
                    1 <= scale <= SCALE_LIMIT,
            ;
        }
        Extent { w: self.w * scale, h: self.h * scale }
    }
}

impl Rect {
    /// Location and size both within the coordinate limit.
    pub open spec fn bounded(self) -> bool {
        self.loc.bounded() && self.size.bounded()
    }

    pub fn new(loc: Loc, size: Extent) -> (r: Rect)
        ensures
            r == (Rect { loc, size }),
    {
        Rect { loc, size }
    }

    /// The rectangle covering `size` pixels at the origin.
    pub fn at_origin(size: Extent) -> (r: Rect)
        ensures
            r == Rect::spec_at_origin(size),
    {
        Rect { loc: Loc { x: 0, y: 0 }, size }
    }

    /// Spec-level form of [`Rect::at_origin`].
    pub open spec fn spec_at_origin(size: Extent) -> Rect {
        Rect { loc: Loc { x: 0, y: 0 }, size }
    }

    /// Whether a point lies inside the rectangle (right and bottom edges
    /// excluded, as for pixel regions).
    pub open spec fn spec_contains(self, p: Loc) -> bool {
        self.loc.x <= p.x < self.loc.x + self.size.w && self.loc.y <= p.y < self.loc.y
            + self.size.h
    }

    pub fn contains(self, p: Loc) -> (r: bool)
        requires
            self.bounded(),
        ensures
            r == self.spec_contains(p),
    {
        self.loc.x <= p.x && p.x < self.loc.x + self.size.w && self.loc.y <= p.y && p.y
            < self.loc.y + self.size.h
    }
}

} // verus!
