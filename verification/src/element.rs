//! The render-element model.
//!
//! A [`PanelRenderElement`] describes one drawable thing for the panel's
//! main surface: a client window surface region, the decorative rounded
//! background, or the pre-rendered overflow-menu buffer. Every variant
//! carries an identity, a monotonic commit counter, a source rectangle in
//! buffer space and a destination geometry in physical pixels.

use vstd::prelude::*;

use crate::geometry::{Extent, Loc, Rect, COORD_LIMIT, SCALE_LIMIT};

verus! {

/// One drawable element of a composed frame.
#[derive(Clone, Copy, Debug, PartialEq, Eq, Structural)]
pub enum PanelRenderElement {
    /// A client window's surface contents.
    Wayland { id: u64, commit: u64, src: Rect, geometry: Rect },
    /// The rounded or gapped background shape.
    RoundedRectangle { id: u64, commit: u64, src: Rect, geometry: Rect },
    /// The overflow menu's pre-rendered buffer.
    OverflowMenu { id: u64, commit: u64, src: Rect, geometry: Rect },
}

impl PanelRenderElement {
    /// Spec-level identity.
    pub open spec fn spec_id(self) -> u64 {
        match self {
            PanelRenderElement::Wayland { id, .. } => id,
            PanelRenderElement::RoundedRectangle { id, .. } => id,
            PanelRenderElement::OverflowMenu { id, .. } => id,
        }
    }

    /// Spec-level commit counter.
    pub open spec fn spec_current_commit(self) -> u64 {
        match self {
            PanelRenderElement::Wayland { commit, .. } => commit,
            PanelRenderElement::RoundedRectangle { commit, .. } => commit,
            PanelRenderElement::OverflowMenu { commit, .. } => commit,
        }
    }

    /// Spec-level source rectangle.
    pub open spec fn spec_src(self) -> Rect {
        match self {
            PanelRenderElement::Wayland { src, .. } => src,
            PanelRenderElement::RoundedRectangle { src, .. } => src,
            PanelRenderElement::OverflowMenu { src, .. } => src,
        }
    }

    /// Spec-level destination geometry.
    pub open spec fn spec_geometry(self) -> Rect {
        match self {
            PanelRenderElement::Wayland { geometry, .. } => geometry,
            PanelRenderElement::RoundedRectangle { geometry, .. } => geometry,
            PanelRenderElement::OverflowMenu { geometry, .. } => geometry,
        }
    }

    /// The element's identity.
    pub fn id(&self) -> (r: u64)
        ensures
            r == self.spec_id(),
    {
        match self {
            PanelRenderElement::Wayland { id, .. } => *id,
            PanelRenderElement::RoundedRectangle { id, .. } => *id,
            PanelRenderElement::OverflowMenu { id, .. } => *id,
        }
    }

    /// The element's current commit counter.
    pub fn current_commit(&self) -> (r: u64)
        ensures
            r == self.spec_current_commit(),
    {
        match self {
            PanelRenderElement::Wayland { commit, .. } => *commit,
            PanelRenderElement::RoundedRectangle { commit, .. } => *commit,
            PanelRenderElement::OverflowMenu { commit, .. } => *commit,
        }
    }

    /// The element's source rectangle, in buffer space.
    pub fn src(&self) -> (r: Rect)
        ensures
            r == self.spec_src(),
    {
        match self {
            PanelRenderElement::Wayland { src, .. } => *src,
            PanelRenderElement::RoundedRectangle { src, .. } => *src,
            PanelRenderElement::OverflowMenu { src, .. } => *src,
        }
    }

    /// The element's destination geometry, in physical pixels.
    pub fn geometry(&self) -> (r: Rect)
        ensures
            r == self.spec_geometry(),
    {
        match self {
            PanelRenderElement::Wayland { geometry, .. } => *geometry,
            PanelRenderElement::RoundedRectangle { geometry, .. } => *geometry,
            PanelRenderElement::OverflowMenu { geometry, .. } => *geometry,
        }
    }

    /// Geometry and source rectangle both within the coordinate limit.
    pub open spec fn bounded(self) -> bool {
        self.spec_src().bounded() && self.spec_geometry().bounded()
    }
}

/// One axis of the crop rule: the negotiated extent, scaled to buffer
/// pixels, replaces the native extent only when it is positive and
/// strictly smaller.
pub open spec fn spec_crop_len(native: i32, negotiated: i32, scale: i32) -> i32 {
    if negotiated > 0 && negotiated * scale < native {
        (negotiated * scale) as i32
    } else {
        native
    }
}

/// Applies the crop rule along one axis.
fn crop_len(native: i32, negotiated: i32, scale: i32) -> (r: i32)
    requires
        0 <= native <= COORD_LIMIT,
        0 <= negotiated <= COORD_LIMIT,
        1 <= scale <= SCALE_LIMIT,
    ensures
        r == spec_crop_len(native, negotiated, scale),
        0 <= r <= COORD_LIMIT,
{
    proof {
        assert(0 <= negotiated * scale <= COORD_LIMIT * SCALE_LIMIT) by (nonlinear_arith)
            requires
                0 <= negotiated <= COORD_LIMIT,
                1 <= scale <= SCALE_LIMIT,
        ;
    }
    let scaled = negotiated * scale;
    if negotiated > 0 && scaled < native {
        scaled
    } else {
        native
    }
}

/// The surface element a window contributes: a full-buffer source at the
/// window's physical location, shrunk per axis to the negotiated content
/// size where that size is smaller than the native buffer.
pub open spec fn spec_surface_element(
    id: u64,
    commit: u64,
    phys_loc: Loc,
    buffer: Extent,
    negotiated: Option<Extent>,
    scale: i32,
) -> PanelRenderElement {
    let size = match negotiated {
        Some(n) => Extent {
            w: spec_crop_len(buffer.w, n.w, scale),
            h: spec_crop_len(buffer.h, n.h, scale),
        },
        None => buffer,
    };
    PanelRenderElement::Wayland {
        id,
        commit,
        src: Rect { loc: Loc { x: 0, y: 0 }, size },
        geometry: Rect { loc: phys_loc, size },
    }
}

/// Builds the surface element for one window's content.
pub fn surface_element(
    id: u64,
    commit: u64,
    phys_loc: Loc,
    buffer: Extent,
    negotiated: Option<Extent>,
    scale: i32,
) -> (r: PanelRenderElement)
    requires
        buffer.bounded(),
        negotiated is Some ==> negotiated->0.bounded(),
        1 <= scale <= SCALE_LIMIT,
    ensures
        r == spec_surface_element(id, commit, phys_loc, buffer, negotiated, scale),
{
    let size = match negotiated {
        Some(n) => Extent {
            w: crop_len(buffer.w, n.w, scale),
            h: crop_len(buffer.h, n.h, scale),
        },
        None => buffer,
    };
    PanelRenderElement::Wayland {
        id,
        commit,
        src: Rect { loc: Loc { x: 0, y: 0 }, size },
        geometry: Rect { loc: phys_loc, size },
    }
}

} // verus!
