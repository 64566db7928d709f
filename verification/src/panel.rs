//! The panel instance: configuration, tracked space elements, popup set,
//! and the main surface's presentation flags.
//!
//! All protocol dispatch and scheduling runs on one event-loop thread; the
//! shell owns one [`PanelSpace`] and calls its handlers with the event's
//! plain values. Each handler states exactly which part of the state it
//! touches.

use vstd::prelude::*;

use crate::color::Rgba;
use crate::damage::DamageTracker;
use crate::geometry::{Extent, Rect, SCALE_LIMIT};
use crate::mapped::CosmicMappedInternal;
use crate::popup::{spec_overflow_count, PopupRecord, PopupState};

verus! {

/// Visual configuration of the panel background.
#[derive(Clone, Copy, Debug)]
pub struct PanelConfig {
    /// A gap is kept between the panel and its anchored screen edge.
    pub anchor_gap: bool,
    /// Corner radius of the background, in logical pixels.
    pub border_radius: u32,
    /// Background color before pre-multiplication.
    pub bg_color: Rgba,
}

/// Whether the autohide policy currently shows the panel.
#[derive(Clone, Copy, Debug, PartialEq, Eq, Structural)]
pub enum PanelVisibility {
    Visible,
    Hidden,
}

/// A presentable surface addressed by an external event.
#[derive(Clone, Copy, Debug, PartialEq, Eq, Structural)]
pub enum SurfaceId {
    /// The panel's main layer surface.
    MainSurface,
    /// The popup surface with this identity.
    PopupSurface(u64),
}

/// Errors the panel surfaces to its caller.
#[derive(Clone, Copy, Debug, PartialEq, Eq, Structural)]
pub enum PanelError {
    /// A graphics bind, render or swap failed; the frame was abandoned and
    /// the surface flags were left untouched so the next tick retries.
    Graphics,
    /// The display server refused the protocol objects for an operation.
    ProtocolDenied,
    /// The element named as an anchor origin is not tracked by the panel.
    OriginNotTracked,
}

/// The cached, pre-rendered image of the overflow menu, appended to the
/// main element list as a buffer element when present.
#[derive(Clone, Copy, Debug)]
pub struct OverflowMenuBuffer {
    pub id: u64,
    pub commit: u64,
    /// Destination of the image, in physical pixels.
    pub geometry: Rect,
}

/// Identity used by the background shader element in the element list.
pub const BACKGROUND_ELEMENT_ID: u64 = 0;

/// The panel instance.
#[derive(Clone, Debug)]
pub struct PanelSpace {
    pub config: PanelConfig,
    pub visibility: PanelVisibility,
    /// Panel size, in logical pixels.
    pub dimensions: Extent,
    /// Integer scale of the output the panel is shown on.
    pub scale: i32,
    /// The visual configuration changed since the last presented frame.
    pub panel_changed: bool,
    /// Version counter of the visual configuration; the commit counter of
    /// the background element.
    pub config_version: u64,
    /// Tracked elements, in registration order (bottom to top).
    pub space: Vec<CosmicMappedInternal>,
    /// Pre-rendered overflow menu image, when one is cached.
    pub overflow_menu_buffer: Option<OverflowMenuBuffer>,
    /// All popups the panel owns, the overflow popup included.
    pub popups: Vec<PopupRecord>,
    /// New damage arrived for the main surface.
    pub is_dirty: bool,
    /// The display signalled readiness for a new main-surface frame.
    pub has_frame: bool,
    /// Damage tracker of the main surface.
    pub tracker: DamageTracker,
}

/// The two panel states differ at most in their popup set.
pub open spec fn spec_panel_with_popups(pre: PanelSpace, post: PanelSpace) -> bool {
    post == (PanelSpace { popups: post.popups, ..pre })
}

impl PanelSpace {
    /// Well-formedness: geometry within the coordinate limit, a valid
    /// scale, distinct popup identities, and at most one overflow popup.
    pub open spec fn wf(self) -> bool {
        &&& self.dimensions.bounded()
        &&& 1 <= self.scale <= SCALE_LIMIT
        &&& forall|i: int| 0 <= i < self.space@.len() ==> self.space@[i].bounded()
        &&& forall|i: int| 0 <= i < self.popups@.len() ==> self.popups@[i].bounded()
        &&& forall|i: int, j: int|
            0 <= i < j < self.popups@.len() ==> self.popups@[i].id != self.popups@[j].id
        &&& spec_overflow_count(self.popups@) <= 1
        &&& match self.overflow_menu_buffer {
            Some(b) => b.geometry.bounded(),
            None => true,
        }
    }

    /// The panel's size in physical pixels is at or below the minimal
    /// render threshold in some axis.
    pub open spec fn spec_below_threshold(self) -> bool {
        self.dimensions.w * self.scale <= 20 || self.dimensions.h * self.scale <= 20
    }

    /// A new panel showing nothing, with a fresh main damage tracker
    /// sized to the panel's physical pixels.
    pub fn new(config: PanelConfig, dimensions: Extent, scale: i32) -> (r: PanelSpace)
        requires
            dimensions.bounded(),
            1 <= scale <= SCALE_LIMIT,
        ensures
            r.wf(),
            r.config == config,
            r.visibility is Visible,
            r.dimensions == dimensions,
            r.scale == scale,
            !r.panel_changed,
            r.config_version == 0,
            r.space@ == Seq::<CosmicMappedInternal>::empty(),
            r.overflow_menu_buffer is None,
            r.popups@ == Seq::<PopupRecord>::empty(),
            !r.is_dirty,
            !r.has_frame,
            r.tracker.full,
            r.tracker.size.w == dimensions.w * scale,
            r.tracker.size.h == dimensions.h * scale,
    {
        let phys = dimensions.to_physical(scale);
        PanelSpace {
            config,
            visibility: PanelVisibility::Visible,
            dimensions,
            scale,
            panel_changed: false,
            config_version: 0,
            space: Vec::new(),
            overflow_menu_buffer: None,
            popups: Vec::new(),
            is_dirty: false,
            has_frame: false,
            tracker: DamageTracker::new(phys),
        }
    }

    /// Applies an autohide decision. A change of visibility resets the
    /// main surface's damage tracker to a fresh full-frame state, so a
    /// frame presented after the transition repaints the whole panel.
    pub fn set_visibility(&mut self, v: PanelVisibility)
        requires
            old(self).wf(),
        ensures
            final(self).wf(),
            final(self).visibility == v,
            *final(self) == (PanelSpace {
                visibility: v,
                tracker: final(self).tracker,
                ..*old(self)
            }),
            v == old(self).visibility ==> final(self).tracker == old(self).tracker,
            v != old(self).visibility ==> final(self).tracker.full
                && final(self).tracker.size.w == old(self).dimensions.w * old(self).scale
                && final(self).tracker.size.h == old(self).dimensions.h * old(self).scale
                && final(self).tracker.prev@ == Seq::<crate::damage::ElementStamp>::empty(),
    {
        let changed = !matches!((self.visibility, v), (
            PanelVisibility::Visible,
            PanelVisibility::Visible,
        ) | (PanelVisibility::Hidden, PanelVisibility::Hidden));
        self.visibility = v;
        if changed {
            let phys = self.dimensions.to_physical(self.scale);
            self.tracker.reset(phys);
        }
    }

    /// Records a frame-done callback: the addressed surface may submit a
    /// new frame. A callback for an unknown popup is ignored.
    pub fn on_frame_done(&mut self, surface: SurfaceId)
        requires
            old(self).wf(),
        ensures
            final(self).wf(),
            surface is MainSurface ==> *final(self) == (PanelSpace {
                has_frame: true,
                ..*old(self)
            }),
            surface matches SurfaceId::PopupSurface(pid) ==> *final(self) == (PanelSpace {
                popups: final(self).popups,
                ..*old(self)
            }) && final(self).popups@.len() == old(self).popups@.len() && forall|i: int|
                0 <= i < old(self).popups@.len() ==> if old(self).popups@[i].id == pid {
                    final(self).popups@[i] == (PopupRecord {
                        has_frame_callback: true,
                        ..old(self).popups@[i]
                    })
                } else {
                    final(self).popups@[i] == old(self).popups@[i]
                },
    {
        match surface {
            SurfaceId::MainSurface => {
                self.has_frame = true;
            },
            SurfaceId::PopupSurface(pid) => {
                let mut i: usize = 0;
                while i < self.popups.len()
                    invariant
                        0 <= i <= self.popups@.len(),
                        self.popups@.len() == old(self).popups@.len(),
                        *self == (PanelSpace { popups: self.popups, ..*old(self) }),
                        forall|j: int|
                            0 <= j < self.popups@.len() ==> if j < i && old(self).popups@[j].id == pid {
                                self.popups@[j] == (PopupRecord {
                                    has_frame_callback: true,
                                    ..old(self).popups@[j]
                                })
                            } else {
                                self.popups@[j] == old(self).popups@[j]
                            },
                    decreases self.popups@.len() - i,
                {
                    if self.popups[i].id == pid {
                        self.popups[i].has_frame_callback = true;
                    }
                    i += 1;
                }
                proof {
                    crate::popup::lemma_overflow_count_roles(old(self).popups@, self.popups@);
                }
            },
        }
    }

    /// Records new damage for a surface: it becomes dirty and is
    /// considered by the next scheduling pass. Damage for an unknown
    /// popup is ignored.
    pub fn mark_dirty(&mut self, surface: SurfaceId)
        requires
            old(self).wf(),
        ensures
            final(self).wf(),
            surface is MainSurface ==> *final(self) == (PanelSpace {
                is_dirty: true,
                ..*old(self)
            }),
            surface matches SurfaceId::PopupSurface(pid) ==> *final(self) == (PanelSpace {
                popups: final(self).popups,
                ..*old(self)
            }) && final(self).popups@.len() == old(self).popups@.len() && forall|i: int|
                0 <= i < old(self).popups@.len() ==> if old(self).popups@[i].id == pid {
                    final(self).popups@[i] == (PopupRecord {
                        dirty: true,
                        ..old(self).popups@[i]
                    })
                } else {
                    final(self).popups@[i] == old(self).popups@[i]
                },
    {
        match surface {
            SurfaceId::MainSurface => {
                self.is_dirty = true;
            },
            SurfaceId::PopupSurface(pid) => {
                let mut i: usize = 0;
                while i < self.popups.len()
                    invariant
                        0 <= i <= self.popups@.len(),
                        self.popups@.len() == old(self).popups@.len(),
                        *self == (PanelSpace { popups: self.popups, ..*old(self) }),
                        forall|j: int|
                            0 <= j < self.popups@.len() ==> if j < i && old(self).popups@[j].id == pid {
                                self.popups@[j] == (PopupRecord {
                                    dirty: true,
                                    ..old(self).popups@[j]
                                })
                            } else {
                                self.popups@[j] == old(self).popups@[j]
                            },
                    decreases self.popups@.len() - i,
                {
                    if self.popups[i].id == pid {
                        self.popups[i].dirty = true;
                    }
                    i += 1;
                }
                proof {
                    crate::popup::lemma_overflow_count_roles(old(self).popups@, self.popups@);
                }
            },
        }
    }

    /// Notes that the visual configuration changed: the next frame emits a
    /// fresh background element (when one is configured at all).
    pub fn mark_panel_changed(&mut self)
        requires
            old(self).wf(),
            old(self).config_version < u64::MAX,
        ensures
            final(self).wf(),
            *final(self) == (PanelSpace {
                panel_changed: true,
                config_version: (old(self).config_version + 1) as u64,
                ..*old(self)
            }),
    {
        self.panel_changed = true;
        self.config_version = self.config_version + 1;
    }

    /// Installs or clears the cached, pre-rendered overflow-menu image.
    /// While one is present, element assembly appends it as a buffer
    /// element instead of giving the overflow popup its own pass.
    pub fn set_overflow_menu_buffer(&mut self, b: Option<OverflowMenuBuffer>)
        requires
            old(self).wf(),
            b matches Some(buf) ==> buf.geometry.bounded(),
        ensures
            final(self).wf(),
            *final(self) == (PanelSpace { overflow_menu_buffer: b, ..*old(self) }),
    {
        self.overflow_menu_buffer = b;
    }

    /// Adds an element to the panel's space, above all current ones.
    pub fn map_element(&mut self, e: CosmicMappedInternal)
        requires
            old(self).wf(),
            e.bounded(),
        ensures
            final(self).wf(),
            *final(self) == (PanelSpace { space: final(self).space, ..*old(self) }),
            final(self).space@ == old(self).space@.push(e),
    {
        self.space.push(e);
    }
}

} // verus!
