//! Frame assembly and the scheduling pass.
//!
//! One call to [`PanelSpace::render`] drives one damage-tracked pass over
//! the main surface and every eligible popup. The panel decides what to
//! draw and how its flags move; the shell performs the GPU work and hands
//! its outcome in through a [`GfxProbe`]. A failed probe abandons the
//! frame with every flag untouched, so the next tick retries.

use vstd::prelude::*;

use crate::color::Rgba;
use crate::damage::{spec_repaint, stamp_of, ElementStamp};
use crate::element::{spec_surface_element, surface_element, PanelRenderElement};
use crate::geometry::{Extent, Rect};
use crate::mapped::CosmicMappedInternal;
use crate::panel::{PanelError, PanelSpace, PanelVisibility, BACKGROUND_ELEMENT_ID};
use crate::popup::{lemma_overflow_count_roles, PopupRecord};

verus! {

/// What the graphics layer reports for this pass: whether binding,
/// rendering and swapping succeed, and the age of the back buffer (frames
/// since it was last presented).
#[derive(Clone, Copy, Debug)]
pub struct GfxProbe {
    pub ok: bool,
    pub buffer_age: usize,
}

/// What happened to the main surface in one pass. `FastCleared` and
/// `Presented` each correspond to exactly one buffer swap; the skip
/// outcomes swap nothing.
#[derive(Debug)]
pub enum MainPass {
    /// The panel's physical size is at or below the minimal threshold;
    /// the whole pass was skipped and no state moved.
    SkippedBelowThreshold,
    /// The main surface was clean or waiting for its frame callback.
    SkippedClean,
    /// The hidden fast path: cleared to transparent, swapped, and the
    /// damage tracker reset — without assembling any element.
    FastCleared,
    /// A full presentation of the assembled element list.
    Presented {
        /// The elements drawn, bottom to top.
        elements: Vec<PanelRenderElement>,
        /// Clear color: the configured background, pre-multiplied.
        clear_color: Rgba,
        /// The region repainted, from the damage tracker.
        damage: Vec<Rect>,
        /// Windows owed a frame-presented notification.
        notified: Vec<u64>,
        /// The presentation timestamp those notifications carry.
        timestamp: u32,
    },
}

/// The outcome of one scheduling pass.
#[derive(Debug)]
pub struct FrameReport {
    pub main: MainPass,
    /// Identities of the popups presented this pass, in tracking order.
    pub popups_presented: Vec<u64>,
}

/// The elements one mapped element contributes: nothing without a
/// negotiated top-level content, else its cropped surface element.
pub open spec fn spec_element_of(m: CosmicMappedInternal, scale: i32) -> Seq<PanelRenderElement> {
    match m.spec_toplevel() {
        Some(t) => seq![
            spec_surface_element(
                m.spec_id(),
                t.commit,
                m.spec_loc().spec_to_physical(scale),
                t.buffer,
                t.negotiated,
                scale,
            ),
        ],
        None => Seq::empty(),
    }
}

/// The window elements contributed by the first `n` mapped elements, in
/// registration order.
pub open spec fn spec_window_elements_prefix(
    space: Seq<CosmicMappedInternal>,
    n: int,
    scale: i32,
) -> Seq<PanelRenderElement>
    decreases n,
{
    if n <= 0 {
        Seq::empty()
    } else {
        spec_window_elements_prefix(space, n - 1, scale) + spec_element_of(space[n - 1], scale)
    }
}

/// The window elements of the whole space.
pub open spec fn spec_window_elements(space: Seq<CosmicMappedInternal>, scale: i32) -> Seq<
    PanelRenderElement,
> {
    spec_window_elements_prefix(space, space.len() as int, scale)
}

/// How many of the first `n` mapped elements expose a negotiated
/// top-level content.
pub open spec fn spec_mapped_count_prefix(space: Seq<CosmicMappedInternal>, n: int) -> nat
    decreases n,
{
    if n <= 0 {
        0
    } else {
        spec_mapped_count_prefix(space, n - 1) + if space[n - 1].spec_toplevel() is Some {
            1nat
        } else {
            0nat
        }
    }
}

/// How many mapped elements expose a negotiated top-level content.
pub open spec fn spec_mapped_count(space: Seq<CosmicMappedInternal>) -> nat {
    spec_mapped_count_prefix(space, space.len() as int)
}

proof fn lemma_window_elements_prefix_len(space: Seq<CosmicMappedInternal>, n: int, scale: i32)
    requires
        0 <= n <= space.len(),
    ensures
        spec_window_elements_prefix(space, n, scale).len() == spec_mapped_count_prefix(space, n),
    decreases n,
{
    if n > 0 {
        lemma_window_elements_prefix_len(space, n - 1, scale);
    }
}

/// Elements without negotiated content are excluded from the assembled
/// window elements: the list holds exactly one element per mapped element
/// that exposes a top-level content.
pub proof fn lemma_elements_exclude_unmapped(space: Seq<CosmicMappedInternal>, scale: i32)
    ensures
        spec_window_elements(space, scale).len() == spec_mapped_count(space),
{
    lemma_window_elements_prefix_len(space, space.len() as int, scale);
}

/// Where no popup is eligible, a pass presents none.
proof fn lemma_presented_ids_empty(popups: Seq<PopupRecord>, n: int)
    requires
        n <= popups.len(),
        forall|i: int| 0 <= i < popups.len() ==> !popups[i].spec_eligible(),
    ensures
        spec_presented_popup_ids(popups, n) == Seq::<u64>::empty(),
    decreases n,
{
    if n > 0 {
        lemma_presented_ids_empty(popups, n - 1);
        assert(spec_presented_popup_ids(popups, n) =~= Seq::<u64>::empty());
    }
}

/// Identities of the windows among the first `n` mapped elements; every
/// window is owed a frame-presented notification after a presentation.
pub open spec fn spec_window_ids_prefix(space: Seq<CosmicMappedInternal>, n: int) -> Seq<u64>
    decreases n,
{
    if n <= 0 {
        Seq::empty()
    } else {
        spec_window_ids_prefix(space, n - 1) + if space[n - 1].spec_is_window() {
            seq![space[n - 1].spec_id()]
        } else {
            Seq::empty()
        }
    }
}

/// Identities of all windows in the space.
pub open spec fn spec_window_ids(space: Seq<CosmicMappedInternal>) -> Seq<u64> {
    spec_window_ids_prefix(space, space.len() as int)
}

/// Whether some popup is eligible for rendering this pass.
pub open spec fn spec_any_popup_eligible(popups: Seq<PopupRecord>) -> bool {
    exists|i: int| 0 <= i < popups.len() && popups[i].spec_eligible()
}

/// Identities of the eligible popups among the first `n`, in order.
pub open spec fn spec_presented_popup_ids(popups: Seq<PopupRecord>, n: int) -> Seq<u64>
    decreases n,
{
    if n <= 0 {
        Seq::empty()
    } else {
        spec_presented_popup_ids(popups, n - 1) + if popups[n - 1].spec_eligible() {
            seq![popups[n - 1].id]
        } else {
            Seq::empty()
        }
    }
}

/// The single element a popup's own pass draws: its mirrored content at
/// the popup's physical size.
pub open spec fn spec_popup_element(p: PopupRecord, scale: i32) -> PanelRenderElement {
    PanelRenderElement::Wayland {
        id: p.id,
        commit: p.content_commit,
        src: Rect::spec_at_origin(p.rect.size.spec_to_physical(scale)),
        geometry: Rect::spec_at_origin(p.rect.size.spec_to_physical(scale)),
    }
}

/// How a popup pass transforms an eligible record: its tracker presented
/// the popup's element, and its dirty and frame-callback flags dropped.
pub open spec fn spec_popup_presented(p: PopupRecord, q: PopupRecord, scale: i32) -> bool {
    &&& q.id == p.id
    &&& q.role == p.role
    &&& q.state == p.state
    &&& q.rect == p.rect
    &&& q.input_region == p.input_region
    &&& !q.dirty
    &&& !q.has_frame_callback
    &&& q.has_binding == p.has_binding
    &&& q.s_alive == p.s_alive
    &&& q.c_alive == p.c_alive
    &&& q.content_commit == p.content_commit
    &&& q.tracker.size == p.tracker.size
    &&& !q.tracker.full
    &&& q.tracker.prev@ == seq![stamp_of(spec_popup_element(p, scale))]
}

/// A visibility transition leaves the main damage tracker fresh (see
/// [`PanelSpace::set_visibility`]), and a presentation over a fresh
/// tracker repaints the whole panel rectangle, whatever the frame holds
/// and whatever age the back buffer reports: stale partial damage is
/// never presented after the panel was hidden.
pub proof fn lemma_transition_forces_full_repaint(s: PanelSpace, buffer_age: usize)
    requires
        s.tracker.full,
    ensures
        spec_repaint(s.tracker, buffer_age, s.spec_assembled_elements()) == seq![
            Rect::spec_at_origin(s.tracker.size),
        ],
{
}

/// A scheduling pass touches only the surface flags, the trackers and the
/// popup set.
pub open spec fn spec_panel_after_pass(pre: PanelSpace, post: PanelSpace) -> bool {
    post == (PanelSpace {
        popups: post.popups,
        is_dirty: post.is_dirty,
        has_frame: post.has_frame,
        tracker: post.tracker,
        ..pre
    })
}

/// The main surface has work: new damage arrived and the display is ready
/// for a frame.
pub open spec fn spec_main_work_due(s: PanelSpace) -> bool {
    s.is_dirty && s.has_frame
}

fn any_eligible(popups: &Vec<PopupRecord>) -> (r: bool)
    ensures
        r == spec_any_popup_eligible(popups@),
{
    let mut i: usize = 0;
    while i < popups.len()
        invariant
            0 <= i <= popups@.len(),
            forall|j: int| 0 <= j < i ==> !popups@[j].spec_eligible(),
        decreases popups@.len() - i,
    {
        if popups[i].eligible() {
            return true;
        }
        i += 1;
    }
    false
}

impl PanelSpace {
    /// Whether the changed visual configuration asks for a background
    /// element: only a gapped or rounded background is drawn at all.
    pub open spec fn spec_wants_background(self) -> bool {
        self.panel_changed && (self.config.anchor_gap || self.config.border_radius > 0)
    }

    /// The background shader element at the full panel rectangle.
    pub open spec fn spec_background_element(self) -> PanelRenderElement {
        PanelRenderElement::RoundedRectangle {
            id: BACKGROUND_ELEMENT_ID,
            commit: self.config_version,
            src: Rect::spec_at_origin(self.dimensions.spec_to_physical(self.scale)),
            geometry: Rect::spec_at_origin(self.dimensions.spec_to_physical(self.scale)),
        }
    }

    /// The cached overflow-menu image as a buffer element, when present.
    pub open spec fn spec_overflow_buffer_elements(self) -> Seq<PanelRenderElement> {
        match self.overflow_menu_buffer {
            Some(b) => seq![
                PanelRenderElement::OverflowMenu {
                    id: b.id,
                    commit: b.commit,
                    src: Rect::spec_at_origin(b.geometry.size),
                    geometry: b.geometry,
                },
            ],
            None => Seq::empty(),
        }
    }

    /// The full element list of a main-surface frame, bottom to top: the
    /// background (only when the configuration changed and a gap or
    /// radius is set), one cropped surface element per window with
    /// negotiated content in registration order, and the cached overflow
    /// image last.
    pub open spec fn spec_assembled_elements(self) -> Seq<PanelRenderElement> {
        (if self.spec_wants_background() {
            seq![self.spec_background_element()]
        } else {
            Seq::empty()
        }) + spec_window_elements(self.space@, self.scale) + self.spec_overflow_buffer_elements()
    }

    /// Assembles the ordered element list for the main surface. Pure
    /// assembly: no flag moves, no GPU work.
    #[verifier::loop_isolation(false)]
    pub fn assemble_elements(&self) -> (r: Vec<PanelRenderElement>)
        requires
            self.wf(),
        ensures
            r@ == self.spec_assembled_elements(),
    {
        let mut out: Vec<PanelRenderElement> = Vec::new();
        if self.panel_changed && (self.config.anchor_gap || self.config.border_radius > 0) {
            let phys = self.dimensions.to_physical(self.scale);
            out.push(
                PanelRenderElement::RoundedRectangle {
                    id: BACKGROUND_ELEMENT_ID,
                    commit: self.config_version,
                    src: Rect::at_origin(phys),
                    geometry: Rect::at_origin(phys),
                },
            );
        }
        let ghost bg_part = out@;
        let mut i: usize = 0;
        while i < self.space.len()
            invariant
                0 <= i <= self.space@.len(),
                out@ == bg_part + spec_window_elements_prefix(self.space@, i as int, self.scale),
            decreases self.space@.len() - i,
        {
            let e = &self.space[i];
            if let Some(t) = e.toplevel() {
                let phys_loc = e.loc().to_physical(self.scale);
                let el = surface_element(e.id(), t.commit, phys_loc, t.buffer, t.negotiated, self.scale);
                out.push(el);
            }
            proof {
                assert(out@ =~= bg_part + spec_window_elements_prefix(
                    self.space@,
                    i + 1,
                    self.scale,
                ));
            }
            i += 1;
        }
        if let Some(b) = self.overflow_menu_buffer {
            out.push(
                PanelRenderElement::OverflowMenu {
                    id: b.id,
                    commit: b.commit,
                    src: Rect::at_origin(b.geometry.size),
                    geometry: b.geometry,
                },
            );
        }
        proof {
            assert(out@ =~= self.spec_assembled_elements());
        }
        out
    }

    /// One scheduling pass across the main surface and every popup.
    ///
    /// The pass is skipped entirely while the panel's physical size is at
    /// or below the minimal threshold. A failed graphics probe abandons
    /// the frame with an error and every flag untouched — unless nothing
    /// was due, in which case the pass is an error-free no-op. With a good
    /// probe: a clean main surface is skipped; a hidden panel takes the
    /// fast clear path, resetting its damage tracker without assembling
    /// elements; a visible one presents the assembled list through the
    /// damage tracker with the pre-multiplied background as clear color,
    /// owing every window a frame-presented notification. Each eligible
    /// popup then presents its own element through its own tracker. Every
    /// presented surface drops its dirty and frame-callback flags.
    #[verifier::loop_isolation(false)]
    pub fn render(&mut self, time: u32, gfx: GfxProbe) -> (r: Result<FrameReport, PanelError>)
        requires
            old(self).wf(),
        ensures
            final(self).wf(),
            spec_panel_after_pass(*old(self), *final(self)),
            old(self).spec_below_threshold() ==> *final(self) == *old(self) && (r matches Ok(rep)
                && rep.main is SkippedBelowThreshold && rep.popups_presented@ == Seq::<
                u64,
            >::empty()),
            !old(self).spec_below_threshold() && !gfx.ok && (spec_main_work_due(*old(self))
                || spec_any_popup_eligible(old(self).popups@)) ==> *final(self) == *old(self) && r
                == Err::<FrameReport, PanelError>(PanelError::Graphics),
            !old(self).spec_below_threshold() && !spec_main_work_due(*old(self))
                && !spec_any_popup_eligible(old(self).popups@) ==> *final(self) == *old(self) && (
            r matches Ok(rep) && rep.main is SkippedClean && rep.popups_presented@ == Seq::<
                u64,
            >::empty()),
            !old(self).spec_below_threshold() && gfx.ok ==> r is Ok && final(self).popups@.len()
                == old(self).popups@.len() && (forall|i: int|
                0 <= i < old(self).popups@.len() ==> if old(self).popups@[i].spec_eligible() {
                    spec_popup_presented(
                        old(self).popups@[i],
                        final(self).popups@[i],
                        old(self).scale,
                    )
                } else {
                    final(self).popups@[i] == old(self).popups@[i]
                }) && (r matches Ok(rep) && rep.popups_presented@ == spec_presented_popup_ids(
                old(self).popups@,
                old(self).popups@.len() as int,
            )),
            !old(self).spec_below_threshold() && gfx.ok && !spec_main_work_due(*old(self)) ==> (
            r matches Ok(rep) && rep.main is SkippedClean) && final(self).is_dirty == old(self).is_dirty && final(self).has_frame == old(self).has_frame && final(self).tracker == old(self).tracker,
            !old(self).spec_below_threshold() && gfx.ok && spec_main_work_due(*old(self)) && old(self).visibility is Hidden ==> (r matches Ok(rep) && rep.main is FastCleared) && !final(self).is_dirty && !final(self).has_frame && final(self).tracker.full && final(self).tracker.size.w == old(self).dimensions.w * old(self).scale && final(self).tracker.size.h == old(self).dimensions.h * old(self).scale && final(self).tracker.prev@ == Seq::<ElementStamp>::empty(),
            !old(self).spec_below_threshold() && gfx.ok && spec_main_work_due(*old(self)) && old(self).visibility is Visible ==> (r matches Ok(rep) && rep.main matches MainPass::Presented {
                elements,
                clear_color,
                damage,
                notified,
                timestamp,
            } && timestamp == time && elements@ == old(self).spec_assembled_elements() && clear_color == old(self).config.bg_color.spec_premultiplied() && damage@ == spec_repaint(
                old(self).tracker,
                gfx.buffer_age,
                old(self).spec_assembled_elements(),
            ) && notified@ == spec_window_ids(old(self).space@)) && !final(self).is_dirty && !final(self).has_frame && !final(self).tracker.full && final(self).tracker.size == old(self).tracker.size && final(self).tracker.prev@ == old(self).spec_assembled_elements().map_values(|e: PanelRenderElement| stamp_of(e)),
    {
        let phys = self.dimensions.to_physical(self.scale);
        if phys.w <= 20 || phys.h <= 20 {
            return Ok(
                FrameReport { main: MainPass::SkippedBelowThreshold, popups_presented: Vec::new() },
            );
        }
        let main_due = self.is_dirty && self.has_frame;
        let popups_due = any_eligible(&self.popups);
        if !gfx.ok {
            if main_due || popups_due {
                return Err(PanelError::Graphics);
            }
            return Ok(FrameReport { main: MainPass::SkippedClean, popups_presented: Vec::new() });
        }
        if !main_due && !popups_due {
            proof {
                lemma_presented_ids_empty(self.popups@, self.popups@.len() as int);
            }
            return Ok(FrameReport { main: MainPass::SkippedClean, popups_presented: Vec::new() });
        }
        let main = if !main_due {
            MainPass::SkippedClean
        } else if matches!(self.visibility, PanelVisibility::Hidden) {
            // Fast clear: the shell cleared to transparent and swapped;
            // accumulated damage must not replay against the blank buffer.
            self.tracker.reset(phys);
            self.is_dirty = false;
            self.has_frame = false;
            MainPass::FastCleared
        } else {
            let elements = self.assemble_elements();
            let clear_color = self.config.bg_color.premultiplied();
            let mut notified: Vec<u64> = Vec::new();
            let mut w: usize = 0;
            while w < self.space.len()
                invariant
                    0 <= w <= self.space@.len(),
                    notified@ == spec_window_ids_prefix(self.space@, w as int),
                decreases self.space@.len() - w,
            {
                if matches!(&self.space[w], CosmicMappedInternal::Window(_)) {
                    let id = self.space[w].id();
                    notified.push(id);
                }
                proof {
                    assert(notified@ =~= spec_window_ids_prefix(self.space@, w + 1));
                }
                w += 1;
            }
            let damage = self.tracker.render_output(gfx.buffer_age, &elements);
            self.is_dirty = false;
            self.has_frame = false;
            MainPass::Presented { elements, clear_color, damage, notified, timestamp: time }
        };
        let ghost mid = *self;
        let mut presented: Vec<u64> = Vec::new();
        let mut i: usize = 0;
        while i < self.popups.len()
            invariant
                0 <= i <= self.popups@.len(),
                self.popups@.len() == mid.popups@.len(),
                *self == (PanelSpace { popups: self.popups, ..mid }),
                forall|j: int|
                    0 <= j < self.popups@.len() ==> if j < i && mid.popups@[j].spec_eligible() {
                        spec_popup_presented(mid.popups@[j], self.popups@[j], mid.scale)
                    } else {
                        self.popups@[j] == mid.popups@[j]
                    },
                presented@ == spec_presented_popup_ids(mid.popups@, i as int),
            decreases self.popups@.len() - i,
        {
            if self.popups[i].eligible() {
                let psize = self.popups[i].rect.size.to_physical(self.scale);
                let pid = self.popups[i].id;
                let el = PanelRenderElement::Wayland {
                    id: pid,
                    commit: self.popups[i].content_commit,
                    src: Rect::at_origin(psize),
                    geometry: Rect::at_origin(psize),
                };
                let els = vec![el];
                let _popup_damage = self.popups[i].tracker.render_output(gfx.buffer_age, &els);
                proof {
                    assert(els@.map_values(|e: PanelRenderElement| stamp_of(e)) =~= seq![
                        stamp_of(spec_popup_element(mid.popups@[i as int], mid.scale)),
                    ]);
                }
                self.popups[i].dirty = false;
                self.popups[i].has_frame_callback = false;
                presented.push(pid);
            }
            proof {
                assert(presented@ =~= spec_presented_popup_ids(mid.popups@, i + 1));
            }
            i += 1;
        }
        proof {
            assert(forall|j: int|
                0 <= j < self.popups@.len() ==> self.popups@[j].role == old(self).popups@[j].role);
            lemma_overflow_count_roles(old(self).popups@, self.popups@);
            assert(self.wf());
        }
        Ok(FrameReport { main, popups_presented: presented })
    }
}

} // verus!
