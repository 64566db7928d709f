//! The overflow toggle.
//!
//! The panel shows at most one overflow popup. Toggling with one present
//! destroys it; toggling with none present computes an anchor rectangle
//! from the origin element, asks the display server for the popup's
//! protocol objects, and registers a new record in `WaitConfigure`. A
//! refused request leaves no record behind and is surfaced to the caller.

use vstd::prelude::*;

use crate::geometry::{Extent, Loc, Rect};
use crate::mapped::CosmicMappedInternal;
use crate::panel::{spec_panel_with_popups, PanelError, PanelSpace};
use crate::popup::{
    lemma_overflow_count_push, lemma_overflow_count_remove, lemma_overflow_count_zero,
    spec_configured_from, spec_overflow_count, PopupRecord, PopupRole, PopupState,
};

verus! {

/// The display server's answer to a popup-surface request, as the
/// protocol layer observed it.
#[derive(Clone, Copy, Debug, PartialEq, Eq, Structural)]
pub enum ProtocolReply {
    /// The requested surface and role were granted, under this identity.
    Granted { surface_id: u64 },
    /// The server refused an object or the role assignment.
    Refused,
}

impl ProtocolReply {
    /// The granted surface identity; meaningful only under `is Granted`.
    pub open spec fn spec_surface_id(self) -> u64 {
        match self {
            ProtocolReply::Granted { surface_id } => surface_id,
            ProtocolReply::Refused => 0,
        }
    }
}

/// What a toggle did.
#[derive(Clone, Copy, Debug, PartialEq, Eq, Structural)]
pub enum OverflowToggle {
    /// The open overflow popup was destroyed; the shell must release its
    /// surface and protocol objects.
    Closed { popup_id: u64 },
    /// A new overflow popup was registered, positioned against this
    /// anchor rectangle (logical pixels, panel-relative).
    Opened { popup_id: u64, anchor: Rect },
}

/// The anchor rectangle an element offers to a popup opened from it: the
/// button offers its icon's bounding box, a window its negotiated content
/// rectangle (empty while none is negotiated).
pub open spec fn spec_anchor_of(m: CosmicMappedInternal) -> Rect {
    match m {
        CosmicMappedInternal::OverflowButton(b) => b.bbox_spec(),
        CosmicMappedInternal::Window(w) => Rect {
            loc: w.loc,
            size: match w.toplevel {
                Some(t) => match t.negotiated {
                    Some(n) => n,
                    None => Extent { w: 0, h: 0 },
                },
                None => Extent { w: 0, h: 0 },
            },
        },
    }
}

/// Finds the anchor of the first tracked element with this identity.
fn find_anchor(space: &Vec<CosmicMappedInternal>, element_id: u64) -> (r: Option<Rect>)
    ensures
        r is None ==> forall|i: int| 0 <= i < space@.len() ==> space@[i].spec_id() != element_id,
        r matches Some(a) ==> exists|i: int|
            0 <= i < space@.len() && space@[i].spec_id() == element_id && (forall|j: int|
                0 <= j < i ==> space@[j].spec_id() != element_id) && a == spec_anchor_of(
                space@[i],
            ),
{
    let mut k: usize = 0;
    while k < space.len()
        invariant
            0 <= k <= space@.len(),
            forall|j: int| 0 <= j < k ==> space@[j].spec_id() != element_id,
        decreases space@.len() - k,
    {
        let e = &space[k];
        let matches_origin = match e {
            CosmicMappedInternal::OverflowButton(b) => b.button.id == element_id,
            CosmicMappedInternal::Window(w) => w.id == element_id,
        };
        if matches_origin {
            return Some(anchor_of(e));
        }
        k += 1;
    }
    None
}

/// Exec form of [`spec_anchor_of`].
fn anchor_of(m: &CosmicMappedInternal) -> (r: Rect)
    ensures
        r == spec_anchor_of(*m),
{
    match m {
        CosmicMappedInternal::OverflowButton(b) => b.bbox(),
        CosmicMappedInternal::Window(w) => Rect {
            loc: w.loc,
            size: match w.toplevel {
                Some(t) => match t.negotiated {
                    Some(n) => n,
                    None => Extent { w: 0, h: 0 },
                },
                None => Extent { w: 0, h: 0 },
            },
        },
    }
}

/// The record a fresh overflow popup starts as: waiting for its
/// configure, a frame callback owed by the initial commit, no graphics
/// binding yet, both surfaces alive, and no geometry until the configure
/// supplies one.
pub open spec fn spec_new_overflow_record(p: PopupRecord, surface_id: u64) -> bool {
    &&& p.id == surface_id
    &&& p.role is Overflow
    &&& p.state is WaitConfigure
    &&& p.rect == (Rect { loc: Loc { x: 0, y: 0 }, size: Extent { w: 0, h: 0 } })
    &&& p.input_region == (Rect { loc: Loc { x: 0, y: 0 }, size: Extent { w: 0, h: 0 } })
    &&& !p.dirty
    &&& p.has_frame_callback
    &&& !p.has_binding
    &&& p.s_alive
    &&& p.c_alive
    &&& p.content_commit == 0
    &&& p.tracker.full
    &&& p.tracker.prev@ == Seq::<crate::damage::ElementStamp>::empty()
}

/// A toggle that opened: one fresh overflow record was appended and
/// nothing else changed.
pub open spec fn spec_toggle_opened(pre: PanelSpace, post: PanelSpace, surface_id: u64) -> bool {
    &&& spec_panel_with_popups(pre, post)
    &&& post.popups@.len() == pre.popups@.len() + 1
    &&& post.popups@.subrange(0, pre.popups@.len() as int) == pre.popups@
    &&& spec_new_overflow_record(post.popups@.last(), surface_id)
}

/// A toggle that closed: one overflow record was removed and nothing else
/// changed.
pub open spec fn spec_toggle_closed(pre: PanelSpace, post: PanelSpace) -> bool {
    &&& spec_panel_with_popups(pre, post)
    &&& exists|i: int|
        0 <= i < pre.popups@.len() && pre.popups@[i].role is Overflow && post.popups@
            == pre.popups@.remove(i)
}

/// Everything a toggle can do to the panel: nothing (an aborted open),
/// close the overflow popup, or open one.
pub open spec fn spec_toggle_rel(pre: PanelSpace, post: PanelSpace) -> bool {
    ||| (spec_overflow_count(pre.popups@) == 0 && post == pre)
    ||| spec_toggle_closed(pre, post)
    ||| (spec_overflow_count(pre.popups@) == 0 && exists|sid: u64|
        spec_toggle_opened(pre, post, sid))
}

impl PanelSpace {
    /// Toggles the overflow popup from the element `element_id` as origin.
    ///
    /// With an overflow popup present it is removed, whatever the reply
    /// holds. With none present, the origin's anchor rectangle is looked
    /// up and the server's reply decides: a grant registers one fresh
    /// record in `WaitConfigure`; a refusal, or an untracked origin,
    /// changes nothing and surfaces the error.
    ///
    /// The display server keeps object identities unique among live
    /// objects, so a granted surface identity never collides with a
    /// tracked popup's: that machine fact is the one demand made of the
    /// caller.
    pub fn toggle_overflow_popup(&mut self, element_id: u64, reply: ProtocolReply) -> (r: Result<
        OverflowToggle,
        PanelError,
    >)
        requires
            old(self).wf(),
            reply matches ProtocolReply::Granted { surface_id } ==> forall|i: int|
                0 <= i < old(self).popups@.len() ==> old(self).popups@[i].id != surface_id,
        ensures
            final(self).wf(),
            spec_toggle_rel(*old(self), *final(self)),
            spec_overflow_count(old(self).popups@) > 0 ==> spec_toggle_closed(
                *old(self),
                *final(self),
            ) && spec_overflow_count(final(self).popups@) == 0 && (r matches Ok(t) && t is Closed),
            spec_overflow_count(old(self).popups@) == 0 && (forall|i: int|
                0 <= i < old(self).space@.len() ==> old(self).space@[i].spec_id() != element_id)
                ==> *final(self) == *old(self) && r == Err::<OverflowToggle, PanelError>(
                PanelError::OriginNotTracked,
            ),
            spec_overflow_count(old(self).popups@) == 0 && (exists|i: int|
                0 <= i < old(self).space@.len() && old(self).space@[i].spec_id() == element_id)
                && reply is Refused ==> *final(self) == *old(self) && r == Err::<
                OverflowToggle,
                PanelError,
            >(PanelError::ProtocolDenied),
            reply is Granted && spec_overflow_count(old(self).popups@) == 0 ==> ((exists|i: int|
                0 <= i < old(self).space@.len() && old(self).space@[i].spec_id() == element_id)
                ==> spec_toggle_opened(*old(self), *final(self), reply.spec_surface_id())
                && spec_overflow_count(final(self).popups@) == 1 && (exists|i: int|
                0 <= i < old(self).space@.len() && old(self).space@[i].spec_id() == element_id
                    && (forall|j: int|
                    0 <= j < i ==> old(self).space@[j].spec_id() != element_id) && r == Ok::<
                    OverflowToggle,
                    PanelError,
                >(
                    OverflowToggle::Opened {
                        popup_id: reply.spec_surface_id(),
                        anchor: spec_anchor_of(old(self).space@[i]),
                    },
                ))),
    {
        // Close path: an overflow popup exists.
        let mut i: usize = 0;
        while i < self.popups.len()
            invariant
                old(self).wf(),
                0 <= i <= self.popups@.len(),
                self.popups@ == old(self).popups@,
                *self == *old(self),
                forall|j: int| 0 <= j < i ==> !(self.popups@[j].role is Overflow),
            decreases self.popups@.len() - i,
        {
            if matches!(self.popups[i].role, PopupRole::Overflow) {
                proof {
                    lemma_overflow_count_remove(self.popups@, i as int);
                }
                let removed = self.popups.remove(i);
                proof {
                    lemma_overflow_count_zero(self.popups@);
                }
                return Ok(OverflowToggle::Closed { popup_id: removed.id });
            }
            i += 1;
        }
        proof {
            lemma_overflow_count_zero(self.popups@);
        }
        // Open path: find the origin's anchor.
        let anchor = find_anchor(&self.space, element_id);
        let anchor_rect = match anchor {
            Some(a) => a,
            None => {
                return Err(PanelError::OriginNotTracked);
            },
        };
        let surface_id = match reply {
            ProtocolReply::Granted { surface_id } => surface_id,
            ProtocolReply::Refused => {
                return Err(PanelError::ProtocolDenied);
            },
        };
        let zero_rect = Rect { loc: Loc { x: 0, y: 0 }, size: Extent { w: 0, h: 0 } };
        let record = PopupRecord {
            id: surface_id,
            role: PopupRole::Overflow,
            state: PopupState::WaitConfigure,
            rect: zero_rect,
            input_region: zero_rect,
            dirty: false,
            has_frame_callback: true,
            has_binding: false,
            s_alive: true,
            c_alive: true,
            content_commit: 0,
            tracker: crate::damage::DamageTracker::new(Extent { w: 0, h: 0 }),
        };
        proof {
            lemma_overflow_count_push(self.popups@, record);
        }
        self.popups.push(record);
        proof {
            assert(self.popups@.subrange(0, old(self).popups@.len() as int) =~= old(self).popups@);
            assert(spec_new_overflow_record(self.popups@.last(), surface_id));
            assert(spec_toggle_opened(*old(self), *self, surface_id));
            assert(exists|sid: u64| spec_toggle_opened(*old(self), *self, sid));
        }
        Ok(OverflowToggle::Opened { popup_id: surface_id, anchor: anchor_rect })
    }
}

/// Toggling twice in succession restores the overflow-popup count: a
/// toggle that opened leaves exactly one overflow popup, so the next
/// toggle can only close it, and the count returns to its pre-call value.
pub proof fn lemma_toggle_twice_restores_count(
    s0: PanelSpace,
    s1: PanelSpace,
    s2: PanelSpace,
    surface_id: u64,
)
    requires
        spec_toggle_opened(s0, s1, surface_id),
        spec_toggle_rel(s1, s2),
    ensures
        spec_overflow_count(s2.popups@) == spec_overflow_count(s0.popups@),
{
    assert(s1.popups@ =~= s0.popups@.push(s1.popups@.last()));
    lemma_overflow_count_push(s0.popups@, s1.popups@.last());
    assert(spec_overflow_count(s1.popups@) == spec_overflow_count(s0.popups@) + 1);
    if s2 == s1 && spec_overflow_count(s1.popups@) == 0 {
        assert(false);
    }
    if spec_toggle_closed(s1, s2) {
        let i = choose|i: int|
            0 <= i < s1.popups@.len() && s1.popups@[i].role is Overflow && s2.popups@
                == s1.popups@.remove(i);
        lemma_overflow_count_remove(s1.popups@, i);
    } else {
        assert(spec_overflow_count(s1.popups@) == 0);
        assert(false);
    }
}

/// Opening the overflow popup yields exactly one record, in
/// `WaitConfigure`; delivering its configure moves it to `Configured`,
/// after which it is eligible for a render pass exactly when it is dirty
/// and holds a frame callback and a graphics binding — both its surfaces
/// are alive from creation and stay so through the configure.
pub proof fn lemma_open_then_configure_eligibility(
    s0: PanelSpace,
    s1: PanelSpace,
    s2: PanelSpace,
    surface_id: u64,
    rect: Rect,
)
    requires
        s0.wf(),
        spec_overflow_count(s0.popups@) == 0,
        forall|i: int| 0 <= i < s0.popups@.len() ==> s0.popups@[i].id != surface_id,
        spec_toggle_opened(s0, s1, surface_id),
        // the configure handshake's effect, as `on_configure` ensures it
        s2.popups@.len() == s1.popups@.len(),
        exists|i: int|
            0 <= i < s1.popups@.len() && s1.popups@[i].id == surface_id && spec_configured_from(
                s1.popups@[i],
                s2.popups@[i],
                rect,
                s1.scale,
            ) && forall|j: int| 0 <= j < s1.popups@.len() && j != i ==> s2.popups@[j]
                == s1.popups@[j],
    ensures
        spec_overflow_count(s1.popups@) == 1,
        s1.popups@.last().state is WaitConfigure,
        s2.popups@.last().state is Configured,
        s2.popups@.last().spec_eligible() <==> (s2.popups@.last().dirty
            && s2.popups@.last().has_frame_callback && s2.popups@.last().has_binding),
{
    assert(s1.popups@ =~= s0.popups@.push(s1.popups@.last()));
    lemma_overflow_count_push(s0.popups@, s1.popups@.last());
    let i = choose|i: int|
        0 <= i < s1.popups@.len() && s1.popups@[i].id == surface_id && spec_configured_from(
            s1.popups@[i],
            s2.popups@[i],
            rect,
            s1.scale,
        ) && forall|j: int| 0 <= j < s1.popups@.len() && j != i ==> s2.popups@[j] == s1.popups@[j];
    let last = s1.popups@.len() - 1;
    if i != last {
        assert(s1.popups@[i] == s0.popups@[i]);
        assert(false);
    }
    assert(s2.popups@.last() == s2.popups@[last]);
    assert(s2.popups@.last().s_alive && s2.popups@.last().c_alive);
}

} // verus!
