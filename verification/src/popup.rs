//! Popup lifecycle.
//!
//! Every popup surface the panel owns — the overflow popup included — is
//! tracked as a [`PopupRecord`]. A record is created in `WaitConfigure`
//! when the surface is committed to the display server, moves to
//! `Configured` when the configure acknowledgment arrives, and is removed
//! on explicit close or when either backing surface stops being alive.
//! Only a configured, alive, bound, dirty popup that holds a frame
//! callback is rendered in a pass.

use vstd::prelude::*;

use crate::damage::DamageTracker;
use crate::geometry::Rect;
use crate::panel::{spec_panel_with_popups, PanelSpace};

verus! {

/// The configure-handshake state of a popup surface.
#[derive(Clone, Copy, Debug, PartialEq, Eq, Structural)]
pub enum PopupState {
    /// Committed to the display server; no configure acknowledgment yet.
    WaitConfigure,
    /// Configure received; steady state, eligible for rendering.
    Configured,
}

/// What a popup stands for.
#[derive(Clone, Copy, Debug, PartialEq, Eq, Structural)]
pub enum PopupRole {
    /// The single overflow popup the panel may show.
    Overflow,
    /// Any other popup surface routed through the panel.
    Other,
}

/// One tracked popup surface.
#[derive(Clone, Debug)]
pub struct PopupRecord {
    /// Identity of the popup's own surface.
    pub id: u64,
    pub role: PopupRole,
    pub state: PopupState,
    /// Geometry assigned by the configure handshake, in logical pixels.
    pub rect: Rect,
    /// Region that accepts input, in logical pixels.
    pub input_region: Rect,
    /// New damage arrived since the last presented frame.
    pub dirty: bool,
    /// The display signalled readiness for a new frame.
    pub has_frame_callback: bool,
    /// A graphics binding is attached to the popup's surface.
    pub has_binding: bool,
    /// The mirrored client content surface is alive.
    pub s_alive: bool,
    /// The popup's own surface is alive.
    pub c_alive: bool,
    /// Commit counter of the mirrored content.
    pub content_commit: u64,
    /// Damage tracker of the popup's own target.
    pub tracker: DamageTracker,
}

impl PopupRecord {
    /// Whether this popup is rendered in a scheduling pass: it has new
    /// damage, a graphics binding, a completed configure handshake, both
    /// backing surfaces alive, and a frame callback.
    pub open spec fn spec_eligible(self) -> bool {
        self.dirty && self.has_binding && self.state is Configured && self.s_alive && self.c_alive
            && self.has_frame_callback
    }

    /// Exec form of [`PopupRecord::spec_eligible`].
    pub fn eligible(&self) -> (r: bool)
        ensures
            r == self.spec_eligible(),
    {
        self.dirty && self.has_binding && matches!(self.state, PopupState::Configured)
            && self.s_alive && self.c_alive && self.has_frame_callback
    }

    /// Geometry within the coordinate limit.
    pub open spec fn bounded(self) -> bool {
        self.rect.bounded() && self.input_region.bounded()
    }
}

/// How the configure acknowledgment transforms a record: the handshake
/// completes, the supplied rectangle is adopted, and the popup's damage
/// tracker starts fresh at the rectangle's physical size. Everything else
/// is untouched.
pub open spec fn spec_configured_from(p: PopupRecord, q: PopupRecord, rect: Rect, scale: i32) -> bool {
    &&& q.id == p.id
    &&& q.role == p.role
    &&& q.state is Configured
    &&& q.rect == rect
    &&& q.input_region == p.input_region
    &&& q.dirty == p.dirty
    &&& q.has_frame_callback == p.has_frame_callback
    &&& q.has_binding == p.has_binding
    &&& q.s_alive == p.s_alive
    &&& q.c_alive == p.c_alive
    &&& q.content_commit == p.content_commit
    &&& q.tracker.full
    &&& q.tracker.size.w == rect.size.w * scale
    &&& q.tracker.size.h == rect.size.h * scale
    &&& q.tracker.prev@ == Seq::<crate::damage::ElementStamp>::empty()
}

/// How many of these popups are the overflow popup.
pub open spec fn spec_overflow_count(popups: Seq<PopupRecord>) -> nat
    decreases popups.len(),
{
    if popups.len() == 0 {
        0
    } else {
        spec_overflow_count(popups.drop_last()) + if popups.last().role is Overflow {
            1nat
        } else {
            0nat
        }
    }
}

/// The overflow count is zero exactly when no record is the overflow
/// popup.
pub proof fn lemma_overflow_count_zero(popups: Seq<PopupRecord>)
    ensures
        spec_overflow_count(popups) == 0 <==> forall|i: int|
            0 <= i < popups.len() ==> !(popups[i].role is Overflow),
    decreases popups.len(),
{
    if popups.len() > 0 {
        lemma_overflow_count_zero(popups.drop_last());
        assert(forall|i: int|
            0 <= i < popups.len() - 1 ==> popups.drop_last()[i] == popups[i]);
    }
}

/// Appending a record adds its role's contribution to the overflow count.
pub proof fn lemma_overflow_count_push(popups: Seq<PopupRecord>, p: PopupRecord)
    ensures
        spec_overflow_count(popups.push(p)) == spec_overflow_count(popups) + if p.role
            is Overflow {
            1nat
        } else {
            0nat
        },
{
    assert(popups.push(p).drop_last() =~= popups);
    assert(popups.push(p).last() == p);
}

/// The overflow count depends only on the records' roles.
pub proof fn lemma_overflow_count_roles(s1: Seq<PopupRecord>, s2: Seq<PopupRecord>)
    requires
        s1.len() == s2.len(),
        forall|i: int| 0 <= i < s1.len() ==> s1[i].role == s2[i].role,
    ensures
        spec_overflow_count(s1) == spec_overflow_count(s2),
    decreases s1.len(),
{
    if s1.len() > 0 {
        assert(forall|i: int| 0 <= i < s1.len() - 1 ==> s1.drop_last()[i] == s1[i]);
        assert(forall|i: int| 0 <= i < s2.len() - 1 ==> s2.drop_last()[i] == s2[i]);
        lemma_overflow_count_roles(s1.drop_last(), s2.drop_last());
        assert(s1.last().role == s2.last().role);
    }
}

impl PanelSpace {
    /// Handles the shell's configure acknowledgment for a popup: the
    /// addressed record adopts the supplied rectangle, completes the
    /// handshake, and gets a fresh damage tracker sized to the rectangle's
    /// physical pixels. A configure for an unknown popup is ignored.
    pub fn on_configure(&mut self, popup_id: u64, rect: Rect)
        requires
            old(self).wf(),
            rect.bounded(),
        ensures
            final(self).wf(),
            spec_panel_with_popups(*old(self), *final(self)),
            final(self).popups@.len() == old(self).popups@.len(),
            (forall|i: int|
                0 <= i < old(self).popups@.len() ==> old(self).popups@[i].id != popup_id) ==> *final(self) == *old(self),
            (exists|i: int|
                0 <= i < old(self).popups@.len() && old(self).popups@[i].id == popup_id)
                ==> exists|i: int|
                0 <= i < old(self).popups@.len() && old(self).popups@[i].id == popup_id
                    && spec_configured_from(
                    old(self).popups@[i],
                    final(self).popups@[i],
                    rect,
                    old(self).scale,
                ) && forall|j: int|
                    0 <= j < old(self).popups@.len() && j != i ==> final(self).popups@[j] == old(self).popups@[j],
    {
        let phys = rect.size.to_physical(self.scale);
        let mut i: usize = 0;
        while i < self.popups.len()
            invariant
                old(self).wf(),
                rect.bounded(),
                0 <= i <= self.popups@.len(),
                self.popups@ == old(self).popups@,
                *self == *old(self),
                forall|j: int| 0 <= j < i ==> self.popups@[j].id != popup_id,
                phys.w == rect.size.w * old(self).scale,
                phys.h == rect.size.h * old(self).scale,
            decreases self.popups@.len() - i,
        {
            if self.popups[i].id == popup_id {
                self.popups[i].state = PopupState::Configured;
                self.popups[i].rect = rect;
                self.popups[i].tracker = DamageTracker::new(phys);
                proof {
                    lemma_overflow_count_roles(old(self).popups@, self.popups@);
                }
                return ;
            }
            i += 1;
        }
    }

    /// Records that a graphics binding was attached to (or released from)
    /// a popup's surface. Unknown popups are ignored.
    pub fn set_popup_binding(&mut self, popup_id: u64, attached: bool)
        requires
            old(self).wf(),
        ensures
            final(self).wf(),
            spec_panel_with_popups(*old(self), *final(self)),
            final(self).popups@.len() == old(self).popups@.len(),
            forall|i: int|
                0 <= i < old(self).popups@.len() ==> if old(self).popups@[i].id == popup_id {
                    final(self).popups@[i] == (PopupRecord {
                        has_binding: attached,
                        ..old(self).popups@[i]
                    })
                } else {
                    final(self).popups@[i] == old(self).popups@[i]
                },
    {
        let mut i: usize = 0;
        while i < self.popups.len()
            invariant
                0 <= i <= self.popups@.len(),
                self.popups@.len() == old(self).popups@.len(),
                *self == (PanelSpace { popups: self.popups, ..*old(self) }),
                forall|j: int|
                    0 <= j < self.popups@.len() ==> if j < i && old(self).popups@[j].id
                        == popup_id {
                        self.popups@[j] == (PopupRecord {
                            has_binding: attached,
                            ..old(self).popups@[j]
                        })
                    } else {
                        self.popups@[j] == old(self).popups@[j]
                    },
            decreases self.popups@.len() - i,
        {
            if self.popups[i].id == popup_id {
                self.popups[i].has_binding = attached;
            }
            i += 1;
        }
        proof {
            lemma_overflow_count_roles(old(self).popups@, self.popups@);
        }
    }

    /// Records the liveness of a popup's two backing surfaces, as the
    /// protocol layer last observed them. A dead popup is silently skipped
    /// by the scheduler until [`PanelSpace::close_popup`] removes it.
    pub fn set_popup_liveness(&mut self, popup_id: u64, s_alive: bool, c_alive: bool)
        requires
            old(self).wf(),
        ensures
            final(self).wf(),
            spec_panel_with_popups(*old(self), *final(self)),
            final(self).popups@.len() == old(self).popups@.len(),
            forall|i: int|
                0 <= i < old(self).popups@.len() ==> if old(self).popups@[i].id == popup_id {
                    final(self).popups@[i] == (PopupRecord {
                        s_alive,
                        c_alive,
                        ..old(self).popups@[i]
                    })
                } else {
                    final(self).popups@[i] == old(self).popups@[i]
                },
    {
        let mut i: usize = 0;
        while i < self.popups.len()
            invariant
                0 <= i <= self.popups@.len(),
                self.popups@.len() == old(self).popups@.len(),
                *self == (PanelSpace { popups: self.popups, ..*old(self) }),
                forall|j: int|
                    0 <= j < self.popups@.len() ==> if j < i && old(self).popups@[j].id
                        == popup_id {
                        self.popups@[j] == (PopupRecord {
                            s_alive,
                            c_alive,
                            ..old(self).popups@[j]
                        })
                    } else {
                        self.popups@[j] == old(self).popups@[j]
                    },
            decreases self.popups@.len() - i,
        {
            if self.popups[i].id == popup_id {
                self.popups[i].s_alive = s_alive;
                self.popups[i].c_alive = c_alive;
            }
            i += 1;
        }
        proof {
            lemma_overflow_count_roles(old(self).popups@, self.popups@);
        }
    }

    /// Records a commit of the content surface a popup mirrors: the commit
    /// counter advances and the popup becomes dirty.
    pub fn on_popup_commit(&mut self, popup_id: u64, commit: u64)
        requires
            old(self).wf(),
        ensures
            final(self).wf(),
            spec_panel_with_popups(*old(self), *final(self)),
            final(self).popups@.len() == old(self).popups@.len(),
            forall|i: int|
                0 <= i < old(self).popups@.len() ==> if old(self).popups@[i].id == popup_id {
                    final(self).popups@[i] == (PopupRecord {
                        dirty: true,
                        content_commit: commit,
                        ..old(self).popups@[i]
                    })
                } else {
                    final(self).popups@[i] == old(self).popups@[i]
                },
    {
        let mut i: usize = 0;
        while i < self.popups.len()
            invariant
                0 <= i <= self.popups@.len(),
                self.popups@.len() == old(self).popups@.len(),
                *self == (PanelSpace { popups: self.popups, ..*old(self) }),
                forall|j: int|
                    0 <= j < self.popups@.len() ==> if j < i && old(self).popups@[j].id
                        == popup_id {
                        self.popups@[j] == (PopupRecord {
                            dirty: true,
                            content_commit: commit,
                            ..old(self).popups@[j]
                        })
                    } else {
                        self.popups@[j] == old(self).popups@[j]
                    },
            decreases self.popups@.len() - i,
        {
            if self.popups[i].id == popup_id {
                self.popups[i].dirty = true;
                self.popups[i].content_commit = commit;
            }
            i += 1;
        }
        proof {
            lemma_overflow_count_roles(old(self).popups@, self.popups@);
        }
    }

    /// Removes a popup from the tracked set: the terminal transition, on
    /// an explicit close or after a liveness loss. No further events reach
    /// a removed record. Closing an unknown popup changes nothing.
    pub fn close_popup(&mut self, popup_id: u64)
        requires
            old(self).wf(),
        ensures
            final(self).wf(),
            spec_panel_with_popups(*old(self), *final(self)),
            (forall|i: int|
                0 <= i < old(self).popups@.len() ==> old(self).popups@[i].id != popup_id) ==> *final(self) == *old(self),
            (exists|i: int|
                0 <= i < old(self).popups@.len() && old(self).popups@[i].id == popup_id)
                ==> exists|i: int|
                0 <= i < old(self).popups@.len() && old(self).popups@[i].id == popup_id && final(self).popups@ == old(self).popups@.remove(i),
    {
        let mut i: usize = 0;
        while i < self.popups.len()
            invariant
                old(self).wf(),
                0 <= i <= self.popups@.len(),
                self.popups@ == old(self).popups@,
                *self == *old(self),
                forall|j: int| 0 <= j < i ==> self.popups@[j].id != popup_id,
            decreases self.popups@.len() - i,
        {
            if self.popups[i].id == popup_id {
                proof {
                    lemma_overflow_count_remove(self.popups@, i as int);
                }
                self.popups.remove(i);
                return ;
            }
            i += 1;
        }
    }
}

/// Removing a record subtracts its role's contribution from the overflow
/// count.
pub proof fn lemma_overflow_count_remove(popups: Seq<PopupRecord>, i: int)
    requires
        0 <= i < popups.len(),
    ensures
        spec_overflow_count(popups) == spec_overflow_count(popups.remove(i)) + if popups[i].role
            is Overflow {
            1nat
        } else {
            0nat
        },
    decreases popups.len(),
{
    if i == popups.len() - 1 {
        assert(popups.remove(i) =~= popups.drop_last());
    } else {
        lemma_overflow_count_remove(popups.drop_last(), i);
        assert(popups.remove(i).drop_last() =~= popups.drop_last().remove(i));
        assert(popups.remove(i).last() == popups.last());
    }
}

} // verus!
