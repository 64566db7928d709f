//! Damage-tracked presentation.
//!
//! Each presentable surface owns one [`DamageTracker`]. The tracker
//! remembers which elements were drawn in the previously presented frame
//! (identity, commit counter and geometry) and, handed the next frame's
//! element list together with a buffer-age hint, produces the region that
//! must be repainted: the whole target when the tracker is fresh or the
//! back buffer is older than the kept history, otherwise the geometries of
//! elements that changed, appeared or vanished since the last frame.

use vstd::prelude::*;

use crate::element::PanelRenderElement;
use crate::geometry::{Extent, Rect};

verus! {

/// What the tracker remembers of one element it presented.
#[derive(Clone, Copy, Debug)]
pub struct ElementStamp {
    pub id: u64,
    pub commit: u64,
    pub geometry: Rect,
}

/// The stamp a render element leaves in the tracker.
pub open spec fn stamp_of(e: PanelRenderElement) -> ElementStamp {
    ElementStamp { id: e.spec_id(), commit: e.spec_current_commit(), geometry: e.spec_geometry() }
}

/// Whether a stamp with this identity and commit was presented last frame.
pub open spec fn has_stamp(prev: Seq<ElementStamp>, id: u64, commit: u64) -> bool {
    exists|i: int| 0 <= i < prev.len() && prev[i].id == id && prev[i].commit == commit
}

/// Whether an element with this identity is part of the new frame.
pub open spec fn elements_have_id(elems: Seq<PanelRenderElement>, id: u64) -> bool {
    exists|i: int| 0 <= i < elems.len() && elems[i].spec_id() == id
}

/// Geometries of new-frame elements that were not presented unchanged last
/// frame (new identity, or same identity with a newer commit).
pub open spec fn spec_changed_damage(
    elems: Seq<PanelRenderElement>,
    prev: Seq<ElementStamp>,
) -> Seq<Rect>
    decreases elems.len(),
{
    if elems.len() == 0 {
        Seq::empty()
    } else {
        let last = elems.last();
        spec_changed_damage(elems.drop_last(), prev) + if !has_stamp(
            prev,
            last.spec_id(),
            last.spec_current_commit(),
        ) {
            seq![last.spec_geometry()]
        } else {
            Seq::empty()
        }
    }
}

/// Geometries of last-frame elements that are absent from the new frame.
pub open spec fn spec_vanished_damage(
    prev: Seq<ElementStamp>,
    elems: Seq<PanelRenderElement>,
) -> Seq<Rect>
    decreases prev.len(),
{
    if prev.len() == 0 {
        Seq::empty()
    } else {
        let last = prev.last();
        spec_vanished_damage(prev.drop_last(), elems) + if !elements_have_id(elems, last.id) {
            seq![last.geometry]
        } else {
            Seq::empty()
        }
    }
}

/// A damage tracker for one presentable target.
#[derive(Clone, Debug)]
pub struct DamageTracker {
    /// Size of the target, in physical pixels.
    pub size: Extent,
    /// Whether the whole target must be repainted next frame. Set on
    /// creation and on every reset; cleared by a render pass.
    pub full: bool,
    /// Stamps of the elements presented in the last frame.
    pub prev: Vec<ElementStamp>,
}

/// The region a render pass must repaint: the whole target when the
/// tracker is fresh or the buffer-age hint says the back buffer is not the
/// one presented last frame; otherwise the changed and vanished element
/// geometries.
pub open spec fn spec_repaint(
    t: DamageTracker,
    buffer_age: usize,
    elems: Seq<PanelRenderElement>,
) -> Seq<Rect> {
    if t.full || buffer_age != 1 {
        seq![Rect::spec_at_origin(t.size)]
    } else {
        spec_changed_damage(elems, t.prev@) + spec_vanished_damage(t.prev@, elems)
    }
}

/// A fresh tracker damages everything: whatever the frame holds and
/// whatever age the back buffer reports, the repaint region is the full
/// target rectangle.
pub proof fn lemma_fresh_tracker_full_repaint(
    t: DamageTracker,
    buffer_age: usize,
    elems: Seq<PanelRenderElement>,
)
    requires
        t.full,
    ensures
        spec_repaint(t, buffer_age, elems) == seq![Rect::spec_at_origin(t.size)],
{
}

/// Looks a stamp up by identity and commit.
fn find_stamp(prev: &Vec<ElementStamp>, id: u64, commit: u64) -> (r: bool)
    ensures
        r == has_stamp(prev@, id, commit),
{
    let mut i: usize = 0;
    while i < prev.len()
        invariant
            0 <= i <= prev.len(),
            forall|j: int| 0 <= j < i ==> !(prev@[j].id == id && prev@[j].commit == commit),
        decreases prev.len() - i,
    {
        if prev[i].id == id && prev[i].commit == commit {
            return true;
        }
        i += 1;
    }
    false
}

/// Looks an element up by identity.
fn find_element_id(elems: &Vec<PanelRenderElement>, id: u64) -> (r: bool)
    ensures
        r == elements_have_id(elems@, id),
{
    let mut i: usize = 0;
    while i < elems.len()
        invariant
            0 <= i <= elems.len(),
            forall|j: int| 0 <= j < i ==> elems@[j].spec_id() != id,
        decreases elems.len() - i,
    {
        if elems[i].id() == id {
            return true;
        }
        i += 1;
    }
    false
}

impl DamageTracker {
    /// A fresh tracker for a target of the given size: full-frame damage,
    /// no presented elements remembered.
    pub fn new(size: Extent) -> (r: DamageTracker)
        ensures
            r.size == size,
            r.full,
            r.prev@ == Seq::<ElementStamp>::empty(),
    {
        DamageTracker { size, full: true, prev: Vec::new() }
    }

    /// Resets the tracker to a fresh full-frame state for a (possibly new)
    /// target size.
    pub fn reset(&mut self, size: Extent)
        ensures
            final(self).size == size,
            final(self).full,
            final(self).prev@ == Seq::<ElementStamp>::empty(),
    {
        *self = DamageTracker::new(size);
    }

    /// One damage-tracked render pass: returns the region to repaint for
    /// this frame and remembers the frame's elements for the next one.
    pub fn render_output(&mut self, buffer_age: usize, elements: &Vec<PanelRenderElement>) -> (r:
        Vec<Rect>)
        ensures
            r@ == spec_repaint(*old(self), buffer_age, elements@),
            final(self).size == old(self).size,
            !final(self).full,
            final(self).prev@ == elements@.map_values(|e: PanelRenderElement| stamp_of(e)),
    {
        let full_repaint = self.full || buffer_age != 1;
        let mut damage: Vec<Rect> = Vec::new();
        if full_repaint {
            damage.push(Rect::at_origin(self.size));
        } else {
            let mut i: usize = 0;
            while i < elements.len()
                invariant
                    0 <= i <= elements.len(),
                    damage@ == spec_changed_damage(elements@.take(i as int), self.prev@),
                decreases elements.len() - i,
            {
                let e = &elements[i];
                if !find_stamp(&self.prev, e.id(), e.current_commit()) {
                    damage.push(e.geometry());
                }
                proof {
                    assert(elements@.take(i + 1).drop_last() =~= elements@.take(i as int));
                    assert(elements@.take(i + 1).last() == elements@[i as int]);
                }
                i += 1;
            }
            proof {
                assert(elements@.take(elements@.len() as int) =~= elements@);
            }
            let mut j: usize = 0;
            while j < self.prev.len()
                invariant
                    0 <= j <= self.prev.len(),
                    damage@ == spec_changed_damage(elements@, self.prev@) + spec_vanished_damage(
                        self.prev@.take(j as int),
                        elements@,
                    ),
                decreases self.prev.len() - j,
            {
                let st = &self.prev[j];
                if !find_element_id(elements, st.id) {
                    damage.push(st.geometry);
                }
                proof {
                    assert(self.prev@.take(j + 1).drop_last() =~= self.prev@.take(j as int));
                    assert(self.prev@.take(j + 1).last() == self.prev@[j as int]);
                }
                j += 1;
            }
            proof {
                assert(self.prev@.take(self.prev@.len() as int) =~= self.prev@);
            }
        }
        let mut stamps: Vec<ElementStamp> = Vec::new();
        let mut k: usize = 0;
        while k < elements.len()
            invariant
                0 <= k <= elements.len(),
                stamps@ == elements@.take(k as int).map_values(
                    |e: PanelRenderElement| stamp_of(e),
                ),
            decreases elements.len() - k,
        {
            let e = &elements[k];
            stamps.push(ElementStamp { id: e.id(), commit: e.current_commit(), geometry: e.geometry() });
            proof {
                assert(elements@.take(k + 1).map_values(|e: PanelRenderElement| stamp_of(e))
                    =~= elements@.take(k as int).map_values(|e: PanelRenderElement| stamp_of(e))
                    .push(stamp_of(elements@[k as int])));
            }
            k += 1;
        }
        proof {
            assert(elements@.take(elements@.len() as int) =~= elements@);
        }
        self.full = false;
        self.prev = stamps;
        damage
    }
}

} // verus!
