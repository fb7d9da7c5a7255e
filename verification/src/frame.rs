//! The triple-buffer ring of offscreen frame targets.
//!
//! Three targets are used in turn, so that the GPU can still read frame N
//! while frame N+1 is recorded into another one. The ring is generic over
//! the slot type; creating the textures is left to the caller.

use vstd::prelude::*;

verus! {

/// Three frame targets used in turn, all of one size.
pub struct TripleBuffer<T> {
    slots: [T; 3],
    current_index: usize,
    width: u32,
    height: u32,
}

impl<T> TripleBuffer<T> {
    /// The slots, in ring order.
    pub closed spec fn spec_slots(&self) -> Seq<T> {
        self.slots@
    }

    /// Position of the active slot.
    pub closed spec fn spec_index(&self) -> int {
        self.current_index as int
    }

    /// The size of the targets.
    pub closed spec fn spec_size(&self) -> (u32, u32) {
        (self.width, self.height)
    }

    /// The active slot is one of the three.
    pub closed spec fn wf(&self) -> bool {
        self.current_index < 3
    }

    /// A ring over `slots` of `width` x `height` whose first slot is active.
    pub fn new(slots: [T; 3], width: u32, height: u32) -> (r: Self)
        ensures
            r.wf(),
            r.spec_slots() == slots@,
            r.spec_index() == 0,
            r.spec_size() == (width, height),
    {
        TripleBuffer { slots, current_index: 0, width, height }
    }

    /// Makes the next slot, round the ring, the active one.
    pub fn advance(&mut self)
        requires
            old(self).wf(),
        ensures
            final(self).wf(),
            final(self).spec_index() == (old(self).spec_index() + 1) % 3,
            final(self).spec_slots() == old(self).spec_slots(),
            final(self).spec_size() == old(self).spec_size(),
    {
        self.current_index = (self.current_index + 1) % 3;
    }

    /// The active slot.
    pub fn current(&self) -> (r: &T)
        requires
            self.wf(),
        ensures
            *r == self.spec_slots()[self.spec_index()],
    {
        &self.slots[self.current_index]
    }

    /// Width of the targets.
    pub fn width(&self) -> (r: u32)
        ensures
            r == self.spec_size().0,
    {
        self.width
    }

    /// Height of the targets.
    pub fn height(&self) -> (r: u32)
        ensures
            r == self.spec_size().1,
    {
        self.height
    }
}

/// Whether the ring must be made anew for `width` x `height`: there is
/// none yet, or it has another size.
pub fn triple_buffer_needs_recreate<T>(ring: Option<&TripleBuffer<T>>, width: u32, height: u32) -> (r:
    bool)
    ensures
        r == match ring {
            Some(tb) => tb.spec_size() != (width, height),
            None => true,
        },
{
    match ring {
        Some(tb) => tb.width() != width || tb.height() != height,
        None => true,
    }
}

/// Advancing three times comes back to the same slot, and every slot is
/// active once in any three consecutive frames.
pub proof fn lemma_ring_visits_every_slot(i: int)
    requires
        0 <= i < 3,
    ensures
        ((i + 1) % 3 + 1) % 3 != i,
        (i + 1) % 3 != i,
        (((i + 1) % 3 + 1) % 3 + 1) % 3 == i,
{
}

} // verus!
