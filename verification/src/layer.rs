//! Render layers: identifiers, compositing options, and the manager that
//! hands out identifiers and tracks which layers need re-rendering. What a
//! layer draws is the caller's own type.

use vstd::prelude::*;

verus! {

/// Layer identifier.
#[derive(Debug, Clone, Copy, PartialEq, Eq, Hash, Structural)]
pub struct LayerId(pub u64);

impl LayerId {
    /// The identifier after this one.
    pub fn next(&self) -> (r: Self)
        requires
            self.0 < u64::MAX,
        ensures
            r.0 == self.0 + 1,
    {
        LayerId(self.0 + 1)
    }
}

impl Default for LayerId {
    fn default() -> (r: Self)
        ensures
            r.0 == 0,
    {
        LayerId(0)
    }
}

/// Blend modes for layer compositing.
#[derive(Debug, Clone, Copy, PartialEq, Eq, Structural)]
pub enum BlendMode {
    Normal,
    Multiply,
    Screen,
    Overlay,
    Plus,
}

impl Default for BlendMode {
    fn default() -> (r: Self)
        ensures
            r == BlendMode::Normal,
    {
        BlendMode::Normal
    }
}

/// Cache hint for the layer eviction policy.
#[derive(Debug, Clone, Copy, PartialEq, Eq, Structural)]
pub enum CacheHint {
    /// Not cached: rendered every frame.
    Never,
    /// Cached, evictable under memory pressure.
    Auto,
    /// Kept cached.
    Persistent,
}

impl Default for CacheHint {
    fn default() -> (r: Self)
        ensures
            r == CacheHint::Auto,
    {
        CacheHint::Auto
    }
}

/// Layers by identifier, with the identifiers that come next and which
/// layers need re-rendering. The three vectors run in parallel, in order of
/// creation, so identifiers grow along them.
pub struct LayerManager<L> {
    ids: Vec<u64>,
    layers: Vec<L>,
    dirty: Vec<bool>,
    next_id: u64,
}

/// Whether `ids` grow strictly from first to last.
pub open spec fn strictly_increasing(ids: Seq<u64>) -> bool {
    forall|i: int, j: int| 0 <= i < j < ids.len() ==> ids[i] < ids[j]
}

/// Position of `id` in `ids`, or -1 when it is not there.
pub open spec fn position_of(ids: Seq<u64>, id: u64) -> int {
    if ids.contains(id) {
        choose|i: int| 0 <= i < ids.len() && ids[i] == id
    } else {
        -1
    }
}

/// Of the first `n` identifiers, those whose flag in `dirty` is set, in
/// order.
pub open spec fn dirty_ids(ids: Seq<u64>, dirty: Seq<bool>, n: nat) -> Seq<u64>
    decreases n,
{
    if n == 0 {
        Seq::empty()
    } else {
        let before = dirty_ids(ids, dirty, (n - 1) as nat);
        if dirty[n - 1] {
            before.push(ids[n - 1])
        } else {
            before
        }
    }
}

impl<L> LayerManager<L> {
    /// Identifiers of the layers, in order of creation.
    pub closed spec fn spec_ids(&self) -> Seq<u64> {
        self.ids@
    }

    /// The layers, in the order of `spec_ids`.
    pub closed spec fn spec_layers(&self) -> Seq<L> {
        self.layers@
    }

    /// Which layers need re-rendering, in the order of `spec_ids`.
    pub closed spec fn spec_dirty(&self) -> Seq<bool> {
        self.dirty@
    }

    /// The identifier the next layer gets.
    pub closed spec fn spec_next_id(&self) -> u64 {
        self.next_id
    }

    /// The vectors run in parallel, identifiers start at 1, grow strictly,
    /// and lie below the next identifier.
    pub open spec fn wf(&self) -> bool {
        &&& self.spec_layers().len() == self.spec_ids().len()
        &&& self.spec_dirty().len() == self.spec_ids().len()
        &&& self.spec_next_id() >= 1
        &&& strictly_increasing(self.spec_ids())
        &&& forall|i: int| 0 <= i < self.spec_ids().len() ==> 1 <= #[trigger] self.spec_ids()[i] < self.spec_next_id()
    }

    /// An empty manager whose first layer gets identifier 1.
    pub fn new() -> (r: Self)
        ensures
            r.wf(),
            r.spec_ids() == Seq::<u64>::empty(),
            r.spec_next_id() == 1,
    {
        LayerManager { ids: Vec::new(), layers: Vec::new(), dirty: Vec::new(), next_id: 1 }
    }

    /// Position of layer `id` in the vectors, if it is there.
    fn find(&self, id: LayerId) -> (r: Option<usize>)
        requires
            self.wf(),
        ensures
            r is None <==> !self.spec_ids().contains(id.0),
            r is Some ==> r.unwrap() < self.spec_ids().len() && self.spec_ids()[r.unwrap() as int] == id.0,
            r is Some ==> r.unwrap() == position_of(self.spec_ids(), id.0),
    {
        let mut i: usize = 0;
        while i < self.ids.len()
            invariant
                self.wf(),
                i <= self.ids@.len(),
                forall|k: int| 0 <= k < i ==> self.ids@[k] != id.0,
            decreases self.ids@.len() - i,
        {
            if self.ids[i] == id.0 {
                proof {
                    let p = position_of(self.spec_ids(), id.0);
                    assert(self.spec_ids().contains(id.0));
                    assert(0 <= p < self.spec_ids().len() && self.spec_ids()[p] == id.0);
                    if p != i as int {
                        if p < i {
                            assert(self.ids@[p] < self.ids@[i as int]);
                        } else {
                            assert(self.ids@[i as int] < self.ids@[p]);
                        }
                    }
                }
                return Some(i);
            }
            i = i + 1;
        }
        None
    }

    /// Creates a layer with the next identifier, built by `make` from that
    /// identifier, and returns the identifier. A new layer needs rendering.
    pub fn create_layer<F>(&mut self, make: F) -> (r: LayerId)
        where
            F: FnOnce(LayerId) -> L,
        requires
            old(self).wf(),
            old(self).spec_next_id() < u64::MAX,
            call_requires(make, (LayerId(old(self).spec_next_id()),)),
        ensures
            final(self).wf(),
            r.0 == old(self).spec_next_id(),
            final(self).spec_next_id() == old(self).spec_next_id() + 1,
            final(self).spec_ids() == old(self).spec_ids().push(r.0),
            final(self).spec_dirty() == old(self).spec_dirty().push(true),
            final(self).spec_layers().len() == old(self).spec_layers().len() + 1,
            final(self).spec_layers().drop_last() == old(self).spec_layers(),
            call_ensures(make, (r,), final(self).spec_layers().last()),
    {
        let id = LayerId(self.next_id);
        let layer = make(id);
        self.ids.push(id.0);
        self.layers.push(layer);
        self.dirty.push(true);
        self.next_id = self.next_id + 1;
        proof {
            assert(self.layers@.drop_last() =~= old(self).layers@);
        }
        id
    }

    /// The layer with identifier `id`, if there is one.
    pub fn get(&self, id: LayerId) -> (r: Option<&L>)
        requires
            self.wf(),
        ensures
            r is None <==> !self.spec_ids().contains(id.0),
            r is Some ==> *r.unwrap() == self.spec_layers()[position_of(self.spec_ids(), id.0)],
    {
        match self.find(id) {
            Some(i) => Some(&self.layers[i]),
            None => None,
        }
    }

    /// Whether layer `id` is there and needs re-rendering.
    pub fn is_dirty(&self, id: LayerId) -> (r: bool)
        requires
            self.wf(),
        ensures
            r == (self.spec_ids().contains(id.0) && self.spec_dirty()[position_of(self.spec_ids(), id.0)]),
    {
        match self.find(id) {
            Some(i) => self.dirty[i],
            None => false,
        }
    }

    /// Removes layer `id` and returns it, if it is there.
    pub fn remove(&mut self, id: LayerId) -> (r: Option<L>)
        requires
            old(self).wf(),
        ensures
            final(self).wf(),
            final(self).spec_next_id() == old(self).spec_next_id(),
            !old(self).spec_ids().contains(id.0) ==> r is None && final(self).spec_ids() == old(
                self,
            ).spec_ids() && final(self).spec_layers() == old(self).spec_layers()
                && final(self).spec_dirty() == old(self).spec_dirty(),
            old(self).spec_ids().contains(id.0) ==> {
                let p = position_of(old(self).spec_ids(), id.0);
                &&& r == Some(old(self).spec_layers()[p])
                &&& final(self).spec_ids() == old(self).spec_ids().remove(p)
                &&& final(self).spec_layers() == old(self).spec_layers().remove(p)
                &&& final(self).spec_dirty() == old(self).spec_dirty().remove(p)
            },
    {
        match self.find(id) {
            Some(i) => {
                let ghost old_ids = self.ids@;
                self.ids.remove(i);
                self.dirty.remove(i);
                let layer = self.layers.remove(i);
                proof {
                    assert forall|a: int, b: int| 0 <= a < b < self.ids@.len() implies self.ids@[a]
                        < self.ids@[b] by {
                        let a0 = if a < i { a } else { a + 1 };
                        let b0 = if b < i { b } else { b + 1 };
                        assert(self.ids@[a] == old_ids[a0]);
                        assert(self.ids@[b] == old_ids[b0]);
                    }
                    assert forall|k: int| 0 <= k < self.ids@.len() implies 1 <= #[trigger] self.ids@[k]
                        < self.next_id by {
                        let k0 = if k < i { k } else { k + 1 };
                        assert(self.ids@[k] == old_ids[k0]);
                    }
                }
                Some(layer)
            },
            None => None,
        }
    }

    /// Sets whether layer `id` needs re-rendering; false when there is no
    /// such layer, which leaves the manager as it is.
    fn set_dirty(&mut self, id: LayerId, value: bool) -> (r: bool)
        requires
            old(self).wf(),
        ensures
            final(self).wf(),
            r == old(self).spec_ids().contains(id.0),
            final(self).spec_ids() == old(self).spec_ids(),
            final(self).spec_layers() == old(self).spec_layers(),
            final(self).spec_next_id() == old(self).spec_next_id(),
            final(self).spec_dirty() == (if r {
                old(self).spec_dirty().update(position_of(old(self).spec_ids(), id.0), value)
            } else {
                old(self).spec_dirty()
            }),
    {
        match self.find(id) {
            Some(i) => {
                self.dirty.set(i, value);
                true
            },
            None => false,
        }
    }

    /// Marks layer `id` as needing re-rendering; false when there is no
    /// such layer.
    pub fn mark_dirty(&mut self, id: LayerId) -> (r: bool)
        requires
            old(self).wf(),
        ensures
            final(self).wf(),
            r == old(self).spec_ids().contains(id.0),
            final(self).spec_ids() == old(self).spec_ids(),
            final(self).spec_layers() == old(self).spec_layers(),
            final(self).spec_next_id() == old(self).spec_next_id(),
            final(self).spec_dirty() == (if r {
                old(self).spec_dirty().update(position_of(old(self).spec_ids(), id.0), true)
            } else {
                old(self).spec_dirty()
            }),
    {
        self.set_dirty(id, true)
    }

    /// Marks layer `id` as rendered; false when there is no such layer.
    pub fn mark_clean(&mut self, id: LayerId) -> (r: bool)
        requires
            old(self).wf(),
        ensures
            final(self).wf(),
            r == old(self).spec_ids().contains(id.0),
            final(self).spec_ids() == old(self).spec_ids(),
            final(self).spec_layers() == old(self).spec_layers(),
            final(self).spec_next_id() == old(self).spec_next_id(),
            final(self).spec_dirty() == (if r {
                old(self).spec_dirty().update(position_of(old(self).spec_ids(), id.0), false)
            } else {
                old(self).spec_dirty()
            }),
    {
        self.set_dirty(id, false)
    }

    /// Identifiers of the layers that need re-rendering, in order of
    /// creation.
    pub fn dirty_layers(&self) -> (r: Vec<LayerId>)
        requires
            self.wf(),
        ensures
            r@.map_values(|l: LayerId| l.0) == dirty_ids(
                self.spec_ids(),
                self.spec_dirty(),
                self.spec_ids().len(),
            ),
    {
        let mut r: Vec<LayerId> = Vec::new();
        let mut i: usize = 0;
        while i < self.ids.len()
            invariant
                self.wf(),
                i <= self.ids@.len(),
                r@.map_values(|l: LayerId| l.0) == dirty_ids(self.ids@, self.dirty@, i as nat),
            decreases self.ids@.len() - i,
        {
            let ghost r0 = r@;
            if self.dirty[i] {
                r.push(LayerId(self.ids[i]));
                assert(r@.map_values(|l: LayerId| l.0) =~= r0.map_values(|l: LayerId| l.0).push(
                    self.ids@[i as int],
                ));
            }
            i = i + 1;
        }
        r
    }

    /// Marks every layer as needing re-rendering (after a resize, say).
    pub fn mark_all_dirty(&mut self)
        requires
            old(self).wf(),
        ensures
            final(self).wf(),
            final(self).spec_ids() == old(self).spec_ids(),
            final(self).spec_layers() == old(self).spec_layers(),
            final(self).spec_next_id() == old(self).spec_next_id(),
            final(self).spec_dirty() == Seq::new(old(self).spec_ids().len(), |i: int| true),
    {
        let mut i: usize = 0;
        while i < self.dirty.len()
            invariant
                self.ids@ == old(self).ids@,
                self.layers@ == old(self).layers@,
                self.next_id == old(self).next_id,
                self.dirty@.len() == old(self).dirty@.len(),
                old(self).wf(),
                i <= self.dirty@.len(),
                forall|k: int| 0 <= k < i ==> self.dirty@[k],
            decreases self.dirty@.len() - i,
        {
            self.dirty.set(i, true);
            i = i + 1;
        }
        proof {
            assert(self.dirty@ =~= Seq::new(old(self).spec_ids().len(), |i: int| true));
        }
    }

    /// Drops every layer; identifiers start at 1 again.
    pub fn clear(&mut self)
        ensures
            final(self).wf(),
            final(self).spec_ids() == Seq::<u64>::empty(),
            final(self).spec_next_id() == 1,
    {
        self.ids.clear();
        self.layers.clear();
        self.dirty.clear();
        self.next_id = 1;
    }
}

/// With every flag set, the dirty identifiers are all the identifiers, in
/// order: after `mark_all_dirty`, `dirty_layers` lists every layer.
pub proof fn lemma_all_dirty_lists_every_layer(ids: Seq<u64>, n: nat)
    requires
        n <= ids.len(),
    ensures
        dirty_ids(ids, Seq::new(ids.len(), |i: int| true), n) == ids.subrange(0, n as int),
    decreases n,
{
    if n > 0 {
        lemma_all_dirty_lists_every_layer(ids, (n - 1) as nat);
        assert(ids.subrange(0, n as int) =~= ids.subrange(0, n - 1).push(ids[n - 1]));
    } else {
        assert(ids.subrange(0, 0) =~= Seq::<u64>::empty());
    }
}

/// The identifier a new layer gets is held by no layer of the manager, so
/// identifiers are never handed out twice while the manager is not cleared.
pub proof fn lemma_next_id_is_fresh<L>(m: &LayerManager<L>)
    requires
        m.wf(),
    ensures
        !m.spec_ids().contains(m.spec_next_id()),
{
    if m.spec_ids().contains(m.spec_next_id()) {
        let i = choose|i: int| 0 <= i < m.spec_ids().len() && m.spec_ids()[i] == m.spec_next_id();
        assert(m.spec_ids()[i] < m.spec_next_id());
    }
}

impl<L> Default for LayerManager<L> {
    fn default() -> (r: Self)
        ensures
            r.wf(),
            r.spec_ids() == Seq::<u64>::empty(),
            r.spec_next_id() == 1,
    {
        LayerManager::new()
    }
}

} // verus!
