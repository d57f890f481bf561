//! The mapping from draggable-point identifiers to logical slots.
use vstd::prelude::*;

use crate::geometry::CartPoint;
use crate::store::{FeatureId, FeatureStore, StoreModel};

verus! {

/// Maps each draggable point's `FeatureId` to its slot `0..N-1`; the slot of
/// an identifier is its position in the enumeration the map was built from.
pub struct IndexMap {
    ids: Vec<FeatureId>,
}

/// The identifiers of `points`, in order.
pub open spec fn ids_of(points: Seq<(FeatureId, CartPoint)>) -> Seq<FeatureId> {
    points.map_values(|e: (FeatureId, CartPoint)| e.0)
}

/// The slot of `id` in a map whose identifiers, by slot, are `ids`.
pub open spec fn slot_in(ids: Seq<FeatureId>, id: FeatureId) -> Option<nat> {
    if ids.contains(id) {
        Some(ids.index_of(id) as nat)
    } else {
        None
    }
}

impl View for IndexMap {
    type V = Seq<FeatureId>;

    /// The identifiers, indexed by slot.
    closed spec fn view(&self) -> Seq<FeatureId> {
        self.ids@
    }
}

impl IndexMap {
    /// No identifier occupies two slots.
    pub open spec fn wf(&self) -> bool {
        self@.no_duplicates()
    }

    /// The map as a function from identifier to slot.
    pub open spec fn slot_spec(&self, id: FeatureId) -> Option<nat> {
        slot_in(self@, id)
    }

    /// Every map, at every point, is well formed.
    #[verifier::type_invariant]
    spec fn inv(&self) -> bool {
        self.wf()
    }

    /// A map with no entries.
    pub fn new() -> (r: IndexMap)
        ensures
            r@ == Seq::<FeatureId>::empty(),
            r.wf(),
    {
        IndexMap { ids: Vec::new() }
    }

    /// Builds the map from the store's point features, in insertion order:
    /// the `i`-th point gets slot `i`.
    pub fn from_store(store: &FeatureStore) -> (r: IndexMap)
        ensures
            r@ == ids_of(store@.points),
            r.wf(),
    {
        store.reveal_well_formed();
        let mut ids: Vec<FeatureId> = Vec::new();
        let n = store.point_count();
        let mut i: usize = 0;
        while i < n
            invariant
                n == store@.points.len(),
                i <= n,
                ids@ == ids_of(store@.points.subrange(0, i as int)),
            decreases n - i,
        {
            let e = store.point_entry(i);
            ids.push(e.0);
            proof {
                assert(ids@ =~= ids_of(store@.points.subrange(0, i as int + 1)));
            }
            i = i + 1;
        }
        proof {
            assert(store@.points.subrange(0, n as int) =~= store@.points);
            assert forall|a: int, b: int| 0 <= a < ids@.len() && 0 <= b < ids@.len() && a != b implies ids@[a]
                != ids@[b] by {
                assert(store@.points[a].0 != store@.points[b].0);
            }
        }
        IndexMap { ids }
    }

    /// Number of slots.
    pub fn len(&self) -> (n: usize)
        ensures
            n == self@.len(),
    {
        self.ids.len()
    }

    /// The slot of `id`, if `id` has one.
    pub fn slot_of(&self, id: FeatureId) -> (r: Option<usize>)
        ensures
            r matches Some(s) ==> self.slot_spec(id) == Some(s as nat),
            r is None ==> self.slot_spec(id) is None,
    {
        proof {
            use_type_invariant(self);
        }
        let mut i: usize = 0;
        while i < self.ids.len()
            invariant
                self.wf(),
                i <= self@.len(),
                forall|k: int| 0 <= k < i ==> self@[k] != id,
            decreases self@.len() - i,
        {
            if self.ids[i] == id {
                proof {
                    assert(self@.contains(id));
                    let j = self@.index_of(id);
                    assert(self@[j] == id);
                    assert(j == i);
                }
                return Some(i);
            }
            i = i + 1;
        }
        None
    }
}

/// The map built from a well-formed store is a bijection between the point
/// identifiers and the slots `0..N-1`: identifiers of points have a slot,
/// other identifiers have none, distinct identifiers have distinct slots, and
/// every slot below the number of points belongs to exactly one identifier.
pub proof fn lemma_index_map_bijection(store: StoreModel)
    requires
        store.wf(),
    ensures
        forall|id: FeatureId| #[trigger] slot_in(ids_of(store.points), id) is Some <==> store.has_point(id),
        forall|a: FeatureId, b: FeatureId|
            #[trigger] slot_in(ids_of(store.points), a) is Some && slot_in(ids_of(store.points), a) == #[trigger] slot_in(
                ids_of(store.points),
                b,
            ) ==> a == b,
        forall|id: FeatureId| #[trigger]
            slot_in(ids_of(store.points), id) matches Some(s) ==> s < store.points.len(),
        forall|s: nat|
            s < store.points.len() ==> #[trigger] slot_in(ids_of(store.points), store.points[s as int].0) == Some(s),
{
    let ids = ids_of(store.points);
    assert forall|id: FeatureId| #[trigger] slot_in(ids, id) is Some <==> store.has_point(id) by {
        if store.has_point(id) {
            let i = choose|i: int| 0 <= i < store.points.len() && store.points[i].0 == id;
            assert(ids[i] == id);
        }
        if ids.contains(id) {
            let i = choose|i: int| 0 <= i < ids.len() && ids[i] == id;
            assert(store.points[i].0 == id);
        }
    }
    assert forall|a: FeatureId, b: FeatureId|
        #[trigger] slot_in(ids, a) is Some && slot_in(ids, a) == #[trigger] slot_in(ids, b) implies a == b by {
        let i = ids.index_of(a);
        assert(ids[i] == a);
        assert(ids[ids.index_of(b)] == b);
    }
    assert forall|s: nat| s < store.points.len() implies #[trigger] slot_in(ids, store.points[s as int].0) == Some(
        s,
    ) by {
        let id = store.points[s as int].0;
        assert(ids[s as int] == id);
        let j = ids.index_of(id);
        assert(ids[j] == id);
        assert(store.points[j].0 == store.points[s as int].0);
    }
}

} // verus!
