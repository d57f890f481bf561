//! The spatial feature store: point features in map coordinates and line
//! features in geographic coordinates, each addressed by a `FeatureId`.
use vstd::prelude::*;

use crate::geometry::{CartPoint, GeoPoint, within_radius, is_within_radius};

verus! {

/// Identifier of a stored feature, handed out by the store on insertion and
/// never reused while the store lives.
#[derive(Clone, Copy, Debug, PartialEq, Eq, Structural, Hash)]
pub struct FeatureId {
    pub raw: u64,
}

/// A stored line: its identifier and its vertices, in order.
struct LineFeature {
    id: FeatureId,
    points: Vec<GeoPoint>,
}

/// What a `FeatureStore` holds, as mathematical values.
pub ghost struct StoreModel {
    /// Point features, in insertion order.
    pub points: Seq<(FeatureId, CartPoint)>,
    /// Line features, in insertion order.
    pub lines: Seq<(FeatureId, Seq<GeoPoint>)>,
    /// The raw value of the next identifier to hand out.
    pub next_id: nat,
    /// Features marked as changed since the renderer last collected them.
    pub changed: Set<FeatureId>,
}

/// Whether a point entry lies within `radius` of `pos` (boundary included).
pub open spec fn near(pos: CartPoint, radius: int) -> spec_fn((FeatureId, CartPoint)) -> bool {
    |e: (FeatureId, CartPoint)| within_radius(e.1, pos, radius)
}

/// `points` with the coordinate of feature `id` replaced by `p`.
pub open spec fn moved(points: Seq<(FeatureId, CartPoint)>, id: FeatureId, p: CartPoint) -> Seq<
    (FeatureId, CartPoint),
> {
    points.map_values(|e: (FeatureId, CartPoint)| if e.0 == id { (id, p) } else { e })
}

/// `lines` with the vertices of line `id` replaced by `c`.
pub open spec fn replaced(
    lines: Seq<(FeatureId, Seq<GeoPoint>)>,
    id: FeatureId,
    c: Seq<GeoPoint>,
) -> Seq<(FeatureId, Seq<GeoPoint>)> {
    lines.map_values(|e: (FeatureId, Seq<GeoPoint>)| if e.0 == id { (id, c) } else { e })
}

impl StoreModel {
    /// Identifiers are below `next_id` and no two features share one.
    pub open spec fn wf(self) -> bool {
        &&& forall|i: int| 0 <= i < self.points.len() ==> #[trigger] self.points[i].0.raw < self.next_id
        &&& forall|i: int| 0 <= i < self.lines.len() ==> #[trigger] self.lines[i].0.raw < self.next_id
        &&& forall|i: int, j: int|
            0 <= i < self.points.len() && 0 <= j < self.points.len() && i != j
                ==> #[trigger] self.points[i].0 != #[trigger] self.points[j].0
        &&& forall|i: int, j: int|
            0 <= i < self.lines.len() && 0 <= j < self.lines.len() && i != j
                ==> #[trigger] self.lines[i].0 != #[trigger] self.lines[j].0
        &&& forall|i: int, j: int|
            0 <= i < self.points.len() && 0 <= j < self.lines.len()
                ==> #[trigger] self.points[i].0 != #[trigger] self.lines[j].0
    }

    pub open spec fn has_point(self, id: FeatureId) -> bool {
        exists|i: int| 0 <= i < self.points.len() && self.points[i].0 == id
    }

    pub open spec fn has_line(self, id: FeatureId) -> bool {
        exists|i: int| 0 <= i < self.lines.len() && self.lines[i].0 == id
    }

    /// The stored coordinate of point `id`, if there is such a point.
    pub open spec fn point_of(self, id: FeatureId) -> Option<CartPoint> {
        if self.has_point(id) {
            Some(self.points[choose|i: int| 0 <= i < self.points.len() && self.points[i].0 == id].1)
        } else {
            None
        }
    }

    /// The vertices of the first stored line, if any line is stored.
    pub open spec fn first_line(self) -> Option<Seq<GeoPoint>> {
        if self.lines.len() > 0 {
            Some(self.lines[0].1)
        } else {
            None
        }
    }
}

/// Two models with the same identifiers in the same places are well formed
/// together.
proof fn lemma_same_ids_wf(a: StoreModel, b: StoreModel)
    requires
        a.wf(),
        a.points.len() == b.points.len(),
        a.lines.len() == b.lines.len(),
        a.next_id == b.next_id,
        forall|k: int| 0 <= k < a.points.len() ==> #[trigger] b.points[k].0 == a.points[k].0,
        forall|k: int| 0 <= k < a.lines.len() ==> #[trigger] b.lines[k].0 == a.lines[k].0,
    ensures
        b.wf(),
{
    assert forall|i: int| 0 <= i < b.points.len() implies #[trigger] b.points[i].0.raw < b.next_id by {
        assert(a.points[i].0.raw < a.next_id);
    }
    assert forall|i: int| 0 <= i < b.lines.len() implies #[trigger] b.lines[i].0.raw < b.next_id by {
        assert(a.lines[i].0.raw < a.next_id);
    }
    assert forall|i: int, j: int|
        0 <= i < b.points.len() && 0 <= j < b.points.len() && i != j implies #[trigger] b.points[i].0
            != #[trigger] b.points[j].0 by {
        assert(a.points[i].0 != a.points[j].0);
    }
    assert forall|i: int, j: int|
        0 <= i < b.lines.len() && 0 <= j < b.lines.len() && i != j implies #[trigger] b.lines[i].0
            != #[trigger] b.lines[j].0 by {
        assert(a.lines[i].0 != a.lines[j].0);
    }
    assert forall|i: int, j: int|
        0 <= i < b.points.len() && 0 <= j < b.lines.len() implies #[trigger] b.points[i].0
            != #[trigger] b.lines[j].0 by {
        assert(a.points[i].0 != a.lines[j].0);
    }
}

/// Adding a point with the next identifier keeps a model well formed.
proof fn lemma_push_point_wf(m: StoreModel, id: FeatureId, p: CartPoint)
    requires
        m.wf(),
        id.raw == m.next_id,
    ensures
        (StoreModel { points: m.points.push((id, p)), next_id: m.next_id + 1, ..m }).wf(),
{
    let n = StoreModel { points: m.points.push((id, p)), next_id: m.next_id + 1, ..m };
    assert forall|i: int| 0 <= i < n.points.len() implies #[trigger] n.points[i].0.raw < n.next_id by {
        if i < m.points.len() {
            assert(n.points[i] == m.points[i]);
        }
    }
    assert forall|i: int| 0 <= i < n.lines.len() implies #[trigger] n.lines[i].0.raw < n.next_id by {
        assert(m.lines[i].0.raw < m.next_id);
    }
    assert forall|i: int, j: int|
        0 <= i < n.points.len() && 0 <= j < n.points.len() && i != j implies #[trigger] n.points[i].0
            != #[trigger] n.points[j].0 by {
        if i < m.points.len() {
            assert(n.points[i] == m.points[i]);
            assert(m.points[i].0.raw < m.next_id);
        }
        if j < m.points.len() {
            assert(n.points[j] == m.points[j]);
            assert(m.points[j].0.raw < m.next_id);
        }
    }
    assert forall|i: int, j: int| 0 <= i < n.lines.len() && 0 <= j < n.lines.len() && i != j implies #[trigger] n.lines[i].0
            != #[trigger] n.lines[j].0 by {
        assert(m.lines[i].0 != m.lines[j].0);
    }
    assert forall|i: int, j: int| 0 <= i < n.points.len() && 0 <= j < n.lines.len() implies #[trigger] n.points[i].0
            != #[trigger] n.lines[j].0 by {
        assert(m.lines[j].0.raw < m.next_id);
        if i < m.points.len() {
            assert(n.points[i] == m.points[i]);
        }
    }
}

/// Adding a line with the next identifier keeps a model well formed.
proof fn lemma_push_line_wf(m: StoreModel, id: FeatureId, c: Seq<GeoPoint>)
    requires
        m.wf(),
        id.raw == m.next_id,
    ensures
        (StoreModel { lines: m.lines.push((id, c)), next_id: m.next_id + 1, ..m }).wf(),
{
    let n = StoreModel { lines: m.lines.push((id, c)), next_id: m.next_id + 1, ..m };
    assert forall|i: int| 0 <= i < n.lines.len() implies #[trigger] n.lines[i].0.raw < n.next_id by {
        if i < m.lines.len() {
            assert(n.lines[i] == m.lines[i]);
        }
    }
    assert forall|i: int| 0 <= i < n.points.len() implies #[trigger] n.points[i].0.raw < n.next_id by {
        assert(m.points[i].0.raw < m.next_id);
    }
    assert forall|i: int, j: int| 0 <= i < n.lines.len() && 0 <= j < n.lines.len() && i != j implies #[trigger] n.lines[i].0
            != #[trigger] n.lines[j].0 by {
        if i < m.lines.len() {
            assert(n.lines[i] == m.lines[i]);
            assert(m.lines[i].0.raw < m.next_id);
        }
        if j < m.lines.len() {
            assert(n.lines[j] == m.lines[j]);
            assert(m.lines[j].0.raw < m.next_id);
        }
    }
    assert forall|i: int, j: int|
        0 <= i < n.points.len() && 0 <= j < n.points.len() && i != j implies #[trigger] n.points[i].0
            != #[trigger] n.points[j].0 by {
        assert(m.points[i].0 != m.points[j].0);
    }
    assert forall|i: int, j: int| 0 <= i < n.points.len() && 0 <= j < n.lines.len() implies #[trigger] n.points[i].0
            != #[trigger] n.lines[j].0 by {
        assert(m.points[i].0.raw < m.next_id);
        if j < m.lines.len() {
            assert(n.lines[j] == m.lines[j]);
        }
    }
}

/// Store of point and line features.
pub struct FeatureStore {
    points: Vec<(FeatureId, CartPoint)>,
    lines: Vec<LineFeature>,
    next_id: u64,
    changed: Vec<FeatureId>,
}

/// The model of the line features.
spec fn lines_view(lines: Seq<LineFeature>) -> Seq<(FeatureId, Seq<GeoPoint>)> {
    lines.map_values(|l: LineFeature| (l.id, l.points@))
}

impl View for FeatureStore {
    type V = StoreModel;

    closed spec fn view(&self) -> StoreModel {
        StoreModel {
            points: self.points@,
            lines: lines_view(self.lines@),
            next_id: self.next_id as nat,
            changed: self.changed@.to_set(),
        }
    }
}

impl FeatureStore {
    /// Every store, at every point, is well formed.
    #[verifier::type_invariant]
    spec fn inv(&self) -> bool {
        self@.wf()
    }

    /// Makes the invariant available to the library's other modules.
    pub(crate) fn reveal_well_formed(&self)
        ensures
            self@.wf(),
    {
        proof {
            use_type_invariant(self);
        }
    }

    /// An empty store.
    pub fn new() -> (r: FeatureStore)
        ensures
            r@.points == Seq::<(FeatureId, CartPoint)>::empty(),
            r@.lines == Seq::<(FeatureId, Seq<GeoPoint>)>::empty(),
            r@.next_id == 0,
            r@.changed == Set::<FeatureId>::empty(),
            r@.wf(),
    {
        proof {
            assert(lines_view(Seq::<LineFeature>::empty()) =~= Seq::<(FeatureId, Seq<GeoPoint>)>::empty());
            assert(Seq::<FeatureId>::empty().to_set() =~= Set::<FeatureId>::empty());
        }
        FeatureStore { points: Vec::new(), lines: Vec::new(), next_id: 0, changed: Vec::new() }
    }

    /// Adds a point feature at `p` and returns its new identifier.
    pub fn insert_point(&mut self, p: CartPoint) -> (id: FeatureId)
        requires
            old(self)@.next_id < u64::MAX,
        ensures
            final(self)@.wf(),
            id.raw == old(self)@.next_id,
            final(self)@.points == old(self)@.points.push((id, p)),
            final(self)@.lines == old(self)@.lines,
            final(self)@.next_id == old(self)@.next_id + 1,
            final(self)@.changed == old(self)@.changed,
    {
        proof {
            use_type_invariant(&*self);
        }
        let mut taken = FeatureStore::new();
        std::mem::swap(&mut taken, self);
        let FeatureStore { mut points, lines, next_id, changed } = taken;
        let id = FeatureId { raw: next_id };
        points.push((id, p));
        proof {
            lemma_push_point_wf(old(self)@, id, p);
        }
        *self = FeatureStore { points, lines, next_id: next_id + 1, changed };
        id
    }

    /// Adds a line feature with vertices `c` and returns its new identifier.
    pub fn insert_line(&mut self, c: Vec<GeoPoint>) -> (id: FeatureId)
        requires
            old(self)@.next_id < u64::MAX,
        ensures
            final(self)@.wf(),
            id.raw == old(self)@.next_id,
            final(self)@.points == old(self)@.points,
            final(self)@.lines == old(self)@.lines.push((id, c@)),
            final(self)@.next_id == old(self)@.next_id + 1,
            final(self)@.changed == old(self)@.changed,
    {
        proof {
            use_type_invariant(&*self);
        }
        let mut taken = FeatureStore::new();
        std::mem::swap(&mut taken, self);
        let FeatureStore { points, mut lines, next_id, changed } = taken;
        let id = FeatureId { raw: next_id };
        let ghost c_view = c@;
        let ghost before = lines@;
        lines.push(LineFeature { id, points: c });
        proof {
            assert(lines_view(lines@) =~= lines_view(before).push((id, c_view)));
            lemma_push_line_wf(old(self)@, id, c_view);
        }
        *self = FeatureStore { points, lines, next_id: next_id + 1, changed };
        id
    }

    /// Number of point features.
    pub fn point_count(&self) -> (n: usize)
        ensures
            n == self@.points.len(),
    {
        self.points.len()
    }

    /// The `i`-th point feature in insertion order.
    pub fn point_entry(&self, i: usize) -> (e: (FeatureId, CartPoint))
        requires
            i < self@.points.len(),
        ensures
            e == self@.points[i as int],
    {
        self.points[i]
    }

    /// The point features within `radius` of `pos` (boundary included), in
    /// insertion order.
    pub fn find_within(&self, pos: CartPoint, radius: u64) -> (r: Vec<(FeatureId, CartPoint)>)
        ensures
            r@ == self@.points.filter(near(pos, radius as int)),
    {
        let mut r: Vec<(FeatureId, CartPoint)> = Vec::new();
        let mut i: usize = 0;
        while i < self.points.len()
            invariant
                i <= self.points@.len(),
                r@ == self.points@.subrange(0, i as int).filter(near(pos, radius as int)),
            decreases self.points@.len() - i,
        {
            let e = self.points[i];
            let inside = is_within_radius(e.1, pos, radius);
            if inside {
                r.push(e);
            }
            proof {
                let s = self.points@.subrange(0, i as int + 1);
                assert(s.drop_last() =~= self.points@.subrange(0, i as int));
                assert(s.last() == e);
                reveal_with_fuel(Seq::filter, 1);
            }
            i = i + 1;
        }
        proof {
            assert(self.points@.subrange(0, i as int) =~= self.points@);
        }
        r
    }

    /// Marks `id` as changed, for the renderer to pick up.
    fn mark_changed(&mut self, id: FeatureId)
        ensures
            final(self)@.points == old(self)@.points,
            final(self)@.lines == old(self)@.lines,
            final(self)@.next_id == old(self)@.next_id,
            final(self)@.changed == old(self)@.changed.insert(id),
    {
        proof {
            use_type_invariant(&*self);
        }
        let mut taken = FeatureStore::new();
        std::mem::swap(&mut taken, self);
        let FeatureStore { points, lines, next_id, mut changed } = taken;
        let ghost before = changed@;
        let mut present = false;
        let mut i: usize = 0;
        while i < changed.len()
            invariant
                i <= changed@.len(),
                !present ==> forall|k: int| 0 <= k < i ==> changed@[k] != id,
                present ==> changed@.contains(id),
            decreases changed@.len() - i,
        {
            if changed[i] == id {
                present = true;
            }
            i = i + 1;
        }
        if !present {
            changed.push(id);
        }
        proof {
            assert forall|x: FeatureId| #[trigger] changed@.contains(x) <==> (before.contains(x) || x == id) by {
                if !present {
                    if x == id {
                        assert(changed@[before.len() as int] == id);
                    }
                    if before.contains(x) {
                        let k = choose|k: int| 0 <= k < before.len() && before[k] == x;
                        assert(changed@[k] == x);
                    }
                    if changed@.contains(x) && x != id {
                        let k = choose|k: int| 0 <= k < changed@.len() && changed@[k] == x;
                        assert(before[k] == x);
                    }
                }
            }
            assert(changed@.to_set() =~= before.to_set().insert(id));
            lemma_same_ids_wf(old(self)@, StoreModel { changed: changed@.to_set(), ..old(self)@ });
        }
        *self = FeatureStore { points, lines, next_id, changed };
    }

    /// Overwrites the coordinate of point `id` with `p` and marks it changed.
    /// Returns whether such a point exists; the store is unchanged if not.
    pub fn set_point(&mut self, id: FeatureId, p: CartPoint) -> (found: bool)
        ensures
            final(self)@.wf(),
            found == old(self)@.has_point(id),
            final(self)@.points == moved(old(self)@.points, id, p),
            !found ==> final(self)@ == old(self)@,
            final(self)@.lines == old(self)@.lines,
            final(self)@.next_id == old(self)@.next_id,
            final(self)@.changed == if found {
                old(self)@.changed.insert(id)
            } else {
                old(self)@.changed
            },
    {
        proof {
            use_type_invariant(&*self);
        }
        let mut taken = FeatureStore::new();
        std::mem::swap(&mut taken, self);
        let FeatureStore { mut points, lines, next_id, changed } = taken;
        let ghost before = points@;
        let mut found = false;
        let mut i: usize = 0;
        while i < points.len()
            invariant
                old(self)@.wf(),
                before == old(self)@.points,
                points@.len() == before.len(),
                i <= before.len(),
                !found ==> points@ == before,
                !found ==> forall|k: int| 0 <= k < i ==> before[k].0 != id,
                found ==> points@ == moved(before, id, p),
                found ==> old(self)@.has_point(id),
            decreases before.len() - i,
        {
            if !found && points[i].0 == id {
                points[i] = (id, p);
                found = true;
                proof {
                    assert(points@ =~= moved(before, id, p)) by {
                        assert forall|k: int| 0 <= k < before.len() && k != i implies before[k].0 != id by {
                            assert(old(self)@.points[k].0 != old(self)@.points[i as int].0);
                        }
                    }
                }
            }
            i = i + 1;
        }
        proof {
            if !found {
                assert(moved(before, id, p) =~= before);
            }
            assert forall|k: int| 0 <= k < before.len() implies #[trigger] points@[k].0 == before[k].0 by {}
            lemma_same_ids_wf(old(self)@, StoreModel { points: points@, ..old(self)@ });
        }
        *self = FeatureStore { points, lines, next_id, changed };
        if found {
            self.mark_changed(id);
        }
        found
    }

    /// Replaces the vertices of line `id` with `c` and marks it changed.
    /// Returns whether such a line exists; the store is unchanged if not.
    pub fn replace_line(&mut self, id: FeatureId, c: Vec<GeoPoint>) -> (found: bool)
        ensures
            final(self)@.wf(),
            found == old(self)@.has_line(id),
            final(self)@.points == old(self)@.points,
            final(self)@.lines == replaced(old(self)@.lines, id, c@),
            !found ==> final(self)@ == old(self)@,
            final(self)@.next_id == old(self)@.next_id,
            final(self)@.changed == if found {
                old(self)@.changed.insert(id)
            } else {
                old(self)@.changed
            },
    {
        proof {
            use_type_invariant(&*self);
        }
        let ghost c_view = c@;
        let mut taken = FeatureStore::new();
        std::mem::swap(&mut taken, self);
        let FeatureStore { points, mut lines, next_id, changed } = taken;
        let ghost before = lines_view(lines@);
        let mut i: usize = 0;
        while i < lines.len()
            invariant
                old(self)@.wf(),
                before == old(self)@.lines,
                lines_view(lines@) == before,
                c@ == c_view,
                i <= before.len(),
                forall|k: int| 0 <= k < i ==> before[k].0 != id,
            ensures
                lines_view(lines@) == before,
                c@ == c_view,
                i <= before.len(),
                forall|k: int| 0 <= k < i ==> before[k].0 != id,
                i < before.len() ==> before[i as int].0 == id,
            decreases before.len() - i,
        {
            if lines[i].id == id {
                break;
            }
            i = i + 1;
        }
        let found = i < lines.len();
        if found {
            let ghost raw_before = lines@;
            assert(before[i as int].0 == id);
            let nf = LineFeature { id, points: c };
            let ghost nf_ghost = nf;
            assert(nf_ghost.points@ == c_view);
            lines[i] = nf;
            proof {
                assert(lines@ == raw_before.update(i as int, nf_ghost));
                assert forall|k: int| 0 <= k < before.len() implies lines_view(lines@)[k] == replaced(
                    before,
                    id,
                    c_view,
                )[k] by {
                    if k != i {
                        assert(old(self)@.lines[k].0 != old(self)@.lines[i as int].0);
                        assert(lines@[k] == raw_before[k]);
                    } else {
                        assert(lines@[k] == nf_ghost);
                    }
                }
                assert(lines_view(lines@) =~= replaced(before, id, c_view));
            }
        } else {
            proof {
                assert(replaced(before, id, c_view) =~= before);
            }
        }
        proof {
            assert forall|k: int| 0 <= k < before.len() implies #[trigger] lines_view(lines@)[k].0 == before[k].0 by {}
            lemma_same_ids_wf(old(self)@, StoreModel { lines: lines_view(lines@), ..old(self)@ });
        }
        *self = FeatureStore { points, lines, next_id, changed };
        if found {
            self.mark_changed(id);
        }
        found
    }

    /// The vertices of the first stored line, if any line is stored.
    pub fn first_line(&self) -> (r: Option<&Vec<GeoPoint>>)
        ensures
            match self@.first_line() {
                Some(c) => r.is_some() && r.unwrap()@ == c,
                None => r.is_none(),
            },
    {
        if self.lines.len() > 0 {
            Some(&self.lines[0].points)
        } else {
            None
        }
    }

    /// Hands the set of changed features to the renderer and clears it.
    pub fn take_changed(&mut self) -> (r: Vec<FeatureId>)
        ensures
            final(self)@.wf(),
            r@.to_set() == old(self)@.changed,
            final(self)@.changed == Set::<FeatureId>::empty(),
            final(self)@.points == old(self)@.points,
            final(self)@.lines == old(self)@.lines,
            final(self)@.next_id == old(self)@.next_id,
    {
        proof {
            use_type_invariant(&*self);
        }
        let mut taken = FeatureStore::new();
        std::mem::swap(&mut taken, self);
        let FeatureStore { points, lines, next_id, changed } = taken;
        proof {
            assert(Seq::<FeatureId>::empty().to_set() =~= Set::<FeatureId>::empty());
            lemma_same_ids_wf(old(self)@, StoreModel { changed: Set::<FeatureId>::empty(), ..old(self)@ });
        }
        *self = FeatureStore { points, lines, next_id, changed: Vec::new() };
        changed
    }
}

} // verus!
