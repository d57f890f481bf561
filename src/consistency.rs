//! Facts about sequences of drag steps: the shared cache keeps mirroring the
//! store, and repeating a drag to the same position changes nothing more.
use vstd::prelude::*;

use crate::controller::{
    DragError, DragModel, DragProgress, Propagation, Unprojection, begin_drag_spec, drag_pipeline,
    mirrors, rebuild_line_spec, update_drag_spec,
};
use crate::geometry::pick_radius;
use crate::store::near;
use crate::geometry::{CartPoint, GeoPoint};
use crate::store::{FeatureId, StoreModel, moved, replaced};

verus! {

/// Moving point `id` to `p` changes the stored coordinate of `id` alone.
proof fn lemma_point_of_moved(s: StoreModel, id: FeatureId, p: CartPoint, x: FeatureId)
    requires
        s.wf(),
        s.has_point(id),
    ensures
        (StoreModel { points: moved(s.points, id, p), ..s }).point_of(x) == if x == id {
            Some(p)
        } else {
            s.point_of(x)
        },
{
    let s1 = StoreModel { points: moved(s.points, id, p), ..s };
    if s.has_point(x) {
        let i = choose|i: int| 0 <= i < s.points.len() && s.points[i].0 == x;
        assert(s1.points[i].0 == x);
        assert(s1.has_point(x));
        let j = choose|j: int| 0 <= j < s1.points.len() && s1.points[j].0 == x;
        assert(s.points[j].0 == x);
        assert(i == j);
    } else {
        assert(!s1.has_point(x)) by {
            if s1.has_point(x) {
                let j = choose|j: int| 0 <= j < s1.points.len() && s1.points[j].0 == x;
                assert(s.points[j].0 == x);
            }
        }
    }
}

/// Moving a point keeps every identifier where it was.
proof fn lemma_moved_same_ids(s: StoreModel, id: FeatureId, p: CartPoint)
    requires
        s.wf(),
    ensures
        (StoreModel { points: moved(s.points, id, p), changed: s.changed.insert(id), ..s }).wf(),
        forall|x: FeatureId|
            #[trigger] (StoreModel { points: moved(s.points, id, p), ..s }).has_point(x) == s.has_point(x),
{
    let s1 = StoreModel { points: moved(s.points, id, p), changed: s.changed.insert(id), ..s };
    assert forall|k: int| 0 <= k < s.points.len() implies #[trigger] s1.points[k].0 == s.points[k].0 by {}
    assert(s1.wf());
    assert forall|x: FeatureId|
        #[trigger] (StoreModel { points: moved(s.points, id, p), ..s }).has_point(x) == s.has_point(x) by {
        let s2 = StoreModel { points: moved(s.points, id, p), ..s };
        if s.has_point(x) {
            let i = choose|i: int| 0 <= i < s.points.len() && s.points[i].0 == x;
            assert(s2.points[i].0 == x);
        }
        if s2.has_point(x) {
            let i = choose|i: int| 0 <= i < s2.points.len() && s2.points[i].0 == x;
            assert(s.points[i].0 == x);
        }
    }
}

/// A drag update that did not fail keeps the shared cache mirroring the
/// store: if every slot's cached coordinate was the stored coordinate of its
/// point before, it still is afterwards.
pub proof fn lemma_update_drag_keeps_mirror(c: DragModel, s: StoreModel, pos: Option<CartPoint>)
    requires
        s.wf(),
        c.slots.no_duplicates(),
        mirrors(c, s),
        update_drag_spec(c, s, pos).2 is Ok,
    ensures
        mirrors(update_drag_spec(c, s, pos).0, update_drag_spec(c, s, pos).1),
{
    let (c1, s1, r) = update_drag_spec(c, s, pos);
    if let Some(id) = c.selected {
        if let Some(p) = pos {
            assert(s.has_point(id));
            assert(s1.points == moved(s.points, id, p));
            let k = c.slots.index_of(id);
            assert(c.slots[k] == id);
            assert forall|i: int| 0 <= i < c1.slots.len() implies #[trigger] s1.point_of(c1.slots[i]) == Some(
                c1.shared[i],
            ) by {
                lemma_point_of_moved(s, id, p, c.slots[i]);
                assert(s.point_of(c.slots[i]) == Some(c.shared[i]));
                let s2 = StoreModel { points: moved(s.points, id, p), ..s };
                assert(s1.point_of(c.slots[i]) == s2.point_of(c.slots[i]));
                if i != k {
                    assert(c.slots[i] != c.slots[k]);
                }
            }
        }
    }
}

/// Rebuilding the line and recording a distance touch neither the points
/// nor the cache, so a whole drag update whose first step did not fail keeps
/// the shared cache mirroring the store.
pub proof fn lemma_drag_pipeline_keeps_mirror(
    c: DragModel,
    s: StoreModel,
    pos: Option<CartPoint>,
    first: Unprojection,
    second: Unprojection,
    d: u64,
)
    requires
        s.wf(),
        c.slots.no_duplicates(),
        mirrors(c, s),
        update_drag_spec(c, s, pos).2 is Ok,
    ensures
        mirrors(drag_pipeline(c, s, pos, first, second, d).0, drag_pipeline(c, s, pos, first, second, d).1),
{
    lemma_update_drag_keeps_mirror(c, s, pos);
    let (c1, s1, r1) = update_drag_spec(c, s, pos);
    if let Ok(DragProgress::Unproject { line, .. }) = r1 {
        let (c2, s2, r2) = rebuild_line_spec(c1, s1, line, first, second);
        let (c3, s3) = drag_pipeline(c, s, pos, first, second, d);
        assert(s3.points == s1.points);
        assert(c3.shared == c1.shared && c3.slots == c1.slots);
        assert forall|x: FeatureId| #[trigger] s3.point_of(x) == s1.point_of(x) by {}
    }
}

/// Replacing a line keeps every line identifier where it was.
proof fn lemma_replaced_same_ids(s: StoreModel, line: FeatureId, v: Seq<GeoPoint>, x: FeatureId)
    ensures
        (StoreModel { lines: replaced(s.lines, line, v), ..s }).has_line(x) == s.has_line(x),
{
    let s2 = StoreModel { lines: replaced(s.lines, line, v), ..s };
    if s.has_line(x) {
        let i = choose|i: int| 0 <= i < s.lines.len() && s.lines[i].0 == x;
        assert(s2.lines[i].0 == x);
    }
    if s2.has_line(x) {
        let i = choose|i: int| 0 <= i < s2.lines.len() && s2.lines[i].0 == x;
        assert(s.lines[i].0 == x);
    }
}

/// Dragging twice to the same position has the effect of dragging once:
/// given the same conversions, unprojections and measurement, the second
/// update asks for the same unprojections as the first and leaves the
/// store (its line included) and the shared state (the distance included)
/// as the first left them.
pub proof fn lemma_drag_pipeline_idempotent(
    c: DragModel,
    s: StoreModel,
    pos: Option<CartPoint>,
    first: Unprojection,
    second: Unprojection,
    d: u64,
)
    requires
        s.wf(),
    ensures
        update_drag_spec(
            drag_pipeline(c, s, pos, first, second, d).0,
            drag_pipeline(c, s, pos, first, second, d).1,
            pos,
        ).2 == update_drag_spec(c, s, pos).2,
        drag_pipeline(
            drag_pipeline(c, s, pos, first, second, d).0,
            drag_pipeline(c, s, pos, first, second, d).1,
            pos,
            first,
            second,
            d,
        ) == drag_pipeline(c, s, pos, first, second, d),
{
    let (c1, s1, r1) = update_drag_spec(c, s, pos);
    let (cp, sp) = drag_pipeline(c, s, pos, first, second, d);
    if let Some(id) = c.selected {
        if let Some(p) = pos {
            if s.has_point(id) {
                lemma_moved_same_ids(s, id, p);
                assert(moved(moved(s.points, id, p), id, p) =~= moved(s.points, id, p));
                assert(s1.changed.insert(id) =~= s1.changed);
                assert(sp.points == s1.points);
                assert(sp.has_point(id)) by {
                    let s2 = StoreModel { points: moved(s.points, id, p), ..s };
                    assert(s2.has_point(id));
                    let i = choose|i: int| 0 <= i < s2.points.len() && s2.points[i].0 == id;
                    assert(sp.points[i].0 == id);
                }
                if let Some(k) = crate::index_map::slot_in(c.slots, id) {
                    if k < c.shared.len() {
                        assert(c1.shared.update(k as int, p) =~= c1.shared);
                    }
                }
                if let Ok(DragProgress::Unproject { line, .. }) = r1 {
                    let (c2, s2, r2) = rebuild_line_spec(c1, s1, line, first, second);
                    let (c3, s3, r3) = update_drag_spec(cp, sp, pos);
                    assert(sp.changed.insert(id) =~= sp.changed);
                    assert(moved(sp.points, id, p) == sp.points);
                    assert(s3 == sp);
                    if let (
                        crate::controller::Unprojection::Point(a),
                        crate::controller::Unprojection::Point(b),
                    ) = (first, second) {
                        if s1.has_line(line) {
                            lemma_replaced_same_ids(s1, line, seq![a, b], line);
                            assert(replaced(replaced(s1.lines, line, seq![a, b]), line, seq![a, b])
                                =~= replaced(s1.lines, line, seq![a, b]));
                            assert(s2.changed.insert(line) =~= s2.changed);
                        }
                    }
                }
            }
        }
    }
}

/// With an empty index map, dragging a point that is in the store fails
/// with `FailedToFindSharedPointId` after the point was moved, and leaves
/// the cache and the distance as they were.
pub proof fn lemma_empty_index_map_fails(c: DragModel, s: StoreModel, id: FeatureId, p: CartPoint)
    requires
        c.slots.len() == 0,
        c.selected == Some(id),
        s.has_point(id),
    ensures
        update_drag_spec(c, s, Some(p)).2 == Err::<DragProgress, DragError>(
            DragError::FailedToFindSharedPointId(id),
        ),
        update_drag_spec(c, s, Some(p)).0 == c,
        update_drag_spec(c, s, Some(p)).1.points == moved(s.points, id, p),
{
    assert(!c.slots.contains(id));
}

/// A press with no point within the pick radius is passed on and changes
/// nothing.
pub proof fn lemma_press_without_hit_propagates(c: DragModel, s: StoreModel, pos: CartPoint, resolution: int)
    requires
        forall|i: int| 0 <= i < s.points.len() ==> !(#[trigger] near(pos, pick_radius(resolution))(s.points[i])),
    ensures
        begin_drag_spec(c, s, Some(pos), resolution) == (c, Propagation::Propagate),
{
    let hits = s.points.filter(near(pos, pick_radius(resolution)));
    if hits.len() > 0 {
        s.points.lemma_filter_pred(near(pos, pick_radius(resolution)), 0);
        assert(hits.contains(hits[0]));
        s.points.lemma_filter_contains_rev(near(pos, pick_radius(resolution)), hits[0]);
        let i = choose|i: int| 0 <= i < s.points.len() && s.points[i] == hits[0];
        assert(near(pos, pick_radius(resolution))(s.points[i]));
    }
}

} // verus!
