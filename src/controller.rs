//! The drag controller: hit-testing a press, moving the dragged point,
//! mirroring it into the shared point cache, rebuilding the connecting line
//! and recording the distance along it.
//!
//! Converting screen positions, unprojecting map points and measuring
//! geodesic distance are done by the caller: each step takes what those
//! produced as plain values and says which of them it needs next.
use vstd::prelude::*;

use crate::geometry::{CartPoint, GeoPoint, pick_radius, pick_radius_for};
use crate::index_map::{IndexMap, slot_in};
use crate::store::{FeatureId, FeatureStore, StoreModel, moved, near, replaced};

verus! {

/// What an event handler tells the dispatcher about an event.
#[derive(Clone, Copy, Debug, PartialEq, Eq, Structural)]
pub enum Propagation {
    /// Not handled: pass the event to the next handler.
    Propagate,
    /// Handled, with nothing further to do.
    Stop,
    /// Handled: suppress the default behaviour.
    Consume,
}

/// Why a drag update stopped before its end.
#[derive(Clone, Copy, Debug, PartialEq, Eq, Structural)]
pub enum DragError {
    ScreenToMapConversionFailed,
    PointFeatureNotFoundInLayer(FeatureId),
    FailedToUpdateSharedPointIndex(FeatureId, usize),
    FailedToFindSharedPointId(FeatureId),
    LineIdUnavailable,
    InsufficientSharedPointsForLine,
    ProjectionUnavailable,
    UnprojectionFailed,
    LineFeatureNotFoundInLayer(FeatureId),
}

/// What the projector gave back for one map point.
#[derive(Clone, Copy, Debug, PartialEq, Eq, Structural)]
pub enum Unprojection {
    /// No projection exists for the map's reference system.
    NoProjection,
    /// The projection exists but could not unproject the point.
    Failed,
    /// The geographic point.
    Point(GeoPoint),
}

/// Where a drag update stands after the point and the cache were updated.
#[derive(Clone, Copy, Debug, PartialEq, Eq, Structural)]
pub enum DragProgress {
    /// No point is being dragged: the event is not handled.
    Idle,
    /// Unproject `first` and `second` and hand the results to `rebuild_line`
    /// for line `line`.
    Unproject { line: FeatureId, first: CartPoint, second: CartPoint },
}

/// Where a drag update stands after the line was rebuilt.
#[derive(Clone, Copy, Debug, PartialEq, Eq, Structural)]
pub enum LineProgress {
    /// Measure the geodesic distance between the two points and hand it to
    /// `record_distance`.
    Measure(GeoPoint, GeoPoint),
    /// The stored line has no two points to measure: the distance was
    /// cleared and the update is complete.
    Cleared,
}

/// The shared state of the drag controller, as mathematical values.
pub ghost struct DragModel {
    /// The shared point cache, indexed by slot.
    pub shared: Seq<CartPoint>,
    /// The identifiers of the draggable points, indexed by slot.
    pub slots: Seq<FeatureId>,
    /// The point being dragged, if any.
    pub selected: Option<FeatureId>,
    /// The line that connects the draggable points, if recorded.
    pub line_id: Option<FeatureId>,
    /// The last distance measured along the line, in millimetres.
    pub distance: Option<u64>,
}

/// State shared between the event handler and the renderer.
pub struct DragContext {
    /// The authoritative coordinates of the draggable points, by slot.
    pub shared_points: Vec<CartPoint>,
    /// Slot of each draggable point.
    pub index_map: IndexMap,
    /// The point armed for dragging.
    pub selected: Option<FeatureId>,
    /// The line feature rebuilt from the shared points.
    pub line_id: Option<FeatureId>,
    /// The last distance measured along the line, in millimetres.
    pub distance: Option<u64>,
}

impl View for DragContext {
    type V = DragModel;

    open spec fn view(&self) -> DragModel {
        DragModel {
            shared: self.shared_points@,
            slots: self.index_map@,
            selected: self.selected,
            line_id: self.line_id,
            distance: self.distance,
        }
    }
}

/// Every slot's cached coordinate is the stored coordinate of the point in
/// that slot.
pub open spec fn mirrors(c: DragModel, s: StoreModel) -> bool {
    &&& c.shared.len() == c.slots.len()
    &&& forall|i: int| 0 <= i < c.slots.len() ==> #[trigger] s.point_of(c.slots[i]) == Some(c.shared[i])
}

/// A press at map position `pos` (if the screen position converted) with the
/// map at `resolution` millimetres per pixel: the first point, in insertion
/// order, within the pick radius is armed for dragging.
pub open spec fn begin_drag_spec(c: DragModel, s: StoreModel, pos: Option<CartPoint>, resolution: int) -> (
    DragModel,
    Propagation,
) {
    match pos {
        None => (c, Propagation::Propagate),
        Some(p) => {
            let hits = s.points.filter(near(p, pick_radius(resolution)));
            if hits.len() > 0 {
                (DragModel { selected: Some(hits[0].0), ..c }, Propagation::Consume)
            } else {
                (c, Propagation::Propagate)
            }
        },
    }
}

/// A drag to map position `pos` (if the screen position converted), up to
/// the point where the line's endpoints must be unprojected.
pub open spec fn update_drag_spec(c: DragModel, s: StoreModel, pos: Option<CartPoint>) -> (
    DragModel,
    StoreModel,
    Result<DragProgress, DragError>,
) {
    match c.selected {
        None => (c, s, Ok(DragProgress::Idle)),
        Some(id) => match pos {
            None => (c, s, Err(DragError::ScreenToMapConversionFailed)),
            Some(p) => if !s.has_point(id) {
                (c, s, Err(DragError::PointFeatureNotFoundInLayer(id)))
            } else {
                let s1 = StoreModel { points: moved(s.points, id, p), changed: s.changed.insert(id), ..s };
                match slot_in(c.slots, id) {
                    None => (c, s1, Err(DragError::FailedToFindSharedPointId(id))),
                    Some(k) => if k >= c.shared.len() {
                        (c, s1, Err(DragError::FailedToUpdateSharedPointIndex(id, k as usize)))
                    } else {
                        let c1 = DragModel { shared: c.shared.update(k as int, p), ..c };
                        match c.line_id {
                            None => (c1, s1, Err(DragError::LineIdUnavailable)),
                            Some(line) => if c1.shared.len() < 2 {
                                (c1, s1, Err(DragError::InsufficientSharedPointsForLine))
                            } else {
                                (
                                    c1,
                                    s1,
                                    Ok(
                                        DragProgress::Unproject {
                                            line,
                                            first: c1.shared[0],
                                            second: c1.shared[1],
                                        },
                                    ),
                                )
                            },
                        }
                    },
                }
            },
        },
    }
}

/// The geographic point that an unprojection gave, or the error it stands for.
pub open spec fn unprojected(u: Unprojection) -> Result<GeoPoint, DragError> {
    match u {
        Unprojection::NoProjection => Err(DragError::ProjectionUnavailable),
        Unprojection::Failed => Err(DragError::UnprojectionFailed),
        Unprojection::Point(g) => Ok(g),
    }
}

/// The first two vertices of a line, if it has two.
pub open spec fn endpoints(c: Option<Seq<GeoPoint>>) -> Option<(GeoPoint, GeoPoint)> {
    match c {
        Some(v) => if v.len() >= 2 {
            Some((v[0], v[1]))
        } else {
            None
        },
        None => None,
    }
}

/// Rebuilding line `line` from the unprojections of the first two cached
/// points, then reading the first stored line back for measuring.
pub open spec fn rebuild_line_spec(
    c: DragModel,
    s: StoreModel,
    line: FeatureId,
    first: Unprojection,
    second: Unprojection,
) -> (DragModel, StoreModel, Result<LineProgress, DragError>) {
    match unprojected(first) {
        Err(e) => (c, s, Err(e)),
        Ok(a) => match unprojected(second) {
            Err(e) => (c, s, Err(e)),
            Ok(b) => if !s.has_line(line) {
                (c, s, Err(DragError::LineFeatureNotFoundInLayer(line)))
            } else {
                let s1 = StoreModel {
                    lines: replaced(s.lines, line, seq![a, b]),
                    changed: s.changed.insert(line),
                    ..s
                };
                match endpoints(s1.first_line()) {
                    Some(e) => (c, s1, Ok(LineProgress::Measure(e.0, e.1))),
                    None => (DragModel { distance: None, ..c }, s1, Ok(LineProgress::Cleared)),
                }
            },
        },
    }
}

/// A whole drag update: the screen position converted to `pos`, the
/// requested unprojections gave `first` and `second`, and the requested
/// measurement gave `d` millimetres.
pub open spec fn drag_pipeline(
    c: DragModel,
    s: StoreModel,
    pos: Option<CartPoint>,
    first: Unprojection,
    second: Unprojection,
    d: u64,
) -> (DragModel, StoreModel) {
    let (c1, s1, r1) = update_drag_spec(c, s, pos);
    match r1 {
        Ok(DragProgress::Unproject { line, .. }) => {
            let (c2, s2, r2) = rebuild_line_spec(c1, s1, line, first, second);
            match r2 {
                Ok(LineProgress::Measure(..)) => (DragModel { distance: Some(d), ..c2 }, s2),
                _ => (c2, s2),
            }
        },
        _ => (c1, s1),
    }
}

/// The geographic point that `u` gave, or the error it stands for.
pub fn unproject_result(u: Unprojection) -> (r: Result<GeoPoint, DragError>)
    ensures
        r == unprojected(u),
{
    match u {
        Unprojection::NoProjection => Err(DragError::ProjectionUnavailable),
        Unprojection::Failed => Err(DragError::UnprojectionFailed),
        Unprojection::Point(g) => Ok(g),
    }
}

/// The first two vertices of `line`, if it has at least two.
pub fn line_endpoints(line: &Vec<GeoPoint>) -> (r: Option<(GeoPoint, GeoPoint)>)
    ensures
        r == endpoints(Some(line@)),
{
    if line.len() >= 2 {
        Some((line[0], line[1]))
    } else {
        None
    }
}

/// The verdict for the dispatcher once a drag update has run: errors are
/// reported as handled, with no further effect.
pub fn verdict(r: Result<Propagation, DragError>) -> (v: Propagation)
    ensures
        v == match r {
            Ok(p) => p,
            Err(_) => Propagation::Stop,
        },
{
    match r {
        Ok(p) => p,
        Err(_) => Propagation::Stop,
    }
}

impl DragContext {
    /// The state right after start-up: the cache holds the store's points in
    /// insertion order, each point's slot is its position there, nothing is
    /// selected and no distance is known.
    pub fn new(store: &FeatureStore, line_id: Option<FeatureId>) -> (r: DragContext)
        ensures
            r.index_map.wf(),
            r@.slots == crate::index_map::ids_of(store@.points),
            r@.shared == store@.points.map_values(|e: (FeatureId, CartPoint)| e.1),
            r@.selected is None,
            r@.line_id == line_id,
            r@.distance is None,
            mirrors(r@, store@),
    {
        store.reveal_well_formed();
        let index_map = IndexMap::from_store(store);
        let mut shared_points: Vec<CartPoint> = Vec::new();
        let n = store.point_count();
        let mut i: usize = 0;
        while i < n
            invariant
                n == store@.points.len(),
                i <= n,
                shared_points@ == store@.points.subrange(0, i as int).map_values(
                    |e: (FeatureId, CartPoint)| e.1,
                ),
            decreases n - i,
        {
            let e = store.point_entry(i);
            shared_points.push(e.1);
            proof {
                assert(shared_points@ =~= store@.points.subrange(0, i as int + 1).map_values(
                    |e: (FeatureId, CartPoint)| e.1,
                ));
            }
            i = i + 1;
        }
        proof {
            assert(store@.points.subrange(0, n as int) =~= store@.points);
        }
        let r = DragContext { shared_points, index_map, selected: None, line_id, distance: None };
        proof {
            let s = store@;
            assert forall|i: int| 0 <= i < r@.slots.len() implies #[trigger] s.point_of(r@.slots[i]) == Some(
                r@.shared[i],
            ) by {
                let id = r@.slots[i];
                assert(s.points[i].0 == id);
                assert(s.has_point(id));
                let j = choose|j: int| 0 <= j < s.points.len() && s.points[j].0 == id;
                assert(s.points[j].0 == s.points[i].0);
            }
        }
        r
    }

    /// Handles a press: `map_position` is the pressed screen position on the
    /// map, or `None` if it did not convert; `resolution` is in millimetres
    /// per pixel.
    pub fn begin_drag(&mut self, store: &FeatureStore, map_position: Option<CartPoint>, resolution: u32) -> (r:
        Propagation)
        ensures
            (final(self)@, r) == begin_drag_spec(old(self)@, store@, map_position, resolution as int),
            final(self).index_map == old(self).index_map,
    {
        match map_position {
            None => Propagation::Propagate,
            Some(p) => {
                let radius = pick_radius_for(resolution);
                let hits = store.find_within(p, radius);
                if hits.len() > 0 {
                    self.selected = Some(hits[0].0);
                    Propagation::Consume
                } else {
                    Propagation::Propagate
                }
            },
        }
    }

    /// Handles a drag to `map_position` (or `None` if the screen position did
    /// not convert): moves the selected point in the store, mirrors it into
    /// the shared cache and asks for the line's endpoints to be unprojected.
    /// Nothing done before an error is undone.
    pub fn update_drag(&mut self, store: &mut FeatureStore, map_position: Option<CartPoint>) -> (r: Result<
        DragProgress,
        DragError,
    >)
        ensures
            (final(self)@, final(store)@, r) == update_drag_spec(old(self)@, old(store)@, map_position),
            final(self).index_map == old(self).index_map,
    {
        let id = match self.selected {
            None => {
                return Ok(DragProgress::Idle);
            },
            Some(id) => id,
        };
        let p = match map_position {
            None => {
                return Err(DragError::ScreenToMapConversionFailed);
            },
            Some(p) => p,
        };
        if !store.set_point(id, p) {
            return Err(DragError::PointFeatureNotFoundInLayer(id));
        }
        let slot = match self.index_map.slot_of(id) {
            None => {
                return Err(DragError::FailedToFindSharedPointId(id));
            },
            Some(k) => k,
        };
        if slot >= self.shared_points.len() {
            return Err(DragError::FailedToUpdateSharedPointIndex(id, slot));
        }
        self.shared_points[slot] = p;
        let line = match self.line_id {
            None => {
                return Err(DragError::LineIdUnavailable);
            },
            Some(line) => line,
        };
        if self.shared_points.len() < 2 {
            return Err(DragError::InsufficientSharedPointsForLine);
        }
        Ok(DragProgress::Unproject { line, first: self.shared_points[0], second: self.shared_points[1] })
    }

    /// Rebuilds line `line` from the unprojections of the first two cached
    /// points and reads the first stored line back: asks for a measurement
    /// if it has two points, and clears the distance otherwise.
    pub fn rebuild_line(
        &mut self,
        store: &mut FeatureStore,
        line: FeatureId,
        first: Unprojection,
        second: Unprojection,
    ) -> (r: Result<LineProgress, DragError>)
        ensures
            (final(self)@, final(store)@, r) == rebuild_line_spec(old(self)@, old(store)@, line, first, second),
            final(self).index_map == old(self).index_map,
    {
        let a = match unproject_result(first) {
            Err(e) => {
                return Err(e);
            },
            Ok(a) => a,
        };
        let b = match unproject_result(second) {
            Err(e) => {
                return Err(e);
            },
            Ok(b) => b,
        };
        let contour = vec![a, b];
        proof {
            assert(contour@ =~= seq![a, b]);
        }
        if !store.replace_line(line, contour) {
            return Err(DragError::LineFeatureNotFoundInLayer(line));
        }
        let ends = match store.first_line() {
            Some(c) => line_endpoints(c),
            None => None,
        };
        match ends {
            Some(e) => Ok(LineProgress::Measure(e.0, e.1)),
            None => {
                self.distance = None;
                Ok(LineProgress::Cleared)
            },
        }
    }

    /// Records the distance measured along the line, in millimetres, which
    /// completes the drag update.
    pub fn record_distance(&mut self, d: u64) -> (r: Propagation)
        ensures
            final(self)@ == (DragModel { distance: Some(d), ..old(self)@ }),
            final(self).index_map == old(self).index_map,
            r == Propagation::Consume,
    {
        self.distance = Some(d);
        Propagation::Consume
    }
}

} // verus!
