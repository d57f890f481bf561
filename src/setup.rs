//! Building the feature store and the drag state at start-up.
use vstd::prelude::*;

use crate::config::{MapGeometryConfig, geo_of};
use crate::geometry::{CartPoint, GeoPoint};
use crate::store::{FeatureId, FeatureStore};

verus! {

/// Fills a new store with one point feature for each of `initial_points`,
/// in order, and then the configured line; returns the store and the line's
/// identifier. The `i`-th point gets identifier `i`.
pub fn create_feature_store(initial_points: &Vec<CartPoint>, geometries: &MapGeometryConfig) -> (r: (
    FeatureStore,
    FeatureId,
))
    requires
        initial_points@.len() < u64::MAX,
    ensures
        r.0@.wf(),
        r.0@.points.len() == initial_points@.len(),
        forall|i: int|
            0 <= i < initial_points@.len() ==> #[trigger] r.0@.points[i] == (
                FeatureId { raw: i as u64 },
                initial_points@[i],
            ),
        r.0@.lines == seq![(r.1, seq![geo_of(geometries.line.start), geo_of(geometries.line.end)])],
        r.0@.changed == Set::<FeatureId>::empty(),
{
    let mut store = FeatureStore::new();
    let mut i: usize = 0;
    while i < initial_points.len()
        invariant
            initial_points@.len() < u64::MAX,
            i <= initial_points@.len(),
            store@.wf(),
            store@.next_id == i,
            store@.points.len() == i,
            forall|k: int|
                0 <= k < i ==> #[trigger] store@.points[k] == (FeatureId { raw: k as u64 }, initial_points@[k]),
            store@.lines == Seq::<(FeatureId, Seq<GeoPoint>)>::empty(),
            store@.changed == Set::<FeatureId>::empty(),
        decreases initial_points@.len() - i,
    {
        store.insert_point(initial_points[i]);
        i = i + 1;
    }
    let line = vec![geometries.line.start.to_geo(), geometries.line.end.to_geo()];
    proof {
        assert(line@ =~= seq![geo_of(geometries.line.start), geo_of(geometries.line.end)]);
    }
    let line_id = store.insert_line(line);
    proof {
        assert(store@.lines =~= seq![
            (line_id, seq![geo_of(geometries.line.start), geo_of(geometries.line.end)]),
        ]);
    }
    (store, line_id)
}

} // verus!
