use galileo_types::cartesian::{CartesianPoint2d, Point2};
use galileo_types::geo::impls::GeoPoint2d;
use galileo_types::geo::{Crs, GeoPoint as _, NewGeoPoint};
use geo::Distance;

use map_drag::algorithms::{AlgorithmOutput, Evaluation, HaversineDistance};
use map_drag::config::{AppConfig, PointConfig};
use map_drag::controller::{
    DragContext, DragError, DragProgress, LineProgress, Propagation, Unprojection, line_endpoints,
    unproject_result, verdict,
};
use map_drag::geometry::{CartPoint, GeoPoint, is_within_radius, pick_radius_for};
use map_drag::index_map::IndexMap;
use map_drag::setup::create_feature_store;
use map_drag::store::{FeatureId, FeatureStore};

fn project(lon: f64, lat: f64) -> CartPoint {
    let proj = Crs::EPSG3857.get_projection::<GeoPoint2d, Point2>().unwrap();
    let p = proj.project(&GeoPoint2d::lonlat(lon, lat)).unwrap();
    CartPoint { x: (p.x() * 1000.0).round() as i64, y: (p.y() * 1000.0).round() as i64 }
}

fn unproject(p: CartPoint) -> Unprojection {
    match Crs::EPSG3857.get_projection::<GeoPoint2d, Point2>() {
        None => Unprojection::NoProjection,
        Some(proj) => match proj.unproject(&Point2::new(p.x as f64 / 1000.0, p.y as f64 / 1000.0)) {
            None => Unprojection::Failed,
            Some(g) => Unprojection::Point(GeoPoint {
                lon: (g.lon() * 1e9).round() as i64,
                lat: (g.lat() * 1e9).round() as i64,
            }),
        },
    }
}

fn degrees(g: GeoPoint) -> (f64, f64) {
    (g.lon as f64 / 1e9, g.lat as f64 / 1e9)
}

fn haversine_mm(a: GeoPoint, b: GeoPoint) -> u64 {
    let (alon, alat) = degrees(a);
    let (blon, blat) = degrees(b);
    let d = geo::Haversine.distance(geo::Point::new(alon, alat), geo::Point::new(blon, blat));
    (d * 1000.0).round() as u64
}

/// The default scene: the two configured points projected, the configured
/// line, and the drag state built from them.
fn scene() -> (FeatureStore, FeatureId, DragContext) {
    let config = AppConfig::default();
    let points: Vec<CartPoint> = config
        .geometries
        .draggable_points
        .iter()
        .map(|p| project(p.lon as f64 / 1e9, p.lat as f64 / 1e9))
        .collect();
    let (store, line_id) = create_feature_store(&points, &config.geometries);
    let ctx = DragContext::new(&store, Some(line_id));
    (store, line_id, ctx)
}

/// Runs a whole drag to `pos` with the real projection and distance.
fn drag_to(ctx: &mut DragContext, store: &mut FeatureStore, pos: CartPoint) -> Result<Propagation, DragError> {
    match ctx.update_drag(store, Some(pos))? {
        DragProgress::Idle => Ok(Propagation::Propagate),
        DragProgress::Unproject { line, first, second } => {
            match ctx.rebuild_line(store, line, unproject(first), unproject(second))? {
                LineProgress::Measure(a, b) => Ok(ctx.record_distance(haversine_mm(a, b))),
                LineProgress::Cleared => Ok(Propagation::Consume),
            }
        }
    }
}

fn stored_point(store: &FeatureStore, id: FeatureId) -> Option<CartPoint> {
    (0..store.point_count()).map(|i| store.point_entry(i)).find(|e| e.0 == id).map(|e| e.1)
}

fn small_store(points: &[CartPoint]) -> FeatureStore {
    let mut store = FeatureStore::new();
    for p in points {
        store.insert_point(*p);
    }
    store
}

#[test]
fn index_map_is_a_bijection_onto_slots() {
    let store = small_store(&[
        CartPoint { x: 0, y: 0 },
        CartPoint { x: 10, y: 0 },
        CartPoint { x: 20, y: 0 },
    ]);
    let map = IndexMap::from_store(&store);
    assert_eq!(map.len(), 3);
    let mut seen = vec![false; 3];
    for i in 0..store.point_count() {
        let (id, _) = store.point_entry(i);
        let slot = map.slot_of(id).unwrap();
        assert_eq!(slot, i);
        assert!(!seen[slot]);
        seen[slot] = true;
    }
    assert!(seen.iter().all(|s| *s));
    assert_eq!(map.slot_of(FeatureId { raw: 99 }), None);
    assert_eq!(IndexMap::new().len(), 0);
}

#[test]
fn shared_cache_mirrors_store_after_drags() {
    let (mut store, _line, mut ctx) = scene();
    let ids: Vec<FeatureId> = (0..store.point_count()).map(|i| store.point_entry(i).0).collect();
    let targets = [
        (0usize, CartPoint { x: 14_300_000_000, y: 4_500_000_000 }),
        (1usize, CartPoint { x: 14_400_000_000, y: 4_510_000_000 }),
        (0usize, CartPoint { x: 14_250_000_000, y: 4_490_000_000 }),
    ];
    for (which, pos) in targets {
        ctx.selected = Some(ids[which]);
        assert_eq!(drag_to(&mut ctx, &mut store, pos), Ok(Propagation::Consume));
        for (slot, id) in ids.iter().enumerate() {
            assert_eq!(stored_point(&store, *id), Some(ctx.shared_points[slot]));
        }
    }
    assert_eq!(ctx.shared_points[0], CartPoint { x: 14_250_000_000, y: 4_490_000_000 });
    assert_eq!(ctx.shared_points[1], CartPoint { x: 14_400_000_000, y: 4_510_000_000 });
}

#[test]
fn dragging_twice_to_same_position_matches_once() {
    let (mut store, _line, mut ctx) = scene();
    let id = store.point_entry(0).0;
    ctx.selected = Some(id);
    let pos = CartPoint { x: 14_300_000_000, y: 4_530_000_000 };
    drag_to(&mut ctx, &mut store, pos).unwrap();
    let line_once = store.first_line().unwrap().clone();
    let distance_once = ctx.distance;
    let shared_once = ctx.shared_points.clone();
    drag_to(&mut ctx, &mut store, pos).unwrap();
    assert_eq!(*store.first_line().unwrap(), line_once);
    assert_eq!(ctx.distance, distance_once);
    assert_eq!(ctx.shared_points, shared_once);
}

#[test]
fn projection_round_trip_is_close() {
    let proj = Crs::EPSG3857.get_projection::<GeoPoint2d, Point2>().unwrap();
    for (lon, lat) in [(127.9784, 37.566), (-73.9857, 40.7484), (0.0, 0.0), (151.2093, -33.8688)] {
        let p = proj.project(&GeoPoint2d::lonlat(lon, lat)).unwrap();
        let g = proj.unproject(&p).unwrap();
        assert!((g.lon() - lon).abs() < 1e-9);
        assert!((g.lat() - lat).abs() < 1e-9);
    }
    let c = project(127.9784, 37.566);
    match unproject(c) {
        Unprojection::Point(g) => {
            let (lon, lat) = degrees(g);
            assert!((lon - 127.9784).abs() < 1e-7);
            assert!((lat - 37.566).abs() < 1e-7);
        }
        other => panic!("unexpected {:?}", other),
    }
}

#[test]
fn hit_test_boundary_is_inclusive() {
    let origin = CartPoint { x: 0, y: 0 };
    let radius = pick_radius_for(10);
    assert_eq!(radius, 70);
    assert!(is_within_radius(CartPoint { x: 70, y: 0 }, origin, radius));
    assert!(!is_within_radius(CartPoint { x: 71, y: 0 }, origin, radius));
    assert!(is_within_radius(CartPoint { x: 42, y: -56 }, origin, radius));
    assert!(!is_within_radius(CartPoint { x: 42, y: -57 }, origin, radius));

    let store = small_store(&[CartPoint { x: 70, y: 0 }, CartPoint { x: 0, y: 71 }]);
    let hits = store.find_within(origin, radius);
    assert_eq!(hits.len(), 1);
    assert_eq!(hits[0].1, CartPoint { x: 70, y: 0 });

    let mut ctx = DragContext::new(&store, None);
    assert_eq!(ctx.begin_drag(&store, Some(CartPoint { x: 1, y: 0 }), 10), Propagation::Consume);
    assert_eq!(ctx.selected, Some(store.point_entry(0).0));
    let mut ctx2 = DragContext::new(&store, None);
    assert_eq!(ctx2.begin_drag(&store, Some(CartPoint { x: -1, y: 0 }), 10), Propagation::Propagate);
    assert_eq!(ctx2.selected, None);
}

#[test]
fn press_picks_first_point_in_insertion_order() {
    let store = small_store(&[
        CartPoint { x: 500, y: 0 },
        CartPoint { x: 30, y: 0 },
        CartPoint { x: 1, y: 0 },
    ]);
    let mut ctx = DragContext::new(&store, None);
    assert_eq!(ctx.begin_drag(&store, Some(CartPoint { x: 0, y: 0 }), 10), Propagation::Consume);
    assert_eq!(ctx.selected, Some(store.point_entry(1).0));
}

#[test]
fn initial_distance_is_geodesic_distance_of_default_points() {
    let (store, _line, _ctx) = scene();
    let line = store.first_line().unwrap();
    match HaversineDistance.calculate_and_box_output(line) {
        Evaluation::Measure(a, b) => {
            assert_eq!(a, GeoPoint { lon: 127_978_400_000, lat: 37_566_000_000 });
            assert_eq!(b, GeoPoint { lon: 128_978_400_000, lat: 37_566_000_000 });
            let expected = geo::Haversine
                .distance(geo::Point::new(127.9784, 37.566), geo::Point::new(128.9784, 37.566));
            let d = haversine_mm(a, b);
            assert!((d as f64 / 1000.0 - expected).abs() < 0.01);
            assert!((d as f64 / 1000.0 - 87_800.0).abs() < 0.01 * 87_800.0);
        }
        other => panic!("unexpected {:?}", other),
    }
}

#[test]
fn empty_index_map_fails_and_keeps_distance() {
    let (mut store, line, ctx) = scene();
    let id = store.point_entry(0).0;
    let mut ctx = DragContext {
        shared_points: ctx.shared_points,
        index_map: IndexMap::new(),
        selected: Some(id),
        line_id: Some(line),
        distance: Some(123_456),
    };
    let pos = CartPoint { x: 14_300_000_000, y: 4_530_000_000 };
    assert_eq!(ctx.update_drag(&mut store, Some(pos)), Err(DragError::FailedToFindSharedPointId(id)));
    assert_eq!(ctx.distance, Some(123_456));
    // The point itself was already moved: nothing is rolled back.
    assert_eq!(stored_point(&store, id), Some(pos));
    assert_eq!(verdict(Err(DragError::FailedToFindSharedPointId(id))), Propagation::Stop);
}

#[test]
fn press_far_from_points_propagates_without_changes() {
    let (store, _line, mut ctx) = scene();
    let before_shared = ctx.shared_points.clone();
    let far = CartPoint { x: 0, y: 0 };
    assert_eq!(ctx.begin_drag(&store, Some(far), 1_000), Propagation::Propagate);
    assert_eq!(ctx.selected, None);
    assert_eq!(ctx.distance, None);
    assert_eq!(ctx.shared_points, before_shared);
    assert_eq!(ctx.begin_drag(&store, None, 1_000), Propagation::Propagate);
    assert_eq!(ctx.selected, None);
}

#[test]
fn dragging_point_zero_updates_cache_line_and_distance() {
    let (mut store, _line, mut ctx) = scene();
    let first = store.point_entry(0);
    assert_eq!(ctx.begin_drag(&store, Some(first.1), 1_000), Propagation::Consume);
    assert_eq!(ctx.selected, Some(first.0));
    let target = project(127.5, 37.9);
    let before = store.first_line().unwrap().clone();
    let before_distance = haversine_mm(before[0], before[1]);
    assert_eq!(drag_to(&mut ctx, &mut store, target), Ok(Propagation::Consume));
    assert_eq!(ctx.shared_points[0], target);
    let line = store.first_line().unwrap().clone();
    let (lon, lat) = degrees(line[0]);
    assert!((lon - 127.5).abs() < 1e-7);
    assert!((lat - 37.9).abs() < 1e-7);
    let expected = haversine_mm(line[0], line[1]);
    assert_eq!(ctx.distance, Some(expected));
    assert_ne!(ctx.distance, Some(before_distance));
    let changed = store.take_changed();
    assert!(changed.contains(&first.0));
    assert!(store.take_changed().is_empty());
}

#[test]
fn idle_drag_is_not_handled() {
    let (mut store, _line, mut ctx) = scene();
    assert_eq!(ctx.update_drag(&mut store, Some(CartPoint { x: 1, y: 1 })), Ok(DragProgress::Idle));
    assert_eq!(ctx.selected, None);
}

#[test]
fn drag_errors_for_each_failed_step() {
    let (mut store, line, ctx0) = scene();
    let id = store.point_entry(0).0;
    let pos = CartPoint { x: 14_300_000_000, y: 4_530_000_000 };

    let mut ctx = DragContext::new(&store, Some(line));
    ctx.selected = Some(id);
    assert_eq!(ctx.update_drag(&mut store, None), Err(DragError::ScreenToMapConversionFailed));

    ctx.selected = Some(FeatureId { raw: 77 });
    assert_eq!(
        ctx.update_drag(&mut store, Some(pos)),
        Err(DragError::PointFeatureNotFoundInLayer(FeatureId { raw: 77 }))
    );

    let mut short = DragContext {
        shared_points: Vec::new(),
        index_map: IndexMap::from_store(&store),
        selected: Some(id),
        line_id: Some(line),
        distance: None,
    };
    assert_eq!(
        short.update_drag(&mut store, Some(pos)),
        Err(DragError::FailedToUpdateSharedPointIndex(id, 0))
    );

    let mut no_line = DragContext::new(&store, None);
    no_line.selected = Some(id);
    assert_eq!(no_line.update_drag(&mut store, Some(pos)), Err(DragError::LineIdUnavailable));
    assert_eq!(no_line.shared_points[0], pos);

    let mut single = small_store(&[CartPoint { x: 5, y: 5 }]);
    let mut one = DragContext::new(&single, Some(line));
    one.selected = Some(single.point_entry(0).0);
    assert_eq!(
        one.update_drag(&mut single, Some(CartPoint { x: 6, y: 6 })),
        Err(DragError::InsufficientSharedPointsForLine)
    );

    let mut ctx = ctx0;
    let g = GeoPoint { lon: 1, lat: 2 };
    assert_eq!(
        ctx.rebuild_line(&mut store, line, Unprojection::NoProjection, Unprojection::Point(g)),
        Err(DragError::ProjectionUnavailable)
    );
    assert_eq!(
        ctx.rebuild_line(&mut store, line, Unprojection::Point(g), Unprojection::Failed),
        Err(DragError::UnprojectionFailed)
    );
    assert_eq!(
        ctx.rebuild_line(&mut store, id, Unprojection::Point(g), Unprojection::Point(g)),
        Err(DragError::LineFeatureNotFoundInLayer(id))
    );
    assert_eq!(unproject_result(Unprojection::Point(g)), Ok(g));
}

#[test]
fn short_first_line_clears_distance() {
    let mut store = FeatureStore::new();
    store.insert_point(CartPoint { x: 0, y: 0 });
    store.insert_point(CartPoint { x: 9, y: 9 });
    store.insert_line(vec![GeoPoint { lon: 1, lat: 1 }]);
    let target = store.insert_line(vec![GeoPoint { lon: 0, lat: 0 }, GeoPoint { lon: 3, lat: 3 }]);
    let mut ctx = DragContext::new(&store, Some(target));
    ctx.distance = Some(42);
    let a = GeoPoint { lon: 5, lat: 6 };
    let b = GeoPoint { lon: 7, lat: 8 };
    assert_eq!(
        ctx.rebuild_line(&mut store, target, Unprojection::Point(a), Unprojection::Point(b)),
        Ok(LineProgress::Cleared)
    );
    assert_eq!(ctx.distance, None);
    assert_eq!(line_endpoints(&vec![a]), None);
    assert_eq!(line_endpoints(&vec![a, b, a]), Some((a, b)));
}

#[test]
fn haversine_algorithm_inputs_and_name() {
    let h = HaversineDistance;
    assert_eq!(h.name(), "Haversine Distance");
    let a = GeoPoint { lon: 1, lat: 2 };
    let b = GeoPoint { lon: 3, lat: 4 };
    assert_eq!(h.create_specific_input_for_haversine(&vec![a, b, a]), Ok((a, b)));
    assert_eq!(
        h.create_specific_input_for_haversine(&vec![a]),
        Err("Haversine Distance: Requires at least two points.".to_string())
    );
    match h.calculate_and_box_output(&Vec::new()) {
        Evaluation::Output(AlgorithmOutput::Failure(m)) => {
            assert_eq!(m, "Haversine Distance: Requires at least two points.")
        }
        other => panic!("unexpected {:?}", other),
    }
}

#[test]
fn default_config_and_store_layout() {
    let config = AppConfig::default();
    assert_eq!(config.map_view.zoom, 8);
    assert_eq!(config.map_view.center_lon, 128_978_400_000);
    assert_eq!(config.map_view.center_lat, 37_566_000_000);
    assert_eq!(
        config.geometries.draggable_points,
        vec![
            PointConfig { lon: 127_978_400_000, lat: 37_566_000_000 },
            PointConfig { lon: 128_978_400_000, lat: 37_566_000_000 },
        ]
    );
    let pts = vec![CartPoint { x: 1, y: 2 }, CartPoint { x: 3, y: 4 }];
    let (store, line) = create_feature_store(&pts, &config.geometries);
    assert_eq!(store.point_count(), 2);
    assert_eq!(store.point_entry(0), (FeatureId { raw: 0 }, pts[0]));
    assert_eq!(store.point_entry(1), (FeatureId { raw: 1 }, pts[1]));
    assert_eq!(line, FeatureId { raw: 2 });
    assert_eq!(
        store.first_line().unwrap(),
        &vec![config.geometries.line.start.to_geo(), config.geometries.line.end.to_geo()]
    );
}

#[test]
fn hit_test_extreme_coordinates() {
    let low = CartPoint { x: i64::MIN, y: i64::MIN };
    let high = CartPoint { x: i64::MAX, y: i64::MAX };
    assert!(!is_within_radius(low, high, u64::MAX));
    assert!(is_within_radius(CartPoint { x: i64::MIN, y: 0 }, CartPoint { x: i64::MAX, y: 0 }, u64::MAX));
    assert!(is_within_radius(high, high, 0));
    assert!(!is_within_radius(high, CartPoint { x: i64::MAX, y: i64::MAX - 1 }, 0));
    assert_eq!(pick_radius_for(u32::MAX), 7 * u32::MAX as u64);
    assert_eq!(pick_radius_for(0), 0);
}
