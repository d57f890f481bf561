//! Start-up configuration: the map view and the initial geometries, with
//! geographic coordinates in nanodegrees.
use vstd::prelude::*;

use crate::geometry::GeoPoint;

verus! {

/// A configured geographic point, in nanodegrees.
#[derive(Clone, Copy, Debug, PartialEq, Eq, Structural)]
pub struct PointConfig {
    pub lon: i64,
    pub lat: i64,
}

/// A configured line from `start` to `end`.
#[derive(Clone, Copy, Debug, PartialEq, Eq, Structural)]
pub struct LineConfig {
    pub start: PointConfig,
    pub end: PointConfig,
}

/// Where the map is centred (in nanodegrees) and at which zoom level.
#[derive(Clone, Copy, Debug, PartialEq, Eq, Structural)]
pub struct MapViewConfig {
    pub center_lon: i64,
    pub center_lat: i64,
    pub zoom: u32,
}

/// The draggable points and the line shown at start-up.
#[derive(Clone, Debug)]
pub struct MapGeometryConfig {
    pub draggable_points: Vec<PointConfig>,
    pub line: LineConfig,
}

/// The whole start-up configuration.
#[derive(Clone, Debug)]
pub struct AppConfig {
    pub map_view: MapViewConfig,
    pub geometries: MapGeometryConfig,
}

/// The geographic point a configured point stands for.
pub open spec fn geo_of(p: PointConfig) -> GeoPoint {
    GeoPoint { lon: p.lon, lat: p.lat }
}

/// The default western point: 127.9784 E, 37.566 N.
pub open spec fn default_west() -> PointConfig {
    PointConfig { lon: 127_978_400_000, lat: 37_566_000_000 }
}

/// The default eastern point: 128.9784 E, 37.566 N.
pub open spec fn default_east() -> PointConfig {
    PointConfig { lon: 128_978_400_000, lat: 37_566_000_000 }
}

impl PointConfig {
    /// The geographic point this configured point stands for.
    pub fn to_geo(&self) -> (g: GeoPoint)
        ensures
            g == geo_of(*self),
    {
        GeoPoint { lon: self.lon, lat: self.lat }
    }
}

impl Default for AppConfig {
    /// Two draggable points one degree of longitude apart at 37.566 N, a line
    /// between them, and the view centred on the eastern one at zoom 8.
    fn default() -> (r: AppConfig)
        ensures
            r.map_view == (MapViewConfig {
                center_lon: default_east().lon,
                center_lat: default_east().lat,
                zoom: 8,
            }),
            r.geometries.draggable_points@ == seq![default_west(), default_east()],
            r.geometries.line == (LineConfig { start: default_west(), end: default_east() }),
    {
        let west = PointConfig { lon: 127_978_400_000, lat: 37_566_000_000 };
        let east = PointConfig { lon: 128_978_400_000, lat: 37_566_000_000 };
        let draggable_points = vec![west, east];
        proof {
            assert(draggable_points@ =~= seq![default_west(), default_east()]);
        }
        AppConfig {
            map_view: MapViewConfig { center_lon: east.lon, center_lat: east.lat, zoom: 8 },
            geometries: MapGeometryConfig { draggable_points, line: LineConfig { start: west, end: east } },
        }
    }
}

} // verus!
