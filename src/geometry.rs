//! Plain-integer coordinates used throughout the library.
//!
//! Map (cartesian, Web Mercator) coordinates are whole millimetres; geographic
//! coordinates are whole nanodegrees of longitude and latitude.
use vstd::prelude::*;

verus! {

/// A point of the map's cartesian plane, in millimetres.
#[derive(Clone, Copy, Debug, PartialEq, Eq, Structural)]
pub struct CartPoint {
    pub x: i64,
    pub y: i64,
}

/// A geographic point, in nanodegrees (`lon` east, `lat` north).
#[derive(Clone, Copy, Debug, PartialEq, Eq, Structural)]
pub struct GeoPoint {
    pub lon: i64,
    pub lat: i64,
}

/// Number of screen pixels around the pointer within which a point is picked.
pub const PICK_RADIUS_PIXELS: u64 = 7;

/// Squared euclidean distance between two map points.
pub open spec fn dist_sq(a: CartPoint, b: CartPoint) -> int {
    (a.x - b.x) * (a.x - b.x) + (a.y - b.y) * (a.y - b.y)
}

/// `a` lies within the closed disc of radius `radius` around `b`: a point
/// exactly at the radius is inside.
pub open spec fn within_radius(a: CartPoint, b: CartPoint, radius: int) -> bool {
    dist_sq(a, b) <= radius * radius
}

/// The pick radius, in millimetres, for a map resolution given in
/// millimetres per pixel.
pub open spec fn pick_radius(resolution: int) -> int {
    resolution * PICK_RADIUS_PIXELS
}

fn abs_diff(a: i64, b: i64) -> (r: u128)
    ensures
        r as int == if a >= b { a - b } else { b - a },
{
    if a >= b {
        ((a as i128) - (b as i128)) as u128
    } else {
        ((b as i128) - (a as i128)) as u128
    }
}

/// Whether `a` lies within `radius` of `b` (boundary included).
pub fn is_within_radius(a: CartPoint, b: CartPoint, radius: u64) -> (r: bool)
    ensures
        r == within_radius(a, b, radius as int),
{
    let dx = abs_diff(a.x, b.x);
    let dy = abs_diff(a.y, b.y);
    let rr = radius as u128;
    proof {
        let ix = a.x - b.x;
        let iy = a.y - b.y;
        assert(ix * ix == (dx as int) * (dx as int)) by (nonlinear_arith)
            requires dx as int == if ix >= 0 { ix } else { -ix };
        assert(iy * iy == (dy as int) * (dy as int)) by (nonlinear_arith)
            requires dy as int == if iy >= 0 { iy } else { -iy };
    }
    if dx > rr || dy > rr {
        assert((dx as int) * (dx as int) + (dy as int) * (dy as int) > (rr as int) * (rr as int))
            by (nonlinear_arith)
            requires
                dx as int > rr as int || dy as int > rr as int,
                rr >= 0,
        ;
        false
    } else {
        // Both offsets are at most the radius, which is below 2^64, so every
        // square fits in 128 bits and r^2 - dy^2 does not go below zero.
        assert(rr * rr <= 0xffff_ffff_ffff_fffe_0000_0000_0000_0001) by (nonlinear_arith)
            requires rr <= 0xffff_ffff_ffff_ffff;
        assert(dx * dx <= rr * rr) by (nonlinear_arith)
            requires dx <= rr;
        assert(dy * dy <= rr * rr) by (nonlinear_arith)
            requires dy <= rr;
        dx * dx <= rr * rr - dy * dy
    }
}

/// Pick radius for a resolution in millimetres per pixel.
pub fn pick_radius_for(resolution: u32) -> (r: u64)
    ensures
        r as int == pick_radius(resolution as int),
{
    (resolution as u64) * PICK_RADIUS_PIXELS
}

} // verus!
