//! Isometric projection: the fixed linear transform
//! `(x, y) -> (x - y, (x + y) / 2)` from cartesian world space into the
//! projected display space consumed by rendering. It has no bearing on
//! simulation state.

use vstd::prelude::*;
use crate::grid::MAX_COORD;
use crate::grid::WorldPoint;

verus! {

/// A point in isometric display space. The first component can be
/// negative (a world point above the x = y diagonal projects left of the
/// origin), so both components are signed.
#[derive(Clone, Copy, Debug, PartialEq, Eq, Structural)]
pub struct IsoCoord {
    pub x: i64,
    pub y: i64,
}

/// From cartesian coordinates to isometric coordinates:
/// `(x - y, (x + y) / 2)`, the half rounded towards zero (both inputs are
/// non-negative, so this is also the floor).
fn to_iso(x: u64, y: u64) -> (r: (i64, i64))
    requires
        x <= MAX_COORD,
        y <= MAX_COORD,
    ensures
        r.0 == x - y,
        r.1 == (x + y) as int / 2,
{
    let px = x as i64 - y as i64;
    let py = ((x + y) / 2) as i64;
    (px, py)
}

impl IsoCoord {
    /// Construct from coordinates already in isometric space.
    pub fn new(x: i64, y: i64) -> (r: Self)
        ensures
            r.x == x,
            r.y == y,
    {
        IsoCoord { x, y }
    }

    /// Project a cartesian world point into isometric space.
    pub fn from_point(p: WorldPoint) -> (r: Self)
        requires
            p.x <= MAX_COORD,
            p.y <= MAX_COORD,
        ensures
            r.x == p.x - p.y,
            r.y == (p.x + p.y) as int / 2,
    {
        let iso_coords = to_iso(p.x, p.y);
        IsoCoord { x: iso_coords.0, y: iso_coords.1 }
    }

    /// Project cartesian coordinates into isometric space.
    pub fn from_cartesian(x: u64, y: u64) -> (r: Self)
        requires
            x <= MAX_COORD,
            y <= MAX_COORD,
        ensures
            r.x == x - y,
            r.y == (x + y) as int / 2,
    {
        let iso_coords = to_iso(x, y);
        IsoCoord { x: iso_coords.0, y: iso_coords.1 }
    }

    /// The isometric coordinates as a plain pair, for the rendering
    /// collaborator.
    pub fn as_point(&self) -> (r: (i64, i64))
        ensures
            r.0 == self.x,
            r.1 == self.y,
    {
        (self.x, self.y)
    }
}

} // verus!
