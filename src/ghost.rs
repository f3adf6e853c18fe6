use vstd::prelude::*;

use crate::geometry::Point;

verus! {

/// Where the ghost is.
#[derive(Clone, Copy, Debug, PartialEq, Eq, Structural)]
pub struct GhostState {
    pub position: Point,
}

/// The visible marker that floats at the ghost's place.
#[derive(Clone, Copy, Debug, PartialEq, Eq, Structural)]
pub struct GhostMarker {
    pub position: Point,
}

/// Height of the ghost marker above the floor, mm.
pub const GHOST_MARKER_HEIGHT: i32 = 1200;

/// Moves the marker over the ghost, at marker height.
pub fn sync_ghost_marker(ghost: &GhostState, marker: &mut GhostMarker)
    ensures
        final(marker).position == (Point {
            x: ghost.position.x,
            y: GHOST_MARKER_HEIGHT,
            z: ghost.position.z,
        }),
{
    marker.position = Point { x: ghost.position.x, y: GHOST_MARKER_HEIGHT, z: ghost.position.z };
}

} // verus!
