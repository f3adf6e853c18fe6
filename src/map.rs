use vstd::prelude::*;

use crate::geometry::Point;

verus! {

/// The walkable rectangle of the map, mm.
#[derive(Clone, Copy, Debug, PartialEq, Eq, Structural)]
pub struct Bounds {
    pub min_x: i32,
    pub max_x: i32,
    pub min_z: i32,
    pub max_z: i32,
}

/// A solid box seen from above, mm.
#[derive(Clone, Copy, Debug, PartialEq, Eq, Structural)]
pub struct Obstacle {
    pub min_x: i32,
    pub max_x: i32,
    pub min_z: i32,
    pub max_z: i32,
}

#[derive(Clone, Debug)]
pub struct CollisionWorld {
    pub bounds: Bounds,
    pub obstacles: Vec<Obstacle>,
}

impl Bounds {
    /// A body of radius `radius` fits between the walls.
    pub open spec fn fits(&self, radius: u32) -> bool {
        self.min_x + radius <= self.max_x - radius && self.min_z + radius <= self.max_z - radius
    }
}

pub open spec fn clamp_int(v: int, lo: int, hi: int) -> int {
    if v < lo {
        lo
    } else if v > hi {
        hi
    } else {
        v
    }
}

/// `(x, y, z)` with `x` and `z` pulled inside the walls, `radius` away from them.
pub open spec fn clamped(x: int, y: int, z: int, b: Bounds, radius: u32) -> Point {
    Point {
        x: clamp_int(x, b.min_x + radius, b.max_x - radius) as i32,
        y: y as i32,
        z: clamp_int(z, b.min_z + radius, b.max_z - radius) as i32,
    }
}

/// A body of radius `radius` at `p` overlaps the obstacle, seen from above.
pub open spec fn hits(p: Point, radius: u32, o: Obstacle) -> bool {
    p.x + radius > o.min_x && p.x - radius < o.max_x && p.z + radius > o.min_z && p.z - radius < o.max_z
}

pub open spec fn blocked(p: Point, radius: u32, obstacles: Seq<Obstacle>) -> bool {
    exists|i: int| 0 <= i < obstacles.len() && hits(p, radius, #[trigger] obstacles[i])
}

/// Where a move ends: the full step if it is clear (or nothing blocks),
/// else the step along x alone, else along z alone, else no move.
pub open spec fn moved(pos: Point, movement: Point, radius: u32, b: Bounds, obstacles: Seq<Obstacle>, block_interior: bool) -> Point {
    let next = clamped(pos.x + movement.x, pos.y + movement.y, pos.z + movement.z, b, radius);
    let try_x = clamped(next.x as int, pos.y as int, pos.z as int, b, radius);
    let try_z = clamped(pos.x as int, pos.y as int, next.z as int, b, radius);
    if !block_interior || !blocked(next, radius, obstacles) {
        next
    } else if !blocked(try_x, radius, obstacles) {
        try_x
    } else if !blocked(try_z, radius, obstacles) {
        try_z
    } else {
        pos
    }
}

fn clamp_coord(v: i64, lo: i64, hi: i64) -> (r: i64)
    requires
        lo <= hi,
    ensures
        r == clamp_int(v as int, lo as int, hi as int),
        lo <= r <= hi,
{
    if v < lo {
        lo
    } else if v > hi {
        hi
    } else {
        v
    }
}

fn clamp_xyz(x: i64, y: i32, z: i64, bounds: Bounds, radius: u32) -> (r: Point)
    requires
        bounds.fits(radius),
    ensures
        r == clamped(x as int, y as int, z as int, bounds, radius),
{
    let cx = clamp_coord(x, bounds.min_x as i64 + radius as i64, bounds.max_x as i64 - radius as i64);
    let cz = clamp_coord(z, bounds.min_z as i64 + radius as i64, bounds.max_z as i64 - radius as i64);
    Point { x: cx as i32, y, z: cz as i32 }
}

/// Pulls `pos` inside the walls, `radius` away from them.
pub fn clamp_to_bounds(pos: &mut Point, bounds: Bounds, radius: u32)
    requires
        bounds.fits(radius),
    ensures
        *final(pos) == clamped(old(pos).x as int, old(pos).y as int, old(pos).z as int, bounds, radius),
{
    *pos = clamp_xyz(pos.x as i64, pos.y, pos.z as i64, bounds, radius);
}

/// Whether a body of radius `radius` at `pos` overlaps any obstacle.
pub fn collides(pos: Point, radius: u32, obstacles: &[Obstacle]) -> (r: bool)
    ensures
        r == blocked(pos, radius, obstacles@),
{
    let r = radius as i64;
    let mut i: usize = 0;
    while i < obstacles.len()
        invariant
            0 <= i <= obstacles@.len(),
            r == radius,
            forall|j: int| 0 <= j < i ==> !hits(pos, radius, #[trigger] obstacles@[j]),
        decreases obstacles@.len() - i,
    {
        let o = obstacles[i];
        let hit_x = pos.x as i64 + r > o.min_x as i64 && (pos.x as i64) - r < o.max_x as i64;
        let hit_z = pos.z as i64 + r > o.min_z as i64 && (pos.z as i64) - r < o.max_z as i64;
        if hit_x && hit_z {
            return true;
        }
        i += 1;
    }
    false
}

/// Moves `pos` by `movement` within the walls; with `block_interior`, slides
/// along one axis when the full step would hit an obstacle, and stays put when
/// both would.
pub fn move_with_collisions(
    pos: &mut Point,
    movement: Point,
    radius: u32,
    bounds: Bounds,
    obstacles: &[Obstacle],
    block_interior: bool,
)
    requires
        bounds.fits(radius),
        i32::MIN <= old(pos).y + movement.y <= i32::MAX,
    ensures
        *final(pos) == moved(*old(pos), movement, radius, bounds, obstacles@, block_interior),
{
    let next = clamp_xyz(
        pos.x as i64 + movement.x as i64,
        pos.y + movement.y,
        pos.z as i64 + movement.z as i64,
        bounds,
        radius,
    );
    if !block_interior || !collides(next, radius, obstacles) {
        *pos = next;
        return;
    }
    let try_x = clamp_xyz(next.x as i64, pos.y, pos.z as i64, bounds, radius);
    if !collides(try_x, radius, obstacles) {
        *pos = try_x;
        return;
    }
    let try_z = clamp_xyz(pos.x as i64, pos.y, next.z as i64, bounds, radius);
    if !collides(try_z, radius, obstacles) {
        *pos = try_z;
    }
}

} // verus!
