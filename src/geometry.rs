use vstd::prelude::*;

verus! {

/// A point or displacement in the world, in millimetres.
#[derive(Clone, Copy, Debug, PartialEq, Eq, Structural)]
pub struct Point {
    pub x: i32,
    pub y: i32,
    pub z: i32,
}

/// Squared Euclidean distance between two points, in square millimetres.
pub open spec fn dist_sq(a: Point, b: Point) -> int {
    (b.x - a.x) * (b.x - a.x) + (b.y - a.y) * (b.y - a.y) + (b.z - a.z) * (b.z - a.z)
}

/// `a` and `b` are at most `r` millimetres apart.
pub open spec fn within(a: Point, b: Point, r: int) -> bool {
    dist_sq(a, b) <= r * r
}

/// The quadrant room that a position lies in: bit 1 is set for `x >= 0`, bit 0
/// for `z >= 0`.
pub open spec fn room_of(p: Point) -> u8 {
    ((if p.x >= 0 { 2int } else { 0int }) + (if p.z >= 0 { 1int } else { 0int })) as u8
}

impl Point {
    pub fn new(x: i32, y: i32, z: i32) -> (r: Point)
        ensures
            r == (Point { x, y, z }),
    {
        Point { x, y, z }
    }

    /// Squared distance to `other`.
    pub fn dist_sq(&self, other: &Point) -> (r: u128)
        ensures
            r == dist_sq(*self, *other),
            r < 3 * 0x1_0000_0000_0000_0000,
    {
        let dx = gap(self.x, other.x);
        let dy = gap(self.y, other.y);
        let dz = gap(self.z, other.z);
        proof {
            lemma_square_bound(dx as int);
            lemma_square_bound(dy as int);
            lemma_square_bound(dz as int);
            lemma_square_of_gap(dx as int, other.x - self.x);
            lemma_square_of_gap(dy as int, other.y - self.y);
            lemma_square_of_gap(dz as int, other.z - self.z);
        }
        dx * dx + dy * dy + dz * dz
    }

    /// Distance to `other` in millimetres, rounded up: for any whole `t`,
    /// the result is at most `t` exactly when the true distance is.
    pub fn distance_to(&self, other: &Point) -> (r: u64)
        ensures
            0 <= dist_sq(*self, *other) <= r * r,
            r == 0 || (r - 1) * (r - 1) < dist_sq(*self, *other),
    {
        let d = self.dist_sq(other);
        if d == 0 {
            return 0;
        }
        let mut lo: u64 = 0;
        let mut hi: u64 = 0x2_0000_0000;
        proof {
            assert(hi * hi == 0x4_0000_0000_0000_0000) by (nonlinear_arith)
                requires
                    hi == 0x2_0000_0000,
            ;
        }
        while hi - lo > 1
            invariant
                lo < hi <= 0x2_0000_0000,
                lo * lo < d,
                d <= hi * hi,
            decreases hi - lo,
        {
            let mid = lo + (hi - lo) / 2;
            proof {
                assert(0 <= mid * mid <= 0x4_0000_0000_0000_0000) by (nonlinear_arith)
                    requires
                        0 <= mid <= 0x2_0000_0000,
                ;
            }
            if mid as u128 * mid as u128 >= d {
                hi = mid;
            } else {
                lo = mid;
            }
        }
        hi
    }

    /// Whether `other` is at most `r` millimetres away.
    pub fn within(&self, other: &Point, r: u32) -> (b: bool)
        ensures
            b == within(*self, *other, r as int),
    {
        let d = self.dist_sq(other);
        proof {
            lemma_square_bound(r as int);
        }
        let rr = r as u128 * r as u128;
        d <= rr
    }
}

/// Absolute difference of two coordinates.
fn gap(a: i32, b: i32) -> (r: u128)
    ensures
        r == if a <= b { b - a } else { a - b },
        r < 0x1_0000_0000,
{
    if a <= b {
        (b as i64 - a as i64) as u128
    } else {
        (a as i64 - b as i64) as u128
    }
}

/// The rounded-up distance compares with a whole bound as the true one does.
pub proof fn lemma_distance_within(d: int, r: int, t: int)
    requires
        0 <= d <= r * r,
        r >= 0,
        t >= 0,
        r == 0 || (r - 1) * (r - 1) < d,
    ensures
        (r <= t) == (d <= t * t),
{
    if r <= t {
        assert(r * r <= t * t) by (nonlinear_arith)
            requires
                0 <= r <= t,
        ;
    } else {
        assert((r - 1) * (r - 1) >= t * t) by (nonlinear_arith)
            requires
                0 <= t <= r - 1,
        ;
    }
}

/// Nearness does not depend on which end one measures from.
pub proof fn lemma_within_symmetric(a: Point, b: Point, r: int)
    ensures
        within(a, b, r) == within(b, a, r),
        dist_sq(a, b) == dist_sq(b, a),
{
    assert((b.x - a.x) * (b.x - a.x) == (a.x - b.x) * (a.x - b.x)) by (nonlinear_arith);
    assert((b.y - a.y) * (b.y - a.y) == (a.y - b.y) * (a.y - b.y)) by (nonlinear_arith);
    assert((b.z - a.z) * (b.z - a.z) == (a.z - b.z) * (a.z - b.z)) by (nonlinear_arith);
}

proof fn lemma_square_of_gap(g: int, d: int)
    requires
        g == d || g == -d,
    ensures
        g * g == d * d,
{
    assert(g * g == d * d) by (nonlinear_arith)
        requires
            g == d || g == -d,
    ;
}

proof fn lemma_square_bound(d: int)
    requires
        0 <= d < 0x1_0000_0000,
    ensures
        0 <= d * d < 0x1_0000_0000_0000_0000,
{
    assert(0 <= d * d < 0x1_0000_0000_0000_0000) by (nonlinear_arith)
        requires
            0 <= d < 0x1_0000_0000,
    ;
}

/// The room id of a position: one of four quadrants split at `x = 0` and `z = 0`.
pub fn room_id(position: Point) -> (r: u8)
    ensures
        r == room_of(position),
        r < 4,
{
    let x: u8 = if position.x >= 0 { 1 } else { 0 };
    let z: u8 = if position.z >= 0 { 1 } else { 0 };
    2 * x + z
}

/// A direction in the world, in any scale (a unit vector is usually written
/// in thousandths). Only its direction matters to the cone test.
#[derive(Clone, Copy, Debug, PartialEq, Eq, Structural)]
pub struct Heading {
    pub x: i16,
    pub y: i16,
    pub z: i16,
}

impl Heading {
    pub fn new(x: i16, y: i16, z: i16) -> (r: Heading)
        ensures
            r == (Heading { x, y, z }),
    {
        Heading { x, y, z }
    }

    /// The same heading with its vertical part dropped.
    pub fn flat(&self) -> (r: Heading)
        ensures
            r == (Heading { x: self.x, y: 0, z: self.z }),
    {
        Heading { x: self.x, y: 0, z: self.z }
    }
}

pub open spec fn heading_norm_sq(f: Heading) -> int {
    f.x * f.x + f.y * f.y + f.z * f.z
}

/// Dot product of a heading with the displacement from `a` to `b`.
pub open spec fn heading_dot(f: Heading, a: Point, b: Point) -> int {
    f.x * (b.x - a.x) + f.y * (b.y - a.y) + f.z * (b.z - a.z)
}

/// For vectors `u`, `v` with `dot = u.v`, `uu = |u|^2` and `vv = |v|^2`:
/// the cosine of the angle between them is at least `c / 1000`, that is
/// `1000 * dot >= c * |u| * |v|`, written without square roots. A zero vector
/// counts as having dot product zero with anything.
pub open spec fn cos_at_least(dot: int, uu: int, vv: int, c: int) -> bool {
    if uu == 0 || vv == 0 {
        c <= 0
    } else if c <= 0 {
        dot >= 0 || 1_000_000 * (dot * dot) <= (c * c) * uu * vv
    } else {
        dot > 0 && 1_000_000 * (dot * dot) >= (c * c) * uu * vv
    }
}

/// Looking from `a` along `f`, the point `b` lies within the cone whose
/// half-angle has cosine `c / 1000`.
pub open spec fn in_cone(f: Heading, a: Point, b: Point, c: int) -> bool {
    cos_at_least(heading_dot(f, a, b), heading_norm_sq(f), dist_sq(a, b), c)
}

fn square16(h: i16) -> (r: u128)
    ensures
        r == h * h,
        r <= 0x4000_0000,
{
    proof {
        assert(0 <= h * h <= 0x4000_0000) by (nonlinear_arith)
            requires
                -0x8000 <= h < 0x8000,
        ;
    }
    (h as i32 * h as i32) as u128
}

/// Product of a heading component and a coordinate difference.
fn scaled(h: i16, d: i64) -> (r: i128)
    requires
        -0x1_0000_0000 < d < 0x1_0000_0000,
    ensures
        r == h * d,
        -0x8000_0000_0000 < r < 0x8000_0000_0000,
{
    proof {
        assert(-0x8000_0000_0000 < h * d < 0x8000_0000_0000) by (nonlinear_arith)
            requires
                -0x8000 <= h < 0x8000,
                -0x1_0000_0000 < d < 0x1_0000_0000,
        ;
    }
    h as i128 * d as i128
}

/// Whether `b` lies within the cone of half-angle `acos(cos_min / 1000)` seen
/// from `a` along `forward`.
pub fn cone_contains(forward: Heading, a: Point, b: Point, cos_min: i16) -> (r: bool)
    ensures
        r == in_cone(forward, a, b, cos_min as int),
{
    let vv = a.dist_sq(&b);
    let uu = square16(forward.x) + square16(forward.y) + square16(forward.z);
    if uu == 0 || vv == 0 {
        return cos_min <= 0;
    }
    let dot = scaled(forward.x, b.x as i64 - a.x as i64) + scaled(forward.y, b.y as i64 - a.y as i64)
        + scaled(forward.z, b.z as i64 - a.z as i64);
    let cc = square16(cos_min);
    proof {
        lemma_cone_bounds(dot as int, uu as int, vv as int, cos_min as int);
    }
    let dd: u128 = (dot * dot) as u128;
    let lhs: u128 = 1_000_000 * dd;
    let rhs: u128 = cc * uu * vv;
    if cos_min <= 0 {
        dot >= 0 || lhs <= rhs
    } else {
        dot > 0 && lhs >= rhs
    }
}

proof fn lemma_cone_bounds(dot: int, uu: int, vv: int, c: int)
    requires
        -0x2_0000_0000_0000 < dot < 0x2_0000_0000_0000,
        0 <= uu <= 3 * 0x4000_0000,
        0 <= vv < 3 * 0x1_0000_0000_0000_0000,
        -0x8000 <= c < 0x8000,
    ensures
        0 <= dot * dot < 0x4_0000_0000_0000_0000_0000_0000,
        1_000_000 * (dot * dot) < 0x1_0000_0000_0000_0000_0000_0000_0000_0000,
        0 <= c * c <= 0x4000_0000,
        0 <= (c * c) * uu <= 3 * 0x1000_0000_0000_0000,
        0 <= (c * c) * uu * vv < 0x1_0000_0000_0000_0000_0000_0000_0000_0000,
{
    assert(0 <= dot * dot < 0x4_0000_0000_0000_0000_0000_0000) by (nonlinear_arith)
        requires
            -0x2_0000_0000_0000 < dot < 0x2_0000_0000_0000,
    ;
    assert(0 <= c * c <= 0x4000_0000) by (nonlinear_arith)
        requires
            -0x8000 <= c < 0x8000,
    ;
    assert(0 <= (c * c) * uu <= 3 * 0x1000_0000_0000_0000) by (nonlinear_arith)
        requires
            0 <= c * c <= 0x4000_0000,
            0 <= uu <= 3 * 0x4000_0000,
    ;
    assert(0 <= (c * c) * uu * vv < 0x1_0000_0000_0000_0000_0000_0000_0000_0000) by (nonlinear_arith)
        requires
            0 <= (c * c) * uu <= 3 * 0x1000_0000_0000_0000,
            0 <= vv < 3 * 0x1_0000_0000_0000_0000,
    ;
}

} // verus!
