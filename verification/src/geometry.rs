//! Geometric primitives over points with integer coordinates.
//!
//! Coordinates are fixed-point numbers: [`UNIT`] steps make up the full
//! width (or height) of the image, so a point of the image has both
//! coordinates in `0..=UNIT`. All predicates are decided exactly, in integer
//! arithmetic wide enough to hold every intermediate value.

use vstd::prelude::*;

verus! {

/// Number of coordinate steps that span the image: the fixed-point value of 1.
pub const UNIT: i32 = 1_000_000;

/// Tolerance of the tests on signed areas, in squared coordinate steps.
pub const AREA_EPSILON: i128 = 1_000_000;

/// Tolerance of the tests on coordinates, in coordinate steps.
pub const COORD_EPSILON: i64 = 1;

/// Largest magnitude of a coordinate for which distances are computed.
pub const COORD_LIMIT: i32 = 0x4000_0000;

/// A point of the plane.
#[derive(Clone, Copy, Debug, PartialEq, Eq, Structural)]
pub struct Point {
    pub x: i32,
    pub y: i32,
}

/// Square of the distance between two points.
pub open spec fn spec_dist_sq(p: Point, q: Point) -> int {
    (p.x - q.x) * (p.x - q.x) + (p.y - q.y) * (p.y - q.y)
}

/// `r` is the integer part of the square root of `n`.
pub open spec fn is_floor_sqrt(r: int, n: int) -> bool {
    0 <= r && r * r <= n < (r + 1) * (r + 1)
}

/// `v` divided by `d`, rounded towards zero.
pub open spec fn truncated_quotient(v: int, d: int) -> int {
    if v >= 0 {
        v / d
    } else {
        -((-v) / d)
    }
}

/// The coordinate of the pixel `pixel` on an image `extent` pixels long,
/// rounded towards zero and limited to the range of `i32`.
pub open spec fn spec_from_pixel(pixel: int, extent: int) -> int {
    let q = truncated_quotient(pixel * UNIT, extent);
    if q < i32::MIN {
        i32::MIN as int
    } else if q > i32::MAX {
        i32::MAX as int
    } else {
        q
    }
}

/// The pixel of the coordinate `v` on an image `extent` pixels long,
/// rounded towards zero.
pub open spec fn spec_to_pixel(v: int, extent: int) -> int {
    truncated_quotient(v * extent, UNIT as int)
}

/// Decides [`spec_from_pixel`].
fn coordinate_of_pixel(pixel: i32, extent: u32) -> (v: i32)
    requires
        extent > 0,
    ensures
        v == spec_from_pixel(pixel as int, extent as int),
{
    let scaled: i64 = (pixel as i64) * 1_000_000;
    let q: i64 = if scaled >= 0 {
        scaled / (extent as i64)
    } else {
        -((-scaled) / (extent as i64))
    };
    if q < -0x8000_0000 {
        -0x8000_0000
    } else if q > 0x7fff_ffff {
        0x7fff_ffff
    } else {
        q as i32
    }
}

/// Decides [`spec_to_pixel`].
fn pixel_of_coordinate(v: i32, extent: u32) -> (pixel: i64)
    ensures
        pixel == spec_to_pixel(v as int, extent as int),
{
    assert(-0x8000_0000 * 0xffff_ffff <= v * extent <= 0x8000_0000 * 0xffff_ffff)
        by (nonlinear_arith)
        requires
            -0x8000_0000 <= v <= 0x8000_0000,
            0 <= extent <= 0xffff_ffff,
    ;
    let scaled: i128 = (v as i128) * (extent as i128);
    let q: i128 = if scaled >= 0 {
        scaled / 1_000_000
    } else {
        -((-scaled) / 1_000_000)
    };
    q as i64
}

/// Twice the signed area of the triangle `a`, `b`, `c`: positive where the
/// three points turn left, negative where they turn right, zero where they
/// lie on a line.
pub open spec fn spec_orientation(a: Point, b: Point, c: Point) -> int {
    (b.x - a.x) * (c.y - a.y) - (b.y - a.y) * (c.x - a.x)
}

/// `c` lies in the bounding box of `a` and `b`, widened by the coordinate
/// tolerance.
pub open spec fn spec_on_segment(a: Point, b: Point, c: Point) -> bool {
    let min_x = if a.x <= b.x { a.x } else { b.x };
    let max_x = if a.x <= b.x { b.x } else { a.x };
    let min_y = if a.y <= b.y { a.y } else { b.y };
    let max_y = if a.y <= b.y { b.y } else { a.y };
    &&& min_x - COORD_EPSILON <= c.x <= max_x + COORD_EPSILON
    &&& min_y - COORD_EPSILON <= c.y <= max_y + COORD_EPSILON
}

/// `o` is within the area tolerance of zero.
pub open spec fn near_zero(o: int) -> bool {
    -AREA_EPSILON < o < AREA_EPSILON
}

/// `o1` and `o2` have opposite signs, both beyond the area tolerance.
pub open spec fn opposite_sides(o1: int, o2: int) -> bool {
    (o1 > AREA_EPSILON && o2 < -AREA_EPSILON) || (o1 < -AREA_EPSILON && o2 > AREA_EPSILON)
}

/// The segments `a1`-`a2` and `b1`-`b2` meet: an endpoint of one lies on the
/// other (up to the tolerances), or each segment has its endpoints strictly
/// on opposite sides of the other.
pub open spec fn spec_segments_intersect(a1: Point, a2: Point, b1: Point, b2: Point) -> bool {
    let o1 = spec_orientation(a1, a2, b1);
    let o2 = spec_orientation(a1, a2, b2);
    let o3 = spec_orientation(b1, b2, a1);
    let o4 = spec_orientation(b1, b2, a2);
    ||| near_zero(o1) && spec_on_segment(a1, a2, b1)
    ||| near_zero(o2) && spec_on_segment(a1, a2, b2)
    ||| near_zero(o3) && spec_on_segment(b1, b2, a1)
    ||| near_zero(o4) && spec_on_segment(b1, b2, a2)
    ||| opposite_sides(o1, o2) && opposite_sides(o3, o4)
}

proof fn lemma_mul_bounds(u: int, v: int, m: int)
    requires
        -m <= u <= m,
        -m <= v <= m,
    ensures
        -(m * m) <= u * v <= m * m,
{
    assert(-(m * m) <= u * v <= m * m) by (nonlinear_arith)
        requires
            -m <= u <= m,
            -m <= v <= m,
    ;
}

proof fn lemma_square_monotone(a: int, b: int)
    requires
        0 <= a <= b,
    ensures
        a * a <= b * b,
{
    assert(a * a <= b * b) by (nonlinear_arith)
        requires
            0 <= a <= b,
    ;
}

/// Difference of two coordinates.
fn diff(a: i32, b: i32) -> (d: i64)
    ensures
        d == a - b,
        -0xffff_ffff <= d <= 0xffff_ffff,
{
    a as i64 - b as i64
}

/// Exact product of two coordinate differences.
fn wide_mul(u: i64, v: i64) -> (r: i128)
    requires
        -0xffff_ffff <= u <= 0xffff_ffff,
        -0xffff_ffff <= v <= 0xffff_ffff,
    ensures
        r == u * v,
        -0xffff_fffe_0000_0001 <= r <= 0xffff_fffe_0000_0001,
{
    proof {
        lemma_mul_bounds(u as int, v as int, 0xffff_ffff);
        assert(0xffff_ffffint * 0xffff_ffffint == 0xffff_fffe_0000_0001int) by (nonlinear_arith);
    }
    (u as i128) * (v as i128)
}

/// Integer part of the square root.
pub fn isqrt(n: u128) -> (r: u64)
    ensures
        is_floor_sqrt(r as int, n as int),
{
    let mut lo: u128 = 0;
    let mut hi: u128 = 0x1_0000_0000_0000_0000;
    assert(0x1_0000_0000_0000_0000int * 0x1_0000_0000_0000_0000int
        == 0x1_0000_0000_0000_0000_0000_0000_0000_0000int) by (nonlinear_arith);
    while hi - lo > 1
        invariant
            lo < hi <= 0x1_0000_0000_0000_0000,
            lo * lo <= n < hi * hi,
        decreases hi - lo,
    {
        let mid: u128 = lo + (hi - lo) / 2;
        proof {
            lemma_square_monotone(mid as int, 0xffff_ffff_ffff_ffff);
            assert(0xffff_ffff_ffff_ffffint * 0xffff_ffff_ffff_ffffint
                < 0x1_0000_0000_0000_0000_0000_0000_0000_0000int) by (nonlinear_arith);
        }
        if mid * mid <= n {
            lo = mid;
        } else {
            hi = mid;
        }
    }
    lo as u64
}

impl Point {
    /// The point with the given coordinates.
    pub fn new(x: i32, y: i32) -> (p: Point)
        ensures
            p.x == x,
            p.y == y,
    {
        Point { x, y }
    }

    /// Both coordinates are small enough for distances to segments to be
    /// computed in 128 bits.
    pub open spec fn in_range(self) -> bool {
        &&& -COORD_LIMIT <= self.x <= COORD_LIMIT
        &&& -COORD_LIMIT <= self.y <= COORD_LIMIT
    }

    /// Both coordinates lie in `0..=UNIT`: the point is a point of the image.
    pub open spec fn is_normalized(self) -> bool {
        &&& 0 <= self.x <= UNIT
        &&& 0 <= self.y <= UNIT
    }

    /// Decides [`Point::in_range`].
    pub fn check_in_range(&self) -> (ok: bool)
        ensures
            ok == self.in_range(),
    {
        -COORD_LIMIT <= self.x && self.x <= COORD_LIMIT && -COORD_LIMIT <= self.y && self.y
            <= COORD_LIMIT
    }

    /// Decides [`Point::is_normalized`].
    pub fn check_normalized(&self) -> (ok: bool)
        ensures
            ok == self.is_normalized(),
    {
        0 <= self.x && self.x <= UNIT && 0 <= self.y && self.y <= UNIT
    }

    /// The point at the pixel `(x, y)` of an image of `image_width` by
    /// `image_height` pixels: the fractions of the width and the height,
    /// rounded towards zero and limited to the range of the coordinates.
    pub fn from_pixel(x: i32, y: i32, image_width: u32, image_height: u32) -> (p: Point)
        requires
            image_width > 0,
            image_height > 0,
        ensures
            p.x == spec_from_pixel(x as int, image_width as int),
            p.y == spec_from_pixel(y as int, image_height as int),
    {
        Point { x: coordinate_of_pixel(x, image_width), y: coordinate_of_pixel(y, image_height) }
    }

    /// The pixel of the point on an image of `image_width` by
    /// `image_height` pixels, rounded towards zero.
    pub fn to_pixel(&self, image_width: u32, image_height: u32) -> (pixel: (i64, i64))
        ensures
            pixel.0 == spec_to_pixel(self.x as int, image_width as int),
            pixel.1 == spec_to_pixel(self.y as int, image_height as int),
    {
        (pixel_of_coordinate(self.x, image_width), pixel_of_coordinate(self.y, image_height))
    }

    /// Distance to `other`, rounded down to whole coordinate steps.
    pub fn distance_to(&self, other: &Point) -> (d: u64)
        ensures
            is_floor_sqrt(d as int, spec_dist_sq(*self, *other)),
    {
        isqrt(dist_sq(*self, *other))
    }
}

/// Square of the distance between two points.
pub fn dist_sq(p: Point, q: Point) -> (d: u128)
    ensures
        d == spec_dist_sq(p, q),
        d <= 0x1_ffff_fffc_0000_0002,
{
    let dx: i64 = diff(p.x, q.x);
    let dy: i64 = diff(p.y, q.y);
    let sx: i128 = wide_mul(dx, dx);
    let sy: i128 = wide_mul(dy, dy);
    assert(sx >= 0 && sy >= 0) by (nonlinear_arith)
        requires
            sx == dx * dx,
            sy == dy * dy,
    ;
    (sx + sy) as u128
}

/// Twice the signed area of the triangle `a`, `b`, `c`.
pub fn orientation(a: &Point, b: &Point, c: &Point) -> (o: i128)
    ensures
        o == spec_orientation(*a, *b, *c),
        -0x1_ffff_fffc_0000_0002 <= o <= 0x1_ffff_fffc_0000_0002,
{
    wide_mul(diff(b.x, a.x), diff(c.y, a.y)) - wide_mul(diff(b.y, a.y), diff(c.x, a.x))
}

/// Whether `c` lies in the bounding box of `a` and `b`, widened by the
/// coordinate tolerance.
pub fn on_segment(a: &Point, b: &Point, c: &Point) -> (on: bool)
    ensures
        on == spec_on_segment(*a, *b, *c),
{
    let min_x: i64 = if a.x <= b.x { a.x as i64 } else { b.x as i64 };
    let max_x: i64 = if a.x <= b.x { b.x as i64 } else { a.x as i64 };
    let min_y: i64 = if a.y <= b.y { a.y as i64 } else { b.y as i64 };
    let max_y: i64 = if a.y <= b.y { b.y as i64 } else { a.y as i64 };
    let cx: i64 = c.x as i64;
    let cy: i64 = c.y as i64;
    cx >= min_x - COORD_EPSILON && cx <= max_x + COORD_EPSILON && cy >= min_y - COORD_EPSILON
        && cy <= max_y + COORD_EPSILON
}

/// Whether the segments `a1`-`a2` and `b1`-`b2` meet.
pub fn segments_intersect(a1: &Point, a2: &Point, b1: &Point, b2: &Point) -> (meet: bool)
    ensures
        meet == spec_segments_intersect(*a1, *a2, *b1, *b2),
{
    let o1: i128 = orientation(a1, a2, b1);
    let o2: i128 = orientation(a1, a2, b2);
    let o3: i128 = orientation(b1, b2, a1);
    let o4: i128 = orientation(b1, b2, a2);
    let eps: i128 = AREA_EPSILON;

    if -eps < o1 && o1 < eps && on_segment(a1, a2, b1) {
        return true;
    }
    if -eps < o2 && o2 < eps && on_segment(a1, a2, b2) {
        return true;
    }
    if -eps < o3 && o3 < eps && on_segment(b1, b2, a1) {
        return true;
    }
    if -eps < o4 && o4 < eps && on_segment(b1, b2, a2) {
        return true;
    }

    (o1 > eps && o2 < -eps || o1 < -eps && o2 > eps) && (o3 > eps && o4 < -eps || o3 < -eps && o4
        > eps)
}

/// Scalar product of `p - a` and `b - a`: where along the line from `a` to
/// `b` the point `p` projects, in units of the squared length of `a`-`b`.
pub open spec fn spec_dot(p: Point, a: Point, b: Point) -> int {
    (p.x - a.x) * (b.x - a.x) + (p.y - a.y) * (b.y - a.y)
}

/// Numerator of the squared distance from `p` to the segment `a`-`b`.
///
/// Where the segment is a single point, or `p` projects before `a`, the
/// nearest point is `a`; where it projects beyond `b`, it is `b`; else it is
/// the foot of the perpendicular, at distance `|orientation| / |b - a|`.
pub open spec fn spec_segment_dist_sq_num(p: Point, a: Point, b: Point) -> int {
    let len_sq = spec_dist_sq(b, a);
    let dot = spec_dot(p, a, b);
    if len_sq == 0 || dot <= 0 {
        spec_dist_sq(p, a)
    } else if dot >= len_sq {
        spec_dist_sq(p, b)
    } else {
        spec_orientation(a, b, p) * spec_orientation(a, b, p)
    }
}

/// Denominator of the squared distance from `p` to the segment `a`-`b`.
pub open spec fn spec_segment_dist_sq_den(p: Point, a: Point, b: Point) -> int {
    let len_sq = spec_dist_sq(b, a);
    let dot = spec_dot(p, a, b);
    if len_sq == 0 || dot <= 0 || dot >= len_sq {
        1
    } else {
        len_sq
    }
}

/// `d` is the distance from `p` to the segment `a`-`b`, rounded down.
pub open spec fn is_segment_distance(d: int, p: Point, a: Point, b: Point) -> bool {
    let num = spec_segment_dist_sq_num(p, a, b);
    let den = spec_segment_dist_sq_den(p, a, b);
    0 <= d && d * d * den <= num < (d + 1) * (d + 1) * den
}

proof fn lemma_floor_sqrt_of_quotient(r: int, q: int, num: int, den: int)
    requires
        den > 0,
        num >= 0,
        q == num / den,
        is_floor_sqrt(r, q),
    ensures
        r * r * den <= num < (r + 1) * (r + 1) * den,
{
    vstd::arithmetic::div_mod::lemma_fundamental_div_mod(num, den);
    vstd::arithmetic::div_mod::lemma_mod_bound(num, den);
    assert(q * den <= num < (q + 1) * den) by (nonlinear_arith)
        requires
            num == den * q + num % den,
            0 <= num % den < den,
    ;
    assert(r * r * den <= q * den) by (nonlinear_arith)
        requires
            r * r <= q,
            den > 0,
    ;
    assert((q + 1) * den <= (r + 1) * (r + 1) * den) by (nonlinear_arith)
        requires
            q + 1 <= (r + 1) * (r + 1),
            den > 0,
    ;
}

/// Distance from `point` to the segment `a`-`b`, rounded down to whole
/// coordinate steps.
pub fn point_to_segment_distance(point: &Point, a: &Point, b: &Point) -> (d: u64)
    requires
        point.in_range(),
        a.in_range(),
        b.in_range(),
    ensures
        is_segment_distance(d as int, *point, *a, *b),
{
    let dx: i64 = diff(b.x, a.x);
    let dy: i64 = diff(b.y, a.y);
    let len_sq: u128 = dist_sq(*b, *a);
    if len_sq == 0 {
        return isqrt(dist_sq(*point, *a));
    }
    let dot: i128 = wide_mul(diff(point.x, a.x), dx) + wide_mul(diff(point.y, a.y), dy);
    if dot <= 0 {
        return isqrt(dist_sq(*point, *a));
    }
    if dot as u128 >= len_sq {
        return isqrt(dist_sq(*point, *b));
    }
    let cross: i128 = orientation(a, b, point);
    proof {
        let m: int = 0x8000_0000;
        lemma_mul_bounds(b.x - a.x, point.y - a.y, m);
        lemma_mul_bounds(b.y - a.y, point.x - a.x, m);
        assert(m * m == 0x4000_0000_0000_0000) by (nonlinear_arith)
            requires
                m == 0x8000_0000,
        ;
        lemma_mul_bounds(cross as int, cross as int, 0x8000_0000_0000_0000);
        assert(0x8000_0000_0000_0000int * 0x8000_0000_0000_0000int
            == 0x4000_0000_0000_0000_0000_0000_0000_0000int) by (nonlinear_arith);
    }
    let magnitude: u128 = if cross < 0 { (-cross) as u128 } else { cross as u128 };
    assert(magnitude * magnitude == cross * cross) by (nonlinear_arith)
        requires
            magnitude == cross || magnitude == -cross,
    ;
    let quotient: u128 = (magnitude * magnitude) / len_sq;
    let d: u64 = isqrt(quotient);
    proof {
        lemma_floor_sqrt_of_quotient(
            d as int,
            quotient as int,
            (cross * cross) as int,
            len_sq as int,
        );
    }
    d
}

/// The vertex before `i` on the closed outline of a polygon of `n` vertices.
pub open spec fn prev_index(i: int, n: int) -> int {
    if i == 0 {
        n - 1
    } else {
        i - 1
    }
}

/// The vertex after `i` on the closed outline of a polygon of `n` vertices.
pub open spec fn next_index(i: int, n: int) -> int {
    if i + 1 == n {
        0
    } else {
        i + 1
    }
}

/// The horizontal ray from `p` towards larger `x` crosses the edge `a`-`b`:
/// exactly one endpoint lies strictly above `p`, and the edge passes the
/// height of `p` strictly to the right of `p`.
pub open spec fn ray_crosses_edge(p: Point, a: Point, b: Point) -> bool {
    &&& (a.y > p.y) != (b.y > p.y)
    &&& if b.y > a.y {
        (p.x - a.x) * (b.y - a.y) < (b.x - a.x) * (p.y - a.y)
    } else {
        (p.x - a.x) * (b.y - a.y) > (b.x - a.x) * (p.y - a.y)
    }
}

/// Number of the edges ending at the vertices `0..k` that the ray from `p`
/// crosses; the edge ending at vertex `i` starts at the vertex before it.
pub open spec fn crossing_count(p: Point, polygon: Seq<Point>, k: int) -> nat
    decreases k,
{
    if k <= 0 {
        0
    } else {
        let i = k - 1;
        let hit = ray_crosses_edge(p, polygon[i], polygon[prev_index(i, polygon.len() as int)]);
        crossing_count(p, polygon, i) + if hit { 1nat } else { 0nat }
    }
}

/// Even-odd rule: `p` is inside a polygon of at least three vertices when
/// the ray from `p` crosses an odd number of its edges.
pub open spec fn spec_point_in_polygon(p: Point, polygon: Seq<Point>) -> bool {
    polygon.len() >= 3 && crossing_count(p, polygon, polygon.len() as int) % 2 == 1
}

/// Decides [`ray_crosses_edge`].
pub fn ray_crosses(p: &Point, a: &Point, b: &Point) -> (hit: bool)
    ensures
        hit == ray_crosses_edge(*p, *a, *b),
{
    if (a.y > p.y) == (b.y > p.y) {
        return false;
    }
    let lhs: i128 = wide_mul(diff(p.x, a.x), diff(b.y, a.y));
    let rhs: i128 = wide_mul(diff(b.x, a.x), diff(p.y, a.y));
    if b.y > a.y {
        lhs < rhs
    } else {
        lhs > rhs
    }
}

/// Whether `point` is inside `polygon`, by the even-odd rule. A polygon of
/// fewer than three vertices contains no point.
pub fn point_in_polygon(point: &Point, polygon: &[Point]) -> (inside: bool)
    ensures
        inside == spec_point_in_polygon(*point, polygon@),
{
    if polygon.len() < 3 {
        return false;
    }
    let mut inside: bool = false;
    let mut j: usize = polygon.len() - 1;
    let mut i: usize = 0;
    while i < polygon.len()
        invariant
            polygon@.len() >= 3,
            i <= polygon@.len(),
            j == prev_index(i as int, polygon@.len() as int) || i == polygon@.len(),
            j < polygon@.len(),
            inside == (crossing_count(*point, polygon@, i as int) % 2 == 1),
        decreases polygon@.len() - i,
    {
        if ray_crosses(point, &polygon[i], &polygon[j]) {
            inside = !inside;
        }
        j = i;
        i = i + 1;
    }
    inside
}

/// `min` and `max` are the corners of the smallest axis-parallel box that
/// holds every point of `s`.
pub open spec fn is_bounding_box(s: Seq<Point>, min: Point, max: Point) -> bool {
    &&& forall|i: int|
        0 <= i < s.len() ==> min.x <= (#[trigger] s[i]).x <= max.x && min.y <= s[i].y <= max.y
    &&& exists|i: int| 0 <= i < s.len() && (#[trigger] s[i]).x == min.x
    &&& exists|i: int| 0 <= i < s.len() && (#[trigger] s[i]).y == min.y
    &&& exists|i: int| 0 <= i < s.len() && (#[trigger] s[i]).x == max.x
    &&& exists|i: int| 0 <= i < s.len() && (#[trigger] s[i]).y == max.y
}

/// The corners `(min, max)` of the bounding box of `s`; `None` where `s`
/// has no point.
pub open spec fn spec_bounding_box(s: Seq<Point>) -> Option<(Point, Point)> {
    if s.len() == 0 {
        None
    } else {
        Some(choose|b: (Point, Point)| is_bounding_box(s, b.0, b.1))
    }
}

/// A bounding box is the bounding box: no other box is one.
pub proof fn lemma_bounding_box(s: Seq<Point>, min: Point, max: Point)
    requires
        is_bounding_box(s, min, max),
    ensures
        spec_bounding_box(s) == Some((min, max)),
{
    let b = choose|b: (Point, Point)| is_bounding_box(s, b.0, b.1);
    assert(is_bounding_box(s, (min, max).0, (min, max).1));
    assert(is_bounding_box(s, b.0, b.1));
    assert(b.0 == min && b.1 == max);
}

/// The corners `(min, max)` of the bounding box of `polygon`; `None` where
/// it has no point.
pub fn bounding_box(polygon: &[Point]) -> (bounds: Option<(Point, Point)>)
    ensures
        bounds == spec_bounding_box(polygon@),
        bounds.is_none() == (polygon@.len() == 0),
        bounds matches Some((min, max)) ==> is_bounding_box(polygon@, min, max),
{
    if polygon.len() == 0 {
        return None;
    }
    let mut min_x: i32 = polygon[0].x;
    let mut min_y: i32 = polygon[0].y;
    let mut max_x: i32 = polygon[0].x;
    let mut max_y: i32 = polygon[0].y;
    let ghost mut at_min_x: int = 0;
    let ghost mut at_min_y: int = 0;
    let ghost mut at_max_x: int = 0;
    let ghost mut at_max_y: int = 0;
    let mut i: usize = 1;
    while i < polygon.len()
        invariant
            1 <= i <= polygon@.len(),
            forall|k: int|
                0 <= k < i ==> min_x <= (#[trigger] polygon@[k]).x <= max_x && min_y
                    <= polygon@[k].y <= max_y,
            0 <= at_min_x < i && polygon@[at_min_x].x == min_x,
            0 <= at_min_y < i && polygon@[at_min_y].y == min_y,
            0 <= at_max_x < i && polygon@[at_max_x].x == max_x,
            0 <= at_max_y < i && polygon@[at_max_y].y == max_y,
        decreases polygon@.len() - i,
    {
        let p: Point = polygon[i];
        if p.x < min_x {
            min_x = p.x;
            proof {
                at_min_x = i as int;
            }
        }
        if p.y < min_y {
            min_y = p.y;
            proof {
                at_min_y = i as int;
            }
        }
        if p.x > max_x {
            max_x = p.x;
            proof {
                at_max_x = i as int;
            }
        }
        if p.y > max_y {
            max_y = p.y;
            proof {
                at_max_y = i as int;
            }
        }
        i = i + 1;
    }
    proof {
        lemma_bounding_box(polygon@, Point { x: min_x, y: min_y }, Point { x: max_x, y: max_y });
    }
    Some((Point { x: min_x, y: min_y }, Point { x: max_x, y: max_y }))
}

/// Term of vertex `i` in the shoelace sum: the cross product of vertex `i`
/// and the vertex after it.
pub open spec fn shoelace_term(s: Seq<Point>, i: int) -> int {
    let j = next_index(i, s.len() as int);
    s[i].x * s[j].y - s[j].x * s[i].y
}

/// Sum of the shoelace terms of the vertices `0..k`.
pub open spec fn shoelace_sum(s: Seq<Point>, k: int) -> int
    decreases k,
{
    if k <= 0 {
        0
    } else {
        shoelace_sum(s, k - 1) + shoelace_term(s, k - 1)
    }
}

/// Twice the area that the outline `s` encloses, by the shoelace formula.
pub open spec fn spec_twice_area(s: Seq<Point>) -> int {
    let sum = shoelace_sum(s, s.len() as int);
    if sum < 0 {
        -sum
    } else {
        sum
    }
}

/// Area of the polygon `s` in squared coordinate steps, rounded down; zero
/// for fewer than three vertices.
pub open spec fn spec_polygon_area(s: Seq<Point>) -> int {
    if s.len() < 3 {
        0
    } else {
        spec_twice_area(s) / 2
    }
}

/// Area of `points` by the shoelace formula, in squared coordinate steps and
/// rounded down. Serves to order shapes by size.
pub fn polygon_area(points: &[Point]) -> (area: u128)
    ensures
        area == spec_polygon_area(points@),
{
    let n: usize = points.len();
    if n < 3 {
        return 0;
    }
    let mut sum: i128 = 0;
    let mut i: usize = 0;
    while i < n
        invariant
            n == points@.len(),
            i <= n,
            sum == shoelace_sum(points@, i as int),
            -(i * 0x8000_0000_0000_0000) <= sum <= i * 0x8000_0000_0000_0000,
        decreases n - i,
    {
        let j: usize = if i + 1 == n { 0 } else { i + 1 };
        let a: Point = points[i];
        let b: Point = points[j];
        proof {
            lemma_mul_bounds(a.x as int, b.y as int, 0x8000_0000);
            lemma_mul_bounds(b.x as int, a.y as int, 0x8000_0000);
            assert(0x8000_0000int * 0x8000_0000int == 0x4000_0000_0000_0000int)
                by (nonlinear_arith);
        }
        let term: i128 = (a.x as i128) * (b.y as i128) - (b.x as i128) * (a.y as i128);
        sum = sum + term;
        i = i + 1;
    }
    let twice: u128 = if sum < 0 { (-sum) as u128 } else { sum as u128 };
    twice / 2
}

/// A polygon: the vertices of a closed outline, in order. The last vertex
/// connects back to the first.
#[derive(Clone, Debug)]
pub struct Polygon {
    pub points: Vec<Point>,
}

impl View for Polygon {
    type V = Seq<Point>;

    open spec fn view(&self) -> Seq<Point> {
        self.points@
    }
}

impl Polygon {
    /// The polygon with the given vertices.
    pub fn new(points: Vec<Point>) -> (polygon: Polygon)
        ensures
            polygon@ == points@,
    {
        Polygon { points }
    }

    /// The polygon without vertices.
    pub fn empty() -> (polygon: Polygon)
        ensures
            polygon@.len() == 0,
    {
        Polygon { points: Vec::new() }
    }

    /// Appends `point` as the last vertex.
    pub fn add_point(&mut self, point: Point)
        ensures
            final(self)@ == old(self)@.push(point),
    {
        self.points.push(point);
    }

    /// Whether the polygon has the three vertices that editing asks for.
    pub fn is_valid(&self) -> (valid: bool)
        ensures
            valid == (self@.len() >= 3),
    {
        self.points.len() >= 3
    }

    /// Area of the polygon, see [`polygon_area`].
    pub fn area(&self) -> (area: u128)
        ensures
            area == spec_polygon_area(self@),
    {
        polygon_area(self.points.as_slice())
    }
}

} // verus!
