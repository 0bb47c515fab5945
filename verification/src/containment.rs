//! What the even-odd rule implies: a point outside the bounding box of a
//! polygon is outside the polygon, and a point strictly inside a triangle
//! or a strictly convex polygon is inside it.

use crate::geometry::{
    crossing_count, is_bounding_box, next_index, prev_index, ray_crosses_edge, spec_orientation,
    spec_point_in_polygon, Point,
};
use vstd::prelude::*;

verus! {

/// The vertex `i` of `polygon` lies strictly above `p`.
pub open spec fn is_above(p: Point, polygon: Seq<Point>, i: int) -> bool {
    polygon[i].y > p.y
}

/// An edge with both endpoints strictly left of `p` is not crossed by the
/// ray from `p`.
pub proof fn lemma_edge_on_the_left(p: Point, a: Point, b: Point)
    requires
        a.x < p.x,
        b.x < p.x,
    ensures
        !ray_crosses_edge(p, a, b),
{
    if (a.y > p.y) != (b.y > p.y) {
        let u = p.x - a.x;
        let w = b.x - a.x;
        let dy = b.y - a.y;
        let t = p.y - a.y;
        if b.y > a.y {
            assert(u * dy >= w * t) by (nonlinear_arith)
                requires
                    u > 0,
                    w < u,
                    0 <= t < dy,
            ;
        } else {
            assert(u * dy <= w * t) by (nonlinear_arith)
                requires
                    u > 0,
                    w < u,
                    dy <= t < 0,
            ;
        }
    }
}

/// An edge with both endpoints strictly right of `p` is crossed by the ray
/// from `p` exactly when one of its endpoints is strictly above `p` and
/// the other is not.
pub proof fn lemma_edge_on_the_right(p: Point, a: Point, b: Point)
    requires
        p.x < a.x,
        p.x < b.x,
    ensures
        ray_crosses_edge(p, a, b) == ((a.y > p.y) != (b.y > p.y)),
{
    if (a.y > p.y) != (b.y > p.y) {
        let u = p.x - a.x;
        let w = b.x - a.x;
        let dy = b.y - a.y;
        let t = p.y - a.y;
        if b.y > a.y {
            assert(u * dy < w * t) by (nonlinear_arith)
                requires
                    u < 0,
                    u < w,
                    0 <= t < dy,
            ;
        } else {
            assert(u * dy > w * t) by (nonlinear_arith)
                requires
                    u < 0,
                    u < w,
                    dy <= t < 0,
            ;
        }
    }
}

/// The ray from `p` crosses the edge of `polygon` that ends at the vertex
/// `i`.
pub open spec fn crossed_at(p: Point, polygon: Seq<Point>, i: int) -> bool {
    ray_crosses_edge(p, polygon[i], polygon[prev_index(i, polygon.len() as int)])
}

/// The endpoints of the edge that ends at the vertex `i` lie on different
/// sides of the height of `p`.
pub open spec fn changes_side_at(p: Point, polygon: Seq<Point>, i: int) -> bool {
    is_above(p, polygon, i) != is_above(p, polygon, prev_index(i, polygon.len() as int))
}

/// Where the ray crosses no edge, the count of crossings is zero.
proof fn lemma_no_crossing(p: Point, polygon: Seq<Point>, k: int)
    requires
        0 <= k <= polygon.len(),
        forall|i: int| 0 <= i < polygon.len() ==> !#[trigger] crossed_at(p, polygon, i),
    ensures
        crossing_count(p, polygon, k) == 0,
    decreases k,
{
    if k > 0 {
        lemma_no_crossing(p, polygon, k - 1);
        assert(!crossed_at(p, polygon, k - 1));
    }
}

/// Where the ray crosses exactly the edges whose endpoints lie on
/// different sides of the height of `p`, the count of crossings along the
/// outline up to a vertex is odd exactly when that vertex lies on the other
/// side than the last vertex: the outline changes sides once per crossing.
proof fn lemma_crossings_change_sides(p: Point, polygon: Seq<Point>, k: int)
    requires
        1 <= k <= polygon.len(),
        forall|i: int|
            0 <= i < polygon.len() ==> #[trigger] crossed_at(p, polygon, i) == changes_side_at(
                p,
                polygon,
                i,
            ),
    ensures
        (crossing_count(p, polygon, k) % 2 == 1) == (is_above(p, polygon, k - 1) != is_above(
            p,
            polygon,
            polygon.len() - 1,
        )),
    decreases k,
{
    let n = polygon.len() as int;
    let here = crossed_at(p, polygon, k - 1);
    assert(here == changes_side_at(p, polygon, k - 1));
    let before = crossing_count(p, polygon, k - 1);
    assert(crossing_count(p, polygon, k) == before + if here { 1nat } else { 0nat });
    if k == 1 {
        assert(before == 0);
        assert(prev_index(0, n) == n - 1);
    } else {
        lemma_crossings_change_sides(p, polygon, k - 1);
        assert(prev_index(k - 1, n) == k - 2);
    }
}

/// A point outside the bounding box of a polygon is not inside the
/// polygon, whatever the shape of the polygon.
pub proof fn lemma_outside_bounding_box(p: Point, polygon: Seq<Point>, min: Point, max: Point)
    requires
        is_bounding_box(polygon, min, max),
        p.x < min.x || p.x > max.x || p.y < min.y || p.y > max.y,
    ensures
        !spec_point_in_polygon(p, polygon),
{
    let n = polygon.len() as int;
    if n >= 3 {
        assert forall|i: int| 0 <= i < n implies min.x <= (#[trigger] polygon[i]).x <= max.x
            && min.y <= polygon[i].y <= max.y by {}
        if p.y < min.y || p.y > max.y || p.x > max.x {
            assert forall|i: int| 0 <= i < n implies !#[trigger] crossed_at(p, polygon, i) by {
                let a = polygon[i];
                let b = polygon[prev_index(i, n)];
                assert(min.y <= a.y <= max.y && min.y <= b.y <= max.y);
                assert(a.x <= max.x && b.x <= max.x);
                if p.x > max.x {
                    lemma_edge_on_the_left(p, a, b);
                }
            }
            lemma_no_crossing(p, polygon, n);
        } else {
            assert forall|i: int| 0 <= i < n implies #[trigger] crossed_at(p, polygon, i)
                == changes_side_at(p, polygon, i) by {
                let a = polygon[i];
                let b = polygon[prev_index(i, n)];
                assert(min.x <= a.x && min.x <= b.x);
                lemma_edge_on_the_right(p, a, b);
            }
            lemma_crossings_change_sides(p, polygon, n);
        }
    }
}

/// `p` lies strictly on the same side of the three edges of the triangle
/// `a`, `b`, `c`: strictly inside the triangle, whichever way round its
/// vertices go.
pub open spec fn strictly_inside_triangle(p: Point, a: Point, b: Point, c: Point) -> bool {
    let ab = spec_orientation(a, b, p);
    let bc = spec_orientation(b, c, p);
    let ca = spec_orientation(c, a, p);
    (ab > 0 && bc > 0 && ca > 0) || (ab < 0 && bc < 0 && ca < 0)
}

/// An edge from `u` to `v` with `p` strictly on its left is crossed by the
/// ray from `p` exactly when it goes up past the height of `p`; with `p`
/// strictly on its right, exactly when it comes down past it.
pub proof fn lemma_crossing_by_side(p: Point, u: Point, v: Point)
    requires
        spec_orientation(u, v, p) != 0,
    ensures
        ray_crosses_edge(p, v, u) == if spec_orientation(u, v, p) > 0 {
            u.y <= p.y < v.y
        } else {
            v.y <= p.y < u.y
        },
{
    let side = spec_orientation(u, v, p);
    let lhs = (p.x - v.x) * (u.y - v.y);
    let rhs = (u.x - v.x) * (p.y - v.y);
    assert(side == lhs - rhs) by (nonlinear_arith)
        requires
            side == (v.x - u.x) * (p.y - u.y) - (v.y - u.y) * (p.x - u.x),
            lhs == (p.x - v.x) * (u.y - v.y),
            rhs == (u.x - v.x) * (p.y - v.y),
    ;
}

/// The orientation of `p` against the edge from `u` to `v` is the cross
/// product of the two vertices as seen from `p`.
proof fn lemma_orientation_from(p: Point, u: Point, v: Point)
    ensures
        spec_orientation(u, v, p) == (u.x - p.x) * (v.y - p.y) - (v.x - p.x) * (u.y - p.y),
{
    let (ux, uy, vx, vy) = (u.x - p.x, u.y - p.y, v.x - p.x, v.y - p.y);
    assert((vx - ux) * (0 - uy) - (vy - uy) * (0 - ux) == ux * vy - vx * uy) by (nonlinear_arith);
    assert(spec_orientation(u, v, p) == (vx - ux) * (0 - uy) - (vy - uy) * (0 - ux));
}

/// Three directions, all on one side of a line through the origin, cannot
/// each turn the same way to the next: going round, one turn must go back.
/// Here the heights `ay`, `by`, `cy` are all positive or zero, or all
/// negative or zero, and not all are zero.
proof fn lemma_no_cycle_of_turns(ax: int, ay: int, bx: int, by: int, cx: int, cy: int)
    requires
        (ay >= 0 && by >= 0 && cy >= 0) || (ay <= 0 && by <= 0 && cy <= 0),
        ay != 0 || by != 0 || cy != 0,
    ensures
        !(ax * by - bx * ay > 0 && bx * cy - cx * by > 0 && cx * ay - ax * cy > 0),
        !(ax * by - bx * ay < 0 && bx * cy - cx * by < 0 && cx * ay - ax * cy < 0),
{
    let ab = ax * by - bx * ay;
    let bc = bx * cy - cx * by;
    let ca = cx * ay - ax * cy;
    // The turns, each weighted with the height of the third direction, add up to zero.
    lemma_turns_balance(ax, ay, bx, by, cx, cy);
    assert(ab * cy + bc * ay + ca * by == 0);
    let up = ay >= 0 && by >= 0 && cy >= 0;
    let hc = if up { cy } else { -cy };
    let ha = if up { ay } else { -ay };
    let hb = if up { by } else { -by };
    if !up {
        assert(ab * (-cy) == -(ab * cy)) by (nonlinear_arith);
        assert(bc * (-ay) == -(bc * ay)) by (nonlinear_arith);
        assert(ca * (-by) == -(ca * by)) by (nonlinear_arith);
    }
    assert(ab * hc + bc * ha + ca * hb == 0);
    assert(ha > 0 || hb > 0 || hc > 0);
    if ab > 0 && bc > 0 && ca > 0 {
        assert(ab * hc >= 0 && bc * ha >= 0 && ca * hb >= 0) by (nonlinear_arith)
            requires
                ab > 0,
                bc > 0,
                ca > 0,
                hc >= 0,
                ha >= 0,
                hb >= 0,
        ;
        assert(ab * hc > 0 || bc * ha > 0 || ca * hb > 0) by (nonlinear_arith)
            requires
                ab > 0,
                bc > 0,
                ca > 0,
                hc >= 0,
                ha >= 0,
                hb >= 0,
                ha > 0 || hb > 0 || hc > 0,
        ;
    }
    if ab < 0 && bc < 0 && ca < 0 {
        assert(ab * hc <= 0 && bc * ha <= 0 && ca * hb <= 0) by (nonlinear_arith)
            requires
                ab < 0,
                bc < 0,
                ca < 0,
                hc >= 0,
                ha >= 0,
                hb >= 0,
        ;
        assert(ab * hc < 0 || bc * ha < 0 || ca * hb < 0) by (nonlinear_arith)
            requires
                ab < 0,
                bc < 0,
                ca < 0,
                hc >= 0,
                ha >= 0,
                hb >= 0,
                ha > 0 || hb > 0 || hc > 0,
        ;
    }
}

/// A point strictly inside a triangle has a vertex strictly above its
/// height and a vertex that is not.
proof fn lemma_triangle_spans_height(p: Point, a: Point, b: Point, c: Point)
    requires
        strictly_inside_triangle(p, a, b, c),
    ensures
        a.y > p.y || b.y > p.y || c.y > p.y,
        a.y <= p.y || b.y <= p.y || c.y <= p.y,
{
    lemma_orientation_from(p, a, b);
    lemma_orientation_from(p, b, c);
    lemma_orientation_from(p, c, a);
    let (ax, ay) = (a.x - p.x, a.y - p.y);
    let (bx, by) = (b.x - p.x, b.y - p.y);
    let (cx, cy) = (c.x - p.x, c.y - p.y);
    if ay > 0 && by > 0 && cy > 0 {
        lemma_no_cycle_of_turns(ax, ay, bx, by, cx, cy);
    }
    if ay <= 0 && by <= 0 && cy <= 0 {
        if ay == 0 && by == 0 && cy == 0 {
            assert(ax * by - bx * ay == 0) by (nonlinear_arith)
                requires
                    ay == 0,
                    by == 0,
            ;
        } else {
            lemma_no_cycle_of_turns(ax, ay, bx, by, cx, cy);
        }
    }
}

/// A point strictly inside a triangle is inside it by the even-odd rule,
/// whichever way round the vertices of the triangle go.
pub proof fn lemma_point_in_triangle(p: Point, a: Point, b: Point, c: Point)
    requires
        strictly_inside_triangle(p, a, b, c),
    ensures
        spec_point_in_polygon(p, seq![a, b, c]),
{
    let s = seq![a, b, c];
    lemma_triangle_spans_height(p, a, b, c);
    // The edges that end at the vertices 0, 1 and 2 come from c, a and b.
    lemma_crossing_by_side(p, c, a);
    lemma_crossing_by_side(p, a, b);
    lemma_crossing_by_side(p, b, c);
    assert(s[0] == a && s[1] == b && s[2] == c);
    assert(prev_index(0, 3) == 2 && prev_index(1, 3) == 0 && prev_index(2, 3) == 1);
    let first = ray_crosses_edge(p, a, c);
    let second = ray_crosses_edge(p, b, a);
    let third = ray_crosses_edge(p, c, b);
    assert(crossing_count(p, s, 0) == 0);
    assert(crossing_count(p, s, 1) == if first { 1nat } else { 0nat });
    assert(crossing_count(p, s, 2) == crossing_count(p, s, 1) + if second { 1nat } else { 0nat });
    assert(crossing_count(p, s, 3) == crossing_count(p, s, 2) + if third { 1nat } else { 0nat });
}

/// The orientation `o` is that of a turn the way round that `ccw` names:
/// to the left for a polygon that goes round counter-clockwise, to the
/// right for one that goes round clockwise.
pub open spec fn turns(ccw: bool, o: int) -> bool {
    if ccw {
        o > 0
    } else {
        o < 0
    }
}

/// The polygon `s` is strictly convex and goes round the way that `ccw`
/// names: every vertex but the two of an edge lies strictly on the inner
/// side of the edge.
pub open spec fn is_strictly_convex(s: Seq<Point>, ccw: bool) -> bool {
    &&& s.len() >= 3
    &&& forall|i: int, k: int|
        0 <= i < s.len() && 0 <= k < s.len() && k != i && k != next_index(i, s.len() as int)
            ==> turns(
            ccw,
            #[trigger] spec_orientation(s[i], s[next_index(i, s.len() as int)], s[k]),
        )
}

/// `p` lies strictly on the inner side of every edge of the polygon `s`,
/// which goes round the way that `ccw` names.
pub open spec fn is_strictly_inside(p: Point, s: Seq<Point>, ccw: bool) -> bool {
    forall|i: int|
        0 <= i < s.len() ==> turns(
            ccw,
            #[trigger] spec_orientation(s[i], s[next_index(i, s.len() as int)], p),
        )
}

/// The edge that ends at the vertex `i` passes the height of `p` in the
/// direction in which the ray from `p` crosses the edges of a polygon that
/// goes round the way that `ccw` names: upwards for counter-clockwise,
/// downwards for clockwise.
pub open spec fn passes_at(p: Point, s: Seq<Point>, ccw: bool, i: int) -> bool {
    let tail = is_above(p, s, prev_index(i, s.len() as int));
    let head = is_above(p, s, i);
    if ccw {
        !tail && head
    } else {
        tail && !head
    }
}

/// The ray from a point strictly inside a polygon crosses exactly the
/// edges that pass its height in the direction that counts.
proof fn lemma_crossed_where_passing(p: Point, s: Seq<Point>, ccw: bool, i: int)
    requires
        s.len() >= 3,
        0 <= i < s.len(),
        is_strictly_inside(p, s, ccw),
    ensures
        crossed_at(p, s, i) == passes_at(p, s, ccw, i),
{
    let n = s.len() as int;
    let t = prev_index(i, n);
    assert(next_index(t, n) == i);
    assert(turns(ccw, spec_orientation(s[t], s[next_index(t, n)], p)));
    lemma_crossing_by_side(p, s[t], s[i]);
}

/// For three directions the turns from each to the next, each weighted
/// with the height of the third, add up to zero.
proof fn lemma_turns_balance(ax: int, ay: int, bx: int, by: int, cx: int, cy: int)
    ensures
        (ax * by - bx * ay) * cy + (bx * cy - cx * by) * ay + (cx * ay - ax * cy) * by == 0,
{
    assert((ax * by - bx * ay) * cy == (ax * by) * cy - (bx * ay) * cy) by (nonlinear_arith);
    assert((bx * cy - cx * by) * ay == (bx * cy) * ay - (cx * by) * ay) by (nonlinear_arith);
    assert((cx * ay - ax * cy) * by == (cx * ay) * by - (ax * cy) * by) by (nonlinear_arith);
    assert((ax * by) * cy == (ax * cy) * by) by (nonlinear_arith);
    assert((bx * ay) * cy == (bx * cy) * ay) by (nonlinear_arith);
    assert((cx * by) * ay == (cx * ay) * by) by (nonlinear_arith);
}

/// The orientation of `c` against the edge from `a` to `b` is the cross
/// product of `b` and `c` as seen from `a`.
proof fn lemma_orientation_at(a: Point, b: Point, c: Point)
    ensures
        spec_orientation(a, b, c) == (b.x - a.x) * (c.y - a.y) - (c.x - a.x) * (b.y - a.y),
{
    assert((b.y - a.y) * (c.x - a.x) == (c.x - a.x) * (b.y - a.y)) by (nonlinear_arith);
}

/// Two edges `a`-`b` and `c`-`d` and a height `h`: the orientations of
/// the endpoints of each edge against the other, each weighted with the
/// distance of the other endpoint of its edge from the height, add up to
/// zero.
proof fn lemma_edges_balance(a: Point, b: Point, c: Point, d: Point, h: int)
    ensures
        (d.y - h) * spec_orientation(a, b, c) + (h - c.y) * spec_orientation(a, b, d) + (b.y - h)
            * spec_orientation(c, d, a) + (h - a.y) * spec_orientation(c, d, b) == 0,
{
    // All as seen from `a`.
    let (bx, by) = (b.x - a.x, b.y - a.y);
    let (cx, cy) = (c.x - a.x, c.y - a.y);
    let (dx, dy) = (d.x - a.x, d.y - a.y);
    let hh = h - a.y;
    let bc = bx * cy - cx * by;
    let bd = bx * dy - dx * by;
    let cd = cx * dy - dx * cy;
    lemma_orientation_at(a, b, c);
    lemma_orientation_at(a, b, d);
    assert(spec_orientation(a, b, c) == bc);
    assert(spec_orientation(a, b, d) == bd);
    assert(spec_orientation(c, d, a) == cd) by (nonlinear_arith)
        requires
            spec_orientation(c, d, a) == (d.x - c.x) * (a.y - c.y) - (d.y - c.y) * (a.x - c.x),
            cd == (c.x - a.x) * (d.y - a.y) - (d.x - a.x) * (c.y - a.y),
    ;
    assert(spec_orientation(c, d, b) == cd - bd + bc) by (nonlinear_arith)
        requires
            spec_orientation(c, d, b) == (d.x - c.x) * (b.y - c.y) - (d.y - c.y) * (b.x - c.x),
            cd == (c.x - a.x) * (d.y - a.y) - (d.x - a.x) * (c.y - a.y),
            bd == (b.x - a.x) * (d.y - a.y) - (d.x - a.x) * (b.y - a.y),
            bc == (b.x - a.x) * (c.y - a.y) - (c.x - a.x) * (b.y - a.y),
    ;
    lemma_turns_balance(bx, by, cx, cy, dx, dy);
    // bc * dy + cd * by + (dx * by - bx * dy) * cy == 0, and dx * by - bx * dy is -bd.
    assert((dx * by - bx * dy) * cy == -(bd * cy)) by (nonlinear_arith)
        requires
            bd == bx * dy - dx * by,
    ;
    assert(bc * dy + cd * by - bd * cy == 0);
    assert((dy - hh) * bc + (hh - cy) * bd + (by - hh) * cd + hh * (cd - bd + bc) == bc * dy + cd
        * by - bd * cy) by (nonlinear_arith);
    assert(d.y - h == dy - hh && h - c.y == hh - cy && b.y - h == by - hh && h - a.y == hh);
}

/// Of a strictly convex polygon with `p` strictly inside at most one edge
/// passes the height of `p` in the direction that counts.
proof fn lemma_one_passing_edge(p: Point, s: Seq<Point>, ccw: bool, i: int, j: int)
    requires
        is_strictly_convex(s, ccw),
        0 <= i < s.len(),
        0 <= j < s.len(),
        passes_at(p, s, ccw, i),
        passes_at(p, s, ccw, j),
    ensures
        i == j,
{
    if i != j {
        let n = s.len() as int;
        let (ti, tj) = (prev_index(i, n), prev_index(j, n));
        let (a, b, c, d) = (s[ti], s[i], s[tj], s[j]);
        let h = p.y as int;
        assert(next_index(ti, n) == i && next_index(tj, n) == j);
        // The tail of one edge is not the head of the other: one is above, the other is not.
        assert(tj != i && ti != j && ti != tj);
        let abc = spec_orientation(s[ti], s[next_index(ti, n)], s[tj]);
        let abd = spec_orientation(s[ti], s[next_index(ti, n)], s[j]);
        let cda = spec_orientation(s[tj], s[next_index(tj, n)], s[ti]);
        let cdb = spec_orientation(s[tj], s[next_index(tj, n)], s[i]);
        assert(turns(ccw, abc) && turns(ccw, abd) && turns(ccw, cda) && turns(ccw, cdb));
        lemma_edges_balance(a, b, c, d, h);
        let (w1, w2, w3, w4) = (d.y - h, h - c.y, b.y - h, h - a.y);
        assert(w1 * abc + w2 * abd + w3 * cda + w4 * cdb == 0);
        if ccw {
            assert(w1 * abc > 0 && w2 * abd >= 0 && w3 * cda > 0 && w4 * cdb >= 0)
                by (nonlinear_arith)
                requires
                    w1 > 0,
                    w2 >= 0,
                    w3 > 0,
                    w4 >= 0,
                    abc > 0,
                    abd > 0,
                    cda > 0,
                    cdb > 0,
            ;
        } else {
            assert(w1 * abc >= 0 && w2 * abd > 0 && w3 * cda >= 0 && w4 * cdb > 0)
                by (nonlinear_arith)
                requires
                    w1 <= 0,
                    w2 < 0,
                    w3 <= 0,
                    w4 < 0,
                    abc < 0,
                    abd < 0,
                    cda < 0,
                    cdb < 0,
            ;
        }
    }
}

/// The vertex `k` of `s` as seen from `p`.
spec fn seen_from(p: Point, s: Seq<Point>, k: int) -> (int, int) {
    (s[k].x - p.x, s[k].y - p.y)
}

/// The turn from the vertex `i` to the vertex `k`, as seen from `p`.
spec fn turn_between(p: Point, s: Seq<Point>, i: int, k: int) -> int {
    let (ax, ay) = seen_from(p, s, i);
    let (bx, by) = seen_from(p, s, k);
    ax * by - bx * ay
}

/// Where every vertex lies strictly above `p`, or every vertex strictly
/// below, the turns from the first vertex to every later one go the way of
/// the polygon: seen from a point strictly inside, the vertices would go
/// round without ever coming back.
proof fn lemma_turns_from_first(p: Point, s: Seq<Point>, ccw: bool, k: int)
    requires
        s.len() >= 3,
        is_strictly_inside(p, s, ccw),
        1 <= k < s.len(),
        (forall|i: int| 0 <= i < s.len() ==> (#[trigger] s[i]).y > p.y) || (forall|i: int|
            0 <= i < s.len() ==> (#[trigger] s[i]).y < p.y),
    ensures
        turns(ccw, turn_between(p, s, 0, k)),
    decreases k,
{
    let n = s.len() as int;
    if k == 1 {
        lemma_orientation_from(p, s[0], s[1]);
        assert(turns(ccw, spec_orientation(s[0], s[next_index(0, n)], p)));
    } else {
        lemma_turns_from_first(p, s, ccw, k - 1);
        let (ax, ay) = seen_from(p, s, 0);
        let (bx, by) = seen_from(p, s, k - 1);
        let (cx, cy) = seen_from(p, s, k);
        lemma_orientation_from(p, s[k - 1], s[k]);
        assert(turns(ccw, spec_orientation(s[k - 1], s[next_index(k - 1, n)], p)));
        let ab = ax * by - bx * ay;
        let bc = bx * cy - cx * by;
        let ca = cx * ay - ax * cy;
        lemma_turns_balance(ax, ay, bx, by, cx, cy);
        assert(ab * cy + bc * ay + ca * by == 0);
        assert(s[0].y > p.y && s[k - 1].y > p.y && s[k].y > p.y || s[0].y < p.y && s[k - 1].y
            < p.y && s[k].y < p.y);
        // ab and bc go the way of the polygon, and the heights have one sign: so does -ca.
        assert(turns(ccw, -ca)) by (nonlinear_arith)
            requires
                ab * cy + bc * ay + ca * by == 0,
                (ay > 0 && by > 0 && cy > 0) || (ay < 0 && by < 0 && cy < 0),
                (ccw && ab > 0 && bc > 0) || (!ccw && ab < 0 && bc < 0),
                turns(ccw, -ca) == if ccw { -ca > 0 } else { -ca < 0 },
        ;
        assert(turn_between(p, s, 0, k) == -ca) by (nonlinear_arith)
            requires
                turn_between(p, s, 0, k) == ax * cy - cx * ay,
                ca == cx * ay - ax * cy,
        ;
    }
}

/// A point strictly inside a polygon has a vertex strictly above its
/// height and a vertex that is not.
proof fn lemma_polygon_spans_height(p: Point, s: Seq<Point>, ccw: bool)
    requires
        s.len() >= 3,
        is_strictly_inside(p, s, ccw),
    ensures
        exists|i: int| 0 <= i < s.len() && is_above(p, s, i),
        exists|i: int| 0 <= i < s.len() && !is_above(p, s, i),
{
    let n = s.len() as int;
    let last = n - 1;
    if forall|i: int| 0 <= i < s.len() ==> (#[trigger] s[i]).y > p.y {
        lemma_turns_from_first(p, s, ccw, last);
        lemma_orientation_from(p, s[last], s[0]);
        assert(turns(ccw, spec_orientation(s[last], s[next_index(last, n)], p)));
        let (ax, ay) = seen_from(p, s, 0);
        let (bx, by) = seen_from(p, s, last);
        assert(bx * ay - ax * by == -(ax * by - bx * ay)) by (nonlinear_arith);
    } else {
        let i = choose|i: int| 0 <= i < s.len() && !((#[trigger] s[i]).y > p.y);
        assert(!is_above(p, s, i));
    }
    if forall|i: int| 0 <= i < s.len() ==> !is_above(p, s, i) {
        if exists|k: int| 0 <= k < s.len() && (#[trigger] s[k]).y == p.y {
            // A vertex at the height of `p`: the vertex before it or the one after it is above.
            let k = choose|k: int| 0 <= k < s.len() && (#[trigger] s[k]).y == p.y;
            let (t, u) = (prev_index(k, n), next_index(k, n));
            assert(next_index(t, n) == k);
            assert(!is_above(p, s, t) && !is_above(p, s, u));
            lemma_orientation_from(p, s[t], s[k]);
            lemma_orientation_from(p, s[k], s[u]);
            assert(turns(ccw, spec_orientation(s[t], s[next_index(t, n)], p)));
            assert(turns(ccw, spec_orientation(s[k], s[next_index(k, n)], p)));
            let (kx, ty, uy) = (s[k].x - p.x, s[t].y - p.y, s[u].y - p.y);
            let before = (s[t].x - p.x) * (s[k].y - p.y) - kx * ty;
            let after = kx * uy - (s[u].x - p.x) * (s[k].y - p.y);
            assert(before == -(kx * ty) && after == kx * uy) by (nonlinear_arith)
                requires
                    s[k].y - p.y == 0,
                    before == (s[t].x - p.x) * (s[k].y - p.y) - kx * ty,
                    after == kx * uy - (s[u].x - p.x) * (s[k].y - p.y),
            ;
            assert(false) by (nonlinear_arith)
                requires
                    ty <= 0,
                    uy <= 0,
                    (-(kx * ty) > 0 && kx * uy > 0) || (-(kx * ty) < 0 && kx * uy < 0),
            ;
        } else {
            assert forall|i: int| 0 <= i < s.len() implies (#[trigger] s[i]).y < p.y by {
                assert(!is_above(p, s, i));
            }
            lemma_turns_from_first(p, s, ccw, last);
            lemma_orientation_from(p, s[last], s[0]);
            assert(turns(ccw, spec_orientation(s[last], s[next_index(last, n)], p)));
            let (ax, ay) = seen_from(p, s, 0);
            let (bx, by) = seen_from(p, s, last);
            assert(bx * ay - ax * by == -(ax * by - bx * ay)) by (nonlinear_arith);
        }
    }
}

/// Along an outline that starts at a vertex on one side of the height of
/// `p` and reaches a vertex on the other side, an edge passes the height.
proof fn lemma_passing_edge_between(p: Point, s: Seq<Point>, from: int, to: int, up: bool)
    requires
        0 <= from < to < s.len(),
        is_above(p, s, from) != up,
        is_above(p, s, to) == up,
    ensures
        exists|i: int|
            from < i <= to && is_above(p, s, i - 1) != up && #[trigger] is_above(p, s, i) == up,
    decreases to - from,
{
    if is_above(p, s, to - 1) != up {
        assert(is_above(p, s, to) == up);
    } else {
        lemma_passing_edge_between(p, s, from, to - 1, up);
        let i = choose|i: int|
            from < i <= to - 1 && is_above(p, s, i - 1) != up && #[trigger] is_above(p, s, i)
                == up;
        assert(from < i <= to && is_above(p, s, i - 1) != up && is_above(p, s, i) == up);
    }
}

/// Of a polygon with `p` strictly inside an edge passes the height of `p`
/// in the direction that counts.
proof fn lemma_some_passing_edge(p: Point, s: Seq<Point>, ccw: bool)
    requires
        s.len() >= 3,
        is_strictly_inside(p, s, ccw),
    ensures
        exists|i: int| 0 <= i < s.len() && #[trigger] passes_at(p, s, ccw, i),
{
    let n = s.len() as int;
    lemma_polygon_spans_height(p, s, ccw);
    let hi = choose|i: int| 0 <= i < s.len() && is_above(p, s, i);
    let lo = choose|i: int| 0 <= i < s.len() && !is_above(p, s, i);
    // The edge that counts ends above for a counter-clockwise polygon, below for a clockwise one.
    let (from, to) = if ccw { (lo, hi) } else { (hi, lo) };
    if from < to {
        lemma_passing_edge_between(p, s, from, to, ccw);
        let i = choose|i: int|
            from < i <= to && is_above(p, s, i - 1) != ccw && #[trigger] is_above(p, s, i) == ccw;
        assert(prev_index(i, n) == i - 1);
        assert(passes_at(p, s, ccw, i));
    } else {
        // Going on from `from` to the end and round to the start, then on to `to`.
        if is_above(p, s, n - 1) != ccw {
            if is_above(p, s, 0) == ccw {
                assert(prev_index(0, n) == n - 1);
                assert(passes_at(p, s, ccw, 0));
            } else {
                lemma_passing_edge_between(p, s, 0, to, ccw);
                let i = choose|i: int|
                    0 < i <= to && is_above(p, s, i - 1) != ccw && #[trigger] is_above(p, s, i)
                        == ccw;
                assert(prev_index(i, n) == i - 1);
                assert(passes_at(p, s, ccw, i));
            }
        } else {
            lemma_passing_edge_between(p, s, from, n - 1, ccw);
            let i = choose|i: int|
                from < i <= n - 1 && is_above(p, s, i - 1) != ccw && #[trigger] is_above(p, s, i)
                    == ccw;
            assert(prev_index(i, n) == i - 1);
            assert(passes_at(p, s, ccw, i));
        }
    }
}

/// Where the ray crosses the edge that ends at the vertex `only` and no
/// other, the count of crossings up to a vertex is one from that vertex on
/// and zero before.
proof fn lemma_single_crossing(p: Point, s: Seq<Point>, only: int, k: int)
    requires
        0 <= only < s.len(),
        0 <= k <= s.len(),
        forall|i: int| 0 <= i < s.len() ==> #[trigger] crossed_at(p, s, i) == (i == only),
    ensures
        crossing_count(p, s, k) == if only < k { 1nat } else { 0nat },
    decreases k,
{
    if k > 0 {
        lemma_single_crossing(p, s, only, k - 1);
        assert(crossed_at(p, s, k - 1) == (k - 1 == only));
    }
}

/// A point strictly inside a strictly convex polygon is inside it by the
/// even-odd rule, whichever way round the polygon goes: the ray from the
/// point crosses exactly one edge.
pub proof fn lemma_point_in_convex_polygon(p: Point, s: Seq<Point>, ccw: bool)
    requires
        is_strictly_convex(s, ccw),
        is_strictly_inside(p, s, ccw),
    ensures
        crossing_count(p, s, s.len() as int) == 1,
        spec_point_in_polygon(p, s),
{
    lemma_some_passing_edge(p, s, ccw);
    let only = choose|i: int| 0 <= i < s.len() && #[trigger] passes_at(p, s, ccw, i);
    assert forall|i: int| 0 <= i < s.len() implies #[trigger] crossed_at(p, s, i) == (i
        == only) by {
        lemma_crossed_where_passing(p, s, ccw, i);
        if passes_at(p, s, ccw, i) {
            lemma_one_passing_edge(p, s, ccw, i, only);
        }
    }
    lemma_single_crossing(p, s, only, s.len() as int);
}

/// The sum of the `x` coordinates of the first `k` vertices of `s`.
pub open spec fn sum_x(s: Seq<Point>, k: int) -> int
    decreases k,
{
    if k <= 0 {
        0
    } else {
        sum_x(s, k - 1) + s[k - 1].x
    }
}

/// The sum of the `y` coordinates of the first `k` vertices of `s`.
pub open spec fn sum_y(s: Seq<Point>, k: int) -> int
    decreases k,
{
    if k <= 0 {
        0
    } else {
        sum_y(s, k - 1) + s[k - 1].y
    }
}

/// `p` is the centroid of the vertices of `s`: the mean of the vertices,
/// where that is a point with whole coordinates.
pub open spec fn is_centroid(p: Point, s: Seq<Point>) -> bool {
    &&& s.len() * p.x == sum_x(s, s.len() as int)
    &&& s.len() * p.y == sum_y(s, s.len() as int)
}

/// The sum of the orientations of the first `k` vertices of `s` against
/// the edge from `a` to `b`.
spec fn sum_of_orientations(a: Point, b: Point, s: Seq<Point>, k: int) -> int
    decreases k,
{
    if k <= 0 {
        0
    } else {
        sum_of_orientations(a, b, s, k - 1) + spec_orientation(a, b, s[k - 1])
    }
}

/// The orientations of points against an edge add up as their coordinates
/// do: the sum of the orientations of `k` vertices is the orientation of
/// the sum of the vertices, counted against `k` times the start of the edge.
proof fn lemma_orientations_add_up(a: Point, b: Point, s: Seq<Point>, k: int)
    requires
        0 <= k <= s.len(),
    ensures
        sum_of_orientations(a, b, s, k) == (b.x - a.x) * (sum_y(s, k) - k * a.y) - (b.y - a.y) * (
        sum_x(s, k) - k * a.x),
    decreases k,
{
    let (ux, uy) = (b.x - a.x, b.y - a.y);
    let (ax, ay) = (a.x as int, a.y as int);
    if k > 0 {
        lemma_orientations_add_up(a, b, s, k - 1);
        let (sx, sy) = (sum_x(s, k - 1), sum_y(s, k - 1));
        let (zx, zy) = (s[k - 1].x as int, s[k - 1].y as int);
        assert(sum_x(s, k) == sx + zx && sum_y(s, k) == sy + zy);
        assert(spec_orientation(a, b, s[k - 1]) == ux * (zy - ay) - uy * (zx - ax));
        assert(sum_of_orientations(a, b, s, k - 1) == ux * (sy - (k - 1) * ay) - uy * (sx - (k
            - 1) * ax));
        assert(ux * (sy - (k - 1) * ay) + ux * (zy - ay) == ux * (sy + zy - k * ay))
            by (nonlinear_arith);
        assert(uy * (sx - (k - 1) * ax) + uy * (zx - ax) == uy * (sx + zx - k * ax))
            by (nonlinear_arith);
    } else {
        assert(ux * (0 - 0 * ay) == 0 && uy * (0 - 0 * ax) == 0) by (nonlinear_arith);
    }
}

/// Vertex `j` of a polygon of `n` vertices is no end of the edge that starts
/// at vertex `i`.
spec fn is_off_edge(i: int, n: int, j: int) -> bool {
    j != i && j != next_index(i, n)
}

/// The sum of the orientations of the vertices of a strictly convex polygon
/// against one of its edges goes the way of the polygon: no vertex lies on
/// the outer side, and from the first vertex on that is not on the edge the
/// sum is not zero.
proof fn lemma_sum_of_orientations_turns(s: Seq<Point>, ccw: bool, i: int, k: int)
    requires
        is_strictly_convex(s, ccw),
        0 <= i < s.len(),
        0 <= k <= s.len(),
    ensures
        ({
            let n = s.len() as int;
            let sum = sum_of_orientations(s[i], s[next_index(i, n)], s, k);
            if exists|j: int| 0 <= j < k && #[trigger] is_off_edge(i, n, j) {
                turns(ccw, sum)
            } else {
                sum == 0
            }
        }),
    decreases k,
{
    let n = s.len() as int;
    let (a, b) = (s[i], s[next_index(i, n)]);
    if k > 0 {
        lemma_sum_of_orientations_turns(s, ccw, i, k - 1);
        let j = k - 1;
        let term = spec_orientation(a, b, s[j]);
        if j != i && j != next_index(i, n) {
            assert(turns(ccw, spec_orientation(s[i], s[next_index(i, n)], s[j])));
            assert(is_off_edge(i, n, j));
        } else {
            assert(term == 0) by {
                assert(spec_orientation(a, b, a) == 0) by (nonlinear_arith)
                    requires
                        spec_orientation(a, b, a) == (b.x - a.x) * (a.y - a.y) - (b.y - a.y) * (
                        a.x - a.x),
                ;
                assert(spec_orientation(a, b, b) == 0) by (nonlinear_arith)
                    requires
                        spec_orientation(a, b, b) == (b.x - a.x) * (b.y - a.y) - (b.y - a.y) * (
                        b.x - a.x),
                ;
            }
            if exists|m: int| 0 <= m < k && #[trigger] is_off_edge(i, n, m) {
                let m = choose|m: int| 0 <= m < k && #[trigger] is_off_edge(i, n, m);
                assert(0 <= m < k - 1 && is_off_edge(i, n, m));
            }
        }
    }
}

/// The centroid of the vertices of a strictly convex polygon lies strictly
/// inside the polygon.
pub proof fn lemma_centroid_strictly_inside(p: Point, s: Seq<Point>, ccw: bool)
    requires
        is_strictly_convex(s, ccw),
        is_centroid(p, s),
    ensures
        is_strictly_inside(p, s, ccw),
{
    let n = s.len() as int;
    assert forall|i: int| 0 <= i < s.len() implies turns(
        ccw,
        #[trigger] spec_orientation(s[i], s[next_index(i, n)], p),
    ) by {
        let (a, b) = (s[i], s[next_index(i, n)]);
        lemma_orientations_add_up(a, b, s, n);
        lemma_sum_of_orientations_turns(s, ccw, i, n);
        // Of three or more vertices one is not on the edge.
        let other: int = if i != 0 && next_index(i, n) != 0 {
            0
        } else if i != 1 && next_index(i, n) != 1 {
            1
        } else {
            2
        };
        assert(0 <= other < n && is_off_edge(i, n, other));
        let sum = sum_of_orientations(a, b, s, n);
        assert(turns(ccw, sum));
        let o = spec_orientation(a, b, p);
        assert(sum == n * o) by (nonlinear_arith)
            requires
                sum == (b.x - a.x) * (sum_y(s, n) - n * a.y) - (b.y - a.y) * (sum_x(s, n) - n
                    * a.x),
                n * p.x == sum_x(s, n),
                n * p.y == sum_y(s, n),
                o == (b.x - a.x) * (p.y - a.y) - (b.y - a.y) * (p.x - a.x),
        ;
        assert(turns(ccw, o)) by (nonlinear_arith)
            requires
                sum == n * o,
                n >= 3,
                (ccw && sum > 0) || (!ccw && sum < 0),
                turns(ccw, o) == if ccw { o > 0 } else { o < 0 },
        ;
    }
}

/// The centroid of the vertices of a strictly convex polygon is inside the
/// polygon by the even-odd rule.
pub proof fn lemma_centroid_in_convex_polygon(p: Point, s: Seq<Point>, ccw: bool)
    requires
        is_strictly_convex(s, ccw),
        is_centroid(p, s),
    ensures
        spec_point_in_polygon(p, s),
{
    lemma_centroid_strictly_inside(p, s, ccw);
    lemma_point_in_convex_polygon(p, s, ccw);
}

} // verus!
