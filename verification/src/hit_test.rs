//! Hit-testing: which vertex, edge or shape of a document lies under the
//! pointer.
//!
//! The pointer is reported in screen space, polygons are stored in document
//! space. The rectangle that the image covers on the screen maps one to the
//! other. Distances to vertices are compared in screen space, distances to
//! edges and containment in document space.

use crate::annotation::{Annotation, AnnotationView, ShapeRef};
use crate::geometry::{
    dist_sq, next_index, point_in_polygon, point_to_segment_distance, polygon_area, spec_dist_sq,
    spec_dot, spec_point_in_polygon, spec_polygon_area, spec_segment_dist_sq_den,
    spec_segment_dist_sq_num, Point, AREA_EPSILON, UNIT,
};
use crate::meta::{default_vertex_radius, Meta, PIXEL};
use crate::search::{first_index, lemma_first_index_is, lemma_first_index_none};
use crate::shape_id::{roi_id_from_index, MAX_ROI_INDEX};
use vstd::prelude::*;

verus! {

/// Radius, in screen steps, within which the pointer picks a vertex of the
/// selected shape: fourteen pixels.
pub const SELECTED_VERTEX_RADIUS: u32 = 14_000;

/// Distance, in coordinate steps, within which the pointer picks an edge of
/// the selected shape.
pub const EDGE_THRESHOLD: u64 = 15_000;

/// A position on the screen, in screen steps.
#[derive(Clone, Copy, Debug, PartialEq, Eq, Structural)]
pub struct ScreenPos {
    pub x: i32,
    pub y: i32,
}

/// The rectangle that the image covers on the screen, in screen steps.
#[derive(Clone, Copy, Debug, PartialEq, Eq, Structural)]
pub struct ScreenRect {
    pub left: i32,
    pub top: i32,
    pub width: i32,
    pub height: i32,
}

/// `v` limited to `0..=UNIT`.
pub open spec fn clamp_unit(v: int) -> int {
    if v < 0 {
        0
    } else if v > UNIT {
        UNIT as int
    } else {
        v
    }
}

/// Along one axis, `UNIT` times the offset on the screen from the document
/// coordinate `coord` to the pointer at `at`, where the image starts at
/// `origin` and is `extent` long.
pub open spec fn scaled_offset(at: i32, origin: i32, coord: i32, extent: i32) -> int {
    UNIT * (at - origin) - coord * extent
}

impl ScreenRect {
    /// The rectangle has an area, so that every position on the screen
    /// stands for a point of the document.
    pub open spec fn is_drawable(self) -> bool {
        self.width > 0 && self.height > 0
    }

    /// `pos` lies in the rectangle, borders included.
    pub open spec fn spec_contains(self, pos: ScreenPos) -> bool {
        &&& self.left <= pos.x <= self.left + self.width
        &&& self.top <= pos.y <= self.top + self.height
    }

    /// The point of the document shown at `pos`: the position relative to
    /// the rectangle, rounded down to coordinate steps and limited to the
    /// image.
    pub open spec fn spec_to_normalized(self, pos: ScreenPos) -> Point {
        Point {
            x: clamp_unit((pos.x - self.left) * UNIT / (self.width as int)) as i32,
            y: clamp_unit((pos.y - self.top) * UNIT / (self.height as int)) as i32,
        }
    }

    /// `UNIT * UNIT` times the squared distance on the screen between `pos`
    /// and the place where the document point `p` is shown.
    pub open spec fn scaled_dist_sq(self, pos: ScreenPos, p: Point) -> int {
        let sx = scaled_offset(pos.x, self.left, p.x, self.width);
        let sy = scaled_offset(pos.y, self.top, p.y, self.height);
        sx * sx + sy * sy
    }

    /// The document point `p` is shown less than `radius` screen steps from
    /// `pos`.
    pub open spec fn vertex_within(self, pos: ScreenPos, p: Point, radius: u32) -> bool {
        self.scaled_dist_sq(pos, p) < radius * radius * (UNIT * UNIT)
    }

    /// Whether `pos` lies in the rectangle, borders included.
    pub fn contains(&self, pos: ScreenPos) -> (inside: bool)
        ensures
            inside == self.spec_contains(pos),
    {
        let x: i64 = pos.x as i64;
        let y: i64 = pos.y as i64;
        self.left as i64 <= x && x <= self.left as i64 + self.width as i64 && self.top as i64 <= y
            && y <= self.top as i64 + self.height as i64
    }

    /// The point of the document shown at `pos`, limited to the image.
    pub fn screen_to_normalized(&self, pos: ScreenPos) -> (point: Point)
        requires
            self.is_drawable(),
        ensures
            point == self.spec_to_normalized(pos),
            point.is_normalized(),
    {
        Point {
            x: to_normalized(pos.x, self.left, self.width),
            y: to_normalized(pos.y, self.top, self.height),
        }
    }

    /// The pixel of an image of `image_width` by `image_height` pixels
    /// under the pointer at `pos`: `None` where the rectangle has no area or
    /// the pointer is not in it.
    pub fn pixel_at(&self, pos: ScreenPos, image_width: u32, image_height: u32) -> (pixel: Option<
        (u32, u32),
    >)
        ensures
            pixel == if self.is_drawable() && self.spec_contains(pos) {
                Some(
                    (
                        spec_pixel_index(pos.x - self.left, self.width as int, image_width) as u32,
                        spec_pixel_index(pos.y - self.top, self.height as int, image_height) as u32,
                    ),
                )
            } else {
                None
            },
    {
        if self.width > 0 && self.height > 0 && self.contains(pos) {
            Some(
                (
                    pixel_index(pos.x as i64 - self.left as i64, self.width, image_width),
                    pixel_index(pos.y as i64 - self.top as i64, self.height, image_height),
                ),
            )
        } else {
            None
        }
    }

    /// `UNIT * UNIT` times the squared distance on the screen between `pos`
    /// and the place where the document point `p` is shown.
    pub fn scaled_distance_sq(&self, pos: ScreenPos, p: &Point) -> (d: i128)
        ensures
            d == self.scaled_dist_sq(pos, *p),
            0 <= d <= 2 * 21307280460550627882837855163845513216,
    {
        let sx: i128 = offset_scaled(pos.x, self.left, p.x, self.width);
        let sy: i128 = offset_scaled(pos.y, self.top, p.y, self.height);
        proof {
            let b: int = 4615980985722387904;
            crate::hit_test::lemma_square_bound(sx as int, b);
            crate::hit_test::lemma_square_bound(sy as int, b);
            assert(b * b == 21307280460550627882837855163845513216) by (nonlinear_arith)
                requires
                    b == 4615980985722387904,
            ;
        }
        sx * sx + sy * sy
    }

    /// Whether the document point `p` is shown less than `radius` screen
    /// steps from `pos`.
    pub fn is_vertex_within(&self, pos: ScreenPos, p: &Point, radius: u32) -> (within: bool)
        ensures
            within == self.vertex_within(pos, *p, radius),
    {
        self.scaled_distance_sq(pos, p) < scaled_radius_sq(radius)
    }
}

/// `UNIT * UNIT` times the square of `radius`.
fn scaled_radius_sq(radius: u32) -> (r: i128)
    ensures
        r == radius * radius * (UNIT * UNIT),
{
    proof {
        let r: int = radius as int;
        crate::hit_test::lemma_square_bound(r, 0xffff_ffff);
        assert(0xffff_ffffint * 0xffff_ffffint == 0xffff_fffe_0000_0001int) by (nonlinear_arith);
        assert(r * r * (UNIT * UNIT) <= 0xffff_fffe_0000_0001 * 1_000_000_000_000)
            by (nonlinear_arith)
            requires
                0 <= r * r <= 0xffff_fffe_0000_0001,
                UNIT == 1_000_000,
        ;
        assert(r * r * (UNIT * UNIT) >= 0) by (nonlinear_arith)
            requires
                0 <= r * r,
                UNIT == 1_000_000,
        ;
    }
    let r: i128 = radius as i128;
    let unit: i128 = UNIT as i128;
    r * r * (unit * unit)
}

/// The index of the pixel at `offset` screen steps into a rectangle
/// `extent` steps long that shows `count` pixels: the share of the count,
/// rounded down and limited to the pixels there are.
pub open spec fn spec_pixel_index(offset: int, extent: int, count: u32) -> int {
    let index = offset * count / extent;
    if count == 0 || index < 0 {
        0
    } else if index > count - 1 {
        count - 1
    } else {
        index
    }
}

/// Decides [`spec_pixel_index`].
fn pixel_index(offset: i64, extent: i32, count: u32) -> (index: u32)
    requires
        extent > 0,
        0 <= offset <= 0xffff_ffff,
    ensures
        index == spec_pixel_index(offset as int, extent as int, count),
{
    assert(0 <= offset * count <= 0xffff_ffff * 0xffff_ffff) by (nonlinear_arith)
        requires
            0 <= offset <= 0xffff_ffff,
            0 <= count <= 0xffff_ffff,
    ;
    let scaled: u128 = (offset as u128) * (count as u128);
    let index: u128 = scaled / (extent as u128);
    if count == 0 {
        0
    } else if index > (count - 1) as u128 {
        count - 1
    } else {
        index as u32
    }
}

proof fn lemma_square_bound(v: int, b: int)
    requires
        -b <= v <= b,
    ensures
        0 <= v * v <= b * b,
{
    assert(0 <= v * v <= b * b) by (nonlinear_arith)
        requires
            -b <= v <= b,
    ;
}

/// One coordinate of [`ScreenRect::screen_to_normalized`].
fn to_normalized(at: i32, origin: i32, extent: i32) -> (v: i32)
    requires
        extent > 0,
    ensures
        v == clamp_unit((at - origin) * UNIT / (extent as int)),
        0 <= v <= UNIT,
{
    let offset: i64 = at as i64 - origin as i64;
    if offset <= 0 {
        proof {
            let num: int = (at - origin) * UNIT;
            assert(num <= 0) by (nonlinear_arith)
                requires
                    num == (at - origin) * UNIT,
                    at - origin <= 0,
                    UNIT == 1_000_000,
            ;
            assert(num / (extent as int) <= 0) by (nonlinear_arith)
                requires
                    num <= 0,
                    extent > 0,
            ;
        }
        return 0;
    }
    assert(offset * 1_000_000 <= 0xffff_ffff * 1_000_000);
    let scaled: i64 = offset * 1_000_000;
    let quotient: i64 = scaled / (extent as i64);
    assert(quotient >= 0) by (nonlinear_arith)
        requires
            quotient == scaled / (extent as i64),
            scaled >= 0,
            extent > 0,
    ;
    if quotient > UNIT as i64 {
        UNIT
    } else {
        quotient as i32
    }
}

/// Decides [`scaled_offset`].
fn offset_scaled(at: i32, origin: i32, coord: i32, extent: i32) -> (r: i128)
    ensures
        r == scaled_offset(at, origin, coord, extent),
        -4615980985722387904 <= r <= 4615980985722387904,
{
    proof {
        let c: int = coord as int;
        let e: int = extent as int;
        assert(-0x4000_0000_0000_0000 <= c * e <= 0x4000_0000_0000_0000) by (nonlinear_arith)
            requires
                -0x8000_0000 <= c <= 0x8000_0000,
                -0x8000_0000 <= e <= 0x8000_0000,
        ;
    }
    let offset: i128 = at as i128 - origin as i128;
    assert(-0xffff_ffff * 1_000_000 <= 1_000_000 * offset <= 0xffff_ffff * 1_000_000);
    let scaled: i128 = 1_000_000 * offset;
    scaled - (coord as i128) * (extent as i128)
}

/// The position of the first vertex of `polygon` that is shown less than
/// `radius` from `pos`.
pub open spec fn first_vertex_within(
    rect: ScreenRect,
    pos: ScreenPos,
    polygon: Seq<Point>,
    radius: u32,
) -> Option<int> {
    first_index(polygon.len() as int, |i: int| rect.vertex_within(pos, polygon[i], radius))
}

/// The vertex `i` of `polygon` is the nearest to `pos` of the vertices that
/// are shown less than `radius` from `pos`; of vertices equally near it is
/// the first.
pub open spec fn is_nearest_vertex(
    rect: ScreenRect,
    pos: ScreenPos,
    polygon: Seq<Point>,
    radius: u32,
    i: int,
) -> bool {
    &&& 0 <= i < polygon.len()
    &&& rect.vertex_within(pos, polygon[i], radius)
    &&& forall|j: int|
        0 <= j < i ==> rect.scaled_dist_sq(pos, polygon[i]) < #[trigger] rect.scaled_dist_sq(
            pos,
            polygon[j],
        )
    &&& forall|j: int|
        i <= j < polygon.len() ==> rect.scaled_dist_sq(pos, polygon[i])
            <= #[trigger] rect.scaled_dist_sq(pos, polygon[j])
}

/// The position of the vertex of `polygon` that is nearest to `pos`, of
/// those shown less than `radius` from `pos`.
pub open spec fn nearest_vertex_within(
    rect: ScreenRect,
    pos: ScreenPos,
    polygon: Seq<Point>,
    radius: u32,
) -> Option<int> {
    if exists|i: int| 0 <= i < polygon.len() && #[trigger] rect.vertex_within(pos, polygon[i], radius) {
        Some(choose|i: int| is_nearest_vertex(rect, pos, polygon, radius, i))
    } else {
        None
    }
}

/// A nearest vertex is the nearest vertex.
pub proof fn lemma_nearest_vertex(
    rect: ScreenRect,
    pos: ScreenPos,
    polygon: Seq<Point>,
    radius: u32,
    i: int,
)
    requires
        is_nearest_vertex(rect, pos, polygon, radius, i),
    ensures
        nearest_vertex_within(rect, pos, polygon, radius) == Some(i),
{
    assert(rect.vertex_within(pos, polygon[i], radius));
    let c = choose|c: int| is_nearest_vertex(rect, pos, polygon, radius, c);
    assert(is_nearest_vertex(rect, pos, polygon, radius, c));
    if c < i {
        assert(rect.scaled_dist_sq(pos, polygon[i]) < rect.scaled_dist_sq(pos, polygon[c]));
        assert(rect.scaled_dist_sq(pos, polygon[c]) <= rect.scaled_dist_sq(pos, polygon[i]));
    }
    if i < c {
        assert(rect.scaled_dist_sq(pos, polygon[c]) < rect.scaled_dist_sq(pos, polygon[i]));
        assert(rect.scaled_dist_sq(pos, polygon[i]) <= rect.scaled_dist_sq(pos, polygon[c]));
    }
}

/// `p` projects onto the line from `a` to `b` strictly inside the middle
/// band of the segment, between one tenth and nine tenths of its length.
pub open spec fn in_middle_band(p: Point, a: Point, b: Point) -> bool {
    let dot = spec_dot(p, a, b);
    let len_sq = spec_dist_sq(b, a);
    len_sq < 10 * dot && 10 * dot < 9 * len_sq
}

/// `p` is less than `threshold` coordinate steps from the segment `a`-`b`.
pub open spec fn segment_within(p: Point, a: Point, b: Point, threshold: int) -> bool {
    spec_segment_dist_sq_num(p, a, b) < threshold * threshold * spec_segment_dist_sq_den(p, a, b)
}

/// The pointer at the document point `p` picks the edge of `polygon` that
/// starts at vertex `i`: it is near the edge, and nearer to its middle than
/// to its ends, where a vertex would be picked.
pub open spec fn edge_hit(p: Point, polygon: Seq<Point>, i: int) -> bool {
    let a = polygon[i];
    let b = polygon[next_index(i, polygon.len() as int)];
    in_middle_band(p, a, b) && segment_within(p, a, b, EDGE_THRESHOLD as int)
}

/// The first edge of `polygon` that the pointer at `p` picks.
pub open spec fn first_edge_hit(p: Point, polygon: Seq<Point>) -> Option<int> {
    first_index(polygon.len() as int, |i: int| edge_hit(p, polygon, i))
}

/// The radius within which a vertex of any shape is picked: that of the
/// project, or the default where there is no project.
pub open spec fn spec_vertex_radius(meta: Option<&Meta>) -> u32 {
    match meta {
        Some(m) => m.shape.vertex_radius,
        None => (10 * PIXEL) as u32,
    }
}

/// The vertex of the selected shape under the pointer: the vertex of the
/// polygon of `selected` that is nearest to `pos`, of those shown less than
/// `radius` from `pos`.
pub open spec fn spec_find_vertex_at_pos(
    view: AnnotationView,
    pos: ScreenPos,
    selected: Option<i32>,
    rect: ScreenRect,
    radius: u32,
) -> Option<(i32, usize)> {
    match selected {
        None => None,
        Some(id) => match view.polygon(id) {
            None => None,
            Some(polygon) => match nearest_vertex_within(rect, pos, polygon, radius) {
                Some(i) => Some((id, i as usize)),
                None => None,
            },
        },
    }
}

/// The edge of the selected shape under the pointer: the first edge of the
/// polygon of `selected` that the pointer picks.
pub open spec fn spec_find_edge_at_pos(
    view: AnnotationView,
    pos: ScreenPos,
    selected: Option<i32>,
    rect: ScreenRect,
) -> Option<(i32, usize)> {
    match selected {
        None => None,
        Some(id) => match view.polygon(id) {
            None => None,
            Some(polygon) => match first_edge_hit(rect.spec_to_normalized(pos), polygon) {
                Some(i) => Some((id, i as usize)),
                None => None,
            },
        },
    }
}

/// The selected shape, where the pointer is over its area.
pub open spec fn spec_find_selected_at_pos(
    view: AnnotationView,
    pos: ScreenPos,
    selected: Option<i32>,
    rect: ScreenRect,
) -> Option<i32> {
    match selected {
        None => None,
        Some(id) => match view.polygon(id) {
            None => None,
            Some(polygon) => if spec_point_in_polygon(rect.spec_to_normalized(pos), polygon) {
                Some(id)
            } else {
                None
            },
        },
    }
}

/// The place from the top of the first shape that contains `p`.
pub open spec fn first_containing(view: AnnotationView, p: Point) -> Option<int> {
    first_index(
        view.shape_count(),
        |q: int| spec_point_in_polygon(p, view.polygon_at(view.shape_from_top(q))),
    )
}

/// The topmost shape under the pointer.
pub open spec fn spec_find_object_at_pos(
    view: AnnotationView,
    pos: ScreenPos,
    rect: ScreenRect,
) -> Option<i32> {
    match first_containing(view, rect.spec_to_normalized(pos)) {
        Some(q) => Some(view.shape_id(view.shape_from_top(q)) as i32),
        None => None,
    }
}

/// The place from the top of the first shape with a vertex shown less than
/// `radius` from `pos`.
pub open spec fn first_with_vertex(
    view: AnnotationView,
    pos: ScreenPos,
    rect: ScreenRect,
    radius: u32,
) -> Option<int> {
    first_index(
        view.shape_count(),
        |q: int|
            first_vertex_within(rect, pos, view.polygon_at(view.shape_from_top(q)), radius)
                is Some,
    )
}

/// The vertex of any shape under the pointer: the topmost shape that has
/// one, and its first such vertex.
pub open spec fn spec_find_vertex_at_pos_any_object(
    view: AnnotationView,
    pos: ScreenPos,
    rect: ScreenRect,
    radius: u32,
) -> Option<(i32, usize)> {
    match first_with_vertex(view, pos, rect, radius) {
        Some(q) => {
            let shape = view.shape_from_top(q);
            Some(
                (
                    view.shape_id(shape) as i32,
                    first_vertex_within(rect, pos, view.polygon_at(shape), radius).unwrap()
                        as usize,
                ),
            )
        },
        None => None,
    }
}

/// The smallest of the first `q` shapes from the top that contain `p`: each
/// shape that contains `p` takes the place of the best so far where its area
/// is smaller by more than the area tolerance.
pub open spec fn smallest_containing(view: AnnotationView, p: Point, q: int) -> Option<ShapeRef>
    decreases q,
{
    if q <= 0 {
        None
    } else {
        let best = smallest_containing(view, p, q - 1);
        let shape = view.shape_from_top(q - 1);
        if spec_point_in_polygon(p, view.polygon_at(shape)) {
            match best {
                None => Some(shape),
                Some(b) => if spec_polygon_area(view.polygon_at(shape)) + AREA_EPSILON
                    < spec_polygon_area(view.polygon_at(b)) {
                    Some(shape)
                } else {
                    best
                },
            }
        } else {
            best
        }
    }
}

/// The smallest shape under the pointer.
pub open spec fn spec_find_smallest_object_at_pos(
    view: AnnotationView,
    pos: ScreenPos,
    rect: ScreenRect,
) -> Option<i32> {
    match smallest_containing(view, rect.spec_to_normalized(pos), view.shape_count()) {
        Some(shape) => Some(view.shape_id(shape) as i32),
        None => None,
    }
}

/// A floor of a distance is below a whole threshold exactly when the
/// distance is.
proof fn lemma_floor_below(d: int, num: int, den: int, threshold: int)
    requires
        0 <= d,
        0 < den,
        0 <= threshold,
        d * d * den <= num < (d + 1) * (d + 1) * den,
    ensures
        (d < threshold) == (num < threshold * threshold * den),
{
    if d < threshold {
        assert((d + 1) * (d + 1) * den <= threshold * threshold * den) by (nonlinear_arith)
            requires
                0 <= d + 1 <= threshold,
                0 < den,
        ;
    } else {
        assert(threshold * threshold * den <= d * d * den) by (nonlinear_arith)
            requires
                0 <= threshold <= d,
                0 < den,
        ;
    }
}

/// The radius within which a vertex of any shape is picked.
pub fn vertex_radius(meta: Option<&Meta>) -> (radius: u32)
    ensures
        radius == spec_vertex_radius(meta),
{
    match meta {
        Some(m) => m.shape.vertex_radius,
        None => default_vertex_radius(),
    }
}

/// The first vertex of `polygon` that is shown less than `radius` from
/// `pos`.
pub fn find_vertex_in_polygon(
    rect: &ScreenRect,
    pos: ScreenPos,
    polygon: &Vec<Point>,
    radius: u32,
) -> (found: Option<usize>)
    ensures
        match first_vertex_within(*rect, pos, polygon@, radius) {
            Some(i) => found == Some(i as usize) && 0 <= i < polygon@.len(),
            None => found is None,
        },
{
    let ghost pred = |i: int| rect.vertex_within(pos, polygon@[i], radius);
    let mut i: usize = 0;
    while i < polygon.len()
        invariant
            i <= polygon@.len(),
            pred == |i: int| rect.vertex_within(pos, polygon@[i], radius),
            forall|j: int| 0 <= j < i ==> !#[trigger] pred(j),
        decreases polygon@.len() - i,
    {
        if rect.is_vertex_within(pos, &polygon[i], radius) {
            proof {
                assert(pred(i as int));
                lemma_first_index_is(polygon@.len() as int, pred, i as int);
            }
            return Some(i);
        }
        assert(!pred(i as int));
        i = i + 1;
    }
    proof {
        lemma_first_index_none(polygon@.len() as int, pred);
    }
    None
}

/// The vertex of `polygon` that is nearest to `pos`, of those shown less
/// than `radius` from `pos`; of vertices equally near the first.
pub fn find_nearest_vertex_in_polygon(
    rect: &ScreenRect,
    pos: ScreenPos,
    polygon: &Vec<Point>,
    radius: u32,
) -> (found: Option<usize>)
    ensures
        match nearest_vertex_within(*rect, pos, polygon@, radius) {
            Some(i) => found == Some(i as usize) && 0 <= i < polygon@.len(),
            None => found is None,
        },
{
    let limit: i128 = scaled_radius_sq(radius);
    let mut best: Option<(usize, i128)> = None;
    let mut k: usize = 0;
    while k < polygon.len()
        invariant
            k <= polygon@.len(),
            limit == radius * radius * (UNIT * UNIT),
            match best {
                Some((i, d)) => {
                    &&& i < k
                    &&& d == rect.scaled_dist_sq(pos, polygon@[i as int])
                    &&& d < limit
                    &&& forall|j: int|
                        0 <= j < i ==> d < #[trigger] rect.scaled_dist_sq(pos, polygon@[j])
                    &&& forall|j: int|
                        i <= j < k ==> d <= #[trigger] rect.scaled_dist_sq(pos, polygon@[j])
                },
                None => forall|j: int|
                    0 <= j < k ==> !#[trigger] rect.vertex_within(pos, polygon@[j], radius),
            },
        decreases polygon@.len() - k,
    {
        let d: i128 = rect.scaled_distance_sq(pos, &polygon[k]);
        if d < limit {
            match best {
                Some((_, nearest)) => {
                    if d < nearest {
                        best = Some((k, d));
                    }
                },
                None => {
                    proof {
                        assert forall|j: int| 0 <= j < k implies d < #[trigger] rect.scaled_dist_sq(
                            pos,
                            polygon@[j],
                        ) by {
                            assert(!rect.vertex_within(pos, polygon@[j], radius));
                        }
                    }
                    best = Some((k, d));
                },
            }
        } else {
            assert(!rect.vertex_within(pos, polygon@[k as int], radius));
        }
        k = k + 1;
    }
    match best {
        Some((i, _)) => {
            proof {
                assert(rect.vertex_within(pos, polygon@[i as int], radius));
                lemma_nearest_vertex(*rect, pos, polygon@, radius, i as int);
            }
            Some(i)
        },
        None => None,
    }
}

/// Whether `p` projects strictly inside the middle band of `a`-`b`.
fn is_in_middle_band(p: &Point, a: &Point, b: &Point) -> (inside: bool)
    ensures
        inside == in_middle_band(*p, *a, *b),
{
    let len_sq: u128 = dist_sq(*b, *a);
    let px: i128 = (p.x as i128) - (a.x as i128);
    let py: i128 = (p.y as i128) - (a.y as i128);
    let dx: i128 = (b.x as i128) - (a.x as i128);
    let dy: i128 = (b.y as i128) - (a.y as i128);
    proof {
        lemma_square_bound(0, 0);
        assert(-0xffff_fffe_0000_0001 <= px * dx <= 0xffff_fffe_0000_0001) by (nonlinear_arith)
            requires
                -0xffff_ffff <= px <= 0xffff_ffff,
                -0xffff_ffff <= dx <= 0xffff_ffff,
        ;
        assert(-0xffff_fffe_0000_0001 <= py * dy <= 0xffff_fffe_0000_0001) by (nonlinear_arith)
            requires
                -0xffff_ffff <= py <= 0xffff_ffff,
                -0xffff_ffff <= dy <= 0xffff_ffff,
        ;
    }
    let dot: i128 = px * dx + py * dy;
    let len: i128 = len_sq as i128;
    len < 10 * dot && 10 * dot < 9 * len
}

/// The first edge of `polygon` that the pointer at the document point `p`
/// picks.
pub fn find_edge_in_polygon(p: &Point, polygon: &Vec<Point>) -> (found: Option<usize>)
    requires
        p.in_range(),
        crate::annotation::points_in_range(polygon@),
    ensures
        match first_edge_hit(*p, polygon@) {
            Some(i) => found == Some(i as usize) && 0 <= i < polygon@.len(),
            None => found is None,
        },
        found matches Some(i) ==> i < usize::MAX,
{
    let ghost pred = |i: int| edge_hit(*p, polygon@, i);
    let n: usize = polygon.len();
    let mut i: usize = 0;
    while i < n
        invariant
            n == polygon@.len(),
            i <= n,
            p.in_range(),
            crate::annotation::points_in_range(polygon@),
            pred == |i: int| edge_hit(*p, polygon@, i),
            forall|j: int| 0 <= j < i ==> !#[trigger] pred(j),
        decreases n - i,
    {
        let a: &Point = &polygon[i];
        let b: &Point = &polygon[if i + 1 == n { 0 } else { i + 1 }];
        if is_in_middle_band(p, a, b) {
            let distance: u64 = point_to_segment_distance(p, a, b);
            proof {
                let den = spec_segment_dist_sq_den(*p, *a, *b);
                assert(den > 0) by {
                    assert(spec_dist_sq(*b, *a) >= 0) by (nonlinear_arith);
                }
                lemma_floor_below(
                    distance as int,
                    spec_segment_dist_sq_num(*p, *a, *b),
                    den,
                    EDGE_THRESHOLD as int,
                );
            }
            if distance < EDGE_THRESHOLD {
                proof {
                    assert(pred(i as int));
                    lemma_first_index_is(n as int, pred, i as int);
                }
                return Some(i);
            }
        }
        assert(!pred(i as int));
        i = i + 1;
    }
    proof {
        lemma_first_index_none(n as int, pred);
    }
    None
}

/// Finds the vertex of the selected shape under the pointer: the vertex of
/// its polygon nearest to `pos`, of those shown less than
/// [`SELECTED_VERTEX_RADIUS`] from `pos`. Without a selection, or where the
/// selection addresses no shape, there is none.
pub fn find_vertex_at_pos(
    pos: ScreenPos,
    annotation: &Annotation,
    selected_object_id: Option<i32>,
    image_rect: ScreenRect,
) -> (found: Option<(i32, usize)>)
    ensures
        found == spec_find_vertex_at_pos(
            annotation@,
            pos,
            selected_object_id,
            image_rect,
            SELECTED_VERTEX_RADIUS,
        ),
{
    match selected_object_id {
        None => None,
        Some(id) => match annotation.polygon(id) {
            None => None,
            Some(polygon) => match find_nearest_vertex_in_polygon(
                &image_rect,
                pos,
                polygon,
                SELECTED_VERTEX_RADIUS,
            ) {
                Some(i) => Some((id, i)),
                None => None,
            },
        },
    }
}

/// Finds the edge of the selected shape under the pointer, named by the
/// position of the vertex at which it starts.
pub fn find_edge_at_pos(
    pos: ScreenPos,
    annotation: &Annotation,
    selected_object_id: Option<i32>,
    image_rect: ScreenRect,
) -> (found: Option<(i32, usize)>)
    requires
        image_rect.is_drawable(),
        annotation@.within_limits(),
    ensures
        found == spec_find_edge_at_pos(annotation@, pos, selected_object_id, image_rect),
        found matches Some(hit) ==> hit.1 < usize::MAX,
{
    let normalized_pos: Point = image_rect.screen_to_normalized(pos);
    match selected_object_id {
        None => None,
        Some(id) => match annotation.resolve_shape(id) {
            None => None,
            Some(shape) => {
                let polygon: &Vec<Point> = annotation.polygon_at(shape);
                match find_edge_in_polygon(&normalized_pos, polygon) {
                    Some(i) => Some((id, i)),
                    None => None,
                }
            },
        },
    }
}

/// Finds the selected shape under the pointer: the id of the selected
/// shape, where the pointer is over its area, whatever lies above it.
pub fn find_selected_at_pos(
    pos: ScreenPos,
    annotation: &Annotation,
    selected_object_id: Option<i32>,
    image_rect: ScreenRect,
) -> (found: Option<i32>)
    requires
        image_rect.is_drawable(),
    ensures
        found == spec_find_selected_at_pos(annotation@, pos, selected_object_id, image_rect),
{
    let normalized_pos: Point = image_rect.screen_to_normalized(pos);
    match selected_object_id {
        None => None,
        Some(id) => match annotation.polygon(id) {
            None => None,
            Some(polygon) => if point_in_polygon(&normalized_pos, polygon.as_slice()) {
                Some(id)
            } else {
                None
            },
        },
    }
}

/// Finds the topmost shape under the pointer: the objects are tried from
/// the last to the first, then the regions of interest from the last to the
/// first, and the first shape that contains the pointer wins.
pub fn find_object_at_pos(
    pos: ScreenPos,
    annotation: &Annotation,
    image_rect: ScreenRect,
) -> (found: Option<i32>)
    requires
        image_rect.is_drawable(),
        annotation@.rois.len() <= MAX_ROI_INDEX + 1,
    ensures
        found == spec_find_object_at_pos(annotation@, pos, image_rect),
{
    let normalized_pos: Point = image_rect.screen_to_normalized(pos);
    let ghost view = annotation@;
    let ghost pred = |q: int|
        spec_point_in_polygon(normalized_pos, view.polygon_at(view.shape_from_top(q)));
    let object_count: usize = annotation.objects.len();
    let mut k: usize = object_count;
    while k > 0
        invariant
            k <= object_count,
            object_count == annotation.objects@.len(),
            view == annotation@,
            normalized_pos == image_rect.spec_to_normalized(pos),
            pred == |q: int|
                spec_point_in_polygon(normalized_pos, view.polygon_at(view.shape_from_top(q))),
            forall|q: int| 0 <= q < object_count - k ==> !#[trigger] pred(q),
        decreases k,
    {
        k = k - 1;
        let ghost q: int = object_count - 1 - k;
        assert(view.shape_from_top(q) == ShapeRef::Object(k));
        if point_in_polygon(&normalized_pos, annotation.objects[k].polygon.as_slice()) {
            proof {
                assert(pred(q));
                lemma_first_index_is(view.shape_count(), pred, q);
                assert(first_containing(view, normalized_pos) == Some(q));
                assert(view.shape_id(ShapeRef::Object(k)) == annotation.objects@[k as int].id);
            }
            return Some(annotation.objects[k].id);
        }
        assert(!pred(q));
    }
    let roi_count: usize = annotation.rois.len();
    let mut k: usize = roi_count;
    while k > 0
        invariant
            k <= roi_count,
            roi_count == annotation.rois@.len(),
            roi_count <= MAX_ROI_INDEX + 1,
            object_count == annotation.objects@.len(),
            view == annotation@,
            normalized_pos == image_rect.spec_to_normalized(pos),
            pred == |q: int|
                spec_point_in_polygon(normalized_pos, view.polygon_at(view.shape_from_top(q))),
            forall|q: int| 0 <= q < object_count + (roi_count - k) ==> !#[trigger] pred(q),
        decreases k,
    {
        k = k - 1;
        let ghost q: int = object_count + (roi_count - 1 - k);
        assert(view.shape_from_top(q) == ShapeRef::Roi(k));
        if point_in_polygon(&normalized_pos, annotation.rois[k].as_slice()) {
            proof {
                assert(pred(q));
                lemma_first_index_is(view.shape_count(), pred, q);
                assert(first_containing(view, normalized_pos) == Some(q));
            }
            return Some(roi_id_from_index(k));
        }
        assert(!pred(q));
    }
    proof {
        lemma_first_index_none(view.shape_count(), pred);
        assert(first_containing(view, normalized_pos) is None);
    }
    None
}

/// Finds the vertex of any shape under the pointer, within the radius that
/// the project sets: the shapes are tried from the top, and the first
/// vertex found wins.
pub fn find_vertex_at_pos_any_object(
    pos: ScreenPos,
    annotation: &Annotation,
    image_rect: ScreenRect,
    meta: Option<&Meta>,
) -> (found: Option<(i32, usize)>)
    requires
        annotation@.rois.len() <= MAX_ROI_INDEX + 1,
    ensures
        found == spec_find_vertex_at_pos_any_object(
            annotation@,
            pos,
            image_rect,
            spec_vertex_radius(meta),
        ),
{
    let threshold: u32 = vertex_radius(meta);
    let ghost view = annotation@;
    let ghost pred = |q: int|
        first_vertex_within(image_rect, pos, view.polygon_at(view.shape_from_top(q)), threshold)
            is Some;
    let object_count: usize = annotation.objects.len();
    let mut k: usize = object_count;
    while k > 0
        invariant
            k <= object_count,
            object_count == annotation.objects@.len(),
            view == annotation@,
            threshold == spec_vertex_radius(meta),
            pred == |q: int|
                first_vertex_within(
                    image_rect,
                    pos,
                    view.polygon_at(view.shape_from_top(q)),
                    threshold,
                ) is Some,
            forall|q: int| 0 <= q < object_count - k ==> !#[trigger] pred(q),
        decreases k,
    {
        k = k - 1;
        let ghost q: int = object_count - 1 - k;
        assert(view.shape_from_top(q) == ShapeRef::Object(k));
        match find_vertex_in_polygon(&image_rect, pos, &annotation.objects[k].polygon, threshold) {
            Some(i) => {
                proof {
                    assert(pred(q));
                    lemma_first_index_is(view.shape_count(), pred, q);
                    assert(first_with_vertex(view, pos, image_rect, threshold) == Some(q));
                    assert(view.shape_id(ShapeRef::Object(k)) == annotation.objects@[k as int].id);
                }
                return Some((annotation.objects[k].id, i));
            },
            None => {
                assert(!pred(q));
            },
        }
    }
    let roi_count: usize = annotation.rois.len();
    let mut k: usize = roi_count;
    while k > 0
        invariant
            k <= roi_count,
            roi_count == annotation.rois@.len(),
            roi_count <= MAX_ROI_INDEX + 1,
            object_count == annotation.objects@.len(),
            view == annotation@,
            threshold == spec_vertex_radius(meta),
            pred == |q: int|
                first_vertex_within(
                    image_rect,
                    pos,
                    view.polygon_at(view.shape_from_top(q)),
                    threshold,
                ) is Some,
            forall|q: int| 0 <= q < object_count + (roi_count - k) ==> !#[trigger] pred(q),
        decreases k,
    {
        k = k - 1;
        let ghost q: int = object_count + (roi_count - 1 - k);
        assert(view.shape_from_top(q) == ShapeRef::Roi(k));
        match find_vertex_in_polygon(&image_rect, pos, &annotation.rois[k], threshold) {
            Some(i) => {
                proof {
                    assert(pred(q));
                    lemma_first_index_is(view.shape_count(), pred, q);
                    assert(first_with_vertex(view, pos, image_rect, threshold) == Some(q));
                }
                return Some((roi_id_from_index(k), i));
            },
            None => {
                assert(!pred(q));
            },
        }
    }
    proof {
        lemma_first_index_none(view.shape_count(), pred);
        assert(first_with_vertex(view, pos, image_rect, threshold) is None);
    }
    None
}

/// The better of the best shape so far and a shape that contains the
/// pointer: the new one where there was none, or where it is smaller by
/// more than the area tolerance.
fn smaller_of(best: Option<(i32, u128)>, id: i32, area: u128) -> (next: Option<(i32, u128)>)
    requires
        area <= 0x4000_0000_0000_0000_0000_0000_0000_0000,
    ensures
        next == match best {
            None => Some((id, area)),
            Some((_, best_area)) => if area + AREA_EPSILON < best_area {
                Some((id, area))
            } else {
                best
            },
        },
{
    match best {
        None => Some((id, area)),
        Some((_, best_area)) => {
            if area + 1_000_000 < best_area {
                Some((id, area))
            } else {
                best
            }
        },
    }
}

/// The shoelace sum of `n` points is at most `n` times the largest term.
proof fn lemma_area_bound(s: Seq<Point>)
    requires
        s.len() <= usize::MAX,
    ensures
        0 <= spec_polygon_area(s) <= 0x4000_0000_0000_0000_0000_0000_0000_0000,
{
    let n = s.len() as int;
    lemma_shoelace_bound(s, n);
    assert(n * 0x8000_0000_0000_0000 <= 0x8000_0000_0000_0000_0000_0000_0000_0000);
}

proof fn lemma_shoelace_bound(s: Seq<Point>, k: int)
    requires
        0 <= k <= s.len(),
    ensures
        -(k * 0x8000_0000_0000_0000) <= crate::geometry::shoelace_sum(s, k) <= k
            * 0x8000_0000_0000_0000,
    decreases k,
{
    if k > 0 {
        lemma_shoelace_bound(s, k - 1);
        let a = s[k - 1];
        let b = s[next_index(k - 1, s.len() as int)];
        assert(-0x4000_0000_0000_0000 <= a.x * b.y <= 0x4000_0000_0000_0000) by (nonlinear_arith)
            requires
                -0x8000_0000 <= a.x <= 0x8000_0000,
                -0x8000_0000 <= b.y <= 0x8000_0000,
        ;
        assert(-0x4000_0000_0000_0000 <= b.x * a.y <= 0x4000_0000_0000_0000) by (nonlinear_arith)
            requires
                -0x8000_0000 <= b.x <= 0x8000_0000,
                -0x8000_0000 <= a.y <= 0x8000_0000,
        ;
    }
}

/// Finds the smallest shape under the pointer: of the shapes that contain
/// it, tried from the top, one wins over the best so far only where its
/// area is smaller by more than the area tolerance. A small shape inside a
/// large one is thus picked before the large one.
pub fn find_smallest_object_at_pos(
    pos: ScreenPos,
    annotation: &Annotation,
    image_rect: ScreenRect,
) -> (found: Option<i32>)
    requires
        image_rect.is_drawable(),
        annotation@.rois.len() <= MAX_ROI_INDEX + 1,
    ensures
        found == spec_find_smallest_object_at_pos(annotation@, pos, image_rect),
{
    let normalized_pos: Point = image_rect.screen_to_normalized(pos);
    let ghost view = annotation@;
    let mut best: Option<(i32, u128)> = None;
    let ghost mut best_shape: Option<ShapeRef> = None;
    let object_count: usize = annotation.objects.len();
    let mut k: usize = object_count;
    while k > 0
        invariant
            k <= object_count,
            object_count == annotation.objects@.len(),
            view == annotation@,
            best_shape == smallest_containing(view, normalized_pos, object_count - k),
            best.is_some() == best_shape.is_some(),
            best_shape matches Some(shape) ==> {
                &&& best matches Some((id, area))
                &&& id == view.shape_id(shape)
                &&& area == spec_polygon_area(view.polygon_at(shape))
            },
        decreases k,
    {
        k = k - 1;
        let ghost q: int = object_count - 1 - k;
        assert(view.shape_from_top(q) == ShapeRef::Object(k));
        if point_in_polygon(&normalized_pos, annotation.objects[k].polygon.as_slice()) {
            proof {
                assert(annotation.objects@[k as int].polygon.len() <= usize::MAX);
                lemma_area_bound(annotation.objects@[k as int].polygon@);
                assert(view.shape_id(ShapeRef::Object(k)) == annotation.objects@[k as int].id);
            }
            let area: u128 = polygon_area(annotation.objects[k].polygon.as_slice());
            let next = smaller_of(best, annotation.objects[k].id, area);
            proof {
                best_shape = smallest_containing(view, normalized_pos, q + 1);
            }
            best = next;
        }
    }
    let roi_count: usize = annotation.rois.len();
    let mut k: usize = roi_count;
    while k > 0
        invariant
            k <= roi_count,
            roi_count == annotation.rois@.len(),
            roi_count <= MAX_ROI_INDEX + 1,
            object_count == annotation.objects@.len(),
            view == annotation@,
            best_shape == smallest_containing(
                view,
                normalized_pos,
                object_count + (roi_count - k),
            ),
            best.is_some() == best_shape.is_some(),
            best_shape matches Some(shape) ==> {
                &&& best matches Some((id, area))
                &&& id == view.shape_id(shape)
                &&& area == spec_polygon_area(view.polygon_at(shape))
            },
        decreases k,
    {
        k = k - 1;
        let ghost q: int = object_count + (roi_count - 1 - k);
        assert(view.shape_from_top(q) == ShapeRef::Roi(k));
        if point_in_polygon(&normalized_pos, annotation.rois[k].as_slice()) {
            proof {
                assert(annotation.rois@[k as int].len() <= usize::MAX);
                lemma_area_bound(annotation.rois@[k as int]@);
            }
            let area: u128 = polygon_area(annotation.rois[k].as_slice());
            let next = smaller_of(best, roi_id_from_index(k), area);
            proof {
                best_shape = smallest_containing(view, normalized_pos, q + 1);
            }
            best = next;
        }
    }
    match best {
        Some((id, _)) => Some(id),
        None => None,
    }
}

/// The shape at place `q` from the top contains `p`.
pub open spec fn contains_at(view: AnnotationView, p: Point, q: int) -> bool {
    spec_point_in_polygon(p, view.polygon_at(view.shape_from_top(q)))
}

/// The area of the shape at place `q` from the top.
pub open spec fn area_at(view: AnnotationView, q: int) -> int {
    spec_polygon_area(view.polygon_at(view.shape_from_top(q)))
}

/// The smallest shape under the pointer is a shape that contains the
/// pointer, and no shape that contains the pointer is smaller than it by
/// more than the area tolerance. There is none only where no shape contains
/// the pointer.
pub proof fn lemma_smallest_containing(view: AnnotationView, p: Point, q: int)
    requires
        0 <= q <= view.shape_count(),
    ensures
        match smallest_containing(view, p, q) {
            Some(best) => {
                &&& exists|j: int|
                    0 <= j < q && best == view.shape_from_top(j) && #[trigger] contains_at(
                        view,
                        p,
                        j,
                    )
                &&& forall|i: int|
                    0 <= i < q && #[trigger] contains_at(view, p, i) ==> spec_polygon_area(
                        view.polygon_at(best),
                    ) <= area_at(view, i) + AREA_EPSILON
            },
            None => forall|i: int| 0 <= i < q ==> !#[trigger] contains_at(view, p, i),
        },
    decreases q,
{
    if q > 0 {
        lemma_smallest_containing(view, p, q - 1);
        let before = smallest_containing(view, p, q - 1);
        let now = smallest_containing(view, p, q);
        if contains_at(view, p, q - 1) {
            match before {
                Some(b) => {
                    let j = choose|j: int|
                        0 <= j < q - 1 && b == view.shape_from_top(j) && #[trigger] contains_at(
                            view,
                            p,
                            j,
                        );
                    if area_at(view, q - 1) + AREA_EPSILON < spec_polygon_area(view.polygon_at(b)) {
                        assert(now == Some(view.shape_from_top(q - 1)));
                    } else {
                        assert(now == before);
                        assert(0 <= j < q && contains_at(view, p, j));
                    }
                },
                None => {
                    assert(now == Some(view.shape_from_top(q - 1)));
                },
            }
        } else {
            assert(now == before);
            if let Some(b) = before {
                let j = choose|j: int|
                    0 <= j < q - 1 && b == view.shape_from_top(j) && #[trigger] contains_at(
                        view,
                        p,
                        j,
                    );
                assert(0 <= j < q && contains_at(view, p, j));
            }
        }
    }
}

/// A small shape wins over a large one: where two shapes contain the
/// pointer and the area of one is smaller than that of the other by more
/// than the area tolerance, the larger one is not the smallest shape under
/// the pointer.
pub proof fn lemma_small_shape_wins(view: AnnotationView, p: Point, small: int, large: int)
    requires
        0 <= small < view.shape_count(),
        0 <= large < view.shape_count(),
        contains_at(view, p, small),
        contains_at(view, p, large),
        area_at(view, small) + AREA_EPSILON < area_at(view, large),
    ensures
        smallest_containing(view, p, view.shape_count()) matches Some(best) && spec_polygon_area(
            view.polygon_at(best),
        ) <= area_at(view, small) + AREA_EPSILON && best != view.shape_from_top(large),
{
    lemma_smallest_containing(view, p, view.shape_count());
}

} // verus!
