//! Import of shapes from the formats of other tools: bounding boxes and
//! outlines in pixels become polygons of the document.

use crate::annotation::{Annotation, Object, ObjectView};
use crate::edit::rectangle_outline;
use crate::geometry::{Point, UNIT};
use crate::hit_test::clamp_unit;
use crate::meta::Meta;
use crate::search::{first_index, lemma_first_index_is, lemma_first_index_none};
use crate::text::str_eq;
use vstd::prelude::*;

verus! {

/// The rectangle between two corners, each limited to the image, as an
/// outline; no outline where the rectangle has no area.
pub open spec fn spec_rect_polygon(x0: int, y0: int, x1: int, y1: int) -> Seq<Point> {
    let ax = clamp_unit(x0);
    let ay = clamp_unit(y0);
    let bx = clamp_unit(x1);
    let by = clamp_unit(y1);
    let min = Point {
        x: (if bx < ax { bx } else { ax }) as i32,
        y: (if by < ay { by } else { ay }) as i32,
    };
    let max = Point {
        x: (if bx < ax { ax } else { bx }) as i32,
        y: (if by < ay { ay } else { by }) as i32,
    };
    if max.x <= min.x || max.y <= min.y {
        Seq::empty()
    } else {
        rectangle_outline(min, max)
    }
}

/// The coordinate of a length of `length` millionths of a pixel on an
/// image `extent` pixels long, rounded towards zero and limited to the
/// image.
pub open spec fn coordinate_of_length(length: int, extent: int) -> int {
    clamp_unit(crate::app_state::div_towards_zero(length, extent))
}

/// The id of the first category of the project with the name `name`.
pub open spec fn category_named(meta: Meta, name: Seq<char>) -> Option<i32> {
    match first_index(meta.categories@.len() as int, |k: int| meta.categories@[k].name@ == name) {
        Some(k) => Some(meta.categories@[k].id),
        None => None,
    }
}

/// The objects with their positions as ids.
pub open spec fn renumbered(objects: Seq<ObjectView>) -> Seq<ObjectView> {
    Seq::new(objects.len(), |k: int| ObjectView { id: k as i32, ..objects[k] })
}

/// One coordinate limited to the image.
fn clamp_coord(v: i64) -> (clamped: i32)
    ensures
        clamped == clamp_unit(v as int),
{
    if v < 0 {
        0
    } else if v > UNIT as i64 {
        UNIT
    } else {
        v as i32
    }
}

/// The rectangle between the corners `(xmin, ymin)` and `(xmax, ymax)`,
/// each limited to the image, as an outline of four points; no point where
/// the rectangle has no area.
pub fn rect_polygon(xmin: i64, ymin: i64, xmax: i64, ymax: i64) -> (polygon: Vec<Point>)
    ensures
        polygon@ == spec_rect_polygon(xmin as int, ymin as int, xmax as int, ymax as int),
{
    let mut x0: i32 = clamp_coord(xmin);
    let mut y0: i32 = clamp_coord(ymin);
    let mut x1: i32 = clamp_coord(xmax);
    let mut y1: i32 = clamp_coord(ymax);
    if x1 < x0 {
        let swap: i32 = x0;
        x0 = x1;
        x1 = swap;
    }
    if y1 < y0 {
        let swap: i32 = y0;
        y0 = y1;
        y1 = swap;
    }
    let mut polygon: Vec<Point> = Vec::new();
    if x1 <= x0 || y1 <= y0 {
        return polygon;
    }
    polygon.push(Point { x: x0, y: y0 });
    polygon.push(Point { x: x1, y: y0 });
    polygon.push(Point { x: x1, y: y1 });
    polygon.push(Point { x: x0, y: y1 });
    assert(polygon@ =~= spec_rect_polygon(xmin as int, ymin as int, xmax as int, ymax as int));
    polygon
}

/// The coordinate of a length of `length` millionths of a pixel on an
/// image `extent` pixels long.
pub fn coordinate_from_pixels(length: i64, extent: u32) -> (coordinate: i32)
    requires
        extent > 0,
    ensures
        coordinate == coordinate_of_length(length as int, extent as int),
{
    let quotient: i128 = if length >= 0 {
        (length as i128) / (extent as i128)
    } else {
        -((-(length as i128)) / (extent as i128))
    };
    if quotient < 0 {
        0
    } else if quotient > UNIT as i128 {
        UNIT
    } else {
        quotient as i32
    }
}

/// The polygon of a bounding box `(left, top, width, height)` in
/// millionths of a pixel on an image of `width` by `height` pixels; no
/// point for an image or a box without area.
pub fn bbox_to_polygon(bbox: (i64, i64, i64, i64), width: u32, height: u32) -> (polygon: Vec<
    Point,
>)
    ensures
        polygon@ == if width == 0 || height == 0 {
            Seq::empty()
        } else {
            let x = crate::app_state::div_towards_zero(bbox.0 as int, width as int);
            let y = crate::app_state::div_towards_zero(bbox.1 as int, height as int);
            let w = crate::app_state::div_towards_zero(bbox.2 as int, width as int);
            let h = crate::app_state::div_towards_zero(bbox.3 as int, height as int);
            spec_rect_polygon(x, y, x + w, y + h)
        },
{
    if width == 0 || height == 0 {
        return Vec::new();
    }
    let x: i128 = divide(bbox.0, width);
    let y: i128 = divide(bbox.1, height);
    let w: i128 = divide(bbox.2, width);
    let h: i128 = divide(bbox.3, height);
    rect_polygon(narrow(x), narrow(y), narrow(x + w), narrow(y + h))
}

/// `v` divided by `d`, rounded towards zero.
fn divide(v: i64, d: u32) -> (q: i128)
    requires
        d > 0,
    ensures
        q == crate::app_state::div_towards_zero(v as int, d as int),
        -0x8000_0000_0000_0000 <= q <= 0x8000_0000_0000_0000,
{
    if v >= 0 {
        (v as i128) / (d as i128)
    } else {
        let q: i128 = (-(v as i128)) / (d as i128);
        -q
    }
}

/// `v` limited to a range in which limiting to the image changes nothing
/// more.
fn narrow(v: i128) -> (n: i64)
    ensures
        clamp_unit(n as int) == clamp_unit(v as int),
{
    if v < -1 {
        -1
    } else if v > UNIT as i128 + 1 {
        UNIT as i64 + 1
    } else {
        v as i64
    }
}

/// The id of the first category of the project with the name `name`.
pub fn find_category_id_by_name(meta: &Meta, name: &str) -> (id: Option<i32>)
    ensures
        id == category_named(*meta, name@),
{
    let ghost pred = |k: int| meta.categories@[k].name@ == name@;
    let mut k: usize = 0;
    while k < meta.categories.len()
        invariant
            k <= meta.categories@.len(),
            pred == |k: int| meta.categories@[k].name@ == name@,
            forall|j: int| 0 <= j < k ==> !#[trigger] pred(j),
        decreases meta.categories@.len() - k,
    {
        if str_eq(meta.categories[k].name.as_str(), name) {
            proof {
                assert(pred(k as int));
                lemma_first_index_is(meta.categories@.len() as int, pred, k as int);
            }
            return Some(meta.categories[k].id);
        }
        assert(!pred(k as int));
        k = k + 1;
    }
    proof {
        lemma_first_index_none(meta.categories@.len() as int, pred);
    }
    None
}

/// The document of imported objects, made by `user_agent`: the objects get
/// their positions as ids. Without objects there is no document, and none
/// with more objects than there are ids.
pub fn build_annotation(objects: Vec<Object>, user_agent: &str) -> (annotation: Option<Annotation>)
    ensures
        match annotation {
            Some(a) => {
                &&& 0 < objects@.len() <= i32::MAX
                &&& a@.objects == renumbered(objects@.map_values(|o: Object| o@))
                &&& a@.rois.len() == 0
                &&& a@.version == "2.0"@
                &&& a@.user_agent == user_agent@
            },
            None => objects@.len() == 0 || objects@.len() > i32::MAX,
        },
{
    if objects.len() == 0 || objects.len() > 0x7fff_ffff {
        return None;
    }
    let mut annotation: Annotation = Annotation::new(user_agent);
    let ghost views = objects@.map_values(|o: Object| o@);
    let mut k: usize = 0;
    while k < objects.len()
        invariant
            k <= objects@.len(),
            objects@.len() <= i32::MAX,
            views == objects@.map_values(|o: Object| o@),
            annotation@.objects == renumbered(views).take(k as int),
            annotation@.rois.len() == 0,
            annotation@.version == "2.0"@,
            annotation@.user_agent == user_agent@,
        decreases objects@.len() - k,
    {
        let mut object: Object = objects[k].duplicate();
        object.id = k as i32;
        let ghost made = object@;
        annotation.add_object(object);
        proof {
            let all = renumbered(views);
            assert(made == all[k as int]);
            assert(all.take(k + 1) =~= all.take(k as int).push(made));
        }
        k = k + 1;
    }
    assert(renumbered(views).take(k as int) =~= renumbered(views));
    Some(annotation)
}

} // verus!
