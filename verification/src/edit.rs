//! Edits of one polygon: what the interaction asks for, applied to the
//! vertices. Every edit leaves the polygon unchanged where it cannot be
//! made.

use crate::annotation::points_in_range;
use crate::geometry::{bounding_box, is_bounding_box, spec_bounding_box, Point, UNIT};
use crate::repair::{
    fix_self_intersections, has_crossing, is_first_crossing, lemma_first_crossing_exists, repair,
    repair_cap, repair_step, reverse_range,
};
use crate::hit_test::clamp_unit;
use vstd::prelude::*;

verus! {

/// The fewest vertices that a shape keeps.
pub const MIN_VERTICES: usize = 3;

/// `polygon` with `pos` as a new vertex after the vertex `edge`, where that
/// vertex exists.
pub open spec fn spec_insert_vertex(polygon: Seq<Point>, edge: int, pos: Point) -> Seq<Point> {
    if 0 <= edge < polygon.len() {
        polygon.insert(edge + 1, pos)
    } else {
        polygon
    }
}

/// `polygon` with the vertex `index` at `pos`, where that vertex exists.
pub open spec fn spec_move_vertex(polygon: Seq<Point>, index: int, pos: Point) -> Seq<Point> {
    if 0 <= index < polygon.len() {
        polygon.update(index, pos)
    } else {
        polygon
    }
}

/// `p` moved by `(dx, dy)` and limited to the image.
pub open spec fn shifted(p: Point, dx: int, dy: int) -> Point {
    Point { x: clamp_unit(p.x + dx) as i32, y: clamp_unit(p.y + dy) as i32 }
}

/// `polygon` with every vertex moved by `(dx, dy)` and limited to the
/// image.
pub open spec fn spec_translate(polygon: Seq<Point>, dx: int, dy: int) -> Seq<Point> {
    polygon.map_values(|p: Point| shifted(p, dx, dy))
}

/// `polygon` with the vertex `index` moved by `(dx, dy)` and limited to the
/// image, where that vertex exists.
pub open spec fn spec_nudge_vertex(polygon: Seq<Point>, index: int, dx: int, dy: int) -> Seq<
    Point,
> {
    if 0 <= index < polygon.len() {
        polygon.update(index, shifted(polygon[index], dx, dy))
    } else {
        polygon
    }
}

/// The vertex `index` of `polygon` can be deleted: it exists, and the
/// polygon keeps three vertices without it.
pub open spec fn can_delete_vertex(polygon: Seq<Point>, index: int) -> bool {
    polygon.len() > MIN_VERTICES && 0 <= index < polygon.len()
}

/// `polygon` without the vertex `index`, where it can be deleted.
pub open spec fn spec_delete_vertex(polygon: Seq<Point>, index: int) -> Seq<Point> {
    if can_delete_vertex(polygon, index) {
        polygon.remove(index)
    } else {
        polygon
    }
}

/// The rectangle with the corners `min` and `max`, as an outline that
/// starts at `min` and goes along the `x` axis first.
pub open spec fn rectangle_outline(min: Point, max: Point) -> Seq<Point> {
    seq![
        Point { x: min.x, y: min.y },
        Point { x: max.x, y: min.y },
        Point { x: max.x, y: max.y },
        Point { x: min.x, y: max.y },
    ]
}

/// The coordinate `v` scaled by `percent` hundredths about the middle of
/// `lo` and `hi`, rounded down and limited to the image.
pub open spec fn scaled_coord(v: int, lo: int, hi: int, percent: int) -> int {
    clamp_unit(((lo + hi) * 100 + (2 * v - (lo + hi)) * percent) / 200)
}

/// `polygon` scaled by `percent` hundredths about the centre of the box
/// with the corners `min` and `max`.
pub open spec fn spec_scale(polygon: Seq<Point>, min: Point, max: Point, percent: u32) -> Seq<
    Point,
> {
    polygon.map_values(
        |p: Point|
            Point {
                x: scaled_coord(p.x as int, min.x as int, max.x as int, percent as int) as i32,
                y: scaled_coord(p.y as int, min.y as int, max.y as int, percent as int) as i32,
            },
    )
}

/// `polygon` replaced by the outline of its bounding box, where it has a
/// point.
pub open spec fn spec_to_rectangle(polygon: Seq<Point>) -> Seq<Point> {
    match spec_bounding_box(polygon) {
        Some((min, max)) => rectangle_outline(min, max),
        None => polygon,
    }
}

/// `polygon` scaled by `percent` hundredths about the centre of its
/// bounding box, where it has a point.
pub open spec fn spec_scale_about_centre(polygon: Seq<Point>, percent: u32) -> Seq<Point> {
    match spec_bounding_box(polygon) {
        Some((min, max)) => spec_scale(polygon, min, max, percent),
        None => polygon,
    }
}

/// An edit of a polygon.
#[derive(Clone, Copy, Debug)]
pub enum PolygonEdit {
    /// A new vertex at `pos` on the edge that starts at the vertex `edge`.
    InsertVertex { edge: usize, pos: Point },
    /// The vertex `index` goes to `pos`.
    MoveVertex { index: usize, pos: Point },
    /// Every vertex moves by `(dx, dy)`.
    Translate { dx: i32, dy: i32 },
    /// The vertex `index` moves by `(dx, dy)`.
    NudgeVertex { index: usize, dx: i32, dy: i32 },
    /// The vertex `index` goes away.
    DeleteVertex { index: usize },
    /// The polygon becomes its bounding box.
    ToRectangle,
    /// The self-intersections of the polygon are untangled.
    FixSelfIntersections,
    /// The polygon is scaled by `percent` hundredths about the centre of
    /// its bounding box.
    Scale { percent: u32 },
}

/// The polygon after the edit.
pub open spec fn spec_apply_edit(polygon: Seq<Point>, edit: PolygonEdit) -> Seq<Point> {
    match edit {
        PolygonEdit::InsertVertex { edge, pos } => spec_insert_vertex(polygon, edge as int, pos),
        PolygonEdit::MoveVertex { index, pos } => spec_move_vertex(polygon, index as int, pos),
        PolygonEdit::Translate { dx, dy } => spec_translate(polygon, dx as int, dy as int),
        PolygonEdit::NudgeVertex { index, dx, dy } => spec_nudge_vertex(
            polygon,
            index as int,
            dx as int,
            dy as int,
        ),
        PolygonEdit::DeleteVertex { index } => spec_delete_vertex(polygon, index as int),
        PolygonEdit::ToRectangle => spec_to_rectangle(polygon),
        PolygonEdit::FixSelfIntersections => repair(polygon, repair_cap(polygon.len())),
        PolygonEdit::Scale { percent } => spec_scale_about_centre(polygon, percent),
    }
}

/// The edit was made: the vertex that it names exists, the deletion is not
/// refused, there is a bounding box, or a crossing to untangle. Moving and
/// scaling a whole polygon is always made.
pub open spec fn edit_applies(polygon: Seq<Point>, edit: PolygonEdit) -> bool {
    match edit {
        PolygonEdit::InsertVertex { edge, pos } => edge < polygon.len(),
        PolygonEdit::MoveVertex { index, pos } => index < polygon.len(),
        PolygonEdit::Translate { dx, dy } => true,
        PolygonEdit::NudgeVertex { index, dx, dy } => index < polygon.len(),
        PolygonEdit::DeleteVertex { index } => can_delete_vertex(polygon, index as int),
        PolygonEdit::ToRectangle => polygon.len() > 0,
        PolygonEdit::FixSelfIntersections => has_crossing(polygon),
        PolygonEdit::Scale { percent } => true,
    }
}

/// Makes the edit. Returns whether it was made; an edit that is not made
/// leaves the polygon as it is.
pub fn apply_edit(polygon: &mut Vec<Point>, edit: PolygonEdit) -> (updated: bool)
    ensures
        final(polygon)@ == spec_apply_edit(old(polygon)@, edit),
        updated == edit_applies(old(polygon)@, edit),
{
    match edit {
        PolygonEdit::InsertVertex { edge, pos } => insert_vertex(polygon, edge, pos),
        PolygonEdit::MoveVertex { index, pos } => move_vertex(polygon, index, pos),
        PolygonEdit::Translate { dx, dy } => {
            translate(polygon, dx, dy);
            true
        },
        PolygonEdit::NudgeVertex { index, dx, dy } => nudge_vertex(polygon, index, dx, dy),
        PolygonEdit::DeleteVertex { index } => delete_vertex(polygon, index),
        PolygonEdit::ToRectangle => to_rectangle(polygon),
        PolygonEdit::FixSelfIntersections => fix_self_intersections(polygon),
        PolygonEdit::Scale { percent } => {
            scale(polygon, percent);
            true
        },
    }
}

/// Adds `pos` as a new vertex after the vertex `edge`, that is on the edge
/// that starts there. Returns whether that vertex exists.
pub fn insert_vertex(polygon: &mut Vec<Point>, edge: usize, pos: Point) -> (updated: bool)
    ensures
        final(polygon)@ == spec_insert_vertex(old(polygon)@, edge as int, pos),
        updated == (edge < old(polygon)@.len()),
{
    if edge < polygon.len() {
        polygon.insert(edge + 1, pos);
        true
    } else {
        false
    }
}

/// Puts the vertex `index` at `pos`. Returns whether that vertex exists.
pub fn move_vertex(polygon: &mut Vec<Point>, index: usize, pos: Point) -> (updated: bool)
    ensures
        final(polygon)@ == spec_move_vertex(old(polygon)@, index as int, pos),
        updated == (index < old(polygon)@.len()),
{
    if index < polygon.len() {
        polygon[index] = pos;
        true
    } else {
        false
    }
}

/// One coordinate moved by `delta` and limited to the image.
pub fn shift_coord(v: i32, delta: i32) -> (moved: i32)
    ensures
        moved == clamp_unit(v + delta),
        0 <= moved <= UNIT,
{
    let wide: i64 = v as i64 + delta as i64;
    if wide < 0 {
        0
    } else if wide > UNIT as i64 {
        UNIT
    } else {
        wide as i32
    }
}

/// Moves every vertex by `(dx, dy)`, limited to the image.
pub fn translate(polygon: &mut Vec<Point>, dx: i32, dy: i32)
    ensures
        final(polygon)@ == spec_translate(old(polygon)@, dx as int, dy as int),
        forall|i: int| 0 <= i < final(polygon)@.len() ==> (#[trigger] final(polygon)@[i]).is_normalized(),
{
    let n: usize = polygon.len();
    let mut i: usize = 0;
    while i < n
        invariant
            n == polygon@.len(),
            n == old(polygon)@.len(),
            i <= n,
            forall|k: int|
                0 <= k < i ==> #[trigger] polygon@[k] == shifted(old(polygon)@[k], dx as int, dy as int),
            forall|k: int| i <= k < n ==> #[trigger] polygon@[k] == old(polygon)@[k],
        decreases n - i,
    {
        let p: Point = polygon[i];
        polygon[i] = Point { x: shift_coord(p.x, dx), y: shift_coord(p.y, dy) };
        i = i + 1;
    }
    assert(polygon@ =~= spec_translate(old(polygon)@, dx as int, dy as int));
}

/// Moves the vertex `index` by `(dx, dy)`, limited to the image. Returns
/// whether that vertex exists.
pub fn nudge_vertex(polygon: &mut Vec<Point>, index: usize, dx: i32, dy: i32) -> (updated: bool)
    ensures
        final(polygon)@ == spec_nudge_vertex(old(polygon)@, index as int, dx as int, dy as int),
        updated == (index < old(polygon)@.len()),
{
    if index < polygon.len() {
        let p: Point = polygon[index];
        polygon[index] = Point { x: shift_coord(p.x, dx), y: shift_coord(p.y, dy) };
        true
    } else {
        false
    }
}

/// Deletes the vertex `index`, unless the polygon would keep fewer than
/// three vertices or has no such vertex. Returns whether it was deleted; a
/// refused deletion leaves the polygon as it is.
pub fn delete_vertex(polygon: &mut Vec<Point>, index: usize) -> (deleted: bool)
    ensures
        deleted == can_delete_vertex(old(polygon)@, index as int),
        final(polygon)@ == spec_delete_vertex(old(polygon)@, index as int),
{
    if polygon.len() > MIN_VERTICES && index < polygon.len() {
        polygon.remove(index);
        true
    } else {
        false
    }
}

/// Replaces the polygon by its bounding box. Returns whether the polygon
/// has a point, and so a bounding box.
pub fn to_rectangle(polygon: &mut Vec<Point>) -> (updated: bool)
    ensures
        updated == (old(polygon)@.len() > 0),
        final(polygon)@ == spec_to_rectangle(old(polygon)@),
{
    match bounding_box(polygon.as_slice()) {
        Some((min, max)) => {
            let mut outline: Vec<Point> = Vec::new();
            outline.push(Point { x: min.x, y: min.y });
            outline.push(Point { x: max.x, y: min.y });
            outline.push(Point { x: max.x, y: max.y });
            outline.push(Point { x: min.x, y: max.y });
            assert(outline@ =~= rectangle_outline(min, max));
            *polygon = outline;
            true
        },
        None => false,
    }
}

/// Decides [`scaled_coord`].
pub fn scale_coord(v: i32, lo: i32, hi: i32, percent: u32) -> (scaled: i32)
    ensures
        scaled == scaled_coord(v as int, lo as int, hi as int, percent as int),
        0 <= scaled <= UNIT,
{
    let sum: i128 = lo as i128 + hi as i128;
    let spread: i128 = 2 * (v as i128) - sum;
    assert(-0x3_0000_0000 * 0xffff_ffff <= spread * percent <= 0x3_0000_0000 * 0xffff_ffff)
        by (nonlinear_arith)
        requires
            -0x3_0000_0000 <= spread <= 0x3_0000_0000,
            0 <= percent <= 0xffff_ffff,
    ;
    let numerator: i128 = sum * 100 + spread * (percent as i128);
    if numerator < 0 {
        assert(numerator / 200 < 0);
        0
    } else {
        let quotient: i128 = numerator / 200;
        if quotient > UNIT as i128 {
            UNIT
        } else {
            quotient as i32
        }
    }
}

/// Scales the polygon by `percent` hundredths about the centre of its
/// bounding box, every coordinate limited to the image. A polygon without
/// points stays as it is.
pub fn scale(polygon: &mut Vec<Point>, percent: u32)
    ensures
        final(polygon)@ == spec_scale_about_centre(old(polygon)@, percent),
        final(polygon)@.len() == old(polygon)@.len(),
{
    match bounding_box(polygon.as_slice()) {
        Some((min, max)) => {
            let n: usize = polygon.len();
            let mut i: usize = 0;
            while i < n
                invariant
                    n == polygon@.len(),
                    n == old(polygon)@.len(),
                    i <= n,
                    forall|k: int|
                        0 <= k < i ==> #[trigger] polygon@[k] == (Point {
                            x: scaled_coord(
                                old(polygon)@[k].x as int,
                                min.x as int,
                                max.x as int,
                                percent as int,
                            ) as i32,
                            y: scaled_coord(
                                old(polygon)@[k].y as int,
                                min.y as int,
                                max.y as int,
                                percent as int,
                            ) as i32,
                        }),
                    forall|k: int| i <= k < n ==> #[trigger] polygon@[k] == old(polygon)@[k],
                decreases n - i,
            {
                let p: Point = polygon[i];
                polygon[i] = Point {
                    x: scale_coord(p.x, min.x, max.x, percent),
                    y: scale_coord(p.y, min.y, max.y, percent),
                };
                i = i + 1;
            }
            assert(polygon@ =~= spec_scale(old(polygon)@, min, max, percent));
        },
        None => {},
    }
}

/// The points that the edit brings are in the range for which distances
/// are computed.
pub open spec fn edit_in_range(edit: PolygonEdit) -> bool {
    match edit {
        PolygonEdit::InsertVertex { edge, pos } => pos.in_range(),
        PolygonEdit::MoveVertex { index, pos } => pos.in_range(),
        _ => true,
    }
}

/// The repair moves points and makes none: points in range stay in range.
pub proof fn lemma_repair_keeps_range(s: Seq<Point>, fuel: nat)
    requires
        points_in_range(s),
    ensures
        points_in_range(repair(s, fuel)),
        repair(s, fuel).len() == s.len(),
    decreases fuel,
{
    if fuel > 0 && has_crossing(s) {
        lemma_first_crossing_exists(s);
        let (i, j) = choose|i: int, j: int| is_first_crossing(s, i, j);
        let next = reverse_range(s, i + 1, j);
        assert(repair_step(s) == next);
        assert forall|k: int| 0 <= k < next.len() implies (#[trigger] next[k]).in_range() by {
            if i + 1 <= k <= j {
                assert(s[i + 1 + j - k].in_range());
            } else {
                assert(s[k].in_range());
            }
        }
        lemma_repair_keeps_range(next, (fuel - 1) as nat);
    }
}

/// An edit of points in range, with points in range, leaves points in
/// range.
pub proof fn lemma_edit_keeps_range(polygon: Seq<Point>, edit: PolygonEdit)
    requires
        points_in_range(polygon),
        edit_in_range(edit),
    ensures
        points_in_range(spec_apply_edit(polygon, edit)),
{
    let after = spec_apply_edit(polygon, edit);
    match edit {
        PolygonEdit::InsertVertex { edge, pos } => {
            assert forall|k: int| 0 <= k < after.len() implies (#[trigger] after[k]).in_range() by {
                if edge < polygon.len() {
                    if k < edge + 1 {
                        assert(after[k] == polygon[k]);
                    } else if k == edge + 1 {
                    } else {
                        assert(after[k] == polygon[k - 1]);
                    }
                }
            }
        },
        PolygonEdit::DeleteVertex { index } => {
            assert forall|k: int| 0 <= k < after.len() implies (#[trigger] after[k]).in_range() by {
                if can_delete_vertex(polygon, index as int) {
                    if k < index {
                        assert(after[k] == polygon[k]);
                    } else {
                        assert(after[k] == polygon[k + 1]);
                    }
                }
            }
        },
        PolygonEdit::ToRectangle => {
            if polygon.len() > 0 {
                crate::edit::lemma_bounding_box_exists(polygon);
                let (min, max) = spec_bounding_box(polygon).unwrap();
                assert(is_bounding_box(polygon, min, max));
                assert(after =~= rectangle_outline(min, max));
                let a = choose|i: int| 0 <= i < polygon.len() && (#[trigger] polygon[i]).x == min.x;
                let b = choose|i: int| 0 <= i < polygon.len() && (#[trigger] polygon[i]).y == min.y;
                let c = choose|i: int| 0 <= i < polygon.len() && (#[trigger] polygon[i]).x == max.x;
                let d = choose|i: int| 0 <= i < polygon.len() && (#[trigger] polygon[i]).y == max.y;
                assert(polygon[a].in_range() && polygon[b].in_range() && polygon[c].in_range()
                    && polygon[d].in_range());
            }
        },
        PolygonEdit::FixSelfIntersections => {
            lemma_repair_keeps_range(polygon, repair_cap(polygon.len()));
        },
        _ => {},
    }
}

/// A sequence with a point has a bounding box.
pub proof fn lemma_bounding_box_exists(s: Seq<Point>)
    requires
        s.len() > 0,
    ensures
        spec_bounding_box(s) matches Some((min, max)) && is_bounding_box(s, min, max),
    decreases s.len(),
{
    if s.len() == 1 {
        assert(is_bounding_box(s, s[0], s[0]));
        crate::geometry::lemma_bounding_box(s, s[0], s[0]);
    } else {
        let rest = s.drop_last();
        let p = s.last();
        lemma_bounding_box_exists(rest);
        let (lo, hi) = spec_bounding_box(rest).unwrap();
        let min = Point { x: if p.x < lo.x { p.x } else { lo.x }, y: if p.y < lo.y { p.y } else { lo.y } };
        let max = Point { x: if p.x > hi.x { p.x } else { hi.x }, y: if p.y > hi.y { p.y } else { hi.y } };
        let last = s.len() - 1;
        let a = choose|i: int| 0 <= i < rest.len() && (#[trigger] rest[i]).x == lo.x;
        let b = choose|i: int| 0 <= i < rest.len() && (#[trigger] rest[i]).y == lo.y;
        let c = choose|i: int| 0 <= i < rest.len() && (#[trigger] rest[i]).x == hi.x;
        let d = choose|i: int| 0 <= i < rest.len() && (#[trigger] rest[i]).y == hi.y;
        assert(s[a] == rest[a] && s[b] == rest[b] && s[c] == rest[c] && s[d] == rest[d]);
        assert(s[if p.x < lo.x { last } else { a }].x == min.x);
        assert(s[if p.y < lo.y { last } else { b }].y == min.y);
        assert(s[if p.x > hi.x { last } else { c }].x == max.x);
        assert(s[if p.y > hi.y { last } else { d }].y == max.y);
        assert forall|i: int| 0 <= i < s.len() implies min.x <= (#[trigger] s[i]).x <= max.x
            && min.y <= s[i].y <= max.y by {
            if i < last {
                assert(s[i] == rest[i]);
            }
        }
        assert(is_bounding_box(s, min, max));
        crate::geometry::lemma_bounding_box(s, min, max);
    }
}

/// Deleting a vertex of a triangle is refused, whichever vertex it is; a
/// vertex of a quadrilateral is deleted, and leaves a triangle.
pub proof fn lemma_delete_vertex_keeps_three(polygon: Seq<Point>, index: int)
    ensures
        polygon.len() == 3 ==> spec_delete_vertex(polygon, index) == polygon && !can_delete_vertex(
            polygon,
            index,
        ),
        polygon.len() == 4 && 0 <= index < 4 ==> can_delete_vertex(polygon, index)
            && spec_delete_vertex(polygon, index).len() == 3,
        spec_delete_vertex(polygon, index).len() >= 3 || spec_delete_vertex(polygon, index)
            == polygon,
{
}

} // verus!
