//! The editing session: the document of the current image, the selection,
//! the shape that is being drawn and the clipboard, with the operations
//! that the interaction and the keyboard ask for.

use crate::annotation::{
    copy_points, points_in_range, Annotation, AnnotationView, Object, ObjectView, ShapeRef,
};
use crate::edit::{
    apply_edit, edit_applies, edit_in_range, lemma_edit_keeps_range, spec_apply_edit, PolygonEdit,
};
use crate::geometry::{Point, UNIT};
use crate::meta::{first_position, Meta};
use crate::shape_id::{roi_id_from_index, spec_roi_id, MAX_ROI_INDEX};
use crate::canvas::CanvasResponse;
use crate::state::{DrawTarget, EditMode, EditingState, PendingDrawClick};
use vstd::prelude::*;

verus! {

/// The state of an editing session.
#[derive(Debug)]
pub struct AppState {
    /// Metadata of the open project.
    pub meta: Option<Meta>,
    /// The document of the current image.
    pub current_annotation: Option<Annotation>,
    /// Width and height of the current image, in pixels.
    pub image_size: Option<(u32, u32)>,
    /// The document differs from what was saved.
    pub has_unsaved_changes: bool,
    /// The kind of shape that drawing makes.
    pub draw_target: DrawTarget,
    /// The category of new objects.
    pub default_category_id: Option<i32>,
    /// The id of the selected shape.
    pub selected_object_id: Option<i32>,
    /// The points of the shape that is being drawn.
    pub temp_points: Vec<Point>,
    /// Clicks in drawing mode that wait for the double-click window to
    /// pass, the oldest first.
    pub pending_draw_clicks: Vec<PendingDrawClick>,
    /// Objects copied for pasting.
    pub clipboard_objects: Vec<Object>,
    /// Regions of interest copied for pasting.
    pub clipboard_rois: Vec<Vec<Point>>,
    /// The mode and the selected vertex.
    pub editing_state: EditingState,
}

/// Model of an [`AppState`].
#[verifier::ext_equal]
pub struct AppStateView {
    pub meta: Option<Meta>,
    pub annotation: Option<AnnotationView>,
    pub image_size: Option<(u32, u32)>,
    pub has_unsaved_changes: bool,
    pub draw_target: DrawTarget,
    pub default_category_id: Option<i32>,
    pub selected_object_id: Option<i32>,
    pub temp_points: Seq<Point>,
    pub pending_draw_clicks: Seq<PendingDrawClick>,
    pub clipboard_objects: Seq<ObjectView>,
    pub clipboard_rois: Seq<Seq<Point>>,
    pub editing_state: EditingState,
}

impl View for AppState {
    type V = AppStateView;

    open spec fn view(&self) -> AppStateView {
        AppStateView {
            meta: self.meta,
            annotation: match self.current_annotation {
                Some(a) => Some(a@),
                None => None,
            },
            image_size: self.image_size,
            has_unsaved_changes: self.has_unsaved_changes,
            draw_target: self.draw_target,
            default_category_id: self.default_category_id,
            selected_object_id: self.selected_object_id,
            temp_points: self.temp_points@,
            pending_draw_clicks: self.pending_draw_clicks@,
            clipboard_objects: self.clipboard_objects@.map_values(|o: Object| o@),
            clipboard_rois: self.clipboard_rois@.map_values(|r: Vec<Point>| r@),
            editing_state: self.editing_state,
        }
    }
}

impl AppStateView {
    /// The document is within the limits of the machine, and so is every
    /// point that drawing has placed.
    pub open spec fn wf(self) -> bool {
        &&& self.annotation matches Some(a) ==> a.within_limits()
        &&& points_in_range(self.temp_points)
        &&& forall|k: int|
            0 <= k < self.pending_draw_clicks.len() ==> (
            #[trigger] self.pending_draw_clicks[k]).position.in_range()
        &&& forall|k: int|
            0 <= k < self.clipboard_objects.len() ==> points_in_range(
                (#[trigger] self.clipboard_objects[k]).polygon,
            )
        &&& forall|k: int|
            0 <= k < self.clipboard_rois.len() ==> points_in_range(#[trigger] self.clipboard_rois[k])
    }

    /// The session with nothing drawn and no click waiting.
    pub open spec fn cleared_drawing(self) -> AppStateView {
        AppStateView { temp_points: Seq::empty(), pending_draw_clicks: Seq::empty(), ..self }
    }

    /// The session with the shape `id` selected and no vertex.
    pub open spec fn select_shape(self, id: i32) -> AppStateView {
        AppStateView {
            selected_object_id: Some(id),
            editing_state: EditingState { selected_vertex: None, ..self.editing_state },
            ..self
        }
    }

    /// The session with the vertex `vertex` selected, and its shape.
    pub open spec fn select_vertex(self, vertex: (i32, usize)) -> AppStateView {
        AppStateView {
            selected_object_id: Some(vertex.0),
            editing_state: EditingState { selected_vertex: Some(vertex), ..self.editing_state },
            ..self
        }
    }

    /// The session with nothing selected.
    pub open spec fn deselect(self) -> AppStateView {
        AppStateView {
            selected_object_id: None,
            editing_state: EditingState { selected_vertex: None, ..self.editing_state },
            ..self
        }
    }

    /// The session in the mode `mode`.
    pub open spec fn in_mode(self, mode: EditMode) -> AppStateView {
        AppStateView { editing_state: EditingState { mode, ..self.editing_state }, ..self }
    }

    /// The session after a double click on the shape `id`: the shape is
    /// selected for editing, and what was being drawn is dropped.
    pub open spec fn enter_editing(self, id: i32) -> AppStateView {
        self.select_shape(id).in_mode(EditMode::Editing).cleared_drawing()
    }

    /// The session after `edit` of the polygon of the shape that
    /// `shape_id` addresses. Where there is no document or no such shape, or
    /// the edit is not made, nothing changes; else the polygon is edited
    /// and the document counts as changed.
    pub open spec fn edit_polygon(self, shape_id: i32, edit: PolygonEdit) -> AppStateView {
        match self.annotation {
            None => self,
            Some(a) => match a.resolve(shape_id) {
                None => self,
                Some(shape) => if edit_applies(a.polygon_at(shape), edit) {
                    AppStateView {
                        annotation: Some(
                            a.with_polygon_at(shape, spec_apply_edit(a.polygon_at(shape), edit)),
                        ),
                        has_unsaved_changes: true,
                        ..self
                    }
                } else {
                    self
                },
            },
        }
    }

    /// Whether [`AppStateView::edit_polygon`] makes the edit.
    pub open spec fn edit_is_made(self, shape_id: i32, edit: PolygonEdit) -> bool {
        match self.annotation {
            None => false,
            Some(a) => match a.resolve(shape_id) {
                None => false,
                Some(shape) => edit_applies(a.polygon_at(shape), edit),
            },
        }
    }

    /// The session after a point was placed at `pos`.
    pub open spec fn place_point(self, pos: Point) -> AppStateView {
        AppStateView { temp_points: self.temp_points.push(pos), ..self }
    }

    /// The session after the last point was taken back, in drawing mode: a
    /// click that waits goes first, else the last point placed.
    pub open spec fn undo_point(self) -> AppStateView {
        if self.editing_state.mode != EditMode::Drawing {
            self
        } else if self.pending_draw_clicks.len() > 0 {
            AppStateView { pending_draw_clicks: self.pending_draw_clicks.drop_last(), ..self }
        } else if self.temp_points.len() > 0 {
            AppStateView { temp_points: self.temp_points.drop_last(), ..self }
        } else {
            self
        }
    }

    /// The session with a click at `pos` waiting since `now`.
    pub open spec fn queue_click(self, pos: Point, now: u64) -> AppStateView {
        AppStateView {
            pending_draw_clicks: self.pending_draw_clicks.push(
                PendingDrawClick { position: pos, time: now },
            ),
            ..self
        }
    }

    /// The session without its newest waiting click, where that click is
    /// no older than `delay` at the time `now`: it was the first half of a
    /// double click.
    pub open spec fn drop_recent_click(self, now: u64, delay: u64) -> AppStateView {
        if self.pending_draw_clicks.len() > 0 && now - self.pending_draw_clicks.last().time
            <= delay {
            AppStateView { pending_draw_clicks: self.pending_draw_clicks.drop_last(), ..self }
        } else {
            self
        }
    }

    /// The session with every waiting click placed as a point, the oldest
    /// first.
    pub open spec fn flush_clicks(self) -> AppStateView {
        AppStateView {
            temp_points: self.temp_points + click_positions(self.pending_draw_clicks),
            pending_draw_clicks: Seq::empty(),
            ..self
        }
    }

    /// The session with the waiting clicks that are due placed as points,
    /// the oldest first; the others go on waiting. Outside drawing mode no
    /// click waits.
    pub open spec fn place_due_clicks(self, now: u64, delay: u64) -> AppStateView {
        if self.editing_state.mode != EditMode::Drawing {
            AppStateView { pending_draw_clicks: Seq::empty(), ..self }
        } else {
            AppStateView {
                temp_points: self.temp_points + click_positions(
                    self.pending_draw_clicks.filter(|c: PendingDrawClick| is_due(c, now, delay)),
                ),
                pending_draw_clicks: self.pending_draw_clicks.filter(
                    |c: PendingDrawClick| !is_due(c, now, delay),
                ),
                ..self
            }
        }
    }

    /// The category of a new object: the first of the project, or zero.
    pub open spec fn new_object_category(self) -> i32 {
        match self.meta {
            Some(m) => if m.categories@.len() > 0 {
                m.categories@[0].id
            } else {
                0
            },
            None => 0,
        }
    }

    /// The session after the drawing was finished at the time `now`, and
    /// whether a shape was made.
    ///
    /// The waiting clicks are placed first. With fewer than three points
    /// nothing more happens. Else the points become a new region of
    /// interest or a new object of the document, which is selected, and the
    /// drawing is cleared. A document that has no id left for the new shape
    /// refuses it and keeps the drawing.
    pub open spec fn finish_drawing(self, now: i64) -> (AppStateView, bool) {
        let s = self.flush_clicks();
        if s.temp_points.len() < 3 {
            (s, false)
        } else {
            match s.annotation {
                None => (s.cleared_drawing(), true),
                Some(a) => if s.draw_target == DrawTarget::Roi {
                    if a.rois.len() <= MAX_ROI_INDEX {
                        (
                            AppStateView {
                                annotation: Some(
                                    a.with_rois(a.rois.push(s.temp_points)).at_time(now),
                                ),
                                has_unsaved_changes: true,
                                selected_object_id: Some(spec_roi_id(a.rois.len() as int) as i32),
                                ..s
                            }.cleared_drawing(),
                            true,
                        )
                    } else {
                        (s, false)
                    }
                } else {
                    if has_free_object_id(a) {
                        let id = next_free_object_id(a);
                        (
                            AppStateView {
                                annotation: Some(
                                    a.with_objects(
                                        a.objects.push(
                                            new_object_view(
                                                id,
                                                s.new_object_category(),
                                                s.temp_points,
                                            ),
                                        ),
                                    ),
                                ),
                                has_unsaved_changes: true,
                                selected_object_id: Some(id),
                                ..s
                            }.cleared_drawing(),
                            true,
                        )
                    } else {
                        (s, false)
                    }
                },
            }
        }
    }

    /// The session after a double click asked to finish the drawing: in
    /// drawing mode the click that was the first half of the double click is
    /// dropped and the drawing is finished; where that made a shape, the
    /// shape is edited next.
    pub open spec fn finish_by_double_click(self, now: u64, delay: u64, stamp: i64) -> AppStateView {
        if self.editing_state.mode != EditMode::Drawing {
            self
        } else {
            let (s, finished) = self.drop_recent_click(now, delay).finish_drawing(stamp);
            if finished && s.selected_object_id is Some {
                AppStateView {
                    editing_state: EditingState { mode: EditMode::Editing, selected_vertex: None },
                    ..s
                }
            } else {
                s
            }
        }
    }

    /// The session after the frame that `response` reports.
    ///
    /// The parts of the response are applied in a fixed order: the
    /// selection by a click or a double click on a vertex, the double click
    /// on a shape, the secondary click, the end of the drawing, the click
    /// that places a point, the clicks that are due, then the edits of the
    /// vertices (added, dragged, shape dragged, deleted), and last the
    /// selection by a click on a shape or on nothing.
    pub open spec fn apply_response(
        self,
        response: CanvasResponse,
        now: u64,
        delay: u64,
        stamp: i64,
    ) -> AppStateView {
        self.apply_picks(response).apply_drawing(response, now, delay, stamp).apply_edits(
            response,
        ).apply_selection(response)
    }

    /// The session after the picks that `response` reports: a click on a
    /// vertex selects it, a double click on a vertex selects its shape, and
    /// a double click on a shape selects it for editing.
    pub open spec fn apply_picks(self, response: CanvasResponse) -> AppStateView {
        let s1 = match response.vertex_clicked {
            Some(vertex) => self.select_vertex(vertex),
            None => self,
        };
        let s2 = match response.vertex_double_clicked {
            Some(vertex) => s1.select_shape(vertex.0),
            None => s1,
        };
        match response.object_double_clicked {
            Some(id) => s2.enter_editing(id),
            None => s2,
        }
    }

    /// The session after what `response` reports for the drawing: a
    /// secondary click takes back a point, a double click finishes the
    /// drawing, a click waits to become a point, and the clicks that are
    /// due become points.
    pub open spec fn apply_drawing(
        self,
        response: CanvasResponse,
        now: u64,
        delay: u64,
        stamp: i64,
    ) -> AppStateView {
        let s4 = if response.right_clicked {
            self.undo_point()
        } else {
            self
        };
        let s5 = if response.finish_drawing {
            s4.finish_by_double_click(now, delay, stamp)
        } else {
            s4
        };
        let s6 = match response.clicked_pos {
            Some(pos) => if !response.finish_drawing && s5.editing_state.mode
                == EditMode::Drawing {
                s5.queue_click(pos, now)
            } else {
                s5
            },
            None => s5,
        };
        s6.place_due_clicks(now, delay)
    }

    /// The session after the edits of vertices that `response` reports: a
    /// vertex added, a vertex dragged, the shape dragged, a vertex deleted.
    pub open spec fn apply_edits(self, response: CanvasResponse) -> AppStateView {
        let s1 = match response.vertex_added {
            Some((id, edge, pos)) => self.edit_polygon(id, PolygonEdit::InsertVertex { edge, pos }),
            None => self,
        };
        let s2 = match response.vertex_dragged {
            Some((id, index, pos)) => s1.edit_polygon(id, PolygonEdit::MoveVertex { index, pos }),
            None => s1,
        };
        let s3 = match response.object_dragged {
            Some((id, offset)) => s2.edit_polygon(
                id,
                PolygonEdit::Translate { dx: offset.x, dy: offset.y },
            ),
            None => s2,
        };
        match response.vertex_deleted {
            Some((id, index)) => s3.edit_polygon(id, PolygonEdit::DeleteVertex { index }),
            None => s3,
        }
    }

    /// The session after the selection that `response` reports: a click on
    /// a shape selects it; a click on nothing, when browsing or editing,
    /// selects nothing.
    pub open spec fn apply_selection(self, response: CanvasResponse) -> AppStateView {
        let s1 = match response.object_clicked {
            Some(id) => self.select_shape(id),
            None => self,
        };
        if response.clicked_empty && (s1.editing_state.mode == EditMode::Browse
            || s1.editing_state.mode == EditMode::Editing) {
            s1.deselect()
        } else {
            s1
        }
    }

    /// The session after the selected vertex, or else the selected shape,
    /// was moved by the keyboard. `direction` counts steps along each axis;
    /// a step is one pixel of the image, ten with the shift key.
    ///
    /// Only in editing mode, with an image that has an area and a document.
    /// A selected vertex moves alone. Without one the selected shape moves,
    /// and the document counts as changed.
    pub open spec fn move_selected(self, direction: (i32, i32), shift_held: bool) -> AppStateView {
        if self.editing_state.mode != EditMode::Editing || self.annotation is None {
            self
        } else {
            match self.image_size {
                None => self,
                Some((width, height)) => if width == 0 || height == 0 {
                    self
                } else {
                    let dx = step_offset(direction.0, shift_held, width) as i32;
                    let dy = step_offset(direction.1, shift_held, height) as i32;
                    match self.editing_state.selected_vertex {
                        Some((id, index)) => self.edit_polygon(
                            id,
                            PolygonEdit::NudgeVertex { index, dx, dy },
                        ),
                        None => match self.selected_object_id {
                            Some(id) => AppStateView {
                                has_unsaved_changes: true,
                                ..self.edit_polygon(id, PolygonEdit::Translate { dx, dy })
                            },
                            None => self,
                        },
                    }
                },
            }
        }
    }

    /// The session after `edit` of the selected shape, asked for by the
    /// keyboard in editing mode: where the edit is made, no vertex stays
    /// selected.
    pub open spec fn edit_selected(self, edit: PolygonEdit) -> AppStateView {
        if self.editing_state.mode != EditMode::Editing {
            self
        } else {
            match self.selected_object_id {
                Some(id) => if self.edit_is_made(id, edit) {
                    let s = self.edit_polygon(id, edit);
                    AppStateView {
                        editing_state: EditingState { selected_vertex: None, ..s.editing_state },
                        ..s
                    }
                } else {
                    self
                },
                None => self,
            }
        }
    }

    /// The session after the selected shape was scaled by `percent`
    /// hundredths, in editing mode. With a document and a selection, the
    /// document counts as changed.
    pub open spec fn scale_selected(self, percent: u32) -> AppStateView {
        if self.editing_state.mode != EditMode::Editing || self.annotation is None {
            self
        } else {
            match self.selected_object_id {
                Some(id) => AppStateView {
                    has_unsaved_changes: true,
                    ..self.edit_polygon(id, PolygonEdit::Scale { percent })
                },
                None => self,
            }
        }
    }

    /// The session after the selected shape was deleted. Deleting a region
    /// of interest moves the regions after it one position down, and so
    /// changes their ids.
    pub open spec fn delete_selected(self) -> AppStateView {
        match (self.annotation, self.selected_object_id) {
            (Some(a), Some(id)) => match a.resolve(id) {
                Some(shape) => AppStateView {
                    annotation: Some(
                        match shape {
                            ShapeRef::Roi(k) => a.with_rois(a.rois.remove(k as int)),
                            ShapeRef::Object(k) => a.with_objects(a.objects.remove(k as int)),
                        },
                    ),
                    has_unsaved_changes: true,
                    ..self.deselect()
                },
                None => self,
            },
            _ => self,
        }
    }

    /// The session after the selected object got the category
    /// `category_id`, at the time `now`: the first object with the selected
    /// id changes, and the document counts as changed.
    pub open spec fn change_selected_category(self, category_id: i32, now: i64) -> AppStateView {
        match (self.annotation, self.selected_object_id) {
            (Some(a), Some(id)) => match first_position(a.object_ids(), id) {
                Some(k) => AppStateView {
                    annotation: Some(
                        a.with_objects(
                            a.objects.update(
                                k,
                                ObjectView { category: category_id, ..a.objects[k] },
                            ),
                        ).at_time(now),
                    ),
                    has_unsaved_changes: true,
                    ..self
                },
                None => self,
            },
            _ => self,
        }
    }

    /// The shape that is selected, where the selection addresses one.
    pub open spec fn selected_shape(self) -> Option<ShapeRef> {
        match (self.annotation, self.selected_object_id) {
            (Some(a), Some(id)) => a.resolve(id),
            _ => None,
        }
    }

    /// The session after a copy: the clipboard holds the selected shape, or
    /// every shape of the document where none is selected, and nothing
    /// without a document.
    pub open spec fn copy_selected(self) -> AppStateView {
        match self.annotation {
            None => AppStateView {
                clipboard_objects: Seq::empty(),
                clipboard_rois: Seq::empty(),
                ..self
            },
            Some(a) => match self.selected_shape() {
                Some(ShapeRef::Roi(k)) => AppStateView {
                    clipboard_objects: Seq::empty(),
                    clipboard_rois: seq![a.rois[k as int]],
                    ..self
                },
                Some(ShapeRef::Object(k)) => AppStateView {
                    clipboard_objects: seq![a.objects[k as int]],
                    clipboard_rois: Seq::empty(),
                    ..self
                },
                None => AppStateView {
                    clipboard_objects: a.objects,
                    clipboard_rois: a.rois,
                    ..self
                },
            },
        }
    }

    /// The document has ids for every shape of the clipboard.
    pub open spec fn can_paste(self, a: AnnotationView) -> bool {
        &&& a.rois.len() + self.clipboard_rois.len() <= MAX_ROI_INDEX + 1
        &&& self.clipboard_objects.len() > 0 ==> has_free_object_id(a) && next_free_object_id(a)
            + self.clipboard_objects.len() - 1 <= i32::MAX
    }

    /// The session after a paste: every shape of the clipboard is added to
    /// the document, moved by [`PASTE_OFFSET`] along both axes; the objects
    /// get new ids, counted up from the next free one. The last object
    /// pasted is selected, or else the last region. Nothing happens without
    /// a document, with an empty clipboard, or where the document has not
    /// the ids for every shape.
    pub open spec fn paste(self) -> AppStateView {
        match self.annotation {
            None => self,
            Some(a) => if (self.clipboard_objects.len() == 0 && self.clipboard_rois.len() == 0)
                || !self.can_paste(a) {
                self
            } else {
                let base = if self.clipboard_objects.len() > 0 {
                    next_free_object_id(a) as int
                } else {
                    0
                };
                let objects = a.objects + pasted_objects(self.clipboard_objects, base);
                let rois = a.rois + self.clipboard_rois.map_values(
                    |r: Seq<Point>| pasted_polygon(r),
                );
                AppStateView {
                    annotation: Some(a.with_objects(objects).with_rois(rois)),
                    selected_object_id: if self.clipboard_objects.len() > 0 {
                        Some((base + self.clipboard_objects.len() - 1) as i32)
                    } else {
                        Some(spec_roi_id(rois.len() - 1) as i32)
                    },
                    has_unsaved_changes: true,
                    ..self
                }
            },
        }
    }

    /// The session after the project was closed: nothing is open, nothing
    /// selected, nothing drawn or copied.
    pub open spec fn close_project(self) -> AppStateView {
        AppStateView {
            meta: None,
            annotation: None,
            image_size: None,
            has_unsaved_changes: false,
            default_category_id: None,
            selected_object_id: None,
            temp_points: Seq::empty(),
            pending_draw_clicks: Seq::empty(),
            clipboard_objects: Seq::empty(),
            clipboard_rois: Seq::empty(),
            editing_state: EditingState { mode: EditMode::Browse, selected_vertex: None },
            ..self
        }
    }

    /// The document is to be saved before it is left: it has changes, and
    /// the project saves by itself. Without a project it does.
    pub open spec fn should_save(self) -> bool {
        self.has_unsaved_changes && match self.meta {
            Some(m) => m.shape.auto_save,
            None => true,
        }
    }

    /// The time of the last change of the document, or zero without one.
    pub open spec fn last_modified(self) -> i64 {
        match self.annotation {
            Some(a) => a.last_modified,
            None => 0,
        }
    }
}

/// The points that `response` brings into the document are in the range
/// for which distances are computed. A response of the canvas is: its
/// points are points of the image.
pub open spec fn response_in_range(response: CanvasResponse) -> bool {
    &&& response.clicked_pos matches Some(pos) ==> pos.in_range()
    &&& response.vertex_added matches Some(added) ==> added.2.in_range()
    &&& response.vertex_dragged matches Some(dragged) ==> dragged.2.in_range()
}

/// A response whose points are points of the image is in range.
pub proof fn lemma_normalized_response_in_range(response: CanvasResponse)
    requires
        crate::canvas::response_is_normalized(response),
    ensures
        response_in_range(response),
{
}

/// Decides [`response_in_range`].
pub fn check_response_in_range(response: &CanvasResponse) -> (ok: bool)
    ensures
        ok == response_in_range(*response),
{
    let clicked: bool = match response.clicked_pos {
        Some(pos) => pos.check_in_range(),
        None => true,
    };
    let added: bool = match response.vertex_added {
        Some(added) => added.2.check_in_range(),
        None => true,
    };
    let dragged: bool = match response.vertex_dragged {
        Some(dragged) => dragged.2.check_in_range(),
        None => true,
    };
    clicked && added && dragged
}

/// How far a pasted shape is moved from the shape that was copied, along
/// both axes.
pub const PASTE_OFFSET: i32 = 50_000;

/// The point `p` of a copied shape in the pasted shape: moved by
/// [`PASTE_OFFSET`], and no further than the far border of the image.
pub open spec fn pasted_point(p: Point) -> Point {
    Point {
        x: (if p.x + PASTE_OFFSET > UNIT { UNIT as int } else { p.x + PASTE_OFFSET }) as i32,
        y: (if p.y + PASTE_OFFSET > UNIT { UNIT as int } else { p.y + PASTE_OFFSET }) as i32,
    }
}

/// The polygon of a pasted shape.
pub open spec fn pasted_polygon(polygon: Seq<Point>) -> Seq<Point> {
    polygon.map_values(|p: Point| pasted_point(p))
}

/// The objects pasted from `clipboard`, with ids counted up from `base`.
pub open spec fn pasted_objects(clipboard: Seq<ObjectView>, base: int) -> Seq<ObjectView> {
    Seq::new(
        clipboard.len(),
        |k: int|
            ObjectView {
                id: (base + k) as i32,
                polygon: pasted_polygon(clipboard[k].polygon),
                ..clipboard[k]
            },
    )
}

/// `v` divided by `d`, rounded towards zero.
pub open spec fn div_towards_zero(v: int, d: int) -> int {
    if v >= 0 {
        v / d
    } else {
        -((-v) / d)
    }
}

/// The offset, in coordinate steps, of `direction` keyboard steps along an
/// axis on which the image is `extent` pixels long: a step is one pixel, ten
/// with the shift key. The offset is rounded towards zero and limited to the
/// range of `i32`.
pub open spec fn step_offset(direction: i32, shift_held: bool, extent: u32) -> int {
    let pixels = if shift_held {
        10 * direction
    } else {
        direction as int
    };
    crate::canvas::clamp_i32(div_towards_zero(pixels * UNIT, extent as int))
}

/// The places of the clicks, in order.
pub open spec fn click_positions(clicks: Seq<PendingDrawClick>) -> Seq<Point> {
    clicks.map_values(|c: PendingDrawClick| c.position)
}

/// The click `c` has waited for at least `delay` at the time `now`.
pub open spec fn is_due(c: PendingDrawClick, now: u64, delay: u64) -> bool {
    now - c.time >= delay
}

/// The document has an id left for a new object: no object has the largest
/// id there is.
pub open spec fn has_free_object_id(a: AnnotationView) -> bool {
    forall|k: int| 0 <= k < a.objects.len() ==> (#[trigger] a.objects[k]).id < i32::MAX
}

/// The id of the next new object: one more than the largest id in use, or
/// zero for a document without objects.
pub open spec fn next_free_object_id(a: AnnotationView) -> i32 {
    choose|id: i32| a.is_next_object_id(id as int)
}

/// A new object drawn by hand: full confidence, no properties.
pub open spec fn new_object_view(id: i32, category: i32, polygon: Seq<Point>) -> ObjectView {
    ObjectView {
        id,
        category,
        confidence: crate::annotation::FULL_CONFIDENCE,
        polygon,
        properties: Seq::empty(),
    }
}

/// The next id is unique: where `id` is one, it is the one.
pub proof fn lemma_next_free_object_id(a: AnnotationView, id: i32)
    requires
        a.is_next_object_id(id as int),
    ensures
        next_free_object_id(a) == id,
{
    let other = choose|other: i32| a.is_next_object_id(other as int);
    assert(a.is_next_object_id(other as int));
    if a.objects.len() > 0 {
        let ids = a.object_ids();
        let k = choose|k: int| 0 <= k < ids.len() && #[trigger] ids[k] == id - 1;
        let j = choose|j: int| 0 <= j < ids.len() && #[trigger] ids[j] == other - 1;
        assert(ids[k] <= other - 1);
        assert(ids[j] <= id - 1);
    }
}

/// The document with the polygon of `shape` edited stays within the
/// limits.
pub proof fn lemma_edit_keeps_limits(a: AnnotationView, shape: ShapeRef, edit: PolygonEdit)
    requires
        a.within_limits(),
        a.has_shape(shape),
        edit_in_range(edit),
    ensures
        a.with_polygon_at(shape, spec_apply_edit(a.polygon_at(shape), edit)).within_limits(),
{
    lemma_edit_keeps_range(a.polygon_at(shape), edit);
    let after = a.with_polygon_at(shape, spec_apply_edit(a.polygon_at(shape), edit));
    match shape {
        ShapeRef::Object(k) => {
            assert forall|j: int| 0 <= j < after.objects.len() implies points_in_range(
                (#[trigger] after.objects[j]).polygon,
            ) by {
                if j != k {
                    assert(after.objects[j] == a.objects[j]);
                }
            }
        },
        ShapeRef::Roi(k) => {
            assert forall|j: int| 0 <= j < after.rois.len() implies points_in_range(
                #[trigger] after.rois[j],
            ) by {
                if j != k {
                    assert(after.rois[j] == a.rois[j]);
                }
            }
        },
    }
}

impl AppState {
    /// The session at the start: no project, no document, browsing.
    pub fn new() -> (state: AppState)
        ensures
            state@ == (AppStateView {
                meta: None,
                annotation: None,
                image_size: None,
                has_unsaved_changes: false,
                draw_target: DrawTarget::Object,
                default_category_id: None,
                selected_object_id: None,
                temp_points: Seq::empty(),
                pending_draw_clicks: Seq::empty(),
                clipboard_objects: Seq::empty(),
                clipboard_rois: Seq::empty(),
                editing_state: EditingState { mode: EditMode::Browse, selected_vertex: None },
            }),
            state@.wf(),
    {
        let state = AppState {
            meta: None,
            current_annotation: None,
            image_size: None,
            has_unsaved_changes: false,
            draw_target: DrawTarget::Object,
            default_category_id: None,
            selected_object_id: None,
            temp_points: Vec::new(),
            pending_draw_clicks: Vec::new(),
            clipboard_objects: Vec::new(),
            clipboard_rois: Vec::new(),
            editing_state: EditingState::new(),
        };
        assert(state@.clipboard_objects =~= Seq::empty());
        assert(state@.clipboard_rois =~= Seq::empty());
        state
    }

    /// Decides [`AppStateView::wf`]: whether the session is within the
    /// limits that its operations ask for.
    pub fn check(&self) -> (ok: bool)
        ensures
            ok == self@.wf(),
    {
        let document: bool = match &self.current_annotation {
            Some(annotation) => annotation.check_within_limits(),
            None => true,
        };
        let temp: bool = crate::annotation::check_points_in_range(&self.temp_points);
        let clicks: bool = clicks_in_range(&self.pending_draw_clicks);
        let copied_objects: bool = objects_in_range(&self.clipboard_objects);
        let copied_rois: bool = polygons_in_range(&self.clipboard_rois);
        let clipboard: bool = copied_objects && copied_rois;
        proof {
            let view = self@;
            if clicks {
                assert forall|k: int| 0 <= k < view.pending_draw_clicks.len() implies (
                #[trigger] view.pending_draw_clicks[k]).position.in_range() by {
                    assert(self.pending_draw_clicks@[k].position.in_range());
                }
            } else {
                let j = choose|j: int|
                    0 <= j < self.pending_draw_clicks@.len() && !(
                    #[trigger] self.pending_draw_clicks@[j]).position.in_range();
                assert(!view.pending_draw_clicks[j].position.in_range());
            }
            if copied_objects {
                assert forall|j: int| 0 <= j < view.clipboard_objects.len() implies points_in_range(
                    (#[trigger] view.clipboard_objects[j]).polygon,
                ) by {
                    assert(points_in_range(self.clipboard_objects@[j].polygon@));
                }
            } else {
                let j = choose|j: int|
                    0 <= j < self.clipboard_objects@.len() && !points_in_range(
                        (#[trigger] self.clipboard_objects@[j]).polygon@,
                    );
                assert(!points_in_range(view.clipboard_objects[j].polygon));
            }
            if copied_rois {
                assert forall|j: int| 0 <= j < view.clipboard_rois.len() implies points_in_range(
                    #[trigger] view.clipboard_rois[j],
                ) by {
                    assert(points_in_range(self.clipboard_rois@[j]@));
                }
            } else {
                let j = choose|j: int|
                    0 <= j < self.clipboard_rois@.len() && !points_in_range(
                        (#[trigger] self.clipboard_rois@[j])@,
                    );
                assert(!points_in_range(view.clipboard_rois[j]));
            }
        }
        document && temp && clicks && clipboard
    }

    /// Drops what is being drawn: the points placed and the clicks that
    /// wait.
    pub fn clear_drawing_state(&mut self)
        ensures
            final(self)@ == old(self)@.cleared_drawing(),
    {
        self.temp_points.clear();
        self.pending_draw_clicks.clear();
    }

    /// Edits the polygon of the shape that `shape_id` addresses, through
    /// the one borrow that the document hands out. Returns whether the edit
    /// was made.
    pub fn edit_polygon(&mut self, shape_id: i32, edit: PolygonEdit) -> (updated: bool)
        requires
            old(self)@.wf(),
            edit_in_range(edit),
        ensures
            final(self)@ == old(self)@.edit_polygon(shape_id, edit),
            updated == old(self)@.edit_is_made(shape_id, edit),
            final(self)@.wf(),
    {
        let mut updated: bool = false;
        match &mut self.current_annotation {
            None => {},
            Some(annotation) => {
                let ghost before = annotation@;
                match annotation.polygon_mut(shape_id) {
                    None => {},
                    Some(polygon) => {
                        updated = apply_edit(polygon, edit);
                    },
                }
                proof {
                    if let Some(shape) = before.resolve(shape_id) {
                        crate::app_state::lemma_resolved_shape(before, shape_id);
                        lemma_edit_keeps_limits(before, shape, edit);
                        if !updated {
                            crate::app_state::lemma_unmade_edit(before.polygon_at(shape), edit);
                            assert(annotation@ =~= before);
                        }
                    }
                }
            },
        }
        if updated {
            self.has_unsaved_changes = true;
        }
        updated
    }

    /// Places a point of the shape that is being drawn.
    pub fn place_point(&mut self, pos: Point)
        ensures
            final(self)@ == old(self)@.place_point(pos),
    {
        self.temp_points.push(pos);
    }

    /// Takes back the last point, in drawing mode: a click that waits goes
    /// first, else the last point placed.
    pub fn undo_point(&mut self)
        ensures
            final(self)@ == old(self)@.undo_point(),
    {
        if self.editing_state.mode == EditMode::Drawing {
            if self.pending_draw_clicks.pop().is_none() {
                self.temp_points.pop();
            }
            assert(self@ =~= old(self)@.undo_point());
        }
    }

    /// Lets a click at `pos` wait since `now`.
    pub fn queue_click(&mut self, pos: Point, now: u64)
        ensures
            final(self)@ == old(self)@.queue_click(pos, now),
    {
        self.pending_draw_clicks.push(PendingDrawClick { position: pos, time: now });
    }

    /// Drops the newest waiting click where it is no older than `delay`.
    pub fn drop_recent_pending_draw_click(&mut self, now: u64, delay: u64)
        ensures
            final(self)@ == old(self)@.drop_recent_click(now, delay),
    {
        let n: usize = self.pending_draw_clicks.len();
        if n > 0 {
            let last: PendingDrawClick = self.pending_draw_clicks[n - 1];
            if now <= last.time || now - last.time <= delay {
                self.pending_draw_clicks.pop();
                assert(self@ =~= old(self)@.drop_recent_click(now, delay));
            }
        }
    }

    /// Places every waiting click as a point, the oldest first.
    pub fn flush_pending_draw_clicks(&mut self)
        ensures
            final(self)@ == old(self)@.flush_clicks(),
    {
        let n: usize = self.pending_draw_clicks.len();
        let mut i: usize = 0;
        while i < n
            invariant
                i <= n,
                n == self.pending_draw_clicks@.len(),
                self@ == (AppStateView {
                    temp_points: old(self)@.temp_points + click_positions(
                        old(self)@.pending_draw_clicks.take(i as int),
                    ),
                    ..old(self)@
                }),
            decreases n - i,
        {
            let ghost clicks = old(self)@.pending_draw_clicks;
            let position: Point = self.pending_draw_clicks[i].position;
            self.temp_points.push(position);
            proof {
                assert(clicks.take(i + 1) =~= clicks.take(i as int).push(clicks[i as int]));
                assert(click_positions(clicks.take(i + 1)) =~= click_positions(
                    clicks.take(i as int),
                ).push(position));
                assert(self@.temp_points =~= old(self)@.temp_points + click_positions(
                    clicks.take(i + 1),
                ));
            }
            i = i + 1;
        }
        proof {
            let clicks = old(self)@.pending_draw_clicks;
            assert(clicks.take(n as int) =~= clicks);
        }
        self.pending_draw_clicks.clear();
    }

    /// Places the waiting clicks that are due at the time `now` as points,
    /// the oldest first. Outside drawing mode the waiting clicks are
    /// dropped.
    pub fn apply_pending_draw_clicks(&mut self, now: u64, double_click_delay: u64)
        ensures
            final(self)@ == old(self)@.place_due_clicks(now, double_click_delay),
    {
        if self.editing_state.mode != EditMode::Drawing {
            self.pending_draw_clicks.clear();
            return ;
        }
        let ghost clicks = old(self)@.pending_draw_clicks;
        let ghost due = |c: PendingDrawClick| is_due(c, now, double_click_delay);
        let ghost waits = |c: PendingDrawClick| !is_due(c, now, double_click_delay);
        let mut i: usize = 0;
        let ghost mut seen: int = 0;
        while i < self.pending_draw_clicks.len()
            invariant
                i <= self.pending_draw_clicks@.len(),
                0 <= seen <= clicks.len(),
                clicks == old(self)@.pending_draw_clicks,
                due == |c: PendingDrawClick| is_due(c, now, double_click_delay),
                waits == |c: PendingDrawClick| !is_due(c, now, double_click_delay),
                self.pending_draw_clicks@.len() - i == clicks.len() - seen,
                self.pending_draw_clicks@.take(i as int) == clicks.take(seen).filter(waits),
                self.pending_draw_clicks@.skip(i as int) == clicks.skip(seen),
                self@ == (AppStateView {
                    temp_points: old(self)@.temp_points + click_positions(
                        clicks.take(seen).filter(due),
                    ),
                    pending_draw_clicks: self.pending_draw_clicks@,
                    ..old(self)@
                }),
            decreases self.pending_draw_clicks@.len() - i,
        {
            let ghost current = self.pending_draw_clicks@;
            let click: PendingDrawClick = self.pending_draw_clicks[i];
            proof {
                crate::annotation::lemma_filter_next(clicks, due, seen);
                crate::annotation::lemma_filter_next(clicks, waits, seen);
                crate::annotation::lemma_skip_next(current, i as int, clicks, seen);
            }
            if now >= click.time && now - click.time >= double_click_delay {
                self.temp_points.push(click.position);
                self.pending_draw_clicks.remove(i);
                proof {
                    assert(self.pending_draw_clicks@.take(i as int) =~= current.take(i as int));
                    assert(self.pending_draw_clicks@.skip(i as int) =~= current.skip(i + 1));
                    assert(click_positions(clicks.take(seen + 1).filter(due)) =~= click_positions(
                        clicks.take(seen).filter(due),
                    ).push(click.position));
                    assert(self@.temp_points =~= old(self)@.temp_points + click_positions(
                        clicks.take(seen + 1).filter(due),
                    ));
                    seen = seen + 1;
                }
            } else {
                proof {
                    assert(current.take(i + 1) =~= current.take(i as int).push(current[i as int]));
                    seen = seen + 1;
                }
                i = i + 1;
            }
        }
        proof {
            assert(clicks.take(seen) =~= clicks);
            assert(self.pending_draw_clicks@.take(i as int) =~= self.pending_draw_clicks@);
        }
    }

    /// Finishes the drawing: the waiting clicks are placed, and three or
    /// more points become a new shape of the kind that is drawn, which is
    /// selected. Returns whether a shape was made. Fewer points make none,
    /// and a document that has no id left for the shape refuses it.
    pub fn finish_drawing(&mut self) -> (finished: bool)
        requires
            old(self)@.wf(),
        ensures
            (final(self)@, finished) == old(self)@.finish_drawing(final(self)@.last_modified()),
            final(self)@.wf(),
    {
        self.flush_pending_draw_clicks();
        let ghost flushed = self@;
        proof {
            let clicks = old(self)@.pending_draw_clicks;
            assert forall|k: int| 0 <= k < flushed.temp_points.len() implies (
            #[trigger] flushed.temp_points[k]).in_range() by {
                let n = old(self)@.temp_points.len();
                if k >= n {
                    assert(flushed.temp_points[k] == clicks[k - n].position);
                }
            }
        }
        if self.temp_points.len() < 3 {
            return false;
        }
        let category: i32 = match &self.meta {
            Some(m) => if m.categories.len() > 0 {
                m.categories[0].id
            } else {
                0
            },
            None => 0,
        };
        let polygon: Vec<Point> = copy_points(&self.temp_points);
        match &mut self.current_annotation {
            None => {},
            Some(annotation) => {
                let ghost before = annotation@;
                if self.draw_target == DrawTarget::Roi {
                    let count: usize = annotation.rois.len();
                    if count > MAX_ROI_INDEX {
                        return false;
                    }
                    annotation.rois.push(polygon);
                    assert(annotation@.rois =~= before.rois.push(flushed.temp_points));
                    assert(annotation@.objects =~= before.objects);
                    annotation.touch();
                    self.has_unsaved_changes = true;
                    self.selected_object_id = Some(roi_id_from_index(count));
                } else {
                    let id: i32 = match annotation.largest_object_id() {
                        Some(largest) => {
                            proof {
                                let ids = before.object_ids();
                                let k = choose|k: int|
                                    0 <= k < ids.len() && #[trigger] ids[k] == largest;
                                assert(before.objects[k].id == largest);
                                assert forall|j: int| 0 <= j < before.objects.len() implies (
                                #[trigger] before.objects[j]).id <= largest by {
                                    assert(ids[j] <= largest);
                                }
                            }
                            if largest == i32::MAX {
                                return false;
                            }
                            largest + 1
                        },
                        None => 0,
                    };
                    proof {
                        lemma_next_free_object_id(before, id);
                    }
                    let object = Object::new(id, category, polygon);
                    annotation.objects.push(object);
                    assert(annotation@.objects =~= before.objects.push(
                        new_object_view(id, category, flushed.temp_points),
                    ));
                    assert(annotation@.rois =~= before.rois);
                    self.has_unsaved_changes = true;
                    self.selected_object_id = Some(id);
                }
                proof {
                    let after = annotation@;
                    assert forall|k: int| 0 <= k < after.rois.len() implies points_in_range(
                        #[trigger] after.rois[k],
                    ) by {
                        if k < before.rois.len() {
                            assert(after.rois[k] == before.rois[k]);
                        }
                    }
                    assert forall|k: int| 0 <= k < after.objects.len() implies points_in_range(
                        (#[trigger] after.objects[k]).polygon,
                    ) by {
                        if k < before.objects.len() {
                            assert(after.objects[k] == before.objects[k]);
                        }
                    }
                }
            },
        }
        self.clear_drawing_state();
        true
    }

    /// Applies the edits of vertices that `response` reports.
    pub fn apply_edits(&mut self, response: &CanvasResponse)
        requires
            old(self)@.wf(),
            response_in_range(*response),
        ensures
            final(self)@ == old(self)@.apply_edits(*response),
            final(self)@.wf(),
    {
        match response.vertex_added {
            Some((id, edge, pos)) => {
                self.edit_polygon(id, PolygonEdit::InsertVertex { edge, pos });
            },
            None => {},
        }
        match response.vertex_dragged {
            Some((id, index, pos)) => {
                self.edit_polygon(id, PolygonEdit::MoveVertex { index, pos });
            },
            None => {},
        }
        match response.object_dragged {
            Some((id, offset)) => {
                self.edit_polygon(id, PolygonEdit::Translate { dx: offset.x, dy: offset.y });
            },
            None => {},
        }
        match response.vertex_deleted {
            Some((id, index)) => {
                self.edit_polygon(id, PolygonEdit::DeleteVertex { index });
            },
            None => {},
        }
    }

    /// Applies the selection that `response` reports.
    pub fn apply_selection(&mut self, response: &CanvasResponse)
        ensures
            final(self)@ == old(self)@.apply_selection(*response),
            old(self)@.wf() ==> final(self)@.wf(),
    {
        match response.object_clicked {
            Some(id) => {
                self.selected_object_id = Some(id);
                self.editing_state.selected_vertex = None;
            },
            None => {},
        }
        if response.clicked_empty && (self.editing_state.mode == EditMode::Browse
            || self.editing_state.mode == EditMode::Editing) {
            self.selected_object_id = None;
            self.editing_state.selected_vertex = None;
        }
    }

    /// Applies the picks that `response` reports.
    pub fn apply_picks(&mut self, response: &CanvasResponse)
        ensures
            final(self)@ == old(self)@.apply_picks(*response),
            old(self)@.wf() ==> final(self)@.wf(),
    {
        match response.vertex_clicked {
            Some(vertex) => {
                self.editing_state.selected_vertex = Some(vertex);
                self.selected_object_id = Some(vertex.0);
            },
            None => {},
        }
        match response.vertex_double_clicked {
            Some(vertex) => {
                self.selected_object_id = Some(vertex.0);
                self.editing_state.selected_vertex = None;
            },
            None => {},
        }
        match response.object_double_clicked {
            Some(id) => {
                self.selected_object_id = Some(id);
                self.editing_state.mode = EditMode::Editing;
                self.editing_state.selected_vertex = None;
                self.clear_drawing_state();
            },
            None => {},
        }
    }

    /// Finishes the drawing on a double click, in drawing mode; where that
    /// made a shape, the shape is edited next.
    pub fn finish_by_double_click(&mut self, now: u64, double_click_delay: u64)
        requires
            old(self)@.wf(),
        ensures
            final(self)@ == old(self)@.finish_by_double_click(
                now,
                double_click_delay,
                final(self)@.last_modified(),
            ),
            final(self)@.wf(),
    {
        if self.editing_state.mode == EditMode::Drawing {
            self.drop_recent_pending_draw_click(now, double_click_delay);
            proof {
                lemma_undo_keeps_wf(old(self)@, self@);
            }
            let finished: bool = self.finish_drawing();
            if finished && self.selected_object_id.is_some() {
                self.editing_state.mode = EditMode::Editing;
                self.editing_state.selected_vertex = None;
            }
        }
    }

    /// Applies what `response` reports for the drawing.
    pub fn apply_drawing(&mut self, response: &CanvasResponse, now: u64, double_click_delay: u64)
        requires
            old(self)@.wf(),
            response_in_range(*response),
        ensures
            final(self)@ == old(self)@.apply_drawing(
                *response,
                now,
                double_click_delay,
                final(self)@.last_modified(),
            ),
            final(self)@.wf(),
    {
        if response.right_clicked {
            self.undo_point();
            proof {
                lemma_undo_keeps_wf(old(self)@, self@);
            }
        }
        if response.finish_drawing {
            self.finish_by_double_click(now, double_click_delay);
        }
        match response.clicked_pos {
            Some(pos) => {
                if !response.finish_drawing && self.editing_state.mode == EditMode::Drawing {
                    self.queue_click(pos, now);
                }
            },
            None => {},
        }
        proof {
            lemma_due_clicks_keep_wf(self@, now, double_click_delay);
        }
        self.apply_pending_draw_clicks(now, double_click_delay);
    }

    /// Applies what a frame of the canvas reports to the session: the
    /// selection, the drawing and the edits of the document. `now` is the
    /// time of the frame and `double_click_delay` the double-click window,
    /// both in milliseconds.
    pub fn apply_canvas_response(
        &mut self,
        response: &CanvasResponse,
        now: u64,
        double_click_delay: u64,
    )
        requires
            old(self)@.wf(),
            response_in_range(*response),
        ensures
            final(self)@ == old(self)@.apply_response(
                *response,
                now,
                double_click_delay,
                final(self)@.last_modified(),
            ),
            final(self)@.wf(),
    {
        self.apply_picks(response);
        self.apply_drawing(response, now, double_click_delay);
        let ghost drawn = self@;
        self.apply_edits(response);
        self.apply_selection(response);
        proof {
            lemma_edits_keep_time(drawn, *response);
        }
    }

    /// Moves the selected vertex, or else the selected shape, by the
    /// keyboard: `direction` steps along each axis, a step being one pixel
    /// of the image, ten with the shift key.
    pub fn move_selected(&mut self, direction: (i32, i32), shift_held: bool)
        requires
            old(self)@.wf(),
        ensures
            final(self)@ == old(self)@.move_selected(direction, shift_held),
            final(self)@.wf(),
    {
        if self.editing_state.mode != EditMode::Editing || self.current_annotation.is_none() {
            return ;
        }
        let (width, height) = match self.image_size {
            Some(size) => size,
            None => {
                return ;
            },
        };
        if width == 0 || height == 0 {
            return ;
        }
        let dx: i32 = offset_of_steps(direction.0, shift_held, width);
        let dy: i32 = offset_of_steps(direction.1, shift_held, height);
        match self.editing_state.selected_vertex {
            Some((id, index)) => {
                self.edit_polygon(id, PolygonEdit::NudgeVertex { index, dx, dy });
            },
            None => match self.selected_object_id {
                Some(id) => {
                    self.edit_polygon(id, PolygonEdit::Translate { dx, dy });
                    self.has_unsaved_changes = true;
                },
                None => {},
            },
        }
    }

    /// Makes `edit` of the selected shape, in editing mode; where it is
    /// made, no vertex stays selected.
    pub fn edit_selected(&mut self, edit: PolygonEdit)
        requires
            old(self)@.wf(),
            edit_in_range(edit),
        ensures
            final(self)@ == old(self)@.edit_selected(edit),
            final(self)@.wf(),
    {
        if self.editing_state.mode != EditMode::Editing {
            return ;
        }
        match self.selected_object_id {
            Some(id) => {
                if self.edit_polygon(id, edit) {
                    self.editing_state.selected_vertex = None;
                }
            },
            None => {},
        }
    }

    /// Replaces the selected shape by its bounding box, in editing mode.
    pub fn convert_selected_to_rectangle(&mut self)
        requires
            old(self)@.wf(),
        ensures
            final(self)@ == old(self)@.edit_selected(PolygonEdit::ToRectangle),
            final(self)@.wf(),
    {
        self.edit_selected(PolygonEdit::ToRectangle);
    }

    /// Untangles the self-intersections of the selected shape, in editing
    /// mode. No other shape of the document is looked at.
    pub fn fix_selected_self_intersections(&mut self)
        requires
            old(self)@.wf(),
        ensures
            final(self)@ == old(self)@.edit_selected(PolygonEdit::FixSelfIntersections),
            final(self)@.wf(),
    {
        self.edit_selected(PolygonEdit::FixSelfIntersections);
    }

    /// Scales the selected shape by `percent` hundredths about the centre
    /// of its bounding box, in editing mode.
    pub fn scale_selected_object(&mut self, percent: u32)
        requires
            old(self)@.wf(),
        ensures
            final(self)@ == old(self)@.scale_selected(percent),
            final(self)@.wf(),
    {
        if self.editing_state.mode != EditMode::Editing || self.current_annotation.is_none() {
            return ;
        }
        match self.selected_object_id {
            Some(id) => {
                self.edit_polygon(id, PolygonEdit::Scale { percent });
                self.has_unsaved_changes = true;
            },
            None => {},
        }
    }

    /// Deletes the selected shape and the selection.
    pub fn delete_selected(&mut self)
        requires
            old(self)@.wf(),
        ensures
            final(self)@ == old(self)@.delete_selected(),
            final(self)@.wf(),
    {
        let id: i32 = match self.selected_object_id {
            Some(id) => id,
            None => {
                return ;
            },
        };
        let mut deleted: bool = false;
        match &mut self.current_annotation {
            None => {},
            Some(annotation) => {
                let ghost before = annotation@;
                match annotation.resolve_shape(id) {
                    Some(ShapeRef::Roi(k)) => {
                        annotation.rois.remove(k);
                        deleted = true;
                        proof {
                            let after = annotation@;
                            assert(after.rois =~= before.rois.remove(k as int));
                            assert(after.objects =~= before.objects);
                            assert forall|j: int| 0 <= j < after.rois.len() implies points_in_range(
                                #[trigger] after.rois[j],
                            ) by {
                                if j < k {
                                    assert(after.rois[j] == before.rois[j]);
                                } else {
                                    assert(after.rois[j] == before.rois[j + 1]);
                                }
                            }
                        }
                    },
                    Some(ShapeRef::Object(k)) => {
                        annotation.objects.remove(k);
                        deleted = true;
                        proof {
                            let after = annotation@;
                            assert(after.objects =~= before.objects.remove(k as int));
                            assert(after.rois =~= before.rois);
                            assert forall|j: int|
                                0 <= j < after.objects.len() implies points_in_range(
                                (#[trigger] after.objects[j]).polygon,
                            ) by {
                                if j < k {
                                    assert(after.objects[j] == before.objects[j]);
                                } else {
                                    assert(after.objects[j] == before.objects[j + 1]);
                                }
                            }
                        }
                    },
                    None => {},
                }
            },
        }
        if deleted {
            self.selected_object_id = None;
            self.editing_state.selected_vertex = None;
            self.has_unsaved_changes = true;
        }
    }

    /// Copies the selected shape to the clipboard, or every shape of the
    /// document where none is selected.
    pub fn copy_selected(&mut self)
        requires
            old(self)@.wf(),
        ensures
            final(self)@ == old(self)@.copy_selected(),
            final(self)@.wf(),
    {
        self.clipboard_objects.clear();
        self.clipboard_rois.clear();
        assert(self@.clipboard_objects =~= Seq::empty());
        assert(self@.clipboard_rois =~= Seq::empty());
        let annotation: &Annotation = match &self.current_annotation {
            Some(annotation) => annotation,
            None => {
                return ;
            },
        };
        let shape: Option<ShapeRef> = match self.selected_object_id {
            Some(id) => annotation.resolve_shape(id),
            None => None,
        };
        match shape {
            Some(ShapeRef::Roi(k)) => {
                self.clipboard_rois.push(copy_points(&annotation.rois[k]));
                assert(self@.clipboard_rois =~= seq![annotation@.rois[k as int]]);
            },
            Some(ShapeRef::Object(k)) => {
                self.clipboard_objects.push(annotation.objects[k].duplicate());
                assert(self@.clipboard_objects =~= seq![annotation@.objects[k as int]]);
            },
            None => {
                let mut objects: Vec<Object> = Vec::new();
                let mut k: usize = 0;
                while k < annotation.objects.len()
                    invariant
                        k <= annotation.objects@.len(),
                        objects@.len() == k,
                        forall|j: int|
                            0 <= j < k ==> (#[trigger] objects@[j])@ == annotation.objects@[j]@,
                    decreases annotation.objects@.len() - k,
                {
                    objects.push(annotation.objects[k].duplicate());
                    k = k + 1;
                }
                let mut rois: Vec<Vec<Point>> = Vec::new();
                let mut k: usize = 0;
                while k < annotation.rois.len()
                    invariant
                        k <= annotation.rois@.len(),
                        rois@.len() == k,
                        forall|j: int|
                            0 <= j < k ==> (#[trigger] rois@[j])@ == annotation.rois@[j]@,
                    decreases annotation.rois@.len() - k,
                {
                    rois.push(copy_points(&annotation.rois[k]));
                    k = k + 1;
                }
                assert(objects@.map_values(|o: Object| o@) =~= annotation@.objects);
                assert(rois@.map_values(|r: Vec<Point>| r@) =~= annotation@.rois);
                self.clipboard_objects = objects;
                self.clipboard_rois = rois;
            },
        }
        proof {
            let expected = old(self)@.copy_selected();
            assert(old(self)@.selected_shape() == shape);
            assert(self@.clipboard_objects =~= expected.clipboard_objects);
            assert(self@.clipboard_rois =~= expected.clipboard_rois);
            assert(self@ =~~= expected);
        }
    }

    /// Pastes the shapes of the clipboard into the document, moved by
    /// [`PASTE_OFFSET`], and selects the last of them.
    pub fn paste_from_clipboard(&mut self)
        requires
            old(self)@.wf(),
        ensures
            final(self)@ == old(self)@.paste(),
            final(self)@.wf(),
    {
        let object_count: usize = self.clipboard_objects.len();
        let roi_count: usize = self.clipboard_rois.len();
        let annotation: &mut Annotation = match &mut self.current_annotation {
            Some(annotation) => annotation,
            None => {
                return ;
            },
        };
        if object_count == 0 && roi_count == 0 {
            return ;
        }
        let ghost before = annotation@;
        let ghost clip_objects = self.clipboard_objects@.map_values(|o: Object| o@);
        let ghost clip_rois = self.clipboard_rois@.map_values(|r: Vec<Point>| r@);
        if annotation.rois.len() > MAX_ROI_INDEX + 1 || roi_count > MAX_ROI_INDEX + 1
            - annotation.rois.len() {
            return ;
        }
        let mut base: i32 = 0;
        if object_count > 0 {
            match annotation.largest_object_id() {
                Some(largest) => {
                    proof {
                        let ids = before.object_ids();
                        let k = choose|k: int| 0 <= k < ids.len() && #[trigger] ids[k] == largest;
                        assert(before.objects[k].id == largest);
                        assert forall|j: int| 0 <= j < before.objects.len() implies (
                        #[trigger] before.objects[j]).id <= largest by {
                            assert(ids[j] <= largest);
                        }
                    }
                    if largest == i32::MAX {
                        return ;
                    }
                    base = largest + 1;
                },
                None => {},
            }
            proof {
                lemma_next_free_object_id(before, base);
            }
            if object_count - 1 > 0xffff_ffff || (object_count - 1) as i64 > i32::MAX as i64
                - base as i64 {
                return ;
            }
        }
        assert(old(self)@.can_paste(before));
        let mut k: usize = 0;
        while k < object_count
            invariant
                k <= object_count,
                object_count == self.clipboard_objects@.len(),
                clip_objects == self.clipboard_objects@.map_values(|o: Object| o@),
                object_count > 0 ==> base + object_count - 1 <= i32::MAX,
                annotation@ == before.with_objects(
                    before.objects + pasted_objects(clip_objects, base as int).take(k as int),
                ),
            decreases object_count - k,
        {
            let ghost current = annotation@;
            let source: &Object = &self.clipboard_objects[k];
            let mut object: Object = source.duplicate();
            object.id = (base as i64 + k as i64) as i32;
            object.polygon = paste_polygon(&source.polygon);
            let ghost pasted = object@;
            annotation.objects.push(object);
            proof {
                let all = pasted_objects(clip_objects, base as int);
                assert(clip_objects[k as int] == source@);
                assert(pasted == all[k as int]);
                assert(annotation@.objects =~= current.objects.push(pasted));
                assert(all.take(k + 1) =~= all.take(k as int).push(all[k as int]));
                assert((before.objects + all.take(k as int)).push(pasted) =~= before.objects
                    + all.take(k + 1));
                assert(annotation@.rois =~= current.rois);
            }
            k = k + 1;
        }
        let ghost with_objects = annotation@;
        let mut k: usize = 0;
        while k < roi_count
            invariant
                k <= roi_count,
                roi_count == self.clipboard_rois@.len(),
                clip_rois == self.clipboard_rois@.map_values(|r: Vec<Point>| r@),
                annotation@ == with_objects.with_rois(
                    before.rois + clip_rois.map_values(|r: Seq<Point>| pasted_polygon(r)).take(
                        k as int,
                    ),
                ),
            decreases roi_count - k,
        {
            let ghost current = annotation@;
            let polygon: Vec<Point> = paste_polygon(&self.clipboard_rois[k]);
            let ghost pasted = polygon@;
            annotation.rois.push(polygon);
            proof {
                let all = clip_rois.map_values(|r: Seq<Point>| pasted_polygon(r));
                assert(clip_rois[k as int] == self.clipboard_rois@[k as int]@);
                assert(pasted == all[k as int]);
                assert(annotation@.rois =~= current.rois.push(pasted));
                assert(all.take(k + 1) =~= all.take(k as int).push(all[k as int]));
                assert((before.rois + all.take(k as int)).push(pasted) =~= before.rois + all.take(
                    k + 1,
                ));
                assert(annotation@.objects =~= current.objects);
            }
            k = k + 1;
        }
        proof {
            let all_objects = pasted_objects(clip_objects, base as int);
            let all_rois = clip_rois.map_values(|r: Seq<Point>| pasted_polygon(r));
            assert(all_objects.take(object_count as int) =~= all_objects);
            assert(all_rois.take(roi_count as int) =~= all_rois);
            let after = annotation@;
            assert(after.objects == before.objects + all_objects);
            assert(after.rois == before.rois + all_rois);
            assert forall|j: int| 0 <= j < after.rois.len() implies points_in_range(
                #[trigger] after.rois[j],
            ) by {
                if j < before.rois.len() {
                    assert(after.rois[j] == before.rois[j]);
                } else {
                    let r = clip_rois[j - before.rois.len()];
                    assert(after.rois[j] == pasted_polygon(r));
                    lemma_pasted_in_range(r);
                }
            }
            assert forall|j: int| 0 <= j < after.objects.len() implies points_in_range(
                (#[trigger] after.objects[j]).polygon,
            ) by {
                if j < before.objects.len() {
                    assert(after.objects[j] == before.objects[j]);
                } else {
                    let o = clip_objects[j - before.objects.len()];
                    assert(after.objects[j].polygon == pasted_polygon(o.polygon));
                    lemma_pasted_in_range(o.polygon);
                }
            }
        }
        if object_count > 0 {
            self.selected_object_id = Some((base as i64 + (object_count - 1) as i64) as i32);
        } else {
            self.selected_object_id = Some(roi_id_from_index(annotation.rois.len() - 1));
        }
        self.has_unsaved_changes = true;
        proof {
            let expected = old(self)@.paste();
            assert(old(self)@.annotation == Some(before));
            assert(old(self)@.clipboard_objects == clip_objects);
            assert(old(self)@.clipboard_rois == clip_rois);
            assert(self@.annotation.unwrap() =~~= expected.annotation.unwrap());
            assert(self@ =~~= expected);
        }
    }

    /// Closes the project: nothing stays open, selected, drawn or copied.
    pub fn close_project(&mut self)
        ensures
            final(self)@ == old(self)@.close_project(),
            final(self)@.wf(),
    {
        self.meta = None;
        self.current_annotation = None;
        self.image_size = None;
        self.has_unsaved_changes = false;
        self.default_category_id = None;
        self.selected_object_id = None;
        self.clear_drawing_state();
        self.clipboard_objects.clear();
        self.clipboard_rois.clear();
        self.editing_state = EditingState::new();
        assert(self@.clipboard_objects =~= Seq::empty());
        assert(self@.clipboard_rois =~= Seq::empty());
    }

    /// Whether the document is to be saved before it is left.
    pub fn save_if_needed(&self) -> (save: bool)
        ensures
            save == self@.should_save(),
    {
        self.has_unsaved_changes && match &self.meta {
            Some(m) => m.shape.auto_save,
            None => true,
        }
    }

    /// The metadata of the open project.
    pub fn get_meta(&self) -> (meta: Option<&Meta>)
        ensures
            meta == match self.meta {
                Some(m) => Some(&m),
                None => None,
            },
    {
        self.meta.as_ref()
    }
}

/// The points of every object are in range.
pub open spec fn objects_range_spec(objects: Seq<Object>) -> bool {
    forall|j: int| 0 <= j < objects.len() ==> points_in_range((#[trigger] objects[j]).polygon@)
}

/// Whether the place of every click is in range.
fn clicks_in_range(clicks: &Vec<PendingDrawClick>) -> (ok: bool)
    ensures
        ok == forall|j: int| 0 <= j < clicks@.len() ==> (#[trigger] clicks@[j]).position.in_range(),
{
    let mut k: usize = 0;
    while k < clicks.len()
        invariant
            k <= clicks@.len(),
            forall|j: int| 0 <= j < k ==> (#[trigger] clicks@[j]).position.in_range(),
        decreases clicks@.len() - k,
    {
        if !clicks[k].position.check_in_range() {
            return false;
        }
        k = k + 1;
    }
    true
}

/// Whether the points of every object are in range.
fn objects_in_range(objects: &Vec<Object>) -> (ok: bool)
    ensures
        ok == objects_range_spec(objects@),
{
    let ghost views = objects@.map_values(|o: Object| o@);
    let mut k: usize = 0;
    while k < objects.len()
        invariant
            k <= objects@.len(),
            views == objects@.map_values(|o: Object| o@),
            forall|j: int| 0 <= j < k ==> points_in_range((#[trigger] objects@[j]).polygon@),
        decreases objects@.len() - k,
    {
        if !crate::annotation::check_points_in_range(&objects[k].polygon) {
            assert(!points_in_range(objects@[k as int].polygon@));
            return false;
        }
        k = k + 1;
    }
    true
}

/// Whether the points of every polygon are in range.
fn polygons_in_range(polygons: &Vec<Vec<Point>>) -> (ok: bool)
    ensures
        ok == forall|j: int| 0 <= j < polygons@.len() ==> points_in_range((#[trigger] polygons@[j])@),
{
    let ghost views = polygons@.map_values(|r: Vec<Point>| r@);
    let mut k: usize = 0;
    while k < polygons.len()
        invariant
            k <= polygons@.len(),
            views == polygons@.map_values(|r: Vec<Point>| r@),
            forall|j: int| 0 <= j < k ==> points_in_range((#[trigger] polygons@[j])@),
        decreases polygons@.len() - k,
    {
        if !crate::annotation::check_points_in_range(&polygons[k]) {
            assert(!points_in_range(polygons@[k as int]@));
            return false;
        }
        k = k + 1;
    }
    true
}

/// The polygon of a pasted shape.
pub fn paste_polygon(polygon: &Vec<Point>) -> (pasted: Vec<Point>)
    ensures
        pasted@ == pasted_polygon(polygon@),
{
    let mut pasted: Vec<Point> = Vec::new();
    let mut i: usize = 0;
    while i < polygon.len()
        invariant
            i <= polygon@.len(),
            pasted@.len() == i,
            forall|j: int| 0 <= j < i ==> #[trigger] pasted@[j] == pasted_point(polygon@[j]),
        decreases polygon@.len() - i,
    {
        let p: Point = polygon[i];
        let x: i64 = p.x as i64 + PASTE_OFFSET as i64;
        let y: i64 = p.y as i64 + PASTE_OFFSET as i64;
        pasted.push(
            Point {
                x: if x > UNIT as i64 { UNIT } else { x as i32 },
                y: if y > UNIT as i64 { UNIT } else { y as i32 },
            },
        );
        i = i + 1;
    }
    assert(pasted@ =~= pasted_polygon(polygon@));
    pasted
}

/// A pasted polygon of points in range is in range.
pub proof fn lemma_pasted_in_range(polygon: Seq<Point>)
    requires
        points_in_range(polygon),
    ensures
        points_in_range(pasted_polygon(polygon)),
{
    let pasted = pasted_polygon(polygon);
    assert forall|i: int| 0 <= i < pasted.len() implies (#[trigger] pasted[i]).in_range() by {
        assert(polygon[i].in_range());
    }
}

/// Decides [`step_offset`].
pub fn offset_of_steps(direction: i32, shift_held: bool, extent: u32) -> (offset: i32)
    requires
        extent > 0,
    ensures
        offset == step_offset(direction, shift_held, extent),
{
    let pixels: i64 = if shift_held { 10 * (direction as i64) } else { direction as i64 };
    let scaled: i64 = pixels * 1_000_000;
    let quotient: i64 = if scaled >= 0 {
        scaled / (extent as i64)
    } else {
        -((-scaled) / (extent as i64))
    };
    if quotient < -0x8000_0000 {
        -0x8000_0000
    } else if quotient > 0x7fff_ffff {
        0x7fff_ffff
    } else {
        quotient as i32
    }
}

/// The tools of the drawing mode.
pub struct DrawingTools;

impl DrawingTools {
    /// A click in drawing mode places a point.
    pub fn handle_click(state: &mut AppState, clicked_pos: Point)
        ensures
            final(state)@ == old(state)@.place_point(clicked_pos),
    {
        state.place_point(clicked_pos);
    }

    /// Gives the selected object the category `category_id` and records
    /// the time of the change.
    pub fn change_selected_category(state: &mut AppState, category_id: i32)
        ensures
            final(state)@ == old(state)@.change_selected_category(
                category_id,
                final(state)@.last_modified(),
            ),
            old(state)@.wf() ==> final(state)@.wf(),
    {
        let id: i32 = match state.selected_object_id {
            Some(id) => id,
            None => {
                return ;
            },
        };
        let mut changed: bool = false;
        match &mut state.current_annotation {
            None => {},
            Some(annotation) => {
                let ghost before = annotation@;
                match annotation.find_object_index(id) {
                    Some(k) => {
                        annotation.objects[k].category = category_id;
                        proof {
                            assert(annotation@.objects =~= before.objects.update(
                                k as int,
                                ObjectView { category: category_id, ..before.objects[k as int] },
                            ));
                            assert(annotation@.rois =~= before.rois);
                        }
                        annotation.touch();
                        changed = true;
                        proof {
                            let after = annotation@;
                            if before.within_limits() {
                                assert forall|j: int|
                                    0 <= j < after.objects.len() implies points_in_range(
                                    (#[trigger] after.objects[j]).polygon,
                                ) by {
                                    assert(after.objects[j].polygon == before.objects[j].polygon);
                                }
                            }
                        }
                    },
                    None => {},
                }
            },
        }
        if changed {
            state.has_unsaved_changes = true;
        }
    }

    /// Drops what is being drawn.
    pub fn cancel_drawing(state: &mut AppState)
        ensures
            final(state)@ == old(state)@.cleared_drawing(),
    {
        if state.temp_points.len() > 0 || state.pending_draw_clicks.len() > 0 {
            state.clear_drawing_state();
        } else {
            assert(state@ =~= old(state)@.cleared_drawing());
        }
    }
}

/// A shape that an id resolves to is a shape of the document.
pub proof fn lemma_resolved_shape(a: AnnotationView, shape_id: i32)
    ensures
        a.resolve(shape_id) matches Some(shape) ==> a.has_shape(shape),
{
    if shape_id >= 0 {
        if a.object_ids().contains(shape_id) {
            crate::meta::lemma_first_position_exists(a.object_ids(), shape_id);
        }
    }
}

/// An edit that is not made leaves the polygon as it is.
pub proof fn lemma_unmade_edit(polygon: Seq<Point>, edit: PolygonEdit)
    requires
        !edit_applies(polygon, edit),
    ensures
        spec_apply_edit(polygon, edit) == polygon,
{
    match edit {
        PolygonEdit::FixSelfIntersections => {
            assert(crate::repair::repair(polygon, crate::repair::repair_cap(polygon.len()))
                == polygon);
        },
        PolygonEdit::ToRectangle => {},
        _ => {},
    }
}

/// Points and clicks that are taken away leave the rest in range.
pub proof fn lemma_undo_keeps_wf(before: AppStateView, after: AppStateView)
    requires
        before.wf(),
        after.annotation == before.annotation,
        after.clipboard_objects == before.clipboard_objects,
        after.clipboard_rois == before.clipboard_rois,
        after.temp_points.len() <= before.temp_points.len(),
        after.pending_draw_clicks.len() <= before.pending_draw_clicks.len(),
        forall|k: int| 0 <= k < after.temp_points.len() ==> after.temp_points[k] == before.temp_points[k],
        forall|k: int|
            0 <= k < after.pending_draw_clicks.len() ==> after.pending_draw_clicks[k]
                == before.pending_draw_clicks[k],
    ensures
        after.wf(),
{
    assert forall|k: int| 0 <= k < after.temp_points.len() implies (
    #[trigger] after.temp_points[k]).in_range() by {
        assert(before.temp_points[k].in_range());
    }
    assert forall|k: int| 0 <= k < after.pending_draw_clicks.len() implies (
    #[trigger] after.pending_draw_clicks[k]).position.in_range() by {
        assert(before.pending_draw_clicks[k].position.in_range());
    }
}

/// Placing the clicks that are due keeps the session well-formed.
pub proof fn lemma_due_clicks_keep_wf(s: AppStateView, now: u64, delay: u64)
    requires
        s.wf(),
    ensures
        s.place_due_clicks(now, delay).wf(),
{
    let after = s.place_due_clicks(now, delay);
    if s.editing_state.mode == EditMode::Drawing {
        let due = |c: PendingDrawClick| is_due(c, now, delay);
        let waits = |c: PendingDrawClick| !is_due(c, now, delay);
        let placed = s.pending_draw_clicks.filter(due);
        let kept = s.pending_draw_clicks.filter(waits);
        assert forall|k: int| 0 <= k < after.temp_points.len() implies (
        #[trigger] after.temp_points[k]).in_range() by {
            let n = s.temp_points.len();
            if k >= n {
                let c = placed[k - n];
                assert(placed.contains(c));
                s.pending_draw_clicks.lemma_filter_contains_rev(due, c);
                let j = choose|j: int|
                    0 <= j < s.pending_draw_clicks.len() && s.pending_draw_clicks[j] == c;
                assert(s.pending_draw_clicks[j].position.in_range());
            } else {
                assert(s.temp_points[k].in_range());
            }
        }
        assert forall|k: int| 0 <= k < after.pending_draw_clicks.len() implies (
        #[trigger] after.pending_draw_clicks[k]).position.in_range() by {
            let c = kept[k];
            assert(kept.contains(c));
            s.pending_draw_clicks.lemma_filter_contains_rev(waits, c);
            let j = choose|j: int|
                0 <= j < s.pending_draw_clicks.len() && s.pending_draw_clicks[j] == c;
            assert(s.pending_draw_clicks[j].position.in_range());
        }
    }
}

/// The edits of vertices and the selection leave the time of the last
/// change of the document as it is.
pub proof fn lemma_edits_keep_time(s: AppStateView, response: CanvasResponse)
    ensures
        s.apply_edits(response).apply_selection(response).last_modified() == s.last_modified(),
{
    let s1 = match response.vertex_added {
        Some((id, edge, pos)) => s.edit_polygon(id, PolygonEdit::InsertVertex { edge, pos }),
        None => s,
    };
    assert(s1.last_modified() == s.last_modified()) by {
        if let Some((id, edge, pos)) = response.vertex_added {
            lemma_edit_keeps_time(s, id, PolygonEdit::InsertVertex { edge, pos });
        }
    }
    let s2 = match response.vertex_dragged {
        Some((id, index, pos)) => s1.edit_polygon(id, PolygonEdit::MoveVertex { index, pos }),
        None => s1,
    };
    assert(s2.last_modified() == s1.last_modified()) by {
        if let Some((id, index, pos)) = response.vertex_dragged {
            lemma_edit_keeps_time(s1, id, PolygonEdit::MoveVertex { index, pos });
        }
    }
    let s3 = match response.object_dragged {
        Some((id, offset)) => s2.edit_polygon(
            id,
            PolygonEdit::Translate { dx: offset.x, dy: offset.y },
        ),
        None => s2,
    };
    assert(s3.last_modified() == s2.last_modified()) by {
        if let Some((id, offset)) = response.object_dragged {
            lemma_edit_keeps_time(s2, id, PolygonEdit::Translate { dx: offset.x, dy: offset.y });
        }
    }
    if let Some((id, index)) = response.vertex_deleted {
        lemma_edit_keeps_time(s3, id, PolygonEdit::DeleteVertex { index });
    }
}

/// An edit of a polygon leaves the time of the last change as it is.
pub proof fn lemma_edit_keeps_time(s: AppStateView, shape_id: i32, edit: PolygonEdit)
    ensures
        s.edit_polygon(shape_id, edit).last_modified() == s.last_modified(),
{
}

} // verus!
