//! The pointer interaction state machine of the canvas.
//!
//! Once per frame the canvas is told what the pointer did. It keeps what
//! spans frames (a drag in progress, a click that may still become a
//! double click) and reports what the frame means for the document: a
//! vertex added, moved or deleted, a shape moved or selected, a drawing
//! finished. It changes no document itself.

use crate::annotation::{Annotation, AnnotationView};
use crate::geometry::Point;
use crate::hit_test::{
    find_edge_at_pos, find_object_at_pos, find_selected_at_pos, find_smallest_object_at_pos,
    find_vertex_at_pos, find_vertex_at_pos_any_object, spec_find_edge_at_pos,
    spec_find_object_at_pos, spec_find_selected_at_pos, spec_find_smallest_object_at_pos,
    spec_find_vertex_at_pos, spec_find_vertex_at_pos_any_object, spec_vertex_radius, ScreenPos,
    ScreenRect, SELECTED_VERTEX_RADIUS,
};
use crate::meta::Meta;
use crate::state::EditMode;
use vstd::prelude::*;

verus! {

/// Time, in milliseconds, that a click waits for a second click before it
/// counts as a single click.
pub const DOUBLE_CLICK_TIMEOUT: u64 = 200;

/// The zoom at which one pixel of the image covers one pixel of the
/// screen. Zoom is counted in thousandths.
pub const ZOOM_ONE: u32 = 1000;

/// The smallest zoom.
pub const ZOOM_MIN: u32 = 100;

/// The largest zoom.
pub const ZOOM_MAX: u32 = 10_000;

/// A click that waits for the double-click window to pass.
#[derive(Clone, Copy, Debug, PartialEq, Eq, Structural)]
pub struct PendingClick {
    /// Where the click was, on the screen.
    pub pos: ScreenPos,
    /// When the click was, in milliseconds.
    pub time: u64,
}

/// The view onto the image and the interaction in progress.
#[derive(Clone, Copy, Debug)]
pub struct Canvas {
    /// Zoom in thousandths, from [`ZOOM_MIN`] to [`ZOOM_MAX`].
    pub zoom: u32,
    /// Offset of the image from the centre of the canvas, in screen steps.
    pub pan_offset: (i32, i32),
    /// The vertex that is being dragged: the id of its shape and its
    /// position in the polygon.
    pub dragging_vertex: Option<(i32, usize)>,
    /// The shape that is being dragged: its id and the document point under
    /// the pointer in the frame before.
    pub dragging_object: Option<(i32, Point)>,
    /// The click that may still become a double click.
    pub pending_click: Option<PendingClick>,
}

/// What the pointer did in one frame.
#[derive(Clone, Copy, Debug)]
pub struct FrameInput {
    /// The area of the screen that the canvas covers.
    pub rect: ScreenRect,
    /// The time of the frame, in milliseconds.
    pub time: u64,
    /// The pointer drags with the middle button, or with the control key.
    pub pan_dragged: bool,
    /// How far the pointer moved in this frame while dragging.
    pub drag_delta: (i32, i32),
    /// The pointer is over the canvas.
    pub hovered: bool,
    /// How far the wheel scrolled, in screen steps.
    pub scroll_delta: i32,
    /// Where the pointer interacts with the canvas.
    pub pointer_pos: Option<ScreenPos>,
    /// A drag began in this frame.
    pub drag_started: bool,
    /// A drag is going on.
    pub dragged: bool,
    /// A drag ended in this frame.
    pub drag_stopped: bool,
    /// The primary button was clicked.
    pub clicked: bool,
    /// The primary button was clicked twice.
    pub double_clicked: bool,
    /// The secondary button was clicked.
    pub secondary_clicked: bool,
}

/// What a frame means for the document and the selection.
#[derive(Clone, Copy, Debug)]
pub struct CanvasResponse {
    /// A click in drawing mode, in the document.
    pub clicked_pos: Option<Point>,
    /// A secondary click that deleted no vertex.
    pub right_clicked: bool,
    /// The rectangle that the image covers on the screen.
    pub canvas_rect: Option<ScreenRect>,
    /// A vertex was dragged: shape, position in the polygon, new place.
    pub vertex_dragged: Option<(i32, usize, Point)>,
    /// A shape was dragged: shape and the offset since the frame before.
    pub object_dragged: Option<(i32, Point)>,
    /// A vertex is to be added: shape, the edge it splits, its place.
    pub vertex_added: Option<(i32, usize, Point)>,
    /// A vertex is to be deleted: shape and position in the polygon.
    pub vertex_deleted: Option<(i32, usize)>,
    /// A shape was clicked.
    pub object_clicked: Option<i32>,
    /// A click hit no shape.
    pub clicked_empty: bool,
    /// A vertex of the selected shape was clicked.
    pub vertex_clicked: Option<(i32, usize)>,
    /// A vertex of some shape was double-clicked.
    pub vertex_double_clicked: Option<(i32, usize)>,
    /// A shape was double-clicked.
    pub object_double_clicked: Option<i32>,
    /// A double click asks to finish the drawing.
    pub finish_drawing: bool,
    /// Where that double click was, in the document.
    pub finish_drawing_pos: Option<Point>,
}

/// Every point that `response` reports is a point of the image.
pub open spec fn response_is_normalized(response: CanvasResponse) -> bool {
    &&& response.clicked_pos matches Some(pos) ==> pos.is_normalized()
    &&& response.finish_drawing_pos matches Some(pos) ==> pos.is_normalized()
    &&& response.vertex_added matches Some(added) ==> added.2.is_normalized()
    &&& response.vertex_dragged matches Some(dragged) ==> dragged.2.is_normalized()
}

/// The response of a frame in which nothing happened.
pub open spec fn idle_response() -> CanvasResponse {
    CanvasResponse {
        clicked_pos: None,
        right_clicked: false,
        canvas_rect: None,
        vertex_dragged: None,
        object_dragged: None,
        vertex_added: None,
        vertex_deleted: None,
        object_clicked: None,
        clicked_empty: false,
        vertex_clicked: None,
        vertex_double_clicked: None,
        object_double_clicked: None,
        finish_drawing: false,
        finish_drawing_pos: None,
    }
}

impl Default for CanvasResponse {
    fn default() -> (response: CanvasResponse)
        ensures
            response == idle_response(),
    {
        CanvasResponse {
            clicked_pos: None,
            right_clicked: false,
            canvas_rect: None,
            vertex_dragged: None,
            object_dragged: None,
            vertex_added: None,
            vertex_deleted: None,
            object_clicked: None,
            clicked_empty: false,
            vertex_clicked: None,
            vertex_double_clicked: None,
            object_double_clicked: None,
            finish_drawing: false,
            finish_drawing_pos: None,
        }
    }
}

/// `v` limited to the range of `i32`.
pub open spec fn clamp_i32(v: int) -> int {
    if v < i32::MIN {
        i32::MIN as int
    } else if v > i32::MAX {
        i32::MAX as int
    } else {
        v
    }
}

/// `zoom` limited to the range from [`ZOOM_MIN`] to [`ZOOM_MAX`].
pub open spec fn clamp_zoom(zoom: int) -> int {
    if zoom < ZOOM_MIN {
        ZOOM_MIN as int
    } else if zoom > ZOOM_MAX {
        ZOOM_MAX as int
    } else {
        zoom
    }
}

/// The zoom after the wheel has scrolled by `scroll` screen steps: each
/// pixel scrolled changes the zoom by two thousandths of itself.
pub open spec fn zoom_after_scroll(zoom: u32, scroll: i32) -> int {
    clamp_zoom(zoom * (1_000_000 + 2 * scroll) / 1_000_000)
}

/// The zoom at which an image of `image` pixels fits into a canvas of
/// `canvas` screen steps: 95 hundredths of the smaller of the two ratios.
pub open spec fn zoom_to_fit(canvas: (u32, u32), image: (u32, u32)) -> int {
    let zoom_x = (canvas.0 as int) / (image.0 as int);
    let zoom_y = (canvas.1 as int) / (image.1 as int);
    (if zoom_x <= zoom_y { zoom_x } else { zoom_y }) * 95 / 100
}

/// The rectangle that an image of `width` by `height` pixels covers: its
/// size is the size of the image times the zoom, and its centre is the
/// centre of `rect` moved by the pan offset. There is none where the image
/// has no area or the rectangle does not fit the coordinates of the screen.
pub open spec fn spec_image_rect(canvas: Canvas, rect: ScreenRect, width: u32, height: u32) -> Option<
    ScreenRect,
> {
    let w = width * canvas.zoom;
    let h = height * canvas.zoom;
    let left = rect.left + rect.width / 2 + canvas.pan_offset.0 - w / 2;
    let top = rect.top + rect.height / 2 + canvas.pan_offset.1 - h / 2;
    if 0 < w <= i32::MAX && 0 < h <= i32::MAX && i32::MIN <= left <= i32::MAX && i32::MIN <= top
        <= i32::MAX {
        Some(ScreenRect { left: left as i32, top: top as i32, width: w as i32, height: h as i32 })
    } else {
        None
    }
}

impl Canvas {
    /// The canvas at the start: the image at its own size and centred, no
    /// interaction in progress.
    pub fn new() -> (canvas: Canvas)
        ensures
            canvas == (Canvas {
                zoom: ZOOM_ONE,
                pan_offset: (0, 0),
                dragging_vertex: None,
                dragging_object: None,
                pending_click: None,
            }),
            canvas.wf(),
    {
        Canvas {
            zoom: ZOOM_ONE,
            pan_offset: (0, 0),
            dragging_vertex: None,
            dragging_object: None,
            pending_click: None,
        }
    }

    /// The point kept of a dragged shape is a point of the image.
    pub open spec fn wf(self) -> bool {
        self.dragging_object matches Some((_, start)) ==> start.is_normalized()
    }

    /// Decides [`Canvas::wf`].
    pub fn check(&self) -> (ok: bool)
        ensures
            ok == self.wf(),
    {
        match self.dragging_object {
            Some((_, start)) => start.check_normalized(),
            None => true,
        }
    }

    /// Shows the image at its own size and centred.
    pub fn reset_view(&mut self)
        ensures
            *final(self) == (Canvas { zoom: ZOOM_ONE, pan_offset: (0, 0), ..*old(self) }),
    {
        self.zoom = ZOOM_ONE;
        self.pan_offset = (0, 0);
    }

    /// Sets the zoom, limited to the range from [`ZOOM_MIN`] to
    /// [`ZOOM_MAX`].
    pub fn set_zoom(&mut self, zoom: u32)
        ensures
            *final(self) == (Canvas { zoom: clamp_zoom(zoom as int) as u32, ..*old(self) }),
    {
        self.zoom = if zoom < ZOOM_MIN {
            ZOOM_MIN
        } else if zoom > ZOOM_MAX {
            ZOOM_MAX
        } else {
            zoom
        };
    }

    /// Fits the image into the canvas and centres it. `canvas_size` is in
    /// screen steps, `image_size` in pixels. An image without area leaves
    /// the view as it is.
    pub fn fit_to_canvas(&mut self, canvas_size: (u32, u32), image_size: (u32, u32))
        ensures
            *final(self) == if image_size.0 == 0 || image_size.1 == 0 {
                *old(self)
            } else {
                Canvas {
                    zoom: zoom_to_fit(canvas_size, image_size) as u32,
                    pan_offset: (0, 0),
                    ..*old(self)
                }
            },
    {
        if image_size.0 == 0 || image_size.1 == 0 {
            return ;
        }
        let zoom_x: u32 = canvas_size.0 / image_size.0;
        let zoom_y: u32 = canvas_size.1 / image_size.1;
        let smaller: u64 = if zoom_x <= zoom_y { zoom_x as u64 } else { zoom_y as u64 };
        let fitted: u64 = smaller * 95 / 100;
        self.zoom = fitted as u32;
        self.pan_offset = (0, 0);
    }

    /// The rectangle that an image of `width` by `height` pixels covers on
    /// a canvas that covers `rect`.
    pub fn image_rect(&self, rect: ScreenRect, width: u32, height: u32) -> (image: Option<
        ScreenRect,
    >)
        ensures
            image == spec_image_rect(*self, rect, width, height),
            image matches Some(r) ==> r.is_drawable(),
    {
        assert(width * self.zoom <= 0xffff_ffff * 0xffff_ffff) by (nonlinear_arith)
            requires
                0 <= width <= 0xffff_ffff,
                0 <= self.zoom <= 0xffff_ffff,
        ;
        assert(height * self.zoom <= 0xffff_ffff * 0xffff_ffff) by (nonlinear_arith)
            requires
                0 <= height <= 0xffff_ffff,
                0 <= self.zoom <= 0xffff_ffff,
        ;
        let w: u64 = (width as u64) * (self.zoom as u64);
        let h: u64 = (height as u64) * (self.zoom as u64);
        if w == 0 || w > 0x7fff_ffff || h == 0 || h > 0x7fff_ffff {
            return None;
        }
        let left: i64 = rect.left as i64 + half(rect.width) + self.pan_offset.0 as i64 - (w
            / 2) as i64;
        let top: i64 = rect.top as i64 + half(rect.height) + self.pan_offset.1 as i64 - (h
            / 2) as i64;
        if left < -0x8000_0000 || left > 0x7fff_ffff || top < -0x8000_0000 || top > 0x7fff_ffff {
            return None;
        }
        Some(ScreenRect { left: left as i32, top: top as i32, width: w as i32, height: h as i32 })
    }
}

/// Half of `v`, rounded down.
fn half(v: i32) -> (h: i64)
    ensures
        h == v / 2,
{
    if v >= 0 {
        (v / 2) as i64
    } else {
        let w: i64 = v as i64;
        -((1 - w) / 2)
    }
}

/// The sum of `a` and `b`, limited to the range of `i32`.
pub fn clamped_add(a: i32, b: i32) -> (sum: i32)
    ensures
        sum == clamp_i32(a + b),
{
    let wide: i64 = a as i64 + b as i64;
    if wide < -0x8000_0000 {
        -0x8000_0000
    } else if wide > 0x7fff_ffff {
        0x7fff_ffff
    } else {
        wide as i32
    }
}

/// Decides [`zoom_after_scroll`].
pub fn scrolled_zoom(zoom: u32, scroll: i32) -> (next: u32)
    ensures
        next == zoom_after_scroll(zoom, scroll),
{
    let factor: i64 = 1_000_000 + 2 * (scroll as i64);
    if factor <= 0 {
        proof {
            let product: int = zoom * (1_000_000 + 2 * scroll);
            assert(product <= 0) by (nonlinear_arith)
                requires
                    product == zoom * (1_000_000 + 2 * scroll),
                    zoom >= 0,
                    1_000_000 + 2 * scroll <= 0,
            ;
            assert(product / 1_000_000 <= 0);
        }
        return ZOOM_MIN;
    }
    assert(zoom * factor <= 0xffff_ffff * 0x1_0010_0000) by (nonlinear_arith)
        requires
            0 <= zoom <= 0xffff_ffff,
            0 < factor <= 0x1_0010_0000,
    ;
    assert(zoom * factor >= 0) by (nonlinear_arith)
        requires
            0 <= zoom,
            0 < factor,
    ;
    let scaled: i128 = (zoom as i128) * (factor as i128) / 1_000_000;
    if scaled < ZOOM_MIN as i128 {
        ZOOM_MIN
    } else if scaled > ZOOM_MAX as i128 {
        ZOOM_MAX
    } else {
        scaled as u32
    }
}

/// The start of a drag in editing mode, with the pointer at `pos`.
///
/// An edge of the selected shape under the pointer gets a new vertex there,
/// and the drag moves that vertex. Else a vertex of the selected shape
/// under the pointer is dragged. Else, where the pointer is over the area
/// of the selected shape, the whole shape is dragged.
pub open spec fn drag_start(
    canvas: Canvas,
    response: CanvasResponse,
    view: AnnotationView,
    pos: ScreenPos,
    selected: Option<i32>,
    rect: ScreenRect,
) -> (Canvas, CanvasResponse) {
    let at = rect.spec_to_normalized(pos);
    match spec_find_edge_at_pos(view, pos, selected, rect) {
        Some((id, edge)) => (
            Canvas { dragging_vertex: Some((id, (edge + 1) as usize)), ..canvas },
            CanvasResponse { vertex_added: Some((id, edge, at)), ..response },
        ),
        None => match spec_find_vertex_at_pos(view, pos, selected, rect, SELECTED_VERTEX_RADIUS) {
            Some(vertex) => (Canvas { dragging_vertex: Some(vertex), ..canvas }, response),
            None => match spec_find_selected_at_pos(view, pos, selected, rect) {
                Some(id) => (
                    Canvas { dragging_vertex: None, dragging_object: Some((id, at)), ..canvas },
                    response,
                ),
                None => (Canvas { dragging_vertex: None, ..canvas }, response),
            },
        },
    }
}

/// The report of a dragged vertex: in editing mode, while a drag goes on,
/// the vertex that is being dragged moves to the pointer.
pub open spec fn drag_vertex(
    canvas: Canvas,
    response: CanvasResponse,
    input: FrameInput,
    at: Point,
    mode: EditMode,
) -> CanvasResponse {
    match canvas.dragging_vertex {
        Some((id, index)) => if mode == EditMode::Editing && input.dragged {
            CanvasResponse { vertex_dragged: Some((id, index, at)), ..response }
        } else {
            response
        },
        None => response,
    }
}

/// The report of a dragged shape: in editing mode, while a drag goes on,
/// the shape that is being dragged moves by as much as the pointer moved
/// since the frame before, and the canvas keeps the new place of the
/// pointer.
pub open spec fn drag_object(
    canvas: Canvas,
    response: CanvasResponse,
    input: FrameInput,
    at: Point,
    mode: EditMode,
) -> (Canvas, CanvasResponse) {
    match canvas.dragging_object {
        Some((id, start)) => if mode == EditMode::Editing && input.dragged {
            (
                Canvas { dragging_object: Some((id, at)), ..canvas },
                CanvasResponse {
                    object_dragged: Some(
                        (id, Point { x: (at.x - start.x) as i32, y: (at.y - start.y) as i32 }),
                    ),
                    ..response
                },
            )
        } else {
            (canvas, response)
        },
        None => (canvas, response),
    }
}

/// What dragging means in a frame, for a document that is there and a
/// pointer that may be: a drag starts (in editing mode, where none is in
/// progress), goes on, and stops.
pub open spec fn drag_phase(
    canvas: Canvas,
    response: CanvasResponse,
    input: FrameInput,
    view: AnnotationView,
    selected: Option<i32>,
    rect: ScreenRect,
    mode: EditMode,
) -> (Canvas, CanvasResponse) {
    match input.pointer_pos {
        None => (canvas, response),
        Some(pos) => {
            let at = rect.spec_to_normalized(pos);
            let started = if input.drag_started && canvas.dragging_vertex is None
                && canvas.dragging_object is None && mode == EditMode::Editing {
                drag_start(canvas, response, view, pos, selected, rect)
            } else {
                (canvas, response)
            };
            let moved = drag_vertex(started.0, started.1, input, at, mode);
            let dragged = drag_object(started.0, moved, input, at, mode);
            if input.drag_stopped {
                (Canvas { dragging_vertex: None, dragging_object: None, ..dragged.0 }, dragged.1)
            } else {
                dragged
            }
        },
    }
}

/// What a double click means. It ends the wait of a pending click. In
/// drawing mode with points drawn it finishes the drawing, where the
/// pointer is on the image. Else it picks a vertex of any shape, or else the
/// topmost shape under the pointer.
pub open spec fn double_click_phase(
    canvas: Canvas,
    response: CanvasResponse,
    input: FrameInput,
    view: Option<AnnotationView>,
    radius: u32,
    rect: ScreenRect,
    mode: EditMode,
    drawing_has_points: bool,
) -> (Canvas, CanvasResponse) {
    if !input.double_clicked {
        (canvas, response)
    } else {
        let cleared = Canvas { pending_click: None, ..canvas };
        match input.pointer_pos {
            None => (cleared, response),
            Some(pos) => if mode == EditMode::Drawing && drawing_has_points {
                if rect.spec_contains(pos) {
                    (
                        cleared,
                        CanvasResponse {
                            finish_drawing: true,
                            finish_drawing_pos: Some(rect.spec_to_normalized(pos)),
                            ..response
                        },
                    )
                } else {
                    (cleared, response)
                }
            } else {
                match view {
                    None => (cleared, response),
                    Some(v) => match spec_find_vertex_at_pos_any_object(v, pos, rect, radius) {
                        Some(vertex) => (
                            cleared,
                            CanvasResponse { vertex_double_clicked: Some(vertex), ..response },
                        ),
                        None => match spec_find_object_at_pos(v, pos, rect) {
                            Some(id) => (
                                cleared,
                                CanvasResponse { object_double_clicked: Some(id), ..response },
                            ),
                            None => (cleared, response),
                        },
                    },
                }
            },
        }
    }
}

/// The click of this frame counts: the primary button was clicked once, no
/// drag is in progress, and the pointer is on the image.
pub open spec fn click_counts(canvas: Canvas, input: FrameInput, rect: ScreenRect) -> bool {
    &&& input.clicked
    &&& !input.double_clicked
    &&& canvas.dragging_vertex is None
    &&& canvas.dragging_object is None
    &&& input.pointer_pos matches Some(pos) && rect.spec_contains(pos)
}

/// What a click means. In drawing mode it places a point at once. In the
/// other modes it waits for the double-click window to pass where there is
/// a document, and hits nothing where there is none.
pub open spec fn click_phase(
    canvas: Canvas,
    response: CanvasResponse,
    input: FrameInput,
    has_annotation: bool,
    rect: ScreenRect,
    mode: EditMode,
) -> (Canvas, CanvasResponse) {
    if !click_counts(canvas, input, rect) {
        (canvas, response)
    } else {
        let pos = input.pointer_pos.unwrap();
        if mode == EditMode::Drawing {
            (canvas, CanvasResponse { clicked_pos: Some(rect.spec_to_normalized(pos)), ..response })
        } else if has_annotation {
            (
                Canvas { pending_click: Some(PendingClick { pos, time: input.time }), ..canvas },
                response,
            )
        } else {
            (canvas, CanvasResponse { clicked_empty: true, ..response })
        }
    }
}

/// The pending click `pending` has waited longer than the double-click
/// window at the time `now`.
pub open spec fn click_is_due(pending: PendingClick, now: u64) -> bool {
    now - pending.time > DOUBLE_CLICK_TIMEOUT
}

/// What a single click at `pos` means once it is known to be one. In
/// editing mode it picks a vertex of the selected shape, or else the
/// smallest shape under the pointer; in the other modes the topmost shape
/// under the pointer. Where it hits nothing, it says so.
pub open spec fn resolve_click(
    response: CanvasResponse,
    view: AnnotationView,
    pos: ScreenPos,
    selected: Option<i32>,
    rect: ScreenRect,
    mode: EditMode,
) -> CanvasResponse {
    if mode == EditMode::Editing {
        match spec_find_vertex_at_pos(view, pos, selected, rect, SELECTED_VERTEX_RADIUS) {
            Some(vertex) => CanvasResponse { vertex_clicked: Some(vertex), ..response },
            None => match spec_find_smallest_object_at_pos(view, pos, rect) {
                Some(id) => CanvasResponse { object_clicked: Some(id), ..response },
                None => CanvasResponse { clicked_empty: true, ..response },
            },
        }
    } else {
        match spec_find_object_at_pos(view, pos, rect) {
            Some(id) => CanvasResponse { object_clicked: Some(id), ..response },
            None => CanvasResponse { clicked_empty: true, ..response },
        }
    }
}

/// What becomes of the pending click: once it has waited out the
/// double-click window it is taken from the canvas and, where there is a
/// document, resolved as a single click.
pub open spec fn pending_phase(
    canvas: Canvas,
    response: CanvasResponse,
    input: FrameInput,
    view: Option<AnnotationView>,
    selected: Option<i32>,
    rect: ScreenRect,
    mode: EditMode,
) -> (Canvas, CanvasResponse) {
    match canvas.pending_click {
        None => (canvas, response),
        Some(pending) => if click_is_due(pending, input.time) {
            let cleared = Canvas { pending_click: None, ..canvas };
            match view {
                None => (cleared, response),
                Some(v) => (cleared, resolve_click(response, v, pending.pos, selected, rect, mode)),
            }
        } else {
            (canvas, response)
        },
    }
}

/// What a secondary click means: in editing mode, on a vertex of the
/// selected shape, it asks to delete that vertex; anywhere else it is
/// reported as a secondary click.
pub open spec fn right_click_phase(
    response: CanvasResponse,
    input: FrameInput,
    view: Option<AnnotationView>,
    selected: Option<i32>,
    rect: ScreenRect,
    mode: EditMode,
) -> CanvasResponse {
    if !input.secondary_clicked {
        response
    } else {
        let vertex = match (input.pointer_pos, view) {
            (Some(pos), Some(v)) => if mode == EditMode::Editing {
                spec_find_vertex_at_pos(v, pos, selected, rect, SELECTED_VERTEX_RADIUS)
            } else {
                None
            },
            _ => None,
        };
        match vertex {
            Some(hit) => CanvasResponse { vertex_deleted: Some(hit), ..response },
            None => CanvasResponse { right_clicked: true, ..response },
        }
    }
}

/// The view after the pan and the zoom of a frame: a pan drag moves the
/// image by as much as the pointer moved, and the wheel over the canvas
/// zooms.
pub open spec fn view_phase(canvas: Canvas, input: FrameInput) -> Canvas {
    let pan = if input.pan_dragged {
        (
            clamp_i32(canvas.pan_offset.0 + input.drag_delta.0) as i32,
            clamp_i32(canvas.pan_offset.1 + input.drag_delta.1) as i32,
        )
    } else {
        canvas.pan_offset
    };
    let zoom = if input.hovered && input.scroll_delta != 0 {
        zoom_after_scroll(canvas.zoom, input.scroll_delta) as u32
    } else {
        canvas.zoom
    };
    Canvas { zoom, pan_offset: pan, ..canvas }
}

/// What the pointer means on an image shown in `rect`: dragging (where
/// there is a document), then a double click, a click, the pending click
/// and a secondary click, in this order.
pub open spec fn pointer_phases(
    canvas: Canvas,
    input: FrameInput,
    view: Option<AnnotationView>,
    radius: u32,
    selected: Option<i32>,
    rect: ScreenRect,
    mode: EditMode,
    drawing_has_points: bool,
) -> (Canvas, CanvasResponse) {
    let dragged = match view {
        Some(v) => drag_phase(canvas, idle_response(), input, v, selected, rect, mode),
        None => (canvas, idle_response()),
    };
    let doubled = double_click_phase(
        dragged.0,
        dragged.1,
        input,
        view,
        radius,
        rect,
        mode,
        drawing_has_points,
    );
    let clicked = click_phase(doubled.0, doubled.1, input, view is Some, rect, mode);
    let resolved = pending_phase(clicked.0, clicked.1, input, view, selected, rect, mode);
    let deleted = right_click_phase(resolved.1, input, view, selected, rect, mode);
    (resolved.0, CanvasResponse { canvas_rect: Some(rect), ..deleted })
}

/// The canvas and the response after a frame. Without an image, or with an
/// image that covers no rectangle of the screen, only the view changes.
pub open spec fn spec_show(
    canvas: Canvas,
    input: FrameInput,
    image_size: Option<(u32, u32)>,
    view: Option<AnnotationView>,
    radius: u32,
    selected: Option<i32>,
    drawing_has_points: bool,
    mode: EditMode,
) -> (Canvas, CanvasResponse) {
    let viewed = view_phase(canvas, input);
    match image_size {
        None => (viewed, idle_response()),
        Some((width, height)) => match spec_image_rect(viewed, input.rect, width, height) {
            None => (viewed, idle_response()),
            Some(rect) => pointer_phases(
                viewed,
                input,
                view,
                radius,
                selected,
                rect,
                mode,
                drawing_has_points,
            ),
        },
    }
}

/// The shape of the pointer over the canvas.
#[derive(Clone, Copy, Debug, PartialEq, Eq, Structural)]
pub enum CursorKind {
    /// Nothing to do here.
    Default,
    /// Something is being dragged.
    Grabbing,
    /// The view is panned.
    Move,
    /// A point is placed here, or a vertex added.
    Crosshair,
    /// Something here can be dragged.
    Grab,
}

/// The shape of the pointer at `pos`: what would happen there decides it.
///
/// A drag in progress comes first, then panning with the control key, then
/// drawing. In editing mode an edge of the selected shape under the pointer
/// takes a new vertex, a vertex of it can be dragged, and so can the shape
/// itself where the pointer is over its area.
pub open spec fn spec_cursor(
    canvas: Canvas,
    pos: ScreenPos,
    view: Option<AnnotationView>,
    selected: Option<i32>,
    rect: ScreenRect,
    mode: EditMode,
    ctrl_held: bool,
) -> CursorKind {
    if canvas.dragging_vertex is Some || canvas.dragging_object is Some {
        CursorKind::Grabbing
    } else if ctrl_held {
        CursorKind::Move
    } else if mode == EditMode::Drawing {
        CursorKind::Crosshair
    } else if mode == EditMode::Editing && view is Some {
        let v = view.unwrap();
        if spec_find_edge_at_pos(v, pos, selected, rect) is Some {
            CursorKind::Crosshair
        } else if spec_find_vertex_at_pos(v, pos, selected, rect, SELECTED_VERTEX_RADIUS)
            is Some {
            CursorKind::Grab
        } else if spec_find_selected_at_pos(v, pos, selected, rect) is Some {
            CursorKind::Grab
        } else {
            CursorKind::Default
        }
    } else {
        CursorKind::Default
    }
}

/// The view of an optional document.
pub open spec fn view_of(annotation: Option<&Annotation>) -> Option<AnnotationView> {
    match annotation {
        Some(a) => Some(a@),
        None => None,
    }
}

impl Canvas {
    fn drag_phase(
        &mut self,
        response: &mut CanvasResponse,
        input: &FrameInput,
        annotation: &Annotation,
        selected: Option<i32>,
        rect: ScreenRect,
        mode: EditMode,
    )
        requires
            old(self).wf(),
            rect.is_drawable(),
            annotation@.within_limits(),
        ensures
            (*final(self), *final(response)) == drag_phase(
                *old(self),
                *old(response),
                *input,
                annotation@,
                selected,
                rect,
                mode,
            ),
            final(self).wf(),
            response_is_normalized(*old(response)) ==> response_is_normalized(*final(response)),
    {
        let pos: ScreenPos = match input.pointer_pos {
            Some(pos) => pos,
            None => {
                return ;
            },
        };
        let at: Point = rect.screen_to_normalized(pos);
        if input.drag_started && self.dragging_vertex.is_none() && self.dragging_object.is_none()
            && mode == EditMode::Editing {
            match find_edge_at_pos(pos, annotation, selected, rect) {
                Some((id, edge)) => {
                    response.vertex_added = Some((id, edge, at));
                    self.dragging_vertex = Some((id, edge + 1));
                },
                None => {
                    self.dragging_vertex = find_vertex_at_pos(pos, annotation, selected, rect);
                    if self.dragging_vertex.is_none() {
                        match find_selected_at_pos(pos, annotation, selected, rect) {
                            Some(id) => {
                                self.dragging_object = Some((id, at));
                            },
                            None => {},
                        }
                    }
                },
            }
        }
        if mode == EditMode::Editing && input.dragged {
            match self.dragging_vertex {
                Some((id, index)) => {
                    response.vertex_dragged = Some((id, index, at));
                },
                None => {},
            }
            match self.dragging_object {
                Some((id, start)) => {
                    response.object_dragged = Some(
                        (id, Point { x: at.x - start.x, y: at.y - start.y }),
                    );
                    self.dragging_object = Some((id, at));
                },
                None => {},
            }
        }
        if input.drag_stopped {
            self.dragging_vertex = None;
            self.dragging_object = None;
        }
    }

    fn double_click_phase(
        &mut self,
        response: &mut CanvasResponse,
        input: &FrameInput,
        annotation: Option<&Annotation>,
        meta: Option<&Meta>,
        rect: ScreenRect,
        mode: EditMode,
        drawing_has_points: bool,
    )
        requires
            old(self).wf(),
            rect.is_drawable(),
            annotation matches Some(a) ==> a@.within_limits(),
        ensures
            (*final(self), *final(response)) == double_click_phase(
                *old(self),
                *old(response),
                *input,
                view_of(annotation),
                spec_vertex_radius(meta),
                rect,
                mode,
                drawing_has_points,
            ),
            final(self).wf(),
            response_is_normalized(*old(response)) ==> response_is_normalized(*final(response)),
    {
        if !input.double_clicked {
            return ;
        }
        self.pending_click = None;
        let pos: ScreenPos = match input.pointer_pos {
            Some(pos) => pos,
            None => {
                return ;
            },
        };
        if mode == EditMode::Drawing && drawing_has_points {
            if rect.contains(pos) {
                response.finish_drawing = true;
                response.finish_drawing_pos = Some(rect.screen_to_normalized(pos));
            }
        } else {
            match annotation {
                Some(a) => match find_vertex_at_pos_any_object(pos, a, rect, meta) {
                    Some(vertex) => {
                        response.vertex_double_clicked = Some(vertex);
                    },
                    None => match find_object_at_pos(pos, a, rect) {
                        Some(id) => {
                            response.object_double_clicked = Some(id);
                        },
                        None => {},
                    },
                },
                None => {},
            }
        }
    }

    fn click_phase(
        &mut self,
        response: &mut CanvasResponse,
        input: &FrameInput,
        has_annotation: bool,
        rect: ScreenRect,
        mode: EditMode,
    )
        requires
            old(self).wf(),
            rect.is_drawable(),
        ensures
            (*final(self), *final(response)) == click_phase(
                *old(self),
                *old(response),
                *input,
                has_annotation,
                rect,
                mode,
            ),
            final(self).wf(),
            response_is_normalized(*old(response)) ==> response_is_normalized(*final(response)),
    {
        if !input.clicked || input.double_clicked || self.dragging_vertex.is_some()
            || self.dragging_object.is_some() {
            return ;
        }
        let pos: ScreenPos = match input.pointer_pos {
            Some(pos) => pos,
            None => {
                return ;
            },
        };
        if !rect.contains(pos) {
            return ;
        }
        if mode == EditMode::Drawing {
            response.clicked_pos = Some(rect.screen_to_normalized(pos));
        } else if has_annotation {
            self.pending_click = Some(PendingClick { pos, time: input.time });
        } else {
            response.clicked_empty = true;
        }
    }

    fn pending_phase(
        &mut self,
        response: &mut CanvasResponse,
        input: &FrameInput,
        annotation: Option<&Annotation>,
        selected: Option<i32>,
        rect: ScreenRect,
        mode: EditMode,
    )
        requires
            old(self).wf(),
            rect.is_drawable(),
            annotation matches Some(a) ==> a@.within_limits(),
        ensures
            (*final(self), *final(response)) == pending_phase(
                *old(self),
                *old(response),
                *input,
                view_of(annotation),
                selected,
                rect,
                mode,
            ),
            final(self).wf(),
            response_is_normalized(*old(response)) ==> response_is_normalized(*final(response)),
    {
        let pending: PendingClick = match self.pending_click {
            Some(pending) => pending,
            None => {
                return ;
            },
        };
        if input.time <= pending.time || input.time - pending.time <= DOUBLE_CLICK_TIMEOUT {
            return ;
        }
        self.pending_click = None;
        let a: &Annotation = match annotation {
            Some(a) => a,
            None => {
                return ;
            },
        };
        if mode == EditMode::Editing {
            match find_vertex_at_pos(pending.pos, a, selected, rect) {
                Some(vertex) => {
                    response.vertex_clicked = Some(vertex);
                },
                None => match find_smallest_object_at_pos(pending.pos, a, rect) {
                    Some(id) => {
                        response.object_clicked = Some(id);
                    },
                    None => {
                        response.clicked_empty = true;
                    },
                },
            }
        } else {
            match find_object_at_pos(pending.pos, a, rect) {
                Some(id) => {
                    response.object_clicked = Some(id);
                },
                None => {
                    response.clicked_empty = true;
                },
            }
        }
    }

    fn right_click_phase(
        response: &mut CanvasResponse,
        input: &FrameInput,
        annotation: Option<&Annotation>,
        selected: Option<i32>,
        rect: ScreenRect,
        mode: EditMode,
    )
        ensures
            *final(response) == right_click_phase(
                *old(response),
                *input,
                view_of(annotation),
                selected,
                rect,
                mode,
            ),
            response_is_normalized(*old(response)) ==> response_is_normalized(*final(response)),
    {
        if !input.secondary_clicked {
            return ;
        }
        let mut handled: bool = false;
        match (input.pointer_pos, annotation) {
            (Some(pos), Some(a)) => {
                if mode == EditMode::Editing {
                    match find_vertex_at_pos(pos, a, selected, rect) {
                        Some(vertex) => {
                            response.vertex_deleted = Some(vertex);
                            handled = true;
                        },
                        None => {},
                    }
                }
            },
            _ => {},
        }
        if !handled {
            response.right_clicked = true;
        }
    }

    /// The shape of the pointer at `pos` over an image shown in
    /// `image_rect`.
    pub fn determine_cursor(
        &self,
        pos: ScreenPos,
        annotation: Option<&Annotation>,
        selected_object_id: Option<i32>,
        image_rect: ScreenRect,
        edit_mode: EditMode,
        ctrl_held: bool,
    ) -> (cursor: CursorKind)
        requires
            image_rect.is_drawable(),
            annotation matches Some(a) ==> a@.within_limits(),
        ensures
            cursor == spec_cursor(
                *self,
                pos,
                view_of(annotation),
                selected_object_id,
                image_rect,
                edit_mode,
                ctrl_held,
            ),
    {
        if self.dragging_vertex.is_some() || self.dragging_object.is_some() {
            return CursorKind::Grabbing;
        }
        if ctrl_held {
            return CursorKind::Move;
        }
        if edit_mode == EditMode::Drawing {
            return CursorKind::Crosshair;
        }
        if edit_mode == EditMode::Editing {
            match annotation {
                Some(a) => {
                    if find_edge_at_pos(pos, a, selected_object_id, image_rect).is_some() {
                        return CursorKind::Crosshair;
                    }
                    if find_vertex_at_pos(pos, a, selected_object_id, image_rect).is_some() {
                        return CursorKind::Grab;
                    }
                    if find_selected_at_pos(pos, a, selected_object_id, image_rect).is_some() {
                        return CursorKind::Grab;
                    }
                },
                None => {},
            }
        }
        CursorKind::Default
    }

    /// Takes in one frame of pointer input and says what it means.
    ///
    /// `image_size` is the size of the image in pixels, if one is loaded;
    /// `drawing_has_points` says whether the shape that is being drawn has
    /// points yet. The canvas pans and zooms first. Then, on an image that
    /// covers a rectangle of the screen, the pointer is read: dragging, a
    /// double click, a click, the click that waited, a secondary click.
    pub fn show(
        &mut self,
        input: &FrameInput,
        image_size: Option<(u32, u32)>,
        annotation: Option<&Annotation>,
        meta: Option<&Meta>,
        selected_object_id: Option<i32>,
        drawing_has_points: bool,
        edit_mode: EditMode,
    ) -> (response: CanvasResponse)
        requires
            old(self).wf(),
            annotation matches Some(a) ==> a@.within_limits(),
        ensures
            (*final(self), response) == spec_show(
                *old(self),
                *input,
                image_size,
                view_of(annotation),
                spec_vertex_radius(meta),
                selected_object_id,
                drawing_has_points,
                edit_mode,
            ),
            final(self).wf(),
            response_is_normalized(response),
    {
        if input.pan_dragged {
            self.pan_offset = (
                clamped_add(self.pan_offset.0, input.drag_delta.0),
                clamped_add(self.pan_offset.1, input.drag_delta.1),
            );
        }
        if input.hovered && input.scroll_delta != 0 {
            self.zoom = scrolled_zoom(self.zoom, input.scroll_delta);
        }
        let (width, height) = match image_size {
            Some(size) => size,
            None => {
                return CanvasResponse::default();
            },
        };
        let rect: ScreenRect = match self.image_rect(input.rect, width, height) {
            Some(rect) => rect,
            None => {
                return CanvasResponse::default();
            },
        };
        self.pointer_phases(
            input,
            annotation,
            meta,
            selected_object_id,
            rect,
            edit_mode,
            drawing_has_points,
        )
    }

    /// Reads the pointer on an image shown in `rect`.
    fn pointer_phases(
        &mut self,
        input: &FrameInput,
        annotation: Option<&Annotation>,
        meta: Option<&Meta>,
        selected_object_id: Option<i32>,
        rect: ScreenRect,
        edit_mode: EditMode,
        drawing_has_points: bool,
    ) -> (response: CanvasResponse)
        requires
            old(self).wf(),
            rect.is_drawable(),
            annotation matches Some(a) ==> a@.within_limits(),
        ensures
            (*final(self), response) == pointer_phases(
                *old(self),
                *input,
                view_of(annotation),
                spec_vertex_radius(meta),
                selected_object_id,
                rect,
                edit_mode,
                drawing_has_points,
            ),
            final(self).wf(),
            response_is_normalized(response),
    {
        let mut response: CanvasResponse = CanvasResponse::default();
        match annotation {
            Some(a) => {
                self.drag_phase(&mut response, input, a, selected_object_id, rect, edit_mode);
            },
            None => {},
        }
        self.double_click_phase(
            &mut response,
            input,
            annotation,
            meta,
            rect,
            edit_mode,
            drawing_has_points,
        );
        self.click_phase(&mut response, input, annotation.is_some(), rect, edit_mode);
        self.pending_phase(&mut response, input, annotation, selected_object_id, rect, edit_mode);
        Canvas::right_click_phase(
            &mut response,
            input,
            annotation,
            selected_object_id,
            rect,
            edit_mode,
        );
        response.canvas_rect = Some(rect);
        response
    }
}

} // verus!
