use jlab::annotation::{Annotation, Object};
use jlab::canvas::{Canvas, CanvasResponse, CursorKind, FrameInput, DOUBLE_CLICK_TIMEOUT};
use jlab::geometry::Point;
use jlab::hit_test::{ScreenPos, ScreenRect};
use jlab::state::EditMode;

fn pt(x: f64, y: f64) -> Point {
    Point::new((x * 1_000_000.0).round() as i32, (y * 1_000_000.0).round() as i32)
}

fn at(x: f64, y: f64) -> ScreenPos {
    ScreenPos { x: (x * 1_000_000.0).round() as i32, y: (y * 1_000_000.0).round() as i32 }
}

fn square(x0: f64, y0: f64, x1: f64, y1: f64) -> Vec<Point> {
    vec![pt(x0, y0), pt(x1, y0), pt(x1, y1), pt(x0, y1)]
}

/// An image of 1000 by 1000 pixels at full zoom on a canvas of the same size:
/// one screen step is one coordinate step.
const IMAGE: Option<(u32, u32)> = Some((1000, 1000));

fn frame(time: u64) -> FrameInput {
    FrameInput {
        rect: ScreenRect { left: 0, top: 0, width: 1_000_000, height: 1_000_000 },
        time,
        pan_dragged: false,
        drag_delta: (0, 0),
        hovered: false,
        scroll_delta: 0,
        pointer_pos: None,
        drag_started: false,
        dragged: false,
        drag_stopped: false,
        clicked: false,
        double_clicked: false,
        secondary_clicked: false,
    }
}

fn click(time: u64, pos: ScreenPos) -> FrameInput {
    FrameInput { pointer_pos: Some(pos), clicked: true, ..frame(time) }
}

fn document() -> Annotation {
    let mut annotation = Annotation::new_at("test", 0);
    annotation.objects.push(Object::new(0, 1, square(0.1, 0.1, 0.9, 0.9)));
    annotation.objects.push(Object::new(1, 1, square(0.4, 0.4, 0.6, 0.6)));
    annotation
}

fn is_idle(r: &CanvasResponse) -> bool {
    r.clicked_pos.is_none()
        && !r.right_clicked
        && r.vertex_dragged.is_none()
        && r.object_dragged.is_none()
        && r.vertex_added.is_none()
        && r.vertex_deleted.is_none()
        && r.object_clicked.is_none()
        && !r.clicked_empty
        && r.vertex_clicked.is_none()
        && r.vertex_double_clicked.is_none()
        && r.object_double_clicked.is_none()
        && !r.finish_drawing
        && r.finish_drawing_pos.is_none()
}

#[test]
fn frame_without_image_reports_nothing() {
    let mut canvas = Canvas::new();
    let annotation = document();
    let input = click(0, at(0.5, 0.5));
    let response = canvas.show(&input, None, Some(&annotation), None, None, false, EditMode::Browse);
    assert!(is_idle(&response));
    assert_eq!(response.canvas_rect, None);
    assert!(canvas.pending_click.is_none());
}

#[test]
fn image_rectangle_follows_zoom_and_pan() {
    let mut canvas = Canvas::new();
    let rect = ScreenRect { left: 0, top: 0, width: 1_000_000, height: 800_000 };
    assert_eq!(
        canvas.image_rect(rect, 1000, 500),
        Some(ScreenRect { left: 0, top: 150_000, width: 1_000_000, height: 500_000 })
    );
    canvas.set_zoom(500);
    canvas.pan_offset = (10_000, -20_000);
    assert_eq!(
        canvas.image_rect(rect, 1000, 500),
        Some(ScreenRect { left: 260_000, top: 255_000, width: 500_000, height: 250_000 })
    );
    // An image without area covers no rectangle.
    assert_eq!(canvas.image_rect(rect, 0, 500), None);
    canvas.reset_view();
    assert_eq!(canvas.zoom, 1000);
    assert_eq!(canvas.pan_offset, (0, 0));
}

#[test]
fn zoom_is_limited() {
    let mut canvas = Canvas::new();
    canvas.set_zoom(5);
    assert_eq!(canvas.zoom, 100);
    canvas.set_zoom(20_000);
    assert_eq!(canvas.zoom, 10_000);
    canvas.set_zoom(2_500);
    assert_eq!(canvas.zoom, 2_500);
}

#[test]
fn fit_to_canvas_leaves_a_margin() {
    let mut canvas = Canvas::new();
    canvas.pan_offset = (5, 5);
    // A canvas of 800 by 600 pixels and an image of 1600 by 600 pixels: the smaller
    // ratio is 0.5, and 95 hundredths of it are 0.475.
    canvas.fit_to_canvas((800_000, 600_000), (1600, 600));
    assert_eq!(canvas.zoom, 475);
    assert_eq!(canvas.pan_offset, (0, 0));
    // An image without area changes nothing.
    canvas.fit_to_canvas((800_000, 600_000), (0, 600));
    assert_eq!(canvas.zoom, 475);
}

#[test]
fn wheel_zooms_and_pan_drag_moves() {
    let mut canvas = Canvas::new();
    // Scrolling by 100 pixels zooms by 20 percent.
    let scroll = FrameInput { hovered: true, scroll_delta: 100_000, ..frame(0) };
    canvas.show(&scroll, IMAGE, None, None, None, false, EditMode::Browse);
    assert_eq!(canvas.zoom, 1200);
    // Not over the canvas: no zoom.
    let away = FrameInput { hovered: false, scroll_delta: 100_000, ..frame(0) };
    canvas.show(&away, IMAGE, None, None, None, false, EditMode::Browse);
    assert_eq!(canvas.zoom, 1200);
    // Scrolling far back stops at the smallest zoom.
    let back = FrameInput { hovered: true, scroll_delta: -600_000, ..frame(0) };
    canvas.show(&back, IMAGE, None, None, None, false, EditMode::Browse);
    assert_eq!(canvas.zoom, 100);

    let pan = FrameInput { pan_dragged: true, drag_delta: (3_000, -4_000), ..frame(0) };
    canvas.show(&pan, IMAGE, None, None, None, false, EditMode::Browse);
    canvas.show(&pan, IMAGE, None, None, None, false, EditMode::Browse);
    assert_eq!(canvas.pan_offset, (6_000, -8_000));
}

#[test]
fn click_in_drawing_mode_places_a_point_at_once() {
    let mut canvas = Canvas::new();
    let annotation = document();
    let input = click(1000, at(0.25, 0.75));
    let response =
        canvas.show(&input, IMAGE, Some(&annotation), None, None, false, EditMode::Drawing);
    assert_eq!(response.clicked_pos, Some(pt(0.25, 0.75)));
    assert!(canvas.pending_click.is_none());
    assert_eq!(
        response.canvas_rect,
        Some(ScreenRect { left: 0, top: 0, width: 1_000_000, height: 1_000_000 })
    );
    // Without a document too.
    let response = canvas.show(&input, IMAGE, None, None, None, false, EditMode::Drawing);
    assert_eq!(response.clicked_pos, Some(pt(0.25, 0.75)));
}

#[test]
fn click_outside_the_image_is_ignored() {
    let mut canvas = Canvas::new();
    canvas.set_zoom(500);
    let annotation = document();
    // The image covers the middle of the canvas, from 0.25 to 0.75.
    let input = click(0, at(0.1, 0.5));
    let response =
        canvas.show(&input, IMAGE, Some(&annotation), None, None, false, EditMode::Drawing);
    assert!(is_idle(&response));
    let input = click(0, at(0.5, 0.5));
    let response =
        canvas.show(&input, IMAGE, Some(&annotation), None, None, false, EditMode::Drawing);
    assert_eq!(response.clicked_pos, Some(pt(0.5, 0.5)));
}

#[test]
fn click_in_editing_mode_waits_for_the_double_click_window() {
    let mut canvas = Canvas::new();
    let annotation = document();
    let input = click(1000, at(0.5, 0.5));
    let response =
        canvas.show(&input, IMAGE, Some(&annotation), None, Some(0), false, EditMode::Editing);
    assert!(is_idle(&response));
    assert!(canvas.pending_click.is_some());

    // Exactly at the end of the window the click still waits.
    let response = canvas.show(
        &frame(1000 + DOUBLE_CLICK_TIMEOUT),
        IMAGE,
        Some(&annotation),
        None,
        Some(0),
        false,
        EditMode::Editing,
    );
    assert!(is_idle(&response));
    assert!(canvas.pending_click.is_some());

    // After it, the click selects the smallest shape under the pointer.
    let response = canvas.show(
        &frame(1001 + DOUBLE_CLICK_TIMEOUT),
        IMAGE,
        Some(&annotation),
        None,
        Some(0),
        false,
        EditMode::Editing,
    );
    assert_eq!(response.object_clicked, Some(1));
    assert!(!response.clicked_empty);
    assert!(canvas.pending_click.is_none());

    // Nothing is reported twice.
    let response = canvas.show(
        &frame(2000),
        IMAGE,
        Some(&annotation),
        None,
        Some(0),
        false,
        EditMode::Editing,
    );
    assert!(is_idle(&response));
}

#[test]
fn single_click_resolves_by_mode() {
    let annotation = document();

    // Editing: a vertex of the selected shape comes first.
    let mut canvas = Canvas::new();
    canvas.show(&click(0, at(0.1, 0.1)), IMAGE, Some(&annotation), None, Some(0), false, EditMode::Editing);
    let response =
        canvas.show(&frame(500), IMAGE, Some(&annotation), None, Some(0), false, EditMode::Editing);
    assert_eq!(response.vertex_clicked, Some((0, 0)));
    assert_eq!(response.object_clicked, None);

    // Browsing: the topmost shape, whatever its size.
    let mut reordered = Annotation::new_at("test", 0);
    reordered.objects.push(Object::new(1, 1, square(0.4, 0.4, 0.6, 0.6)));
    reordered.objects.push(Object::new(0, 1, square(0.1, 0.1, 0.9, 0.9)));
    let mut canvas = Canvas::new();
    canvas.show(&click(0, at(0.5, 0.5)), IMAGE, Some(&reordered), None, None, false, EditMode::Browse);
    let response =
        canvas.show(&frame(500), IMAGE, Some(&reordered), None, None, false, EditMode::Browse);
    assert_eq!(response.object_clicked, Some(0));

    // Editing on the same document: the smallest shape.
    let mut canvas = Canvas::new();
    canvas.show(&click(0, at(0.5, 0.5)), IMAGE, Some(&reordered), None, None, false, EditMode::Editing);
    let response =
        canvas.show(&frame(500), IMAGE, Some(&reordered), None, None, false, EditMode::Editing);
    assert_eq!(response.object_clicked, Some(1));

    // Nothing under the pointer.
    let mut canvas = Canvas::new();
    canvas.show(&click(0, at(0.95, 0.95)), IMAGE, Some(&annotation), None, None, false, EditMode::Browse);
    let response =
        canvas.show(&frame(500), IMAGE, Some(&annotation), None, None, false, EditMode::Browse);
    assert!(response.clicked_empty);
    assert_eq!(response.object_clicked, None);
}

#[test]
fn click_without_document_hits_nothing() {
    let mut canvas = Canvas::new();
    let response =
        canvas.show(&click(0, at(0.5, 0.5)), IMAGE, None, None, None, false, EditMode::Browse);
    assert!(response.clicked_empty);
    assert!(canvas.pending_click.is_none());
}

#[test]
fn double_click_cancels_the_pending_click() {
    let mut canvas = Canvas::new();
    let annotation = document();
    canvas.show(&click(1000, at(0.5, 0.5)), IMAGE, Some(&annotation), None, None, false, EditMode::Browse);
    assert!(canvas.pending_click.is_some());
    let double = FrameInput {
        pointer_pos: Some(at(0.5, 0.5)),
        clicked: true,
        double_clicked: true,
        ..frame(1100)
    };
    let response =
        canvas.show(&double, IMAGE, Some(&annotation), None, None, false, EditMode::Browse);
    assert!(canvas.pending_click.is_none());
    // Not on a vertex: the topmost shape is double-clicked.
    assert_eq!(response.object_double_clicked, Some(1));
    assert_eq!(response.vertex_double_clicked, None);
    assert_eq!(response.object_clicked, None);
    // Later frames report no single click.
    let response =
        canvas.show(&frame(5000), IMAGE, Some(&annotation), None, None, false, EditMode::Browse);
    assert!(is_idle(&response));
}

#[test]
fn double_click_on_a_vertex_picks_the_vertex() {
    let mut canvas = Canvas::new();
    let annotation = document();
    let double = FrameInput {
        pointer_pos: Some(at(0.4, 0.4)),
        clicked: true,
        double_clicked: true,
        ..frame(0)
    };
    let response =
        canvas.show(&double, IMAGE, Some(&annotation), None, None, false, EditMode::Browse);
    assert_eq!(response.vertex_double_clicked, Some((1, 0)));
    assert_eq!(response.object_double_clicked, None);
}

#[test]
fn double_click_finishes_the_drawing() {
    let mut canvas = Canvas::new();
    let annotation = document();
    let double = FrameInput {
        pointer_pos: Some(at(0.3, 0.7)),
        clicked: true,
        double_clicked: true,
        ..frame(0)
    };
    let response =
        canvas.show(&double, IMAGE, Some(&annotation), None, None, true, EditMode::Drawing);
    assert!(response.finish_drawing);
    assert_eq!(response.finish_drawing_pos, Some(pt(0.3, 0.7)));
    assert_eq!(response.clicked_pos, None);
    // With nothing drawn the double click picks a shape instead.
    let response =
        canvas.show(&double, IMAGE, Some(&annotation), None, None, false, EditMode::Drawing);
    assert!(!response.finish_drawing);
    assert_eq!(response.object_double_clicked, Some(0));
}

#[test]
fn drag_on_an_edge_adds_a_vertex_and_drags_it() {
    let mut canvas = Canvas::new();
    let annotation = document();
    let start = FrameInput {
        pointer_pos: Some(at(0.5, 0.1)),
        drag_started: true,
        dragged: true,
        ..frame(0)
    };
    let response =
        canvas.show(&start, IMAGE, Some(&annotation), None, Some(0), false, EditMode::Editing);
    assert_eq!(response.vertex_added, Some((0, 0, pt(0.5, 0.1))));
    assert_eq!(canvas.dragging_vertex, Some((0, 1)));
    assert_eq!(response.vertex_dragged, Some((0, 1, pt(0.5, 0.1))));

    let go_on = FrameInput { pointer_pos: Some(at(0.5, 0.05)), dragged: true, ..frame(16) };
    let response =
        canvas.show(&go_on, IMAGE, Some(&annotation), None, Some(0), false, EditMode::Editing);
    assert_eq!(response.vertex_added, None);
    assert_eq!(response.vertex_dragged, Some((0, 1, pt(0.5, 0.05))));

    let stop = FrameInput { pointer_pos: Some(at(0.5, 0.05)), drag_stopped: true, ..frame(32) };
    let response =
        canvas.show(&stop, IMAGE, Some(&annotation), None, Some(0), false, EditMode::Editing);
    assert!(is_idle(&response));
    assert_eq!(canvas.dragging_vertex, None);
}

#[test]
fn drag_on_a_vertex_drags_the_vertex() {
    let mut canvas = Canvas::new();
    let annotation = document();
    let start = FrameInput {
        pointer_pos: Some(at(0.9, 0.9)),
        drag_started: true,
        dragged: true,
        ..frame(0)
    };
    let response =
        canvas.show(&start, IMAGE, Some(&annotation), None, Some(0), false, EditMode::Editing);
    assert_eq!(response.vertex_added, None);
    assert_eq!(canvas.dragging_vertex, Some((0, 2)));
    assert_eq!(response.vertex_dragged, Some((0, 2, pt(0.9, 0.9))));
    assert!(canvas.dragging_object.is_none());
}

#[test]
fn drag_inside_the_selected_shape_moves_it_by_steps() {
    let mut canvas = Canvas::new();
    let annotation = document();
    let start = FrameInput {
        pointer_pos: Some(at(0.5, 0.5)),
        drag_started: true,
        dragged: true,
        ..frame(0)
    };
    let response =
        canvas.show(&start, IMAGE, Some(&annotation), None, Some(1), false, EditMode::Editing);
    assert_eq!(canvas.dragging_object, Some((1, pt(0.5, 0.5))));
    assert_eq!(response.object_dragged, Some((1, Point::new(0, 0))));

    let go_on = FrameInput { pointer_pos: Some(at(0.52, 0.49)), dragged: true, ..frame(16) };
    let response =
        canvas.show(&go_on, IMAGE, Some(&annotation), None, Some(1), false, EditMode::Editing);
    assert_eq!(response.object_dragged, Some((1, Point::new(20_000, -10_000))));
    // The offset counts from the frame before, not from the start of the drag.
    let go_on = FrameInput { pointer_pos: Some(at(0.53, 0.49)), dragged: true, ..frame(32) };
    let response =
        canvas.show(&go_on, IMAGE, Some(&annotation), None, Some(1), false, EditMode::Editing);
    assert_eq!(response.object_dragged, Some((1, Point::new(10_000, 0))));
    assert_eq!(canvas.dragging_object, Some((1, pt(0.53, 0.49))));
}

#[test]
fn drag_needs_editing_mode_and_the_pointer_over_the_selected_shape() {
    let annotation = document();
    let start = FrameInput {
        pointer_pos: Some(at(0.5, 0.5)),
        drag_started: true,
        dragged: true,
        ..frame(0)
    };
    for mode in [EditMode::Browse, EditMode::Drawing] {
        let mut canvas = Canvas::new();
        let response = canvas.show(&start, IMAGE, Some(&annotation), None, Some(1), false, mode);
        assert!(is_idle(&response));
        assert!(canvas.dragging_object.is_none() && canvas.dragging_vertex.is_none());
    }
    // Object 0 is selected and under the pointer: that object 1 lies on top does not matter.
    let mut canvas = Canvas::new();
    let response =
        canvas.show(&start, IMAGE, Some(&annotation), None, Some(0), false, EditMode::Editing);
    assert_eq!(canvas.dragging_object, Some((0, pt(0.5, 0.5))));
    assert_eq!(response.object_dragged, Some((0, Point::new(0, 0))));
    // Object 1 is selected, but the pointer is beside it.
    let beside = FrameInput { pointer_pos: Some(at(0.2, 0.5)), ..start };
    let mut canvas = Canvas::new();
    let response =
        canvas.show(&beside, IMAGE, Some(&annotation), None, Some(1), false, EditMode::Editing);
    assert!(is_idle(&response));
    assert!(canvas.dragging_object.is_none());
}

#[test]
fn no_click_counts_while_dragging() {
    let mut canvas = Canvas::new();
    let annotation = document();
    let start = FrameInput {
        pointer_pos: Some(at(0.9, 0.9)),
        drag_started: true,
        dragged: true,
        clicked: true,
        ..frame(0)
    };
    canvas.show(&start, IMAGE, Some(&annotation), None, Some(0), false, EditMode::Editing);
    assert!(canvas.dragging_vertex.is_some());
    assert!(canvas.pending_click.is_none());
}

#[test]
fn secondary_click_on_a_vertex_asks_to_delete_it() {
    let mut canvas = Canvas::new();
    let annotation = document();
    let input = FrameInput { pointer_pos: Some(at(0.9, 0.1)), secondary_clicked: true, ..frame(0) };
    let response =
        canvas.show(&input, IMAGE, Some(&annotation), None, Some(0), false, EditMode::Editing);
    assert_eq!(response.vertex_deleted, Some((0, 1)));
    assert!(!response.right_clicked);

    // Elsewhere, in another mode, or without a pointer it is a plain secondary click.
    let away = FrameInput { pointer_pos: Some(at(0.5, 0.5)), secondary_clicked: true, ..frame(0) };
    let response =
        canvas.show(&away, IMAGE, Some(&annotation), None, Some(0), false, EditMode::Editing);
    assert_eq!(response.vertex_deleted, None);
    assert!(response.right_clicked);
    let response =
        canvas.show(&input, IMAGE, Some(&annotation), None, Some(0), false, EditMode::Drawing);
    assert_eq!(response.vertex_deleted, None);
    assert!(response.right_clicked);
    let nowhere = FrameInput { secondary_clicked: true, ..frame(0) };
    let response =
        canvas.show(&nowhere, IMAGE, Some(&annotation), None, Some(0), false, EditMode::Editing);
    assert!(response.right_clicked);
}

#[test]
fn cursor_says_what_would_happen() {
    let annotation = document();
    let rect = ScreenRect { left: 0, top: 0, width: 1_000_000, height: 1_000_000 };
    let mut canvas = Canvas::new();
    let cursor = |canvas: &Canvas, pos, selected, mode, ctrl| {
        canvas.determine_cursor(pos, Some(&annotation), selected, rect, mode, ctrl)
    };
    assert_eq!(cursor(&canvas, at(0.5, 0.5), None, EditMode::Browse, false), CursorKind::Default);
    assert_eq!(cursor(&canvas, at(0.5, 0.5), None, EditMode::Browse, true), CursorKind::Move);
    assert_eq!(cursor(&canvas, at(0.5, 0.5), None, EditMode::Drawing, false), CursorKind::Crosshair);
    // On an edge of the selected shape.
    assert_eq!(
        cursor(&canvas, at(0.5, 0.1), Some(0), EditMode::Editing, false),
        CursorKind::Crosshair
    );
    // On a vertex of it.
    assert_eq!(cursor(&canvas, at(0.1, 0.1), Some(0), EditMode::Editing, false), CursorKind::Grab);
    // Inside the selected shape, which is on top.
    assert_eq!(cursor(&canvas, at(0.5, 0.5), Some(1), EditMode::Editing, false), CursorKind::Grab);
    // Inside the selected shape under another shape.
    assert_eq!(cursor(&canvas, at(0.5, 0.5), Some(0), EditMode::Editing, false), CursorKind::Grab);
    // Beside the selected shape.
    assert_eq!(cursor(&canvas, at(0.2, 0.5), Some(1), EditMode::Editing, false), CursorKind::Default);
    canvas.dragging_vertex = Some((0, 1));
    assert_eq!(cursor(&canvas, at(0.5, 0.5), None, EditMode::Browse, true), CursorKind::Grabbing);
}
