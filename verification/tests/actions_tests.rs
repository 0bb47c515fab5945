use jlab::actions::{
    add_recent_project, category_for_keys, image_after, image_before, ShortcutEffect,
};
use jlab::meta::{Category, Meta, RoiConfig, ShapeConfig};
use jlab::annotation::{Annotation, Object};
use jlab::app_state::AppState;
use jlab::canvas::Canvas;
use jlab::dialogs::{
    pixels_per_point, AboutDialogState, DialogButtonAction, OptionsDialogState, OptionsTab,
    ProgressStats,
};
use jlab::geometry::Point;
use jlab::i18n::{I18n, Language, Translation};
use jlab::keymap::{ShortcutEditorState, ShortcutManager};
use jlab::shortcuts::{Key, ShortcutAction, ShortcutCategory};
use jlab::state::{EditMode, EditingState, PendingDrawClick, ThemeColor};

fn pt(x: f64, y: f64) -> Point {
    Point::new((x * 1_000_000.0).round() as i32, (y * 1_000_000.0).round() as i32)
}

fn session() -> (AppState, Canvas) {
    let mut annotation = Annotation::new_at("test", 0);
    for id in [3, 5, 8] {
        annotation.objects.push(Object::new(id, 1, vec![pt(0.2, 0.2), pt(0.4, 0.2), pt(0.4, 0.4)]));
    }
    let mut state = AppState::new();
    state.current_annotation = Some(annotation);
    state.image_size = Some((1000, 1000));
    (state, Canvas::new())
}

#[test]
fn actions_for_files_are_left_to_the_outside() {
    let (mut state, mut canvas) = session();
    let mut run = |action| state.handle_shortcut_action(&mut canvas, action, false);
    assert_eq!(run(ShortcutAction::OpenProject), ShortcutEffect::OpenProject);
    assert_eq!(run(ShortcutAction::Save), ShortcutEffect::Save);
    assert_eq!(run(ShortcutAction::CloseProject), ShortcutEffect::CloseProject);
    assert_eq!(run(ShortcutAction::Quit), ShortcutEffect::Quit);
    assert_eq!(run(ShortcutAction::PreviousImage), ShortcutEffect::Backward(1));
    assert_eq!(run(ShortcutAction::NextImage), ShortcutEffect::Forward(1));
    assert_eq!(run(ShortcutAction::JumpBackward10), ShortcutEffect::Backward(10));
    assert_eq!(run(ShortcutAction::JumpForward10), ShortcutEffect::Forward(10));
    assert_eq!(run(ShortcutAction::FitToCanvas), ShortcutEffect::FitToCanvas);
    assert_eq!(run(ShortcutAction::ToggleAutoSave), ShortcutEffect::Nothing);
    assert_eq!(run(ShortcutAction::Copy), ShortcutEffect::Nothing);
    let mut empty = AppState::new();
    let mut canvas = Canvas::new();
    assert_eq!(
        empty.handle_shortcut_action(&mut canvas, ShortcutAction::FitToCanvas, false),
        ShortcutEffect::Nothing
    );
}

#[test]
fn leaving_the_image_finishes_the_drawing_and_resets_the_view() {
    let (mut state, mut canvas) = session();
    canvas.set_zoom(3000);
    canvas.pan_offset = (5, 6);
    state.editing_state.mode = EditMode::Drawing;
    state.temp_points = vec![pt(0.1, 0.1), pt(0.9, 0.1), pt(0.5, 0.9)];
    state.handle_shortcut_action(&mut canvas, ShortcutAction::NextImage, false);
    assert_eq!(state.current_annotation.as_ref().unwrap().objects.len(), 4);
    assert!(state.temp_points.is_empty());
    assert_eq!(canvas.zoom, 1000);
    assert_eq!(canvas.pan_offset, (0, 0));
}

#[test]
fn mode_actions_switch_the_mode() {
    let (mut state, mut canvas) = session();
    state.temp_points = vec![pt(0.1, 0.1)];
    state.handle_shortcut_action(&mut canvas, ShortcutAction::SwitchToDrawingMode, false);
    assert_eq!(state.editing_state.mode, EditMode::Drawing);
    assert!(state.temp_points.is_empty());
    // Editing needs a selection.
    state.handle_shortcut_action(&mut canvas, ShortcutAction::SwitchToEditingMode, false);
    assert_eq!(state.editing_state.mode, EditMode::Drawing);
    state.selected_object_id = Some(5);
    state.editing_state.selected_vertex = Some((5, 1));
    state.handle_shortcut_action(&mut canvas, ShortcutAction::SwitchToEditingMode, false);
    assert_eq!(state.editing_state.mode, EditMode::Editing);
    assert_eq!(state.editing_state.selected_vertex, None);
    state.handle_shortcut_action(&mut canvas, ShortcutAction::SwitchToNormalMode, false);
    assert_eq!(state.editing_state.mode, EditMode::Browse);
    assert_eq!(state.selected_object_id, Some(5));
}

#[test]
fn cancel_depends_on_the_mode() {
    let (mut state, mut canvas) = session();
    state.selected_object_id = Some(5);
    state.editing_state.mode = EditMode::Drawing;
    state.temp_points = vec![pt(0.1, 0.1)];
    state.handle_shortcut_action(&mut canvas, ShortcutAction::Cancel, false);
    assert!(state.temp_points.is_empty());
    assert_eq!(state.editing_state.mode, EditMode::Drawing);
    assert_eq!(state.selected_object_id, Some(5));

    state.editing_state.mode = EditMode::Editing;
    state.handle_shortcut_action(&mut canvas, ShortcutAction::Cancel, false);
    assert_eq!(state.editing_state.mode, EditMode::Browse);
    assert_eq!(state.selected_object_id, None);

    state.selected_object_id = Some(3);
    state.handle_shortcut_action(&mut canvas, ShortcutAction::Cancel, false);
    assert_eq!(state.selected_object_id, None);
    state.selected_object_id = Some(3);
    state.handle_shortcut_action(&mut canvas, ShortcutAction::Deselect, false);
    assert_eq!(state.selected_object_id, None);
}

#[test]
fn editing_actions_need_the_right_mode() {
    let (mut state, mut canvas) = session();
    state.selected_object_id = Some(5);
    // When browsing nothing is copied, deleted or moved.
    state.handle_shortcut_action(&mut canvas, ShortcutAction::Copy, false);
    assert!(state.clipboard_objects.is_empty());
    state.handle_shortcut_action(&mut canvas, ShortcutAction::Delete, false);
    state.handle_shortcut_action(&mut canvas, ShortcutAction::MoveRight, false);
    state.handle_shortcut_action(&mut canvas, ShortcutAction::ScaleUp, false);
    assert_eq!(state.current_annotation.as_ref().unwrap().objects.len(), 3);
    assert!(!state.has_unsaved_changes);

    state.editing_state.mode = EditMode::Editing;
    state.handle_shortcut_action(&mut canvas, ShortcutAction::Copy, false);
    assert_eq!(state.clipboard_objects.len(), 1);
    state.handle_shortcut_action(&mut canvas, ShortcutAction::Paste, false);
    assert_eq!(state.current_annotation.as_ref().unwrap().objects.len(), 4);
    assert_eq!(state.selected_object_id, Some(9));
    state.handle_shortcut_action(&mut canvas, ShortcutAction::MoveLeft, true);
    assert_eq!(
        state.current_annotation.as_ref().unwrap().objects[3].polygon,
        vec![pt(0.24, 0.25), pt(0.44, 0.25), pt(0.44, 0.45)]
    );
    state.handle_shortcut_action(&mut canvas, ShortcutAction::MoveDown, false);
    assert_eq!(state.current_annotation.as_ref().unwrap().objects[3].polygon[0], pt(0.24, 0.251));
    state.handle_shortcut_action(&mut canvas, ShortcutAction::ConvertToRectangle, false);
    assert_eq!(state.current_annotation.as_ref().unwrap().objects[3].polygon.len(), 4);
    state.handle_shortcut_action(&mut canvas, ShortcutAction::Delete, false);
    assert_eq!(state.current_annotation.as_ref().unwrap().objects.len(), 3);
    assert_eq!(state.selected_object_id, None);
}

#[test]
fn cycling_goes_round_the_objects() {
    let (mut state, mut canvas) = session();
    let mut next = |state: &mut AppState| {
        state.handle_shortcut_action(&mut canvas, ShortcutAction::CycleNextObject, false);
        state.selected_object_id
    };
    // Nothing selected counts as the first selected.
    assert_eq!(next(&mut state), Some(5));
    assert_eq!(next(&mut state), Some(8));
    assert_eq!(next(&mut state), Some(3));
    state.cycle_object(false);
    assert_eq!(state.selected_object_id, Some(8));
    state.cycle_object(false);
    assert_eq!(state.selected_object_id, Some(5));
    // A selection that is no object counts as the first too.
    state.selected_object_id = Some(-1);
    state.cycle_object(false);
    assert_eq!(state.selected_object_id, Some(8));
    let mut empty = AppState::new();
    empty.cycle_object(true);
    assert_eq!(empty.selected_object_id, None);
}

#[test]
fn zoom_actions_set_the_zoom() {
    let (mut state, mut canvas) = session();
    for (action, zoom) in [
        (ShortcutAction::Zoom25, 250),
        (ShortcutAction::Zoom50, 500),
        (ShortcutAction::Zoom75, 750),
        (ShortcutAction::Zoom100, 1000),
        (ShortcutAction::Zoom125, 1250),
        (ShortcutAction::Zoom150, 1500),
        (ShortcutAction::Zoom200, 2000),
        (ShortcutAction::Zoom300, 3000),
        (ShortcutAction::Zoom400, 4000),
    ] {
        state.handle_shortcut_action(&mut canvas, action, false);
        assert_eq!(canvas.zoom, zoom);
    }
    canvas.pan_offset = (1, 2);
    state.handle_shortcut_action(&mut canvas, ShortcutAction::ResetZoom, false);
    assert_eq!(canvas.zoom, 1000);
    assert_eq!(canvas.pan_offset, (0, 0));
}

#[test]
fn images_are_stepped_through_within_the_list() {
    assert_eq!(image_after(0, 1, 3), Some(1));
    assert_eq!(image_after(2, 1, 3), None);
    assert_eq!(image_after(0, 10, 11), Some(10));
    assert_eq!(image_after(1, 10, 11), None);
    assert_eq!(image_after(usize::MAX, usize::MAX, usize::MAX), None);
    assert_eq!(image_after(0, 1, 0), None);
    assert_eq!(image_before(0, 1), None);
    assert_eq!(image_before(1, 1), Some(0));
    assert_eq!(image_before(10, 10), Some(0));
    assert_eq!(image_before(9, 10), None);
}

#[test]
fn recent_projects_keep_the_last_ten_once() {
    let mut recent: Vec<String> = vec![];
    for k in 0..12 {
        add_recent_project(&mut recent, format!("project{}", k));
    }
    assert_eq!(recent.len(), 10);
    assert_eq!(recent[0], "project11");
    assert_eq!(recent[9], "project2");
    add_recent_project(&mut recent, "project5".to_string());
    assert_eq!(recent.len(), 10);
    assert_eq!(recent[0], "project5");
    assert_eq!(recent[1], "project11");
    assert_eq!(recent.iter().filter(|p| p.as_str() == "project5").count(), 1);
    assert_eq!(recent[9], "project2");
}

#[test]
fn translations_are_looked_up_by_key() {
    let entry = |key: &str, text: Option<&str>| Translation {
        key: key.to_string(),
        text: text.map(|t| t.to_string()),
    };
    let mut i18n = I18n::new(vec![
        entry("menu", None),
        entry("menu.file", None),
        entry("menu.file.open", Some("Open")),
        entry("menu.file.open", Some("Shadowed")),
    ]);
    assert_eq!(i18n.t("menu.file.open"), "Open");
    assert_eq!(i18n.t("menu.file"), "[Invalid: menu.file]");
    assert_eq!(i18n.t("menu.file.close"), "[Missing: menu.file.close]");
    assert_eq!(i18n.t(""), "[Missing: ]");
    i18n.set_language(vec![entry("menu.file.open", Some("打开"))]);
    assert_eq!(i18n.t("menu.file.open"), "打开");
    assert_eq!(i18n.t("menu"), "[Missing: menu]");
}

#[test]
fn about_dialog_opens_and_closes() {
    let mut about = AboutDialogState::new();
    assert!(!about.show);
    assert!(!about.show(false, true));
    about.show_dialog();
    assert!(about.show(false, true));
    assert!(about.show);
    assert!(!about.show(true, true));
    assert!(!about.show);
    about.show_dialog();
    assert!(!about.show(false, false));
}

#[test]
fn options_dialog_holds_the_settings() {
    let manager = ShortcutManager::new();
    let mut options = OptionsDialogState::new(Language::EnUS, false);
    assert!(!options.show);
    assert_eq!(options.font_size, 160);
    assert_eq!(options.ui_scale, 1000);
    assert!(options.get_current_settings().shortcut_config.is_none());
    options.search_text = "zoom".to_string();
    options.show_dialog(manager.get_config());
    assert!(options.show);
    assert_eq!(options.search_text, "");
    assert_eq!(options.shortcut_editor.as_ref().unwrap().working_config.shortcuts.len(), 28);
    options.refresh_from_state(Language::EnUS, true, ThemeColor::Light, 180, 1250);
    let settings = options.get_current_settings();
    assert_eq!(settings.language, Language::EnUS);
    assert!(settings.auto_save);
    assert_eq!(settings.theme_color, ThemeColor::Light);
    assert_eq!((settings.font_size, settings.ui_scale), (180, 1250));
    assert_eq!(settings.shortcut_config.unwrap().shortcuts.len(), 28);

    options.shortcut_editor.as_mut().unwrap().working_config.shortcuts.truncate(3);
    options.active_tab = OptionsTab::Shortcuts;
    options.restore_defaults();
    assert_eq!(options.selected_language, Language::ZhCN);
    assert_eq!(options.theme_color, ThemeColor::Dark);
    assert_eq!(options.active_tab, OptionsTab::General);
    assert!(options.pending_changes);
    assert_eq!(options.shortcut_editor.as_ref().unwrap().working_config.shortcuts.len(), 28);
    assert_eq!(OptionsTab::General.name_key(), "options.tab_general");
    assert_eq!(OptionsTab::Shortcuts.name_key(), "options.tab_shortcuts");
    assert_ne!(DialogButtonAction::Confirm, DialogButtonAction::Cancel);
    // A font of 14 points at full scale: a point is a pixel.
    assert_eq!(pixels_per_point(140, 1000), 1000);
    assert_eq!(pixels_per_point(160, 1250), 1428);
}

#[test]
fn progress_is_a_share_of_the_images() {
    let stats = ProgressStats::new(8, 2);
    assert_eq!(stats.remaining, 6);
    assert_eq!(stats.percentage(), 25_000);
    assert_eq!(ProgressStats::new(3, 1).percentage(), 33_333);
    assert_eq!(ProgressStats::new(0, 0).percentage(), 0);
    assert_eq!(ProgressStats::new(5, 5).percentage(), 100_000);
}

#[test]
fn shortcut_list_is_filtered_by_category_and_text() {
    let manager = ShortcutManager::new();
    let mut editor = ShortcutEditorState::new(manager.get_config());
    assert_eq!(editor.get_filtered_shortcuts().len(), 28);
    editor.category_filter = Some(ShortcutCategory::Mode);
    let listed = editor.get_filtered_shortcuts();
    assert_eq!(
        listed.iter().map(|(a, b)| (*a, b.key.as_str())).collect::<Vec<_>>(),
        vec![
            (ShortcutAction::SwitchToNormalMode, "Num1"),
            (ShortcutAction::SwitchToDrawingMode, "Num2"),
            (ShortcutAction::SwitchToEditingMode, "Num3"),
        ]
    );
    // The search ignores the case.
    editor.search_filter = "DRAW".to_string();
    let listed = editor.get_filtered_shortcuts();
    assert_eq!(listed.len(), 1);
    assert_eq!(listed[0].0, ShortcutAction::SwitchToDrawingMode);
    editor.category_filter = None;
    let listed = editor.get_filtered_shortcuts();
    assert_eq!(
        listed.iter().map(|(a, _)| *a).collect::<Vec<_>>(),
        vec![ShortcutAction::FinishDrawing, ShortcutAction::SwitchToDrawingMode]
    );
    // Actions without a binding are not listed.
    editor.search_filter = "closeproject".to_string();
    assert!(editor.get_filtered_shortcuts().is_empty());
    assert_eq!(EditingState::new().mode, EditMode::Browse);
}

#[test]
fn category_hotkeys_pick_the_last_category_pressed() {
    let category = |id: i32, hotkey: &str| Category {
        id,
        name: format!("c{}", id),
        description: String::new(),
        hotkey: hotkey.to_string(),
        color: String::new(),
        properties: vec![],
    };
    let categories = vec![
        category(10, "1"),
        category(20, "2"),
        category(30, "x"),
        category(40, "2"),
        category(50, "0"),
        category(60, "12"),
        category(70, ""),
    ];
    assert_eq!(category_for_keys(&categories, &vec![Key::Num1]), Some(10));
    assert_eq!(category_for_keys(&categories, &vec![Key::Num2]), Some(40));
    assert_eq!(category_for_keys(&categories, &vec![Key::Num1, Key::Num2]), Some(40));
    assert_eq!(category_for_keys(&categories, &vec![Key::Num0]), None);
    assert_eq!(category_for_keys(&categories, &vec![Key::Num3, Key::X]), None);
    assert_eq!(category_for_keys(&categories, &vec![]), None);
    assert_eq!(category_for_keys(&vec![], &vec![Key::Num1]), None);
}

#[test]
fn category_hotkeys_change_the_selected_object_when_editing() {
    let (mut state, _) = session();
    state.meta = Some(Meta {
        id: 1,
        name: "m".to_string(),
        description: String::new(),
        shape: ShapeConfig { title_style: 0, thickness: 1, auto_save: true, vertex_radius: 10_000 },
        roi: RoiConfig { color: "#800080".to_string() },
        categories: vec![Category {
            id: 77,
            name: "car".to_string(),
            description: String::new(),
            hotkey: "4".to_string(),
            color: "#00FF00".to_string(),
            properties: vec![],
        }],
        property_types: vec![],
        property_special_values: vec![],
    });
    state.selected_object_id = Some(5);
    state.apply_category_hotkeys(&vec![Key::Num4]);
    assert_eq!(state.current_annotation.as_ref().unwrap().objects[1].category, 1);
    state.editing_state.mode = EditMode::Editing;
    state.apply_category_hotkeys(&vec![Key::Num5]);
    assert_eq!(state.current_annotation.as_ref().unwrap().objects[1].category, 1);
    state.apply_category_hotkeys(&vec![Key::Num4]);
    assert_eq!(state.current_annotation.as_ref().unwrap().objects[1].category, 77);
    assert!(state.has_unsaved_changes);
}

#[test]
fn session_within_limits_is_recognised() {
    let (mut state, canvas) = session();
    assert!(state.check());
    assert!(canvas.check());
    state.temp_points.push(Point::new(i32::MAX, 0));
    assert!(!state.check());
    state.temp_points.clear();
    state.pending_draw_clicks.push(PendingDrawClick { position: Point::new(0, i32::MIN), time: 0 });
    assert!(!state.check());
    state.pending_draw_clicks.clear();
    state.clipboard_rois.push(vec![Point::new(0x4000_0001, 0)]);
    assert!(!state.check());
    state.clipboard_rois.clear();
    state.current_annotation.as_mut().unwrap().objects[0].polygon[0] = Point::new(-0x4000_0001, 0);
    assert!(!state.check());
    assert!(!state.current_annotation.as_ref().unwrap().check_within_limits());
    state.current_annotation.as_mut().unwrap().objects[0].polygon[0] = Point::new(-0x4000_0000, 0x4000_0000);
    assert!(state.check());
    let mut dragging = Canvas::new();
    dragging.dragging_object = Some((1, Point::new(1_000_001, 0)));
    assert!(!dragging.check());
    dragging.dragging_object = Some((1, Point::new(1_000_000, 0)));
    assert!(dragging.check());
}

#[test]
fn options_dialog_closes_by_its_buttons_and_its_window() {
    let manager = ShortcutManager::new();
    let mut options = OptionsDialogState::new(Language::EnUS, false);

    // A closed dialog reports nothing.
    assert_eq!(options.show(Some(DialogButtonAction::Apply), true), (false, false, None));
    assert!(!options.show);

    options.show_dialog(manager.get_config());
    assert_eq!(options.show(None, true), (true, true, None));
    assert_eq!(
        options.show(Some(DialogButtonAction::Apply), true),
        (true, true, Some(DialogButtonAction::Apply))
    );
    assert_eq!(
        options.show(Some(DialogButtonAction::RestoreDefaults), true),
        (true, true, Some(DialogButtonAction::RestoreDefaults))
    );
    assert!(options.shortcut_editor.is_some());

    // The confirm button closes the dialog and keeps the editor.
    assert_eq!(
        options.show(Some(DialogButtonAction::Confirm), true),
        (false, true, Some(DialogButtonAction::Confirm))
    );
    assert!(!options.show);
    assert!(options.shortcut_editor.is_some());

    options.show_dialog(manager.get_config());
    assert_eq!(
        options.show(Some(DialogButtonAction::Cancel), true),
        (false, true, Some(DialogButtonAction::Cancel))
    );

    // Closing the window ends the editing of shortcuts.
    options.show_dialog(manager.get_config());
    assert_eq!(options.show(None, false), (false, false, None));
    assert!(!options.show);
    assert!(options.shortcut_editor.is_none());
}

#[test]
fn options_dialog_hands_its_search_text_to_the_editor() {
    let manager = ShortcutManager::new();
    let mut options = OptionsDialogState::new(Language::EnUS, false);
    options.search_text = "zoom".to_string();
    // Without an editor nothing happens.
    options.sync_search();
    assert!(options.shortcut_editor.is_none());

    options.show_dialog(manager.get_config());
    options.search_text = "ZOOM".to_string();
    options.sync_search();
    let editor = options.shortcut_editor.as_ref().unwrap();
    assert_eq!(editor.search_filter, "ZOOM");
    let listed = editor.get_filtered_shortcuts();
    assert!(!listed.is_empty());
    assert!(listed.iter().all(|(action, _)| action.as_str().to_lowercase().contains("zoom")));
    assert_eq!(options.search_text, "ZOOM");
}
