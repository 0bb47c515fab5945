use jlab::keymap::{
    capturable_keys, count_conflicts, format_binding_display, format_modifiers_and_key, format_shortcut,
    label_of_key, lookup_binding, KeyBinding, ShortcutBinding, ShortcutConfig,
    ShortcutEditorState, ShortcutManager,
};
use jlab::shortcuts::{
    Key, KeyModifiers, ShortcutAction, ShortcutCategory, ShortcutScope,
};
use jlab::state::EditMode;

const NONE: KeyModifiers = KeyModifiers { ctrl: false, shift: false, alt: false };
const CTRL: KeyModifiers = KeyModifiers { ctrl: true, shift: false, alt: false };
const SHIFT: KeyModifiers = KeyModifiers { ctrl: false, shift: true, alt: false };

fn binding(action: &str, key: &str, modifiers: KeyModifiers, scope: ShortcutScope) -> ShortcutBinding {
    ShortcutBinding {
        action: action.to_string(),
        key: key.to_string(),
        ctrl: modifiers.ctrl,
        shift: modifiers.shift,
        alt: modifiers.alt,
        scope,
        description: String::new(),
        category: String::new(),
    }
}

#[test]
fn actions_have_names_and_names_have_actions() {
    let actions = ShortcutAction::all_actions();
    assert_eq!(actions.len(), 41);
    assert_eq!(actions[0], ShortcutAction::OpenProject);
    assert_eq!(actions[40], ShortcutAction::Zoom400);
    for action in actions {
        assert_eq!(ShortcutAction::from_name(action.as_str()), Some(action));
    }
    assert_eq!(ShortcutAction::from_name("FixSelfIntersection"), Some(ShortcutAction::FixSelfIntersection));
    assert_eq!(ShortcutAction::from_name("fixselfintersection"), None);
    assert_eq!(ShortcutAction::from_name(""), None);
}

#[test]
fn keys_have_names_and_bindable_names_have_keys() {
    let keys = Key::bindable_keys();
    assert_eq!(keys.len(), 47);
    for key in keys {
        assert_eq!(Key::from_name(key.name()), Some(key));
    }
    assert_eq!(Key::ArrowLeft.name(), "ArrowLeft");
    assert_eq!(Key::Num7.name(), "Num7");
    // The function keys have names, but no binding can name them.
    assert_eq!(Key::F5.name(), "F5");
    assert_eq!(Key::from_name("F5"), None);
    assert_eq!(Key::from_name("a"), None);
}

#[test]
fn action_tables_hold_the_defaults() {
    assert_eq!(ShortcutAction::Save.default_key(), Some(Key::S));
    assert_eq!(ShortcutAction::Save.default_modifiers(), CTRL);
    assert_eq!(ShortcutAction::Save.scope(), ShortcutScope::Global);
    assert_eq!(ShortcutAction::Save.category(), ShortcutCategory::File);
    assert_eq!(ShortcutAction::Save.description_key(), "shortcut_actions.save");
    assert_eq!(ShortcutAction::CloseProject.default_key(), None);
    assert_eq!(ShortcutAction::CyclePreviousObject.default_key(), Some(Key::Tab));
    assert_eq!(ShortcutAction::CyclePreviousObject.default_modifiers(), SHIFT);
    assert_eq!(ShortcutAction::CyclePreviousObject.scope(), ShortcutScope::Normal);
    assert_eq!(ShortcutAction::FinishDrawing.scope(), ShortcutScope::Drawing);
    assert_eq!(ShortcutAction::MoveLeft.scope(), ShortcutScope::Editing);
    assert_eq!(ShortcutAction::MoveLeft.category(), ShortcutCategory::Tools);
    assert_eq!(ShortcutAction::Zoom100.category(), ShortcutCategory::View);
    assert_eq!(ShortcutAction::Zoom100.default_key(), Some(Key::Z));
    assert_eq!(ShortcutAction::Zoom100.default_modifiers(), NONE);
    assert_eq!(ShortcutAction::SwitchToNormalMode.description_key(), "shortcut_actions.switch_to_normal");
    assert_eq!(ShortcutAction::Cancel.category(), ShortcutCategory::Other);
    assert_eq!(KeyModifiers::default(), NONE);
}

#[test]
fn scopes_and_categories_have_names() {
    assert_eq!(ShortcutScope::Global.name_key(), "shortcuts.scope_global");
    assert_eq!(ShortcutScope::Editing.name_key(), "shortcuts.scope_editing");
    assert_eq!(ShortcutScope::of_mode(EditMode::Browse), ShortcutScope::Normal);
    assert_eq!(ShortcutScope::of_mode(EditMode::Drawing), ShortcutScope::Drawing);
    assert_eq!(ShortcutScope::of_mode(EditMode::Editing), ShortcutScope::Editing);
    let categories = ShortcutCategory::all_categories();
    assert_eq!(categories.len(), 7);
    assert_eq!(categories[0], ShortcutCategory::File);
    assert_eq!(categories[6], ShortcutCategory::Other);
    assert_eq!(ShortcutCategory::Navigation.as_str(), "navigation");
    assert_eq!(ShortcutCategory::Navigation.name_key(), "shortcuts.category_navigation");
}

#[test]
fn default_configuration_binds_the_default_keys() {
    let manager = ShortcutManager::new();
    let config = manager.get_config();
    assert_eq!(config.version, "1.0");
    // 41 actions, 13 of them without a default key.
    assert_eq!(config.shortcuts.len(), 28);
    let first = &config.shortcuts[0];
    assert_eq!(first.action, "OpenProject");
    assert_eq!(first.key, "O");
    assert!(first.ctrl && !first.shift && !first.alt);
    assert_eq!(first.scope, ShortcutScope::Global);
    assert_eq!(first.description, "shortcut_actions.open_project");
    assert_eq!(first.category, "file");
    assert!(manager.get_binding(ShortcutAction::CloseProject).is_none());
    assert_eq!(manager.get_binding(ShortcutAction::MoveUp).unwrap().key, "ArrowUp");
    assert_eq!(ShortcutManager::default().get_config().shortcuts.len(), 28);
}

#[test]
fn pressed_keys_trigger_actions_by_mode() {
    let manager = ShortcutManager::new();
    assert_eq!(
        manager.handle_input(&vec![Key::S], CTRL, EditMode::Browse),
        Some(ShortcutAction::Save)
    );
    // S without control jumps back; both bindings are global.
    assert_eq!(
        manager.handle_input(&vec![Key::S], NONE, EditMode::Drawing),
        Some(ShortcutAction::JumpBackward10)
    );
    // Escape deselects when browsing and cancels elsewhere.
    assert_eq!(
        manager.handle_input(&vec![Key::Escape], NONE, EditMode::Browse),
        Some(ShortcutAction::Deselect)
    );
    assert_eq!(
        manager.handle_input(&vec![Key::Escape], NONE, EditMode::Editing),
        Some(ShortcutAction::Cancel)
    );
    // Copy is bound in editing mode only.
    assert_eq!(manager.handle_input(&vec![Key::C], CTRL, EditMode::Browse), None);
    assert_eq!(
        manager.handle_input(&vec![Key::C], CTRL, EditMode::Editing),
        Some(ShortcutAction::Copy)
    );
    // Of several pressed keys the first in the order of the keys decides.
    assert_eq!(
        manager.handle_input(&vec![Key::D, Key::A], NONE, EditMode::Browse),
        Some(ShortcutAction::PreviousImage)
    );
    assert_eq!(manager.handle_input(&vec![], NONE, EditMode::Browse), None);
    assert_eq!(manager.handle_input(&vec![Key::F1], NONE, EditMode::Browse), None);
}

#[test]
fn last_binding_of_a_key_is_triggered() {
    let bindings = vec![
        KeyBinding { key: Key::A, modifiers: NONE, scope: ShortcutScope::Global, action: ShortcutAction::Save },
        KeyBinding { key: Key::A, modifiers: CTRL, scope: ShortcutScope::Global, action: ShortcutAction::Quit },
        KeyBinding { key: Key::A, modifiers: NONE, scope: ShortcutScope::Global, action: ShortcutAction::Copy },
    ];
    assert_eq!(lookup_binding(&bindings, Key::A, NONE, ShortcutScope::Global), Some(ShortcutAction::Copy));
    assert_eq!(lookup_binding(&bindings, Key::A, CTRL, ShortcutScope::Global), Some(ShortcutAction::Quit));
    assert_eq!(lookup_binding(&bindings, Key::A, NONE, ShortcutScope::Normal), None);
    assert_eq!(lookup_binding(&bindings, Key::B, NONE, ShortcutScope::Global), None);
}

#[test]
fn default_configuration_has_one_conflict() {
    // Tab is bound twice with other modifiers, and control-S is not S. But the
    // global Cancel on Escape meets the browsing Deselect on the same key.
    let manager = ShortcutManager::new();
    assert_eq!(manager.detect_conflicts(), 1);
}

#[test]
fn conflicts_are_counted_by_scope() {
    let global = |action| KeyBinding { key: Key::X, modifiers: NONE, scope: ShortcutScope::Global, action };
    let scoped = |scope, action| KeyBinding { key: Key::X, modifiers: NONE, scope, action };
    assert_eq!(count_conflicts(&vec![]), 0);
    assert_eq!(count_conflicts(&vec![global(ShortcutAction::Save)]), 0);
    // The same action twice is no conflict.
    assert_eq!(count_conflicts(&vec![global(ShortcutAction::Save), global(ShortcutAction::Save)]), 0);
    assert_eq!(count_conflicts(&vec![global(ShortcutAction::Save), global(ShortcutAction::Quit)]), 1);
    // Two modes never meet.
    assert_eq!(
        count_conflicts(&vec![
            scoped(ShortcutScope::Drawing, ShortcutAction::Save),
            scoped(ShortcutScope::Editing, ShortcutAction::Quit),
        ]),
        0
    );
    // A global binding meets the bindings of every mode before it.
    assert_eq!(
        count_conflicts(&vec![
            scoped(ShortcutScope::Drawing, ShortcutAction::Save),
            scoped(ShortcutScope::Editing, ShortcutAction::Quit),
            global(ShortcutAction::Copy),
        ]),
        2
    );
    // A binding of a mode meets the global one and that of its own mode.
    assert_eq!(
        count_conflicts(&vec![
            global(ShortcutAction::Copy),
            scoped(ShortcutScope::Editing, ShortcutAction::Quit),
            scoped(ShortcutScope::Editing, ShortcutAction::Save),
        ]),
        3
    );
    // Other modifiers are another key.
    assert_eq!(
        count_conflicts(&vec![
            global(ShortcutAction::Copy),
            KeyBinding { key: Key::X, modifiers: CTRL, scope: ShortcutScope::Global, action: ShortcutAction::Quit },
        ]),
        0
    );
}

#[test]
fn bindings_with_unknown_names_are_left_out() {
    let config = ShortcutConfig {
        version: "1.0".to_string(),
        shortcuts: vec![
            binding("Save", "S", CTRL, ShortcutScope::Global),
            binding("Explode", "E", NONE, ShortcutScope::Global),
            binding("Quit", "F4", NONE, ShortcutScope::Global),
            binding("Quit", "Q", CTRL, ShortcutScope::Global),
        ],
    };
    assert_eq!(
        config.build_bindings(),
        vec![
            KeyBinding { key: Key::S, modifiers: CTRL, scope: ShortcutScope::Global, action: ShortcutAction::Save },
            KeyBinding { key: Key::Q, modifiers: CTRL, scope: ShortcutScope::Global, action: ShortcutAction::Quit },
        ]
    );
    assert!(config.shortcuts[1].parse().is_none());
    let manager = ShortcutManager::from_config(config);
    // The first binding of an action is the one that is shown.
    assert_eq!(manager.get_binding(ShortcutAction::Quit).unwrap().key, "F4");
    assert_eq!(manager.handle_input(&vec![Key::Q], CTRL, EditMode::Browse), Some(ShortcutAction::Quit));
}

#[test]
fn merged_bindings_replace_those_of_their_action() {
    let mut manager = ShortcutManager::new();
    let overrides = ShortcutConfig {
        version: "9".to_string(),
        shortcuts: vec![
            binding("Save", "W", CTRL, ShortcutScope::Global),
            binding("CloseProject", "W", SHIFT, ShortcutScope::Global),
        ],
    };
    manager.merge_config(&overrides);
    let config = manager.get_config();
    assert_eq!(config.version, "1.0");
    assert_eq!(config.shortcuts.len(), 29);
    assert_eq!(config.shortcuts[27].action, "Save");
    assert_eq!(config.shortcuts[28].action, "CloseProject");
    assert_eq!(config.shortcuts[1].action, "Quit");
    assert_eq!(manager.handle_input(&vec![Key::W], CTRL, EditMode::Browse), Some(ShortcutAction::Save));
    // Control-S is free now.
    assert_eq!(manager.handle_input(&vec![Key::S], CTRL, EditMode::Browse), None);

    manager.apply_config(overrides);
    assert_eq!(manager.get_config().shortcuts.len(), 2);
    assert_eq!(manager.handle_input(&vec![Key::O], CTRL, EditMode::Browse), None);
}

#[test]
fn shortcuts_are_shown_with_their_modifiers() {
    let manager = ShortcutManager::new();
    assert_eq!(manager.format_shortcut(ShortcutAction::Save), Some("Ctrl+S".to_string()));
    assert_eq!(manager.format_shortcut(ShortcutAction::SwitchToDrawingMode), Some("Shift+2".to_string()));
    assert_eq!(manager.format_shortcut(ShortcutAction::MoveLeft), Some("←".to_string()));
    assert_eq!(manager.format_shortcut(ShortcutAction::ScaleUp), Some("+".to_string()));
    assert_eq!(manager.format_shortcut(ShortcutAction::Delete), Some("Del".to_string()));
    assert_eq!(manager.format_shortcut(ShortcutAction::Cancel), Some("Esc".to_string()));
    assert_eq!(manager.format_shortcut(ShortcutAction::FinishDrawing), Some("Space".to_string()));
    assert_eq!(manager.format_shortcut(ShortcutAction::CloseProject), None);
    let all = KeyModifiers { ctrl: true, shift: true, alt: true };
    assert_eq!(format_shortcut(&binding("Save", "Num1", all, ShortcutScope::Global)), "Ctrl+Shift+Alt+Num1");
    assert_eq!(format_shortcut(&binding("Save", "Escape", NONE, ShortcutScope::Global)), "Escape");
    assert_eq!(label_of_key("Num"), "");
    assert_eq!(label_of_key("Num10"), "10");
    assert_eq!(label_of_key("Equals"), "=");
    assert_eq!(label_of_key("Minus"), "-");
    assert_eq!(label_of_key("ArrowUp"), "↑");
    assert_eq!(label_of_key("Tab"), "Tab");
}

#[test]
fn editor_sets_a_shortcut_and_counts_conflicts() {
    let manager = ShortcutManager::new();
    let mut editor = ShortcutEditorState::new(manager.get_config());
    assert_eq!(editor.conflict_count, 1);
    assert!(!editor.is_capturing);

    // Nothing captured: applying changes nothing.
    editor.start_editing(ShortcutAction::Quit);
    assert!(editor.is_capturing);
    editor.apply_edit();
    assert_eq!(editor.editing_action, Some(ShortcutAction::Quit));

    // Quit on control-S meets Save.
    editor.captured_key = Some(Key::S);
    editor.captured_modifiers = CTRL;
    editor.apply_edit();
    assert_eq!(editor.editing_action, None);
    assert!(!editor.is_capturing);
    let quit = editor.working_config.shortcuts.iter().find(|b| b.action == "Quit").unwrap();
    assert_eq!(quit.key, "S");
    assert!(quit.ctrl);
    assert_eq!(editor.conflict_count, 2);
    // The configuration of the manager is untouched.
    assert_eq!(manager.get_binding(ShortcutAction::Quit).unwrap().key, "Q");

    editor.start_editing(ShortcutAction::Save);
    editor.cancel_editing();
    assert_eq!(editor.editing_action, None);
    assert!(!editor.is_capturing);
}

#[test]
fn editor_shows_bindings_with_key_names() {
    let all = KeyModifiers { ctrl: true, shift: true, alt: true };
    assert_eq!(format_binding_display(&binding("Save", "Escape", CTRL, ShortcutScope::Global)), "Ctrl+Esc");
    assert_eq!(format_binding_display(&binding("Save", "Num4", SHIFT, ShortcutScope::Global)), "Shift+4");
    assert_eq!(format_binding_display(&binding("Save", "ArrowDown", NONE, ShortcutScope::Global)), "↓");
    // The editor names the keys that a menu shows as signs.
    assert_eq!(format_binding_display(&binding("Save", "Plus", NONE, ShortcutScope::Global)), "Plus");
    assert_eq!(format_binding_display(&binding("Save", "Equals", all, ShortcutScope::Global)), "Ctrl+Shift+Alt+Equals");
    assert_eq!(format_modifiers_and_key(&all, Key::ArrowLeft), "Ctrl+Shift+Alt+ArrowLeft");
    assert_eq!(format_modifiers_and_key(&NONE, Key::F12), "F12");
}

#[test]
fn editor_takes_the_first_pressed_key_in_key_order() {
    let manager = ShortcutManager::new();
    let mut editor = ShortcutEditorState::new(manager.get_config());
    editor.start_editing(ShortcutAction::Save);

    // Letters come before the function keys.
    editor.capture_input(&vec![Key::Z, Key::F1, Key::B], CTRL);
    assert_eq!(editor.captured_key, Some(Key::B));
    assert_eq!(editor.captured_modifiers, CTRL);

    // Without a key the one taken before stays, the modifiers follow.
    editor.capture_input(&Vec::new(), SHIFT);
    assert_eq!(editor.captured_key, Some(Key::B));
    assert_eq!(editor.captured_modifiers, SHIFT);

    // The equals key is not taken.
    editor.capture_input(&vec![Key::Equals], NONE);
    assert_eq!(editor.captured_key, Some(Key::B));
    editor.capture_input(&vec![Key::Equals, Key::F12], NONE);
    assert_eq!(editor.captured_key, Some(Key::F12));

    let keys = capturable_keys();
    assert_eq!(keys.len(), 58);
    assert!(!keys.contains(&Key::Equals));
    assert_eq!(keys[45], Key::Minus);
    assert_eq!(keys[46], Key::F1);
    assert_eq!(Key::bindable_keys().len(), 47);

    editor.clear_capture();
    assert_eq!(editor.captured_key, None);
    assert_eq!(editor.captured_modifiers, NONE);
    assert_eq!(editor.editing_action, Some(ShortcutAction::Save));
    assert!(editor.is_capturing);
}

#[test]
fn editor_clears_bindings_and_restores_the_defaults() {
    let manager = ShortcutManager::new();
    let defaults = manager.get_config().shortcuts.len();
    let mut editor = ShortcutEditorState::new(manager.get_config());

    editor.clear_binding(ShortcutAction::Save);
    assert_eq!(editor.working_config.shortcuts.len(), defaults - 1);
    assert!(editor.working_config.shortcuts.iter().all(|b| b.action != ShortcutAction::Save.as_str()));
    assert!(editor.working_config.binding_index(ShortcutAction::Save).is_none());

    // Clearing an action without a binding changes nothing.
    editor.clear_binding(ShortcutAction::Save);
    assert_eq!(editor.working_config.shortcuts.len(), defaults - 1);

    editor.restore_defaults();
    assert_eq!(editor.working_config.shortcuts.len(), defaults);
    assert!(editor.working_config.binding_index(ShortcutAction::Save).is_some());
    assert_eq!(editor.conflict_count, manager.detect_conflicts());
}

#[test]
fn removing_the_bindings_of_an_action_keeps_the_others_in_order() {
    let mut config = ShortcutConfig {
        version: "1.0".to_string(),
        shortcuts: vec![
            binding("save", "S", CTRL, ShortcutScope::Global),
            binding("copy", "C", CTRL, ShortcutScope::Global),
            binding("save", "W", NONE, ShortcutScope::Global),
            binding("paste", "V", CTRL, ShortcutScope::Global),
        ],
    };
    config.remove_bindings_of("save");
    let left: Vec<&str> = config.shortcuts.iter().map(|b| b.action.as_str()).collect();
    assert_eq!(left, vec!["copy", "paste"]);
    assert_eq!(config.version, "1.0");
}
