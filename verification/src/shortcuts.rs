//! Keyboard shortcuts: the actions that keys can trigger, the keys that
//! trigger them by default, and the bindings of a configuration with their
//! conflicts.
//!
//! A binding belongs to a scope. A binding of the global scope is active in
//! every mode, one of another scope only in the mode of that scope.

use crate::state::EditMode;
use crate::text::str_eq;
use vstd::prelude::*;

verus! {

/// When a shortcut is active: in every mode, or in one.
#[derive(Clone, Copy, Debug, PartialEq, Eq, Hash, Structural)]
pub enum ShortcutScope {
    Global,
    Normal,
    Drawing,
    Editing,
}

/// A group of actions in the list of shortcuts.
#[derive(Clone, Copy, Debug, PartialEq, Eq, Structural)]
pub enum ShortcutCategory {
    File,
    Edit,
    Mode,
    Navigation,
    View,
    Tools,
    Other,
}

/// What a shortcut triggers.
#[derive(Clone, Copy, Debug, PartialEq, Eq, Hash, Structural)]
pub enum ShortcutAction {
    // File
    OpenProject,
    Save,
    CloseProject,
    Quit,
    // Edit
    Copy,
    Paste,
    Delete,
    Deselect,
    FinishDrawing,
    ConvertToRectangle,
    FixSelfIntersection,
    // Modes
    SwitchToNormalMode,
    SwitchToDrawingMode,
    SwitchToEditingMode,
    // Navigation
    PreviousImage,
    NextImage,
    JumpBackward10,
    JumpForward10,
    CycleNextObject,
    CyclePreviousObject,
    // View
    FitToCanvas,
    ResetZoom,
    // Moving the selection
    MoveLeft,
    MoveRight,
    MoveUp,
    MoveDown,
    // Scaling the selection
    ScaleUp,
    ScaleDown,
    // Other
    Cancel,
    // Panels and settings
    ToggleAutoSave,
    ToggleLeftPanel,
    ToggleRightPanel,
    // Zoom levels
    Zoom25,
    Zoom50,
    Zoom75,
    Zoom100,
    Zoom125,
    Zoom150,
    Zoom200,
    Zoom300,
    Zoom400,
}

/// A key of the keyboard that a shortcut can name.
#[derive(Clone, Copy, Debug, PartialEq, Eq, Hash, Structural)]
pub enum Key {
    A,
    B,
    C,
    D,
    E,
    F,
    G,
    H,
    I,
    J,
    K,
    L,
    M,
    N,
    O,
    P,
    Q,
    R,
    S,
    T,
    U,
    V,
    W,
    X,
    Y,
    Z,
    Num0,
    Num1,
    Num2,
    Num3,
    Num4,
    Num5,
    Num6,
    Num7,
    Num8,
    Num9,
    Space,
    Tab,
    Escape,
    Delete,
    ArrowLeft,
    ArrowRight,
    ArrowUp,
    ArrowDown,
    Plus,
    Minus,
    Equals,
    F1,
    F2,
    F3,
    F4,
    F5,
    F6,
    F7,
    F8,
    F9,
    F10,
    F11,
    F12,
}

/// The key of the translated name of a scope.
pub open spec fn scope_name_key(v: ShortcutScope) -> Seq<char> {
    match v {
        ShortcutScope::Global => "shortcuts.scope_global"@,
        ShortcutScope::Normal => "shortcuts.scope_normal"@,
        ShortcutScope::Drawing => "shortcuts.scope_drawing"@,
        ShortcutScope::Editing => "shortcuts.scope_editing"@,
    }
}

/// The name of a category in configuration files.
pub open spec fn category_name(v: ShortcutCategory) -> Seq<char> {
    match v {
        ShortcutCategory::File => "file"@,
        ShortcutCategory::Edit => "edit"@,
        ShortcutCategory::Mode => "mode"@,
        ShortcutCategory::Navigation => "navigation"@,
        ShortcutCategory::View => "view"@,
        ShortcutCategory::Tools => "tools"@,
        ShortcutCategory::Other => "other"@,
    }
}

/// The key of the translated name of a category.
pub open spec fn category_name_key(v: ShortcutCategory) -> Seq<char> {
    match v {
        ShortcutCategory::File => "shortcuts.category_file"@,
        ShortcutCategory::Edit => "shortcuts.category_edit"@,
        ShortcutCategory::Mode => "shortcuts.category_mode"@,
        ShortcutCategory::Navigation => "shortcuts.category_navigation"@,
        ShortcutCategory::View => "shortcuts.category_view"@,
        ShortcutCategory::Tools => "shortcuts.category_tools"@,
        ShortcutCategory::Other => "shortcuts.category_other"@,
    }
}

/// The name of an action in configuration files.
pub open spec fn action_name(v: ShortcutAction) -> Seq<char> {
    match v {
        ShortcutAction::OpenProject => "OpenProject"@,
        ShortcutAction::Save => "Save"@,
        ShortcutAction::CloseProject => "CloseProject"@,
        ShortcutAction::Quit => "Quit"@,
        ShortcutAction::Copy => "Copy"@,
        ShortcutAction::Paste => "Paste"@,
        ShortcutAction::Delete => "Delete"@,
        ShortcutAction::Deselect => "Deselect"@,
        ShortcutAction::FinishDrawing => "FinishDrawing"@,
        ShortcutAction::ConvertToRectangle => "ConvertToRectangle"@,
        ShortcutAction::FixSelfIntersection => "FixSelfIntersection"@,
        ShortcutAction::SwitchToNormalMode => "SwitchToNormalMode"@,
        ShortcutAction::SwitchToDrawingMode => "SwitchToDrawingMode"@,
        ShortcutAction::SwitchToEditingMode => "SwitchToEditingMode"@,
        ShortcutAction::PreviousImage => "PreviousImage"@,
        ShortcutAction::NextImage => "NextImage"@,
        ShortcutAction::JumpBackward10 => "JumpBackward10"@,
        ShortcutAction::JumpForward10 => "JumpForward10"@,
        ShortcutAction::CycleNextObject => "CycleNextObject"@,
        ShortcutAction::CyclePreviousObject => "CyclePreviousObject"@,
        ShortcutAction::FitToCanvas => "FitToCanvas"@,
        ShortcutAction::ResetZoom => "ResetZoom"@,
        ShortcutAction::MoveLeft => "MoveLeft"@,
        ShortcutAction::MoveRight => "MoveRight"@,
        ShortcutAction::MoveUp => "MoveUp"@,
        ShortcutAction::MoveDown => "MoveDown"@,
        ShortcutAction::ScaleUp => "ScaleUp"@,
        ShortcutAction::ScaleDown => "ScaleDown"@,
        ShortcutAction::Cancel => "Cancel"@,
        ShortcutAction::ToggleAutoSave => "ToggleAutoSave"@,
        ShortcutAction::ToggleLeftPanel => "ToggleLeftPanel"@,
        ShortcutAction::ToggleRightPanel => "ToggleRightPanel"@,
        ShortcutAction::Zoom25 => "Zoom25"@,
        ShortcutAction::Zoom50 => "Zoom50"@,
        ShortcutAction::Zoom75 => "Zoom75"@,
        ShortcutAction::Zoom100 => "Zoom100"@,
        ShortcutAction::Zoom125 => "Zoom125"@,
        ShortcutAction::Zoom150 => "Zoom150"@,
        ShortcutAction::Zoom200 => "Zoom200"@,
        ShortcutAction::Zoom300 => "Zoom300"@,
        ShortcutAction::Zoom400 => "Zoom400"@,
    }
}

/// The key of the translated description of an action.
pub open spec fn action_description_key(v: ShortcutAction) -> Seq<char> {
    match v {
        ShortcutAction::OpenProject => "shortcut_actions.open_project"@,
        ShortcutAction::Save => "shortcut_actions.save"@,
        ShortcutAction::CloseProject => "shortcut_actions.close_project"@,
        ShortcutAction::Quit => "shortcut_actions.quit"@,
        ShortcutAction::Copy => "shortcut_actions.copy"@,
        ShortcutAction::Paste => "shortcut_actions.paste"@,
        ShortcutAction::Delete => "shortcut_actions.delete"@,
        ShortcutAction::Deselect => "shortcut_actions.deselect"@,
        ShortcutAction::FinishDrawing => "shortcut_actions.finish_drawing"@,
        ShortcutAction::ConvertToRectangle => "shortcut_actions.convert_to_rectangle"@,
        ShortcutAction::FixSelfIntersection => "shortcut_actions.fix_self_intersection"@,
        ShortcutAction::SwitchToNormalMode => "shortcut_actions.switch_to_normal"@,
        ShortcutAction::SwitchToDrawingMode => "shortcut_actions.switch_to_drawing"@,
        ShortcutAction::SwitchToEditingMode => "shortcut_actions.switch_to_editing"@,
        ShortcutAction::PreviousImage => "shortcut_actions.previous_image"@,
        ShortcutAction::NextImage => "shortcut_actions.next_image"@,
        ShortcutAction::JumpBackward10 => "shortcut_actions.jump_backward_10"@,
        ShortcutAction::JumpForward10 => "shortcut_actions.jump_forward_10"@,
        ShortcutAction::CycleNextObject => "shortcut_actions.cycle_next"@,
        ShortcutAction::CyclePreviousObject => "shortcut_actions.cycle_previous"@,
        ShortcutAction::FitToCanvas => "shortcut_actions.fit_to_canvas"@,
        ShortcutAction::ResetZoom => "shortcut_actions.reset_zoom"@,
        ShortcutAction::MoveLeft => "shortcut_actions.move_left"@,
        ShortcutAction::MoveRight => "shortcut_actions.move_right"@,
        ShortcutAction::MoveUp => "shortcut_actions.move_up"@,
        ShortcutAction::MoveDown => "shortcut_actions.move_down"@,
        ShortcutAction::ScaleUp => "shortcut_actions.scale_up"@,
        ShortcutAction::ScaleDown => "shortcut_actions.scale_down"@,
        ShortcutAction::Cancel => "shortcut_actions.cancel"@,
        ShortcutAction::ToggleAutoSave => "shortcut_actions.toggle_auto_save"@,
        ShortcutAction::ToggleLeftPanel => "shortcut_actions.toggle_left_panel"@,
        ShortcutAction::ToggleRightPanel => "shortcut_actions.toggle_right_panel"@,
        ShortcutAction::Zoom25 => "shortcut_actions.zoom_25"@,
        ShortcutAction::Zoom50 => "shortcut_actions.zoom_50"@,
        ShortcutAction::Zoom75 => "shortcut_actions.zoom_75"@,
        ShortcutAction::Zoom100 => "shortcut_actions.zoom_100"@,
        ShortcutAction::Zoom125 => "shortcut_actions.zoom_125"@,
        ShortcutAction::Zoom150 => "shortcut_actions.zoom_150"@,
        ShortcutAction::Zoom200 => "shortcut_actions.zoom_200"@,
        ShortcutAction::Zoom300 => "shortcut_actions.zoom_300"@,
        ShortcutAction::Zoom400 => "shortcut_actions.zoom_400"@,
    }
}

/// The key that triggers an action by default, if one does.
pub open spec fn action_default_key(v: ShortcutAction) -> Option<Key> {
    match v {
        ShortcutAction::OpenProject => Some(Key::O),
        ShortcutAction::Save => Some(Key::S),
        ShortcutAction::CloseProject => None,
        ShortcutAction::Quit => Some(Key::Q),
        ShortcutAction::Copy => Some(Key::C),
        ShortcutAction::Paste => Some(Key::V),
        ShortcutAction::Delete => Some(Key::Delete),
        ShortcutAction::Deselect => Some(Key::Escape),
        ShortcutAction::FinishDrawing => Some(Key::Space),
        ShortcutAction::ConvertToRectangle => Some(Key::R),
        ShortcutAction::FixSelfIntersection => Some(Key::B),
        ShortcutAction::SwitchToNormalMode => Some(Key::Num1),
        ShortcutAction::SwitchToDrawingMode => Some(Key::Num2),
        ShortcutAction::SwitchToEditingMode => Some(Key::Num3),
        ShortcutAction::PreviousImage => Some(Key::A),
        ShortcutAction::NextImage => Some(Key::D),
        ShortcutAction::JumpBackward10 => Some(Key::S),
        ShortcutAction::JumpForward10 => Some(Key::W),
        ShortcutAction::CycleNextObject => Some(Key::Tab),
        ShortcutAction::CyclePreviousObject => Some(Key::Tab),
        ShortcutAction::FitToCanvas => Some(Key::F),
        ShortcutAction::ResetZoom => None,
        ShortcutAction::MoveLeft => Some(Key::ArrowLeft),
        ShortcutAction::MoveRight => Some(Key::ArrowRight),
        ShortcutAction::MoveUp => Some(Key::ArrowUp),
        ShortcutAction::MoveDown => Some(Key::ArrowDown),
        ShortcutAction::ScaleUp => Some(Key::Plus),
        ShortcutAction::ScaleDown => Some(Key::Minus),
        ShortcutAction::Cancel => Some(Key::Escape),
        ShortcutAction::ToggleAutoSave => None,
        ShortcutAction::ToggleLeftPanel => None,
        ShortcutAction::ToggleRightPanel => None,
        ShortcutAction::Zoom25 => None,
        ShortcutAction::Zoom50 => None,
        ShortcutAction::Zoom75 => None,
        ShortcutAction::Zoom100 => Some(Key::Z),
        ShortcutAction::Zoom125 => None,
        ShortcutAction::Zoom150 => None,
        ShortcutAction::Zoom200 => None,
        ShortcutAction::Zoom300 => None,
        ShortcutAction::Zoom400 => None,
    }
}

/// The modifiers that go with the default key of an action.
pub open spec fn action_default_modifiers(v: ShortcutAction) -> KeyModifiers {
    match v {
        ShortcutAction::OpenProject => KeyModifiers { ctrl: true, shift: false, alt: false },
        ShortcutAction::Save => KeyModifiers { ctrl: true, shift: false, alt: false },
        ShortcutAction::CloseProject => KeyModifiers { ctrl: false, shift: false, alt: false },
        ShortcutAction::Quit => KeyModifiers { ctrl: true, shift: false, alt: false },
        ShortcutAction::Copy => KeyModifiers { ctrl: true, shift: false, alt: false },
        ShortcutAction::Paste => KeyModifiers { ctrl: true, shift: false, alt: false },
        ShortcutAction::Delete => KeyModifiers { ctrl: false, shift: false, alt: false },
        ShortcutAction::Deselect => KeyModifiers { ctrl: false, shift: false, alt: false },
        ShortcutAction::FinishDrawing => KeyModifiers { ctrl: false, shift: false, alt: false },
        ShortcutAction::ConvertToRectangle => KeyModifiers { ctrl: false, shift: false, alt: false },
        ShortcutAction::FixSelfIntersection => KeyModifiers { ctrl: false, shift: false, alt: false },
        ShortcutAction::SwitchToNormalMode => KeyModifiers { ctrl: false, shift: true, alt: false },
        ShortcutAction::SwitchToDrawingMode => KeyModifiers { ctrl: false, shift: true, alt: false },
        ShortcutAction::SwitchToEditingMode => KeyModifiers { ctrl: false, shift: true, alt: false },
        ShortcutAction::PreviousImage => KeyModifiers { ctrl: false, shift: false, alt: false },
        ShortcutAction::NextImage => KeyModifiers { ctrl: false, shift: false, alt: false },
        ShortcutAction::JumpBackward10 => KeyModifiers { ctrl: false, shift: false, alt: false },
        ShortcutAction::JumpForward10 => KeyModifiers { ctrl: false, shift: false, alt: false },
        ShortcutAction::CycleNextObject => KeyModifiers { ctrl: false, shift: false, alt: false },
        ShortcutAction::CyclePreviousObject => KeyModifiers { ctrl: false, shift: true, alt: false },
        ShortcutAction::FitToCanvas => KeyModifiers { ctrl: false, shift: false, alt: false },
        ShortcutAction::ResetZoom => KeyModifiers { ctrl: false, shift: false, alt: false },
        ShortcutAction::MoveLeft => KeyModifiers { ctrl: false, shift: false, alt: false },
        ShortcutAction::MoveRight => KeyModifiers { ctrl: false, shift: false, alt: false },
        ShortcutAction::MoveUp => KeyModifiers { ctrl: false, shift: false, alt: false },
        ShortcutAction::MoveDown => KeyModifiers { ctrl: false, shift: false, alt: false },
        ShortcutAction::ScaleUp => KeyModifiers { ctrl: false, shift: false, alt: false },
        ShortcutAction::ScaleDown => KeyModifiers { ctrl: false, shift: false, alt: false },
        ShortcutAction::Cancel => KeyModifiers { ctrl: false, shift: false, alt: false },
        ShortcutAction::ToggleAutoSave => KeyModifiers { ctrl: false, shift: false, alt: false },
        ShortcutAction::ToggleLeftPanel => KeyModifiers { ctrl: false, shift: false, alt: false },
        ShortcutAction::ToggleRightPanel => KeyModifiers { ctrl: false, shift: false, alt: false },
        ShortcutAction::Zoom25 => KeyModifiers { ctrl: false, shift: false, alt: false },
        ShortcutAction::Zoom50 => KeyModifiers { ctrl: false, shift: false, alt: false },
        ShortcutAction::Zoom75 => KeyModifiers { ctrl: false, shift: false, alt: false },
        ShortcutAction::Zoom100 => KeyModifiers { ctrl: false, shift: false, alt: false },
        ShortcutAction::Zoom125 => KeyModifiers { ctrl: false, shift: false, alt: false },
        ShortcutAction::Zoom150 => KeyModifiers { ctrl: false, shift: false, alt: false },
        ShortcutAction::Zoom200 => KeyModifiers { ctrl: false, shift: false, alt: false },
        ShortcutAction::Zoom300 => KeyModifiers { ctrl: false, shift: false, alt: false },
        ShortcutAction::Zoom400 => KeyModifiers { ctrl: false, shift: false, alt: false },
    }
}

/// The scope in which an action is triggered by default.
pub open spec fn action_scope(v: ShortcutAction) -> ShortcutScope {
    match v {
        ShortcutAction::OpenProject => ShortcutScope::Global,
        ShortcutAction::Save => ShortcutScope::Global,
        ShortcutAction::CloseProject => ShortcutScope::Global,
        ShortcutAction::Quit => ShortcutScope::Global,
        ShortcutAction::Copy => ShortcutScope::Editing,
        ShortcutAction::Paste => ShortcutScope::Editing,
        ShortcutAction::Delete => ShortcutScope::Global,
        ShortcutAction::Deselect => ShortcutScope::Normal,
        ShortcutAction::FinishDrawing => ShortcutScope::Drawing,
        ShortcutAction::ConvertToRectangle => ShortcutScope::Editing,
        ShortcutAction::FixSelfIntersection => ShortcutScope::Editing,
        ShortcutAction::SwitchToNormalMode => ShortcutScope::Global,
        ShortcutAction::SwitchToDrawingMode => ShortcutScope::Global,
        ShortcutAction::SwitchToEditingMode => ShortcutScope::Global,
        ShortcutAction::PreviousImage => ShortcutScope::Global,
        ShortcutAction::NextImage => ShortcutScope::Global,
        ShortcutAction::JumpBackward10 => ShortcutScope::Global,
        ShortcutAction::JumpForward10 => ShortcutScope::Global,
        ShortcutAction::CycleNextObject => ShortcutScope::Normal,
        ShortcutAction::CyclePreviousObject => ShortcutScope::Normal,
        ShortcutAction::FitToCanvas => ShortcutScope::Global,
        ShortcutAction::ResetZoom => ShortcutScope::Global,
        ShortcutAction::MoveLeft => ShortcutScope::Editing,
        ShortcutAction::MoveRight => ShortcutScope::Editing,
        ShortcutAction::MoveUp => ShortcutScope::Editing,
        ShortcutAction::MoveDown => ShortcutScope::Editing,
        ShortcutAction::ScaleUp => ShortcutScope::Editing,
        ShortcutAction::ScaleDown => ShortcutScope::Editing,
        ShortcutAction::Cancel => ShortcutScope::Global,
        ShortcutAction::ToggleAutoSave => ShortcutScope::Global,
        ShortcutAction::ToggleLeftPanel => ShortcutScope::Global,
        ShortcutAction::ToggleRightPanel => ShortcutScope::Global,
        ShortcutAction::Zoom25 => ShortcutScope::Global,
        ShortcutAction::Zoom50 => ShortcutScope::Global,
        ShortcutAction::Zoom75 => ShortcutScope::Global,
        ShortcutAction::Zoom100 => ShortcutScope::Global,
        ShortcutAction::Zoom125 => ShortcutScope::Global,
        ShortcutAction::Zoom150 => ShortcutScope::Global,
        ShortcutAction::Zoom200 => ShortcutScope::Global,
        ShortcutAction::Zoom300 => ShortcutScope::Global,
        ShortcutAction::Zoom400 => ShortcutScope::Global,
    }
}

/// The category of an action.
pub open spec fn action_category(v: ShortcutAction) -> ShortcutCategory {
    match v {
        ShortcutAction::OpenProject => ShortcutCategory::File,
        ShortcutAction::Save => ShortcutCategory::File,
        ShortcutAction::CloseProject => ShortcutCategory::File,
        ShortcutAction::Quit => ShortcutCategory::File,
        ShortcutAction::Copy => ShortcutCategory::Edit,
        ShortcutAction::Paste => ShortcutCategory::Edit,
        ShortcutAction::Delete => ShortcutCategory::Edit,
        ShortcutAction::Deselect => ShortcutCategory::Edit,
        ShortcutAction::FinishDrawing => ShortcutCategory::Edit,
        ShortcutAction::ConvertToRectangle => ShortcutCategory::Edit,
        ShortcutAction::FixSelfIntersection => ShortcutCategory::Edit,
        ShortcutAction::SwitchToNormalMode => ShortcutCategory::Mode,
        ShortcutAction::SwitchToDrawingMode => ShortcutCategory::Mode,
        ShortcutAction::SwitchToEditingMode => ShortcutCategory::Mode,
        ShortcutAction::PreviousImage => ShortcutCategory::Navigation,
        ShortcutAction::NextImage => ShortcutCategory::Navigation,
        ShortcutAction::JumpBackward10 => ShortcutCategory::Navigation,
        ShortcutAction::JumpForward10 => ShortcutCategory::Navigation,
        ShortcutAction::CycleNextObject => ShortcutCategory::Navigation,
        ShortcutAction::CyclePreviousObject => ShortcutCategory::Navigation,
        ShortcutAction::FitToCanvas => ShortcutCategory::View,
        ShortcutAction::ResetZoom => ShortcutCategory::View,
        ShortcutAction::MoveLeft => ShortcutCategory::Tools,
        ShortcutAction::MoveRight => ShortcutCategory::Tools,
        ShortcutAction::MoveUp => ShortcutCategory::Tools,
        ShortcutAction::MoveDown => ShortcutCategory::Tools,
        ShortcutAction::ScaleUp => ShortcutCategory::Tools,
        ShortcutAction::ScaleDown => ShortcutCategory::Tools,
        ShortcutAction::Cancel => ShortcutCategory::Other,
        ShortcutAction::ToggleAutoSave => ShortcutCategory::View,
        ShortcutAction::ToggleLeftPanel => ShortcutCategory::View,
        ShortcutAction::ToggleRightPanel => ShortcutCategory::View,
        ShortcutAction::Zoom25 => ShortcutCategory::View,
        ShortcutAction::Zoom50 => ShortcutCategory::View,
        ShortcutAction::Zoom75 => ShortcutCategory::View,
        ShortcutAction::Zoom100 => ShortcutCategory::View,
        ShortcutAction::Zoom125 => ShortcutCategory::View,
        ShortcutAction::Zoom150 => ShortcutCategory::View,
        ShortcutAction::Zoom200 => ShortcutCategory::View,
        ShortcutAction::Zoom300 => ShortcutCategory::View,
        ShortcutAction::Zoom400 => ShortcutCategory::View,
    }
}

/// The name of a key in configuration files.
pub open spec fn key_name(v: Key) -> Seq<char> {
    match v {
        Key::A => "A"@,
        Key::B => "B"@,
        Key::C => "C"@,
        Key::D => "D"@,
        Key::E => "E"@,
        Key::F => "F"@,
        Key::G => "G"@,
        Key::H => "H"@,
        Key::I => "I"@,
        Key::J => "J"@,
        Key::K => "K"@,
        Key::L => "L"@,
        Key::M => "M"@,
        Key::N => "N"@,
        Key::O => "O"@,
        Key::P => "P"@,
        Key::Q => "Q"@,
        Key::R => "R"@,
        Key::S => "S"@,
        Key::T => "T"@,
        Key::U => "U"@,
        Key::V => "V"@,
        Key::W => "W"@,
        Key::X => "X"@,
        Key::Y => "Y"@,
        Key::Z => "Z"@,
        Key::Num0 => "Num0"@,
        Key::Num1 => "Num1"@,
        Key::Num2 => "Num2"@,
        Key::Num3 => "Num3"@,
        Key::Num4 => "Num4"@,
        Key::Num5 => "Num5"@,
        Key::Num6 => "Num6"@,
        Key::Num7 => "Num7"@,
        Key::Num8 => "Num8"@,
        Key::Num9 => "Num9"@,
        Key::Space => "Space"@,
        Key::Tab => "Tab"@,
        Key::Escape => "Escape"@,
        Key::Delete => "Delete"@,
        Key::ArrowLeft => "ArrowLeft"@,
        Key::ArrowRight => "ArrowRight"@,
        Key::ArrowUp => "ArrowUp"@,
        Key::ArrowDown => "ArrowDown"@,
        Key::Plus => "Plus"@,
        Key::Minus => "Minus"@,
        Key::Equals => "Equals"@,
        Key::F1 => "F1"@,
        Key::F2 => "F2"@,
        Key::F3 => "F3"@,
        Key::F4 => "F4"@,
        Key::F5 => "F5"@,
        Key::F6 => "F6"@,
        Key::F7 => "F7"@,
        Key::F8 => "F8"@,
        Key::F9 => "F9"@,
        Key::F10 => "F10"@,
        Key::F11 => "F11"@,
        Key::F12 => "F12"@,
    }
}

/// Every category, in the order of the list of shortcuts.
pub open spec fn spec_all_categories() -> Seq<ShortcutCategory> {
    seq![
        ShortcutCategory::File,
        ShortcutCategory::Edit,
        ShortcutCategory::Mode,
        ShortcutCategory::Navigation,
        ShortcutCategory::View,
        ShortcutCategory::Tools,
        ShortcutCategory::Other,
    ]
}

/// Every action, in the order of the list of shortcuts.
pub open spec fn spec_all_actions() -> Seq<ShortcutAction> {
    seq![
        ShortcutAction::OpenProject,
        ShortcutAction::Save,
        ShortcutAction::CloseProject,
        ShortcutAction::Quit,
        ShortcutAction::Copy,
        ShortcutAction::Paste,
        ShortcutAction::Delete,
        ShortcutAction::Deselect,
        ShortcutAction::FinishDrawing,
        ShortcutAction::ConvertToRectangle,
        ShortcutAction::FixSelfIntersection,
        ShortcutAction::SwitchToNormalMode,
        ShortcutAction::SwitchToDrawingMode,
        ShortcutAction::SwitchToEditingMode,
        ShortcutAction::PreviousImage,
        ShortcutAction::NextImage,
        ShortcutAction::JumpBackward10,
        ShortcutAction::JumpForward10,
        ShortcutAction::CycleNextObject,
        ShortcutAction::CyclePreviousObject,
        ShortcutAction::FitToCanvas,
        ShortcutAction::ResetZoom,
        ShortcutAction::MoveLeft,
        ShortcutAction::MoveRight,
        ShortcutAction::MoveUp,
        ShortcutAction::MoveDown,
        ShortcutAction::ScaleUp,
        ShortcutAction::ScaleDown,
        ShortcutAction::Cancel,
        ShortcutAction::ToggleAutoSave,
        ShortcutAction::ToggleLeftPanel,
        ShortcutAction::ToggleRightPanel,
        ShortcutAction::Zoom25,
        ShortcutAction::Zoom50,
        ShortcutAction::Zoom75,
        ShortcutAction::Zoom100,
        ShortcutAction::Zoom125,
        ShortcutAction::Zoom150,
        ShortcutAction::Zoom200,
        ShortcutAction::Zoom300,
        ShortcutAction::Zoom400,
    ]
}

/// The keys that a binding can name, in the order in which pressed keys
/// are looked at. The function keys are not among them.
pub open spec fn spec_bindable_keys() -> Seq<Key> {
    seq![
        Key::A,
        Key::B,
        Key::C,
        Key::D,
        Key::E,
        Key::F,
        Key::G,
        Key::H,
        Key::I,
        Key::J,
        Key::K,
        Key::L,
        Key::M,
        Key::N,
        Key::O,
        Key::P,
        Key::Q,
        Key::R,
        Key::S,
        Key::T,
        Key::U,
        Key::V,
        Key::W,
        Key::X,
        Key::Y,
        Key::Z,
        Key::Num0,
        Key::Num1,
        Key::Num2,
        Key::Num3,
        Key::Num4,
        Key::Num5,
        Key::Num6,
        Key::Num7,
        Key::Num8,
        Key::Num9,
        Key::Space,
        Key::Tab,
        Key::Escape,
        Key::Delete,
        Key::ArrowLeft,
        Key::ArrowRight,
        Key::ArrowUp,
        Key::ArrowDown,
        Key::Plus,
        Key::Minus,
        Key::Equals,
    ]
}

/// The modifier keys held with a key.
#[derive(Clone, Copy, Debug, PartialEq, Eq, Hash, Structural)]
pub struct KeyModifiers {
    pub ctrl: bool,
    pub shift: bool,
    pub alt: bool,
}

impl Default for KeyModifiers {
    fn default() -> (modifiers: KeyModifiers)
        ensures
            modifiers == (KeyModifiers { ctrl: false, shift: false, alt: false }),
    {
        KeyModifiers { ctrl: false, shift: false, alt: false }
    }
}

impl ShortcutScope {
    /// The key of the translated name of the scope.
    pub fn name_key(&self) -> (key: &'static str)
        ensures
            key@ == scope_name_key(*self),
    {
        match self {
            ShortcutScope::Global => "shortcuts.scope_global",
            ShortcutScope::Normal => "shortcuts.scope_normal",
            ShortcutScope::Drawing => "shortcuts.scope_drawing",
            ShortcutScope::Editing => "shortcuts.scope_editing",
        }
    }

    /// The scope of the bindings that are active in `mode` only.
    pub fn of_mode(mode: EditMode) -> (scope: ShortcutScope)
        ensures
            scope == scope_of_mode(mode),
    {
        match mode {
            EditMode::Browse => ShortcutScope::Normal,
            EditMode::Drawing => ShortcutScope::Drawing,
            EditMode::Editing => ShortcutScope::Editing,
        }
    }
}

/// The scope of the bindings that are active in `mode` only.
pub open spec fn scope_of_mode(mode: EditMode) -> ShortcutScope {
    match mode {
        EditMode::Browse => ShortcutScope::Normal,
        EditMode::Drawing => ShortcutScope::Drawing,
        EditMode::Editing => ShortcutScope::Editing,
    }
}

impl ShortcutCategory {
    /// The name of the category in configuration files.
    pub fn as_str(&self) -> (name: &'static str)
        ensures
            name@ == category_name(*self),
    {
        match self {
            ShortcutCategory::File => "file",
            ShortcutCategory::Edit => "edit",
            ShortcutCategory::Mode => "mode",
            ShortcutCategory::Navigation => "navigation",
            ShortcutCategory::View => "view",
            ShortcutCategory::Tools => "tools",
            ShortcutCategory::Other => "other",
        }
    }

    /// Every category, in the order of the list of shortcuts.
    pub fn all_categories() -> (categories: Vec<ShortcutCategory>)
        ensures
            categories@ == spec_all_categories(),
    {
        let categories = vec![
            ShortcutCategory::File,
            ShortcutCategory::Edit,
            ShortcutCategory::Mode,
            ShortcutCategory::Navigation,
            ShortcutCategory::View,
            ShortcutCategory::Tools,
            ShortcutCategory::Other,
        ];
        assert(categories@ =~= spec_all_categories());
        categories
    }

    /// The key of the translated name of the category.
    pub fn name_key(&self) -> (key: &'static str)
        ensures
            key@ == category_name_key(*self),
    {
        match self {
            ShortcutCategory::File => "shortcuts.category_file",
            ShortcutCategory::Edit => "shortcuts.category_edit",
            ShortcutCategory::Mode => "shortcuts.category_mode",
            ShortcutCategory::Navigation => "shortcuts.category_navigation",
            ShortcutCategory::View => "shortcuts.category_view",
            ShortcutCategory::Tools => "shortcuts.category_tools",
            ShortcutCategory::Other => "shortcuts.category_other",
        }
    }
}

impl ShortcutAction {
    /// Every action, in the order of the list of shortcuts.
    pub fn all_actions() -> (actions: Vec<ShortcutAction>)
        ensures
            actions@ == spec_all_actions(),
    {
        let actions = vec![
            ShortcutAction::OpenProject,
            ShortcutAction::Save,
            ShortcutAction::CloseProject,
            ShortcutAction::Quit,
            ShortcutAction::Copy,
            ShortcutAction::Paste,
            ShortcutAction::Delete,
            ShortcutAction::Deselect,
            ShortcutAction::FinishDrawing,
            ShortcutAction::ConvertToRectangle,
            ShortcutAction::FixSelfIntersection,
            ShortcutAction::SwitchToNormalMode,
            ShortcutAction::SwitchToDrawingMode,
            ShortcutAction::SwitchToEditingMode,
            ShortcutAction::PreviousImage,
            ShortcutAction::NextImage,
            ShortcutAction::JumpBackward10,
            ShortcutAction::JumpForward10,
            ShortcutAction::CycleNextObject,
            ShortcutAction::CyclePreviousObject,
            ShortcutAction::FitToCanvas,
            ShortcutAction::ResetZoom,
            ShortcutAction::MoveLeft,
            ShortcutAction::MoveRight,
            ShortcutAction::MoveUp,
            ShortcutAction::MoveDown,
            ShortcutAction::ScaleUp,
            ShortcutAction::ScaleDown,
            ShortcutAction::Cancel,
            ShortcutAction::ToggleAutoSave,
            ShortcutAction::ToggleLeftPanel,
            ShortcutAction::ToggleRightPanel,
            ShortcutAction::Zoom25,
            ShortcutAction::Zoom50,
            ShortcutAction::Zoom75,
            ShortcutAction::Zoom100,
            ShortcutAction::Zoom125,
            ShortcutAction::Zoom150,
            ShortcutAction::Zoom200,
            ShortcutAction::Zoom300,
            ShortcutAction::Zoom400,
        ];
        assert(actions@ =~= spec_all_actions());
        actions
    }

    /// The key that triggers the action by default, if one does.
    pub fn default_key(&self) -> (key: Option<Key>)
        ensures
            key == action_default_key(*self),
    {
        match self {
            ShortcutAction::OpenProject => Some(Key::O),
            ShortcutAction::Save => Some(Key::S),
            ShortcutAction::CloseProject => None,
            ShortcutAction::Quit => Some(Key::Q),
            ShortcutAction::Copy => Some(Key::C),
            ShortcutAction::Paste => Some(Key::V),
            ShortcutAction::Delete => Some(Key::Delete),
            ShortcutAction::Deselect => Some(Key::Escape),
            ShortcutAction::FinishDrawing => Some(Key::Space),
            ShortcutAction::ConvertToRectangle => Some(Key::R),
            ShortcutAction::FixSelfIntersection => Some(Key::B),
            ShortcutAction::SwitchToNormalMode => Some(Key::Num1),
            ShortcutAction::SwitchToDrawingMode => Some(Key::Num2),
            ShortcutAction::SwitchToEditingMode => Some(Key::Num3),
            ShortcutAction::PreviousImage => Some(Key::A),
            ShortcutAction::NextImage => Some(Key::D),
            ShortcutAction::JumpBackward10 => Some(Key::S),
            ShortcutAction::JumpForward10 => Some(Key::W),
            ShortcutAction::CycleNextObject => Some(Key::Tab),
            ShortcutAction::CyclePreviousObject => Some(Key::Tab),
            ShortcutAction::FitToCanvas => Some(Key::F),
            ShortcutAction::ResetZoom => None,
            ShortcutAction::MoveLeft => Some(Key::ArrowLeft),
            ShortcutAction::MoveRight => Some(Key::ArrowRight),
            ShortcutAction::MoveUp => Some(Key::ArrowUp),
            ShortcutAction::MoveDown => Some(Key::ArrowDown),
            ShortcutAction::ScaleUp => Some(Key::Plus),
            ShortcutAction::ScaleDown => Some(Key::Minus),
            ShortcutAction::Cancel => Some(Key::Escape),
            ShortcutAction::ToggleAutoSave => None,
            ShortcutAction::ToggleLeftPanel => None,
            ShortcutAction::ToggleRightPanel => None,
            ShortcutAction::Zoom25 => None,
            ShortcutAction::Zoom50 => None,
            ShortcutAction::Zoom75 => None,
            ShortcutAction::Zoom100 => Some(Key::Z),
            ShortcutAction::Zoom125 => None,
            ShortcutAction::Zoom150 => None,
            ShortcutAction::Zoom200 => None,
            ShortcutAction::Zoom300 => None,
            ShortcutAction::Zoom400 => None,
        }
    }

    /// The modifiers that go with the default key of the action.
    pub fn default_modifiers(&self) -> (modifiers: KeyModifiers)
        ensures
            modifiers == action_default_modifiers(*self),
    {
        match self {
            ShortcutAction::OpenProject => KeyModifiers { ctrl: true, shift: false, alt: false },
            ShortcutAction::Save => KeyModifiers { ctrl: true, shift: false, alt: false },
            ShortcutAction::CloseProject => KeyModifiers { ctrl: false, shift: false, alt: false },
            ShortcutAction::Quit => KeyModifiers { ctrl: true, shift: false, alt: false },
            ShortcutAction::Copy => KeyModifiers { ctrl: true, shift: false, alt: false },
            ShortcutAction::Paste => KeyModifiers { ctrl: true, shift: false, alt: false },
            ShortcutAction::Delete => KeyModifiers { ctrl: false, shift: false, alt: false },
            ShortcutAction::Deselect => KeyModifiers { ctrl: false, shift: false, alt: false },
            ShortcutAction::FinishDrawing => KeyModifiers { ctrl: false, shift: false, alt: false },
            ShortcutAction::ConvertToRectangle => KeyModifiers { ctrl: false, shift: false, alt: false },
            ShortcutAction::FixSelfIntersection => KeyModifiers { ctrl: false, shift: false, alt: false },
            ShortcutAction::SwitchToNormalMode => KeyModifiers { ctrl: false, shift: true, alt: false },
            ShortcutAction::SwitchToDrawingMode => KeyModifiers { ctrl: false, shift: true, alt: false },
            ShortcutAction::SwitchToEditingMode => KeyModifiers { ctrl: false, shift: true, alt: false },
            ShortcutAction::PreviousImage => KeyModifiers { ctrl: false, shift: false, alt: false },
            ShortcutAction::NextImage => KeyModifiers { ctrl: false, shift: false, alt: false },
            ShortcutAction::JumpBackward10 => KeyModifiers { ctrl: false, shift: false, alt: false },
            ShortcutAction::JumpForward10 => KeyModifiers { ctrl: false, shift: false, alt: false },
            ShortcutAction::CycleNextObject => KeyModifiers { ctrl: false, shift: false, alt: false },
            ShortcutAction::CyclePreviousObject => KeyModifiers { ctrl: false, shift: true, alt: false },
            ShortcutAction::FitToCanvas => KeyModifiers { ctrl: false, shift: false, alt: false },
            ShortcutAction::ResetZoom => KeyModifiers { ctrl: false, shift: false, alt: false },
            ShortcutAction::MoveLeft => KeyModifiers { ctrl: false, shift: false, alt: false },
            ShortcutAction::MoveRight => KeyModifiers { ctrl: false, shift: false, alt: false },
            ShortcutAction::MoveUp => KeyModifiers { ctrl: false, shift: false, alt: false },
            ShortcutAction::MoveDown => KeyModifiers { ctrl: false, shift: false, alt: false },
            ShortcutAction::ScaleUp => KeyModifiers { ctrl: false, shift: false, alt: false },
            ShortcutAction::ScaleDown => KeyModifiers { ctrl: false, shift: false, alt: false },
            ShortcutAction::Cancel => KeyModifiers { ctrl: false, shift: false, alt: false },
            ShortcutAction::ToggleAutoSave => KeyModifiers { ctrl: false, shift: false, alt: false },
            ShortcutAction::ToggleLeftPanel => KeyModifiers { ctrl: false, shift: false, alt: false },
            ShortcutAction::ToggleRightPanel => KeyModifiers { ctrl: false, shift: false, alt: false },
            ShortcutAction::Zoom25 => KeyModifiers { ctrl: false, shift: false, alt: false },
            ShortcutAction::Zoom50 => KeyModifiers { ctrl: false, shift: false, alt: false },
            ShortcutAction::Zoom75 => KeyModifiers { ctrl: false, shift: false, alt: false },
            ShortcutAction::Zoom100 => KeyModifiers { ctrl: false, shift: false, alt: false },
            ShortcutAction::Zoom125 => KeyModifiers { ctrl: false, shift: false, alt: false },
            ShortcutAction::Zoom150 => KeyModifiers { ctrl: false, shift: false, alt: false },
            ShortcutAction::Zoom200 => KeyModifiers { ctrl: false, shift: false, alt: false },
            ShortcutAction::Zoom300 => KeyModifiers { ctrl: false, shift: false, alt: false },
            ShortcutAction::Zoom400 => KeyModifiers { ctrl: false, shift: false, alt: false },
        }
    }

    /// The scope in which the action is triggered by default.
    pub fn scope(&self) -> (scope: ShortcutScope)
        ensures
            scope == action_scope(*self),
    {
        match self {
            ShortcutAction::OpenProject => ShortcutScope::Global,
            ShortcutAction::Save => ShortcutScope::Global,
            ShortcutAction::CloseProject => ShortcutScope::Global,
            ShortcutAction::Quit => ShortcutScope::Global,
            ShortcutAction::Copy => ShortcutScope::Editing,
            ShortcutAction::Paste => ShortcutScope::Editing,
            ShortcutAction::Delete => ShortcutScope::Global,
            ShortcutAction::Deselect => ShortcutScope::Normal,
            ShortcutAction::FinishDrawing => ShortcutScope::Drawing,
            ShortcutAction::ConvertToRectangle => ShortcutScope::Editing,
            ShortcutAction::FixSelfIntersection => ShortcutScope::Editing,
            ShortcutAction::SwitchToNormalMode => ShortcutScope::Global,
            ShortcutAction::SwitchToDrawingMode => ShortcutScope::Global,
            ShortcutAction::SwitchToEditingMode => ShortcutScope::Global,
            ShortcutAction::PreviousImage => ShortcutScope::Global,
            ShortcutAction::NextImage => ShortcutScope::Global,
            ShortcutAction::JumpBackward10 => ShortcutScope::Global,
            ShortcutAction::JumpForward10 => ShortcutScope::Global,
            ShortcutAction::CycleNextObject => ShortcutScope::Normal,
            ShortcutAction::CyclePreviousObject => ShortcutScope::Normal,
            ShortcutAction::FitToCanvas => ShortcutScope::Global,
            ShortcutAction::ResetZoom => ShortcutScope::Global,
            ShortcutAction::MoveLeft => ShortcutScope::Editing,
            ShortcutAction::MoveRight => ShortcutScope::Editing,
            ShortcutAction::MoveUp => ShortcutScope::Editing,
            ShortcutAction::MoveDown => ShortcutScope::Editing,
            ShortcutAction::ScaleUp => ShortcutScope::Editing,
            ShortcutAction::ScaleDown => ShortcutScope::Editing,
            ShortcutAction::Cancel => ShortcutScope::Global,
            ShortcutAction::ToggleAutoSave => ShortcutScope::Global,
            ShortcutAction::ToggleLeftPanel => ShortcutScope::Global,
            ShortcutAction::ToggleRightPanel => ShortcutScope::Global,
            ShortcutAction::Zoom25 => ShortcutScope::Global,
            ShortcutAction::Zoom50 => ShortcutScope::Global,
            ShortcutAction::Zoom75 => ShortcutScope::Global,
            ShortcutAction::Zoom100 => ShortcutScope::Global,
            ShortcutAction::Zoom125 => ShortcutScope::Global,
            ShortcutAction::Zoom150 => ShortcutScope::Global,
            ShortcutAction::Zoom200 => ShortcutScope::Global,
            ShortcutAction::Zoom300 => ShortcutScope::Global,
            ShortcutAction::Zoom400 => ShortcutScope::Global,
        }
    }

    /// The category of the action.
    pub fn category(&self) -> (category: ShortcutCategory)
        ensures
            category == action_category(*self),
    {
        match self {
            ShortcutAction::OpenProject => ShortcutCategory::File,
            ShortcutAction::Save => ShortcutCategory::File,
            ShortcutAction::CloseProject => ShortcutCategory::File,
            ShortcutAction::Quit => ShortcutCategory::File,
            ShortcutAction::Copy => ShortcutCategory::Edit,
            ShortcutAction::Paste => ShortcutCategory::Edit,
            ShortcutAction::Delete => ShortcutCategory::Edit,
            ShortcutAction::Deselect => ShortcutCategory::Edit,
            ShortcutAction::FinishDrawing => ShortcutCategory::Edit,
            ShortcutAction::ConvertToRectangle => ShortcutCategory::Edit,
            ShortcutAction::FixSelfIntersection => ShortcutCategory::Edit,
            ShortcutAction::SwitchToNormalMode => ShortcutCategory::Mode,
            ShortcutAction::SwitchToDrawingMode => ShortcutCategory::Mode,
            ShortcutAction::SwitchToEditingMode => ShortcutCategory::Mode,
            ShortcutAction::PreviousImage => ShortcutCategory::Navigation,
            ShortcutAction::NextImage => ShortcutCategory::Navigation,
            ShortcutAction::JumpBackward10 => ShortcutCategory::Navigation,
            ShortcutAction::JumpForward10 => ShortcutCategory::Navigation,
            ShortcutAction::CycleNextObject => ShortcutCategory::Navigation,
            ShortcutAction::CyclePreviousObject => ShortcutCategory::Navigation,
            ShortcutAction::FitToCanvas => ShortcutCategory::View,
            ShortcutAction::ResetZoom => ShortcutCategory::View,
            ShortcutAction::MoveLeft => ShortcutCategory::Tools,
            ShortcutAction::MoveRight => ShortcutCategory::Tools,
            ShortcutAction::MoveUp => ShortcutCategory::Tools,
            ShortcutAction::MoveDown => ShortcutCategory::Tools,
            ShortcutAction::ScaleUp => ShortcutCategory::Tools,
            ShortcutAction::ScaleDown => ShortcutCategory::Tools,
            ShortcutAction::Cancel => ShortcutCategory::Other,
            ShortcutAction::ToggleAutoSave => ShortcutCategory::View,
            ShortcutAction::ToggleLeftPanel => ShortcutCategory::View,
            ShortcutAction::ToggleRightPanel => ShortcutCategory::View,
            ShortcutAction::Zoom25 => ShortcutCategory::View,
            ShortcutAction::Zoom50 => ShortcutCategory::View,
            ShortcutAction::Zoom75 => ShortcutCategory::View,
            ShortcutAction::Zoom100 => ShortcutCategory::View,
            ShortcutAction::Zoom125 => ShortcutCategory::View,
            ShortcutAction::Zoom150 => ShortcutCategory::View,
            ShortcutAction::Zoom200 => ShortcutCategory::View,
            ShortcutAction::Zoom300 => ShortcutCategory::View,
            ShortcutAction::Zoom400 => ShortcutCategory::View,
        }
    }

    /// The key of the translated description of the action.
    pub fn description_key(&self) -> (key: &'static str)
        ensures
            key@ == action_description_key(*self),
    {
        match self {
            ShortcutAction::OpenProject => "shortcut_actions.open_project",
            ShortcutAction::Save => "shortcut_actions.save",
            ShortcutAction::CloseProject => "shortcut_actions.close_project",
            ShortcutAction::Quit => "shortcut_actions.quit",
            ShortcutAction::Copy => "shortcut_actions.copy",
            ShortcutAction::Paste => "shortcut_actions.paste",
            ShortcutAction::Delete => "shortcut_actions.delete",
            ShortcutAction::Deselect => "shortcut_actions.deselect",
            ShortcutAction::FinishDrawing => "shortcut_actions.finish_drawing",
            ShortcutAction::ConvertToRectangle => "shortcut_actions.convert_to_rectangle",
            ShortcutAction::FixSelfIntersection => "shortcut_actions.fix_self_intersection",
            ShortcutAction::SwitchToNormalMode => "shortcut_actions.switch_to_normal",
            ShortcutAction::SwitchToDrawingMode => "shortcut_actions.switch_to_drawing",
            ShortcutAction::SwitchToEditingMode => "shortcut_actions.switch_to_editing",
            ShortcutAction::PreviousImage => "shortcut_actions.previous_image",
            ShortcutAction::NextImage => "shortcut_actions.next_image",
            ShortcutAction::JumpBackward10 => "shortcut_actions.jump_backward_10",
            ShortcutAction::JumpForward10 => "shortcut_actions.jump_forward_10",
            ShortcutAction::CycleNextObject => "shortcut_actions.cycle_next",
            ShortcutAction::CyclePreviousObject => "shortcut_actions.cycle_previous",
            ShortcutAction::FitToCanvas => "shortcut_actions.fit_to_canvas",
            ShortcutAction::ResetZoom => "shortcut_actions.reset_zoom",
            ShortcutAction::MoveLeft => "shortcut_actions.move_left",
            ShortcutAction::MoveRight => "shortcut_actions.move_right",
            ShortcutAction::MoveUp => "shortcut_actions.move_up",
            ShortcutAction::MoveDown => "shortcut_actions.move_down",
            ShortcutAction::ScaleUp => "shortcut_actions.scale_up",
            ShortcutAction::ScaleDown => "shortcut_actions.scale_down",
            ShortcutAction::Cancel => "shortcut_actions.cancel",
            ShortcutAction::ToggleAutoSave => "shortcut_actions.toggle_auto_save",
            ShortcutAction::ToggleLeftPanel => "shortcut_actions.toggle_left_panel",
            ShortcutAction::ToggleRightPanel => "shortcut_actions.toggle_right_panel",
            ShortcutAction::Zoom25 => "shortcut_actions.zoom_25",
            ShortcutAction::Zoom50 => "shortcut_actions.zoom_50",
            ShortcutAction::Zoom75 => "shortcut_actions.zoom_75",
            ShortcutAction::Zoom100 => "shortcut_actions.zoom_100",
            ShortcutAction::Zoom125 => "shortcut_actions.zoom_125",
            ShortcutAction::Zoom150 => "shortcut_actions.zoom_150",
            ShortcutAction::Zoom200 => "shortcut_actions.zoom_200",
            ShortcutAction::Zoom300 => "shortcut_actions.zoom_300",
            ShortcutAction::Zoom400 => "shortcut_actions.zoom_400",
        }
    }

    /// The name of the action in configuration files.
    pub fn as_str(&self) -> (name: &'static str)
        ensures
            name@ == action_name(*self),
    {
        match self {
            ShortcutAction::OpenProject => "OpenProject",
            ShortcutAction::Save => "Save",
            ShortcutAction::CloseProject => "CloseProject",
            ShortcutAction::Quit => "Quit",
            ShortcutAction::Copy => "Copy",
            ShortcutAction::Paste => "Paste",
            ShortcutAction::Delete => "Delete",
            ShortcutAction::Deselect => "Deselect",
            ShortcutAction::FinishDrawing => "FinishDrawing",
            ShortcutAction::ConvertToRectangle => "ConvertToRectangle",
            ShortcutAction::FixSelfIntersection => "FixSelfIntersection",
            ShortcutAction::SwitchToNormalMode => "SwitchToNormalMode",
            ShortcutAction::SwitchToDrawingMode => "SwitchToDrawingMode",
            ShortcutAction::SwitchToEditingMode => "SwitchToEditingMode",
            ShortcutAction::PreviousImage => "PreviousImage",
            ShortcutAction::NextImage => "NextImage",
            ShortcutAction::JumpBackward10 => "JumpBackward10",
            ShortcutAction::JumpForward10 => "JumpForward10",
            ShortcutAction::CycleNextObject => "CycleNextObject",
            ShortcutAction::CyclePreviousObject => "CyclePreviousObject",
            ShortcutAction::FitToCanvas => "FitToCanvas",
            ShortcutAction::ResetZoom => "ResetZoom",
            ShortcutAction::MoveLeft => "MoveLeft",
            ShortcutAction::MoveRight => "MoveRight",
            ShortcutAction::MoveUp => "MoveUp",
            ShortcutAction::MoveDown => "MoveDown",
            ShortcutAction::ScaleUp => "ScaleUp",
            ShortcutAction::ScaleDown => "ScaleDown",
            ShortcutAction::Cancel => "Cancel",
            ShortcutAction::ToggleAutoSave => "ToggleAutoSave",
            ShortcutAction::ToggleLeftPanel => "ToggleLeftPanel",
            ShortcutAction::ToggleRightPanel => "ToggleRightPanel",
            ShortcutAction::Zoom25 => "Zoom25",
            ShortcutAction::Zoom50 => "Zoom50",
            ShortcutAction::Zoom75 => "Zoom75",
            ShortcutAction::Zoom100 => "Zoom100",
            ShortcutAction::Zoom125 => "Zoom125",
            ShortcutAction::Zoom150 => "Zoom150",
            ShortcutAction::Zoom200 => "Zoom200",
            ShortcutAction::Zoom300 => "Zoom300",
            ShortcutAction::Zoom400 => "Zoom400",
        }
    }

    /// The action that `name` names in configuration files: the first of
    /// the list of actions with that name.
    pub fn from_name(name: &str) -> (action: Option<ShortcutAction>)
        ensures
            action == action_named(name@),
    {
        let actions = ShortcutAction::all_actions();
        let ghost pred = |k: int| action_name(spec_all_actions()[k]) == name@;
        let mut k: usize = 0;
        while k < actions.len()
            invariant
                k <= actions@.len(),
                actions@ == spec_all_actions(),
                pred == |k: int| action_name(spec_all_actions()[k]) == name@,
                forall|j: int| 0 <= j < k ==> !#[trigger] pred(j),
            decreases actions@.len() - k,
        {
            if str_eq(actions[k].as_str(), name) {
                proof {
                    assert(pred(k as int));
                    crate::search::lemma_first_index_is(actions@.len() as int, pred, k as int);
                }
                return Some(actions[k]);
            }
            assert(!pred(k as int));
            k = k + 1;
        }
        proof {
            crate::search::lemma_first_index_none(actions@.len() as int, pred);
        }
        None
    }
}

/// The action that `name` names: the first of the list of actions whose
/// name is `name`.
pub open spec fn action_named(name: Seq<char>) -> Option<ShortcutAction> {
    match crate::search::first_index(
        spec_all_actions().len() as int,
        |k: int| action_name(spec_all_actions()[k]) == name,
    ) {
        Some(k) => Some(spec_all_actions()[k]),
        None => None,
    }
}

/// The key that `name` names in a binding: the first of the keys that a
/// binding can name whose name is `name`.
pub open spec fn key_named(name: Seq<char>) -> Option<Key> {
    match crate::search::first_index(
        spec_bindable_keys().len() as int,
        |k: int| key_name(spec_bindable_keys()[k]) == name,
    ) {
        Some(k) => Some(spec_bindable_keys()[k]),
        None => None,
    }
}

impl Key {
    /// The name of the key in configuration files.
    pub fn name(&self) -> (name: &'static str)
        ensures
            name@ == key_name(*self),
    {
        match self {
            Key::A => "A",
            Key::B => "B",
            Key::C => "C",
            Key::D => "D",
            Key::E => "E",
            Key::F => "F",
            Key::G => "G",
            Key::H => "H",
            Key::I => "I",
            Key::J => "J",
            Key::K => "K",
            Key::L => "L",
            Key::M => "M",
            Key::N => "N",
            Key::O => "O",
            Key::P => "P",
            Key::Q => "Q",
            Key::R => "R",
            Key::S => "S",
            Key::T => "T",
            Key::U => "U",
            Key::V => "V",
            Key::W => "W",
            Key::X => "X",
            Key::Y => "Y",
            Key::Z => "Z",
            Key::Num0 => "Num0",
            Key::Num1 => "Num1",
            Key::Num2 => "Num2",
            Key::Num3 => "Num3",
            Key::Num4 => "Num4",
            Key::Num5 => "Num5",
            Key::Num6 => "Num6",
            Key::Num7 => "Num7",
            Key::Num8 => "Num8",
            Key::Num9 => "Num9",
            Key::Space => "Space",
            Key::Tab => "Tab",
            Key::Escape => "Escape",
            Key::Delete => "Delete",
            Key::ArrowLeft => "ArrowLeft",
            Key::ArrowRight => "ArrowRight",
            Key::ArrowUp => "ArrowUp",
            Key::ArrowDown => "ArrowDown",
            Key::Plus => "Plus",
            Key::Minus => "Minus",
            Key::Equals => "Equals",
            Key::F1 => "F1",
            Key::F2 => "F2",
            Key::F3 => "F3",
            Key::F4 => "F4",
            Key::F5 => "F5",
            Key::F6 => "F6",
            Key::F7 => "F7",
            Key::F8 => "F8",
            Key::F9 => "F9",
            Key::F10 => "F10",
            Key::F11 => "F11",
            Key::F12 => "F12",
        }
    }

    /// The keys that a binding can name, in the order in which pressed
    /// keys are looked at.
    pub fn bindable_keys() -> (keys: Vec<Key>)
        ensures
            keys@ == spec_bindable_keys(),
    {
        let keys = vec![
            Key::A,
            Key::B,
            Key::C,
            Key::D,
            Key::E,
            Key::F,
            Key::G,
            Key::H,
            Key::I,
            Key::J,
            Key::K,
            Key::L,
            Key::M,
            Key::N,
            Key::O,
            Key::P,
            Key::Q,
            Key::R,
            Key::S,
            Key::T,
            Key::U,
            Key::V,
            Key::W,
            Key::X,
            Key::Y,
            Key::Z,
            Key::Num0,
            Key::Num1,
            Key::Num2,
            Key::Num3,
            Key::Num4,
            Key::Num5,
            Key::Num6,
            Key::Num7,
            Key::Num8,
            Key::Num9,
            Key::Space,
            Key::Tab,
            Key::Escape,
            Key::Delete,
            Key::ArrowLeft,
            Key::ArrowRight,
            Key::ArrowUp,
            Key::ArrowDown,
            Key::Plus,
            Key::Minus,
            Key::Equals,
        ];
        assert(keys@ =~= spec_bindable_keys());
        keys
    }

    /// The key that `name` names in a binding.
    pub fn from_name(name: &str) -> (key: Option<Key>)
        ensures
            key == key_named(name@),
    {
        let keys = Key::bindable_keys();
        let ghost pred = |k: int| key_name(spec_bindable_keys()[k]) == name@;
        let mut k: usize = 0;
        while k < keys.len()
            invariant
                k <= keys@.len(),
                keys@ == spec_bindable_keys(),
                pred == |k: int| key_name(spec_bindable_keys()[k]) == name@,
                forall|j: int| 0 <= j < k ==> !#[trigger] pred(j),
            decreases keys@.len() - k,
        {
            if str_eq(keys[k].name(), name) {
                proof {
                    assert(pred(k as int));
                    crate::search::lemma_first_index_is(keys@.len() as int, pred, k as int);
                }
                return Some(keys[k]);
            }
            assert(!pred(k as int));
            k = k + 1;
        }
        proof {
            crate::search::lemma_first_index_none(keys@.len() as int, pred);
        }
        None
    }
}

} // verus!
