//! Modes and small values of the editing session.

use crate::geometry::Point;
use crate::text::str_eq;
use vstd::prelude::*;

verus! {

/// The colour theme of the user interface.
#[derive(Clone, Copy, Debug, PartialEq, Eq, Structural)]
pub enum ThemeColor {
    Light,
    Dark,
    /// The theme of the system.
    System,
}

/// The name of the theme in settings files.
pub open spec fn theme_name(theme: ThemeColor) -> Seq<char> {
    match theme {
        ThemeColor::Light => "light"@,
        ThemeColor::Dark => "dark"@,
        ThemeColor::System => "system"@,
    }
}

/// The theme that `name` names in settings files.
pub open spec fn theme_named(name: Seq<char>) -> Option<ThemeColor> {
    if name == "light"@ {
        Some(ThemeColor::Light)
    } else if name == "dark"@ {
        Some(ThemeColor::Dark)
    } else if name == "system"@ {
        Some(ThemeColor::System)
    } else {
        None
    }
}

impl ThemeColor {
    /// The name of the theme in settings files.
    pub fn as_str(&self) -> (name: &'static str)
        ensures
            name@ == theme_name(*self),
    {
        match self {
            ThemeColor::Light => "light",
            ThemeColor::Dark => "dark",
            ThemeColor::System => "system",
        }
    }

    /// The theme that `s` names; `None` for any other string.
    pub fn from_str(s: &str) -> (theme: Option<ThemeColor>)
        ensures
            theme == theme_named(s@),
    {
        if str_eq(s, "light") {
            Some(ThemeColor::Light)
        } else if str_eq(s, "dark") {
            Some(ThemeColor::Dark)
        } else if str_eq(s, "system") {
            Some(ThemeColor::System)
        } else {
            None
        }
    }

    /// The key of the translated name of the theme.
    pub fn name_key(&self) -> (key: &'static str)
        ensures
            key@ == match self {
                ThemeColor::Light => "options.theme_light"@,
                ThemeColor::Dark => "options.theme_dark"@,
                ThemeColor::System => "options.theme_system"@,
            },
    {
        match self {
            ThemeColor::Light => "options.theme_light",
            ThemeColor::Dark => "options.theme_dark",
            ThemeColor::System => "options.theme_system",
        }
    }
}

/// A theme is named by its own name, and by no other's.
pub proof fn lemma_theme_names(theme: ThemeColor)
    ensures
        theme_named(theme_name(theme)) == Some(theme),
{
    reveal_strlit("light");
    reveal_strlit("dark");
    reveal_strlit("system");
    assert("light"@.len() == 5 && "dark"@.len() == 4 && "system"@.len() == 6);
}

/// What the pointer does on the canvas.
#[derive(Clone, Copy, Debug, PartialEq, Eq, Structural)]
pub enum EditMode {
    /// Shapes are selected and looked at, never changed.
    Browse,
    /// A new shape is being drawn.
    Drawing,
    /// The selected shape is moved and reshaped.
    Editing,
}

/// The kind of shape that drawing makes.
#[derive(Clone, Copy, Debug, PartialEq, Eq, Structural)]
pub enum DrawTarget {
    /// An annotated object.
    Object,
    /// A region of interest.
    Roi,
}

/// The mode of the session and the vertex picked in it.
#[derive(Clone, Copy, Debug)]
pub struct EditingState {
    /// The current mode.
    pub mode: EditMode,
    /// The selected vertex: the id of its shape and its position in the
    /// polygon.
    pub selected_vertex: Option<(i32, usize)>,
}

impl EditingState {
    /// The state at the start of a session: browsing, no vertex selected.
    pub fn new() -> (state: EditingState)
        ensures
            state == (EditingState { mode: EditMode::Browse, selected_vertex: None }),
    {
        EditingState { mode: EditMode::Browse, selected_vertex: None }
    }
}

/// A click in drawing mode that waits for the double-click window to pass.
#[derive(Clone, Copy, Debug, PartialEq, Eq, Structural)]
pub struct PendingDrawClick {
    /// Where the click was, in the document.
    pub position: Point,
    /// When the click was, in milliseconds.
    pub time: u64,
}

/// A decoded image.
#[derive(Debug)]
pub struct ImageData {
    /// Where the image was read from.
    pub path: String,
    /// Width in pixels.
    pub width: u32,
    /// Height in pixels.
    pub height: u32,
    /// The pixels, four bytes each.
    pub pixels: Vec<u8>,
}

} // verus!
