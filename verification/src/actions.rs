//! What the actions of the keyboard do to the session and the view.
//!
//! An action changes the session, the view, or both. What is left to do
//! outside (files, windows) is handed back as an effect.

use crate::annotation::AnnotationView;
use crate::app_state::{AppState, AppStateView, DrawingTools};
use crate::canvas::{Canvas, ZOOM_ONE};
use crate::meta::{first_position, Category};
use crate::shortcuts::{Key, ShortcutAction};
use crate::text::{parse_u32, parsed_number};
use crate::state::{EditMode, EditingState};
use vstd::prelude::*;

verus! {

/// What is left to do outside the session after an action.
#[derive(Clone, Copy, Debug, PartialEq, Eq, Structural)]
pub enum ShortcutEffect {
    /// Nothing.
    Nothing,
    /// Ask for a project and open it.
    OpenProject,
    /// Save the document.
    Save,
    /// Close the project.
    CloseProject,
    /// Quit the program.
    Quit,
    /// Go back by so many images.
    Backward(usize),
    /// Go on by so many images.
    Forward(usize),
    /// Fit the image into the canvas.
    FitToCanvas,
}

/// The id of the object after (`forward`) or before the selected one in the
/// list of objects, going round at the ends; where nothing is selected, or
/// no object, the first object counts as selected. `None` for a document
/// without objects.
pub open spec fn cycled_object(a: AnnotationView, selected: Option<i32>, forward: bool) -> Option<
    i32,
> {
    if a.objects.len() == 0 {
        None
    } else {
        let current = match selected {
            Some(id) => match first_position(a.object_ids(), id) {
                Some(k) => k,
                None => 0,
            },
            None => 0,
        };
        let target = if forward {
            if current + 1 == a.objects.len() {
                0
            } else {
                current + 1
            }
        } else {
            if current == 0 {
                a.objects.len() - 1
            } else {
                current - 1
            }
        };
        Some(a.objects[target].id)
    }
}

impl AppStateView {
    /// The session after the selection went to the next (`forward`) or the
    /// previous object. Without a document or an object nothing changes.
    pub open spec fn cycle_object(self, forward: bool) -> AppStateView {
        match self.annotation {
            Some(a) => match cycled_object(a, self.selected_object_id, forward) {
                Some(id) => AppStateView { selected_object_id: Some(id), ..self },
                None => self,
            },
            None => self,
        }
    }

    /// The session after the drawing was finished because the action
    /// `action` leaves the image or saves it, in drawing mode.
    pub open spec fn finish_before_leaving(self, stamp: i64) -> AppStateView {
        if self.editing_state.mode == EditMode::Drawing {
            self.finish_drawing(stamp).0
        } else {
            self
        }
    }

    /// The session after the hotkeys of categories among the pressed keys
    /// were applied at the time `stamp`: in editing mode the selected object
    /// gets the category that the keys ask for.
    pub open spec fn after_hotkeys(self, pressed: Seq<Key>, stamp: i64) -> AppStateView {
        if self.editing_state.mode != EditMode::Editing {
            self
        } else {
            match self.meta {
                Some(meta) => match hot_category(meta.categories@, pressed) {
                    Some(id) => self.change_selected_category(id, stamp),
                    None => self,
                },
                None => self,
            }
        }
    }

    /// The session after a cancel: in drawing mode the drawing is dropped;
    /// in editing mode the session goes back to browsing with nothing
    /// selected; when browsing, nothing stays selected.
    pub open spec fn cancel(self) -> AppStateView {
        if self.editing_state.mode == EditMode::Drawing {
            self.cleared_drawing()
        } else if self.editing_state.mode == EditMode::Editing {
            self.in_mode(EditMode::Browse).deselect()
        } else {
            self.deselect()
        }
    }

    /// The session after the action `action`, with the shift key held or
    /// not, at the time `stamp`.
    pub open spec fn after_action(
        self,
        action: ShortcutAction,
        shift_held: bool,
        stamp: i64,
    ) -> AppStateView {
        let mode = self.editing_state.mode;
        match action {
            ShortcutAction::Save
            | ShortcutAction::PreviousImage
            | ShortcutAction::NextImage
            | ShortcutAction::JumpBackward10
            | ShortcutAction::JumpForward10 => self.finish_before_leaving(stamp),
            ShortcutAction::Copy => if mode == EditMode::Editing {
                self.copy_selected()
            } else {
                self
            },
            ShortcutAction::Paste => if mode == EditMode::Editing {
                self.paste()
            } else {
                self
            },
            ShortcutAction::Delete => if mode != EditMode::Browse {
                self.delete_selected()
            } else {
                self
            },
            ShortcutAction::Deselect => self.deselect(),
            ShortcutAction::FinishDrawing => self.finish_before_leaving(stamp),
            ShortcutAction::ConvertToRectangle => self.edit_selected(
                crate::edit::PolygonEdit::ToRectangle,
            ),
            ShortcutAction::FixSelfIntersection => self.edit_selected(
                crate::edit::PolygonEdit::FixSelfIntersections,
            ),
            ShortcutAction::SwitchToNormalMode => self.in_mode(EditMode::Browse),
            ShortcutAction::SwitchToDrawingMode => self.in_mode(EditMode::Drawing).cleared_drawing(),
            ShortcutAction::SwitchToEditingMode => if self.selected_object_id is Some {
                AppStateView {
                    editing_state: EditingState { mode: EditMode::Editing, selected_vertex: None },
                    ..self
                }
            } else {
                self
            },
            ShortcutAction::CycleNextObject => self.cycle_object(true),
            ShortcutAction::CyclePreviousObject => self.cycle_object(false),
            ShortcutAction::MoveLeft => self.move_selected((-1i32, 0i32), shift_held),
            ShortcutAction::MoveRight => self.move_selected((1i32, 0i32), shift_held),
            ShortcutAction::MoveUp => self.move_selected((0i32, -1i32), shift_held),
            ShortcutAction::MoveDown => self.move_selected((0i32, 1i32), shift_held),
            ShortcutAction::ScaleUp => self.scale_selected(110),
            ShortcutAction::ScaleDown => self.scale_selected(90),
            ShortcutAction::Cancel => self.cancel(),
            _ => self,
        }
    }
}

/// The key of the digit `digit`, for the digits from one to nine.
pub open spec fn digit_key(digit: u32) -> Option<Key> {
    if digit == 1 {
        Some(Key::Num1)
    } else if digit == 2 {
        Some(Key::Num2)
    } else if digit == 3 {
        Some(Key::Num3)
    } else if digit == 4 {
        Some(Key::Num4)
    } else if digit == 5 {
        Some(Key::Num5)
    } else if digit == 6 {
        Some(Key::Num6)
    } else if digit == 7 {
        Some(Key::Num7)
    } else if digit == 8 {
        Some(Key::Num8)
    } else if digit == 9 {
        Some(Key::Num9)
    } else {
        None
    }
}

/// The key that selects a category with the hotkey `hotkey`: the key of
/// the digit that the hotkey writes, from one to nine.
pub open spec fn hotkey_key(hotkey: Seq<char>) -> Option<Key> {
    match parsed_number(hotkey) {
        Some(digit) => digit_key(digit),
        None => None,
    }
}

/// The category `k` is asked for: the key of its hotkey is pressed.
pub open spec fn is_hot(categories: Seq<Category>, pressed: Seq<Key>, k: int) -> bool {
    hotkey_key(categories[k].hotkey@) matches Some(key) && pressed.contains(key)
}

/// The category that the pressed keys ask for: the last category of the
/// project whose hotkey is pressed.
pub open spec fn hot_category(categories: Seq<Category>, pressed: Seq<Key>) -> Option<i32>
    decreases categories.len(),
{
    if categories.len() == 0 {
        None
    } else if is_hot(categories, pressed, categories.len() - 1) {
        Some(categories.last().id)
    } else {
        hot_category(categories.drop_last(), pressed)
    }
}

/// The zoom that the action `action` sets, in thousandths, if it sets one.
pub open spec fn zoom_of_action(action: ShortcutAction) -> Option<u32> {
    match action {
        ShortcutAction::Zoom25 => Some(250),
        ShortcutAction::Zoom50 => Some(500),
        ShortcutAction::Zoom75 => Some(750),
        ShortcutAction::Zoom100 => Some(1000),
        ShortcutAction::Zoom125 => Some(1250),
        ShortcutAction::Zoom150 => Some(1500),
        ShortcutAction::Zoom200 => Some(2000),
        ShortcutAction::Zoom300 => Some(3000),
        ShortcutAction::Zoom400 => Some(4000),
        _ => None,
    }
}

/// The view after the action `action`: an action that leaves the image or
/// resets the zoom shows the image at its own size and centred, and an
/// action of a zoom level sets that zoom.
pub open spec fn view_after_action(canvas: Canvas, action: ShortcutAction) -> Canvas {
    match action {
        ShortcutAction::PreviousImage
        | ShortcutAction::NextImage
        | ShortcutAction::JumpBackward10
        | ShortcutAction::JumpForward10
        | ShortcutAction::ResetZoom => Canvas { zoom: ZOOM_ONE, pan_offset: (0, 0), ..canvas },
        _ => match zoom_of_action(action) {
            Some(zoom) => Canvas { zoom, ..canvas },
            None => canvas,
        },
    }
}

/// What is left to do outside after the action `action`; fitting the image
/// into the canvas needs an image.
pub open spec fn effect_of_action(action: ShortcutAction, has_image: bool) -> ShortcutEffect {
    match action {
        ShortcutAction::OpenProject => ShortcutEffect::OpenProject,
        ShortcutAction::Save => ShortcutEffect::Save,
        ShortcutAction::CloseProject => ShortcutEffect::CloseProject,
        ShortcutAction::Quit => ShortcutEffect::Quit,
        ShortcutAction::PreviousImage => ShortcutEffect::Backward(1),
        ShortcutAction::NextImage => ShortcutEffect::Forward(1),
        ShortcutAction::JumpBackward10 => ShortcutEffect::Backward(10),
        ShortcutAction::JumpForward10 => ShortcutEffect::Forward(10),
        ShortcutAction::FitToCanvas => if has_image {
            ShortcutEffect::FitToCanvas
        } else {
            ShortcutEffect::Nothing
        },
        _ => ShortcutEffect::Nothing,
    }
}

impl AppState {
    /// Selects the next (`forward`) or the previous object of the document.
    pub fn cycle_object(&mut self, forward: bool)
        ensures
            final(self)@ == old(self)@.cycle_object(forward),
            old(self)@.wf() ==> final(self)@.wf(),
    {
        let id: i32 = match &self.current_annotation {
            Some(annotation) => {
                let count: usize = annotation.objects.len();
                if count == 0 {
                    return ;
                }
                let current: usize = match self.selected_object_id {
                    Some(id) => match annotation.find_object_index(id) {
                        Some(k) => k,
                        None => 0,
                    },
                    None => 0,
                };
                let target: usize = if forward {
                    if current + 1 == count {
                        0
                    } else {
                        current + 1
                    }
                } else {
                    if current == 0 {
                        count - 1
                    } else {
                        current - 1
                    }
                };
                assert(annotation@.objects[target as int].id == annotation.objects@[target as int].id);
                annotation.objects[target].id
            },
            None => {
                return ;
            },
        };
        self.selected_object_id = Some(id);
    }

    /// Does what the action `action` asks of the session and the view, and
    /// says what is left to do outside.
    pub fn handle_shortcut_action(
        &mut self,
        canvas: &mut Canvas,
        action: ShortcutAction,
        shift_held: bool,
    ) -> (effect: ShortcutEffect)
        requires
            old(self)@.wf(),
        ensures
            final(self)@ == old(self)@.after_action(
                action,
                shift_held,
                final(self)@.last_modified(),
            ),
            *final(canvas) == view_after_action(*old(canvas), action),
            effect == effect_of_action(action, old(self)@.image_size is Some),
            final(self)@.wf(),
    {
        let mode: EditMode = self.editing_state.mode;
        match action {
            ShortcutAction::OpenProject => ShortcutEffect::OpenProject,
            ShortcutAction::Save => {
                self.finish_before_leaving();
                ShortcutEffect::Save
            },
            ShortcutAction::CloseProject => ShortcutEffect::CloseProject,
            ShortcutAction::Quit => ShortcutEffect::Quit,
            ShortcutAction::Copy => {
                if mode == EditMode::Editing {
                    self.copy_selected();
                }
                ShortcutEffect::Nothing
            },
            ShortcutAction::Paste => {
                if mode == EditMode::Editing {
                    self.paste_from_clipboard();
                }
                ShortcutEffect::Nothing
            },
            ShortcutAction::Delete => {
                if mode != EditMode::Browse {
                    self.delete_selected();
                }
                ShortcutEffect::Nothing
            },
            ShortcutAction::Deselect => {
                self.selected_object_id = None;
                self.editing_state.selected_vertex = None;
                ShortcutEffect::Nothing
            },
            ShortcutAction::FinishDrawing => {
                self.finish_before_leaving();
                ShortcutEffect::Nothing
            },
            ShortcutAction::ConvertToRectangle => {
                self.convert_selected_to_rectangle();
                ShortcutEffect::Nothing
            },
            ShortcutAction::FixSelfIntersection => {
                self.fix_selected_self_intersections();
                ShortcutEffect::Nothing
            },
            ShortcutAction::SwitchToNormalMode => {
                self.editing_state.mode = EditMode::Browse;
                ShortcutEffect::Nothing
            },
            ShortcutAction::SwitchToDrawingMode => {
                self.editing_state.mode = EditMode::Drawing;
                self.clear_drawing_state();
                ShortcutEffect::Nothing
            },
            ShortcutAction::SwitchToEditingMode => {
                if self.selected_object_id.is_some() {
                    self.editing_state.mode = EditMode::Editing;
                    self.editing_state.selected_vertex = None;
                }
                ShortcutEffect::Nothing
            },
            ShortcutAction::PreviousImage => {
                self.finish_before_leaving();
                canvas.reset_view();
                ShortcutEffect::Backward(1)
            },
            ShortcutAction::NextImage => {
                self.finish_before_leaving();
                canvas.reset_view();
                ShortcutEffect::Forward(1)
            },
            ShortcutAction::JumpBackward10 => {
                self.finish_before_leaving();
                canvas.reset_view();
                ShortcutEffect::Backward(10)
            },
            ShortcutAction::JumpForward10 => {
                self.finish_before_leaving();
                canvas.reset_view();
                ShortcutEffect::Forward(10)
            },
            ShortcutAction::CycleNextObject => {
                self.cycle_object(true);
                ShortcutEffect::Nothing
            },
            ShortcutAction::CyclePreviousObject => {
                self.cycle_object(false);
                ShortcutEffect::Nothing
            },
            ShortcutAction::FitToCanvas => {
                if self.image_size.is_some() {
                    ShortcutEffect::FitToCanvas
                } else {
                    ShortcutEffect::Nothing
                }
            },
            ShortcutAction::ResetZoom => {
                canvas.reset_view();
                ShortcutEffect::Nothing
            },
            ShortcutAction::MoveLeft => {
                self.move_selected((-1, 0), shift_held);
                ShortcutEffect::Nothing
            },
            ShortcutAction::MoveRight => {
                self.move_selected((1, 0), shift_held);
                ShortcutEffect::Nothing
            },
            ShortcutAction::MoveUp => {
                self.move_selected((0, -1), shift_held);
                ShortcutEffect::Nothing
            },
            ShortcutAction::MoveDown => {
                self.move_selected((0, 1), shift_held);
                ShortcutEffect::Nothing
            },
            ShortcutAction::ScaleUp => {
                self.scale_selected_object(110);
                ShortcutEffect::Nothing
            },
            ShortcutAction::ScaleDown => {
                self.scale_selected_object(90);
                ShortcutEffect::Nothing
            },
            ShortcutAction::Cancel => {
                if mode == EditMode::Drawing {
                    DrawingTools::cancel_drawing(self);
                } else if mode == EditMode::Editing {
                    self.editing_state.mode = EditMode::Browse;
                    self.selected_object_id = None;
                    self.editing_state.selected_vertex = None;
                } else {
                    self.selected_object_id = None;
                    self.editing_state.selected_vertex = None;
                }
                ShortcutEffect::Nothing
            },
            ShortcutAction::ToggleAutoSave
            | ShortcutAction::ToggleLeftPanel
            | ShortcutAction::ToggleRightPanel => ShortcutEffect::Nothing,
            ShortcutAction::Zoom25 => {
                canvas.set_zoom(250);
                ShortcutEffect::Nothing
            },
            ShortcutAction::Zoom50 => {
                canvas.set_zoom(500);
                ShortcutEffect::Nothing
            },
            ShortcutAction::Zoom75 => {
                canvas.set_zoom(750);
                ShortcutEffect::Nothing
            },
            ShortcutAction::Zoom100 => {
                canvas.set_zoom(1000);
                ShortcutEffect::Nothing
            },
            ShortcutAction::Zoom125 => {
                canvas.set_zoom(1250);
                ShortcutEffect::Nothing
            },
            ShortcutAction::Zoom150 => {
                canvas.set_zoom(1500);
                ShortcutEffect::Nothing
            },
            ShortcutAction::Zoom200 => {
                canvas.set_zoom(2000);
                ShortcutEffect::Nothing
            },
            ShortcutAction::Zoom300 => {
                canvas.set_zoom(3000);
                ShortcutEffect::Nothing
            },
            ShortcutAction::Zoom400 => {
                canvas.set_zoom(4000);
                ShortcutEffect::Nothing
            },
        }
    }

    /// Gives the selected object the category whose hotkey is pressed, in
    /// editing mode. Of several the last category of the project wins.
    pub fn apply_category_hotkeys(&mut self, pressed: &Vec<Key>)
        ensures
            final(self)@ == old(self)@.after_hotkeys(pressed@, final(self)@.last_modified()),
            old(self)@.wf() ==> final(self)@.wf(),
    {
        if self.editing_state.mode != EditMode::Editing {
            return ;
        }
        let category: Option<i32> = match &self.meta {
            Some(meta) => category_for_keys(&meta.categories, pressed),
            None => None,
        };
        match category {
            Some(id) => {
                DrawingTools::change_selected_category(self, id);
            },
            None => {},
        }
    }

    /// Finishes the drawing before the image is left or saved, in drawing
    /// mode.
    pub fn finish_before_leaving(&mut self)
        requires
            old(self)@.wf(),
        ensures
            final(self)@ == old(self)@.finish_before_leaving(final(self)@.last_modified()),
            final(self)@.wf(),
    {
        if self.editing_state.mode == EditMode::Drawing {
            self.finish_drawing();
        }
    }
}

/// Decides [`digit_key`].
fn key_of_digit(digit: u32) -> (key: Option<Key>)
    ensures
        key == digit_key(digit),
{
    if digit == 1 {
        Some(Key::Num1)
    } else if digit == 2 {
        Some(Key::Num2)
    } else if digit == 3 {
        Some(Key::Num3)
    } else if digit == 4 {
        Some(Key::Num4)
    } else if digit == 5 {
        Some(Key::Num5)
    } else if digit == 6 {
        Some(Key::Num6)
    } else if digit == 7 {
        Some(Key::Num7)
    } else if digit == 8 {
        Some(Key::Num8)
    } else if digit == 9 {
        Some(Key::Num9)
    } else {
        None
    }
}

/// Whether `key` is among `keys`.
fn has_key(keys: &Vec<Key>, key: Key) -> (found: bool)
    ensures
        found == keys@.contains(key),
{
    let mut k: usize = 0;
    while k < keys.len()
        invariant
            k <= keys@.len(),
            forall|j: int| 0 <= j < k ==> keys@[j] != key,
        decreases keys@.len() - k,
    {
        if keys[k] == key {
            return true;
        }
        k = k + 1;
    }
    false
}

/// The category that the pressed keys ask for: the last category whose
/// hotkey, a digit from one to nine, is pressed.
pub fn category_for_keys(categories: &Vec<Category>, pressed: &Vec<Key>) -> (category: Option<i32>)
    ensures
        category == hot_category(categories@, pressed@),
{
    let mut k: usize = categories.len();
    assert(categories@.take(k as int) =~= categories@);
    while k > 0
        invariant
            k <= categories@.len(),
            hot_category(categories@, pressed@) == hot_category(categories@.take(k as int), pressed@),
        decreases k,
    {
        k = k - 1;
        proof {
            let part = categories@.take(k + 1);
            assert(part.last() == categories@[k as int]);
            assert(part.drop_last() =~= categories@.take(k as int));
            assert(is_hot(part, pressed@, k as int) == is_hot(categories@, pressed@, k as int));
        }
        let key: Option<Key> = match parse_u32(categories[k].hotkey.as_str()) {
            Some(digit) => key_of_digit(digit),
            None => None,
        };
        match key {
            Some(key) => {
                if has_key(pressed, key) {
                    return Some(categories[k].id);
                }
            },
            None => {},
        }
    }
    assert(categories@.take(0).len() == 0);
    None
}

/// The image `steps` before the image `current`, if there is one.
pub fn image_before(current: usize, steps: usize) -> (target: Option<usize>)
    ensures
        target == if current >= steps {
            Some((current - steps) as usize)
        } else {
            None
        },
{
    if current >= steps {
        Some(current - steps)
    } else {
        None
    }
}

/// The image `steps` after the image `current` of `count` images, if there
/// is one.
pub fn image_after(current: usize, steps: usize, count: usize) -> (target: Option<usize>)
    ensures
        target == if current + steps < count {
            Some((current + steps) as usize)
        } else {
            None
        },
{
    if steps < count && current < count - steps {
        Some(current + steps)
    } else {
        None
    }
}

/// The recent projects after `path` was opened: `path` comes first, once,
/// and no more than ten are kept.
pub open spec fn with_recent_project(recent: Seq<Seq<char>>, path: Seq<char>) -> Seq<Seq<char>> {
    let list = seq![path] + recent.filter(|p: Seq<char>| p != path);
    if list.len() > MAX_RECENT_PROJECTS {
        list.take(MAX_RECENT_PROJECTS as int)
    } else {
        list
    }
}

/// How many recent projects are kept.
pub const MAX_RECENT_PROJECTS: usize = 10;

/// Puts `path` first in the list of recent projects.
pub fn add_recent_project(recent: &mut Vec<String>, path: String)
    ensures
        final(recent)@.map_values(|p: String| p@) == with_recent_project(
            old(recent)@.map_values(|p: String| p@),
            path@,
        ),
{
    let ghost before = recent@.map_values(|p: String| p@);
    let ghost keep = |p: Seq<char>| p != path@;
    let mut i: usize = 0;
    let ghost mut seen: int = 0;
    while i < recent.len()
        invariant
            i <= recent@.len(),
            0 <= seen <= before.len(),
            recent@.len() - i == before.len() - seen,
            recent@.map_values(|p: String| p@).take(i as int) == before.take(seen).filter(keep),
            recent@.map_values(|p: String| p@).skip(i as int) == before.skip(seen),
            keep == |p: Seq<char>| p != path@,
        decreases recent@.len() - i,
    {
        let ghost current = recent@.map_values(|p: String| p@);
        proof {
            crate::annotation::lemma_filter_next(before, keep, seen);
            crate::annotation::lemma_skip_next(current, i as int, before, seen);
            assert(current[i as int] == recent@[i as int]@);
        }
        if recent[i] == path {
            recent.remove(i);
            proof {
                let now = recent@.map_values(|p: String| p@);
                assert(now =~= current.remove(i as int));
                assert(now.take(i as int) =~= current.take(i as int));
                assert(now.skip(i as int) =~= current.skip(i + 1));
                seen = seen + 1;
            }
        } else {
            proof {
                assert(current.take(i + 1) =~= current.take(i as int).push(current[i as int]));
                seen = seen + 1;
            }
            i = i + 1;
        }
    }
    proof {
        assert(before.take(seen) =~= before);
        let now = recent@.map_values(|p: String| p@);
        assert(now.take(i as int) =~= now);
    }
    let ghost filtered = recent@.map_values(|p: String| p@);
    recent.insert(0, path);
    assert(recent@.map_values(|p: String| p@) =~= seq![path@] + filtered);
    let ghost list = recent@.map_values(|p: String| p@);
    recent.truncate(MAX_RECENT_PROJECTS);
    assert(recent@.map_values(|p: String| p@) =~= if list.len() > MAX_RECENT_PROJECTS {
        list.take(MAX_RECENT_PROJECTS as int)
    } else {
        list
    });
}

} // verus!
