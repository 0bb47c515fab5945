//! The state of the dialogs.

use crate::i18n::Language;
use crate::keymap::{ShortcutConfig, ShortcutEditorState};
use crate::state::ThemeColor;
use vstd::prelude::*;

verus! {

/// The button of the options dialog that was pressed.
#[derive(Clone, Copy, Debug, PartialEq, Eq, Structural)]
pub enum DialogButtonAction {
    /// Apply the settings and keep the dialog open.
    Apply,
    /// Apply the settings and close the dialog.
    Confirm,
    /// Drop the changes and close the dialog.
    Cancel,
    /// Set every setting back to its default.
    RestoreDefaults,
}

/// A tab of the options dialog.
#[derive(Clone, Copy, Debug, PartialEq, Eq, Structural)]
pub enum OptionsTab {
    General,
    Shortcuts,
}

impl OptionsTab {
    /// The key of the translated name of the tab.
    pub fn name_key(&self) -> (key: &'static str)
        ensures
            key@ == match self {
                OptionsTab::General => "options.tab_general"@,
                OptionsTab::Shortcuts => "options.tab_shortcuts"@,
            },
    {
        match self {
            OptionsTab::General => "options.tab_general",
            OptionsTab::Shortcuts => "options.tab_shortcuts",
        }
    }
}

/// The state of the about dialog.
#[derive(Clone, Copy, Debug, PartialEq, Eq, Structural)]
pub struct AboutDialogState {
    /// The dialog is open.
    pub show: bool,
}

impl AboutDialogState {
    /// The dialog, closed.
    pub fn new() -> (state: AboutDialogState)
        ensures
            !state.show,
    {
        AboutDialogState { show: false }
    }

    /// Opens the dialog.
    pub fn show_dialog(&mut self)
        ensures
            final(self).show,
    {
        self.show = true;
    }

    /// The dialog after a frame in which it was drawn: `button_clicked`
    /// says whether the close button or the escape key was pressed, `open`
    /// whether the window is still open. Returns whether the dialog stays
    /// open. A closed dialog stays closed.
    pub fn show(&mut self, button_clicked: bool, open: bool) -> (visible: bool)
        ensures
            visible == (old(self).show && !button_clicked && open),
            final(self).show == visible,
    {
        if !self.show {
            return false;
        }
        if button_clicked || !open {
            self.show = false;
        }
        self.show
    }
}

/// The size of the font where the settings do not say, in tenths of a
/// point.
pub const DEFAULT_FONT_SIZE: u32 = 160;

/// The scale of the user interface where the settings do not say, in
/// thousandths.
pub const DEFAULT_UI_SCALE: u32 = 1000;

/// The size of the font at which a point of the user interface is a pixel,
/// in tenths of a point.
pub const BASE_FONT_SIZE: u32 = 140;

/// The pixels per point of the user interface, in thousandths, for a font
/// of `font_size` tenths of a point at a scale of `ui_scale` thousandths.
pub open spec fn spec_pixels_per_point(font_size: u32, ui_scale: u32) -> int {
    font_size * ui_scale / (BASE_FONT_SIZE as int)
}

/// Decides [`spec_pixels_per_point`].
pub fn pixels_per_point(font_size: u32, ui_scale: u32) -> (pixels: u64)
    ensures
        pixels == spec_pixels_per_point(font_size, ui_scale),
{
    assert(font_size * ui_scale <= 0xffff_ffff * 0xffff_ffff) by (nonlinear_arith)
        requires
            0 <= font_size <= 0xffff_ffff,
            0 <= ui_scale <= 0xffff_ffff,
    ;
    (font_size as u64) * (ui_scale as u64) / (BASE_FONT_SIZE as u64)
}

/// The state of the options dialog.
#[derive(Debug)]
pub struct OptionsDialogState {
    /// The dialog is open.
    pub show: bool,
    pub active_tab: OptionsTab,
    pub selected_language: Language,
    pub auto_save_enabled: bool,
    /// The editor of shortcuts, while the dialog is open.
    pub shortcut_editor: Option<ShortcutEditorState>,
    /// A setting was changed and not applied yet.
    pub pending_changes: bool,
    /// Size of the font, in tenths of a point.
    pub font_size: u32,
    /// Scale of the user interface, in thousandths.
    pub ui_scale: u32,
    pub theme_color: ThemeColor,
    pub show_scrollbar: bool,
    /// Text that the listed settings contain.
    pub search_text: String,
}

/// The settings of the options dialog.
#[derive(Debug)]
pub struct DialogSettings {
    pub language: Language,
    pub auto_save: bool,
    /// The shortcuts, where they were edited.
    pub shortcut_config: Option<ShortcutConfig>,
    /// Size of the font, in tenths of a point.
    pub font_size: u32,
    /// Scale of the user interface, in thousandths.
    pub ui_scale: u32,
    pub theme_color: ThemeColor,
    pub show_scrollbar: bool,
}

impl OptionsDialogState {
    /// The dialog, closed, with the given language and saving and the
    /// defaults for the rest.
    pub fn new(language: Language, auto_save: bool) -> (state: OptionsDialogState)
        ensures
            !state.show,
            state.active_tab == OptionsTab::General,
            state.selected_language == language,
            state.auto_save_enabled == auto_save,
            state.shortcut_editor is None,
            !state.pending_changes,
            state.font_size == DEFAULT_FONT_SIZE,
            state.ui_scale == DEFAULT_UI_SCALE,
            state.theme_color == ThemeColor::Dark,
            state.show_scrollbar,
            state.search_text@.len() == 0,
    {
        OptionsDialogState {
            show: false,
            active_tab: OptionsTab::General,
            selected_language: language,
            auto_save_enabled: auto_save,
            shortcut_editor: None,
            pending_changes: false,
            font_size: DEFAULT_FONT_SIZE,
            ui_scale: DEFAULT_UI_SCALE,
            theme_color: ThemeColor::Dark,
            show_scrollbar: true,
            search_text: String::new(),
        }
    }

    /// Opens the dialog on the first tab, with an editor of a copy of
    /// `config`.
    pub fn show_dialog(&mut self, config: &ShortcutConfig)
        ensures
            final(self).show,
            final(self).active_tab == OptionsTab::General,
            !final(self).pending_changes,
            final(self).shortcut_editor matches Some(editor) && editor.working_config@ == config@
                && editor.wf(),
            final(self).selected_language == old(self).selected_language,
            final(self).auto_save_enabled == old(self).auto_save_enabled,
            final(self).font_size == old(self).font_size,
            final(self).ui_scale == old(self).ui_scale,
            final(self).theme_color == old(self).theme_color,
            final(self).show_scrollbar == old(self).show_scrollbar,
            final(self).search_text@.len() == 0,
    {
        self.show = true;
        self.active_tab = OptionsTab::General;
        self.shortcut_editor = Some(ShortcutEditorState::new(config));
        self.pending_changes = false;
        self.search_text = String::new();
    }

    /// Takes the settings of the session into the dialog.
    pub fn refresh_from_state(
        &mut self,
        language: Language,
        auto_save: bool,
        theme_color: ThemeColor,
        font_size: u32,
        ui_scale: u32,
    )
        ensures
            final(self).selected_language == language,
            final(self).auto_save_enabled == auto_save,
            final(self).theme_color == theme_color,
            final(self).font_size == font_size,
            final(self).ui_scale == ui_scale,
            final(self).show == old(self).show,
            final(self).active_tab == old(self).active_tab,
            final(self).shortcut_editor == old(self).shortcut_editor,
            final(self).pending_changes == old(self).pending_changes,
            final(self).show_scrollbar == old(self).show_scrollbar,
            final(self).search_text == old(self).search_text,
    {
        self.selected_language = language;
        self.auto_save_enabled = auto_save;
        self.theme_color = theme_color;
        self.font_size = font_size;
        self.ui_scale = ui_scale;
    }

    /// The settings as the dialog shows them.
    pub fn get_current_settings(&self) -> (settings: DialogSettings)
        ensures
            settings.language == self.selected_language,
            settings.auto_save == self.auto_save_enabled,
            settings.font_size == self.font_size,
            settings.ui_scale == self.ui_scale,
            settings.theme_color == self.theme_color,
            settings.show_scrollbar == self.show_scrollbar,
            match self.shortcut_editor {
                Some(editor) => settings.shortcut_config matches Some(config) && config@
                    == editor.working_config@,
                None => settings.shortcut_config is None,
            },
    {
        DialogSettings {
            language: self.selected_language,
            auto_save: self.auto_save_enabled,
            shortcut_config: match &self.shortcut_editor {
                Some(editor) => Some(editor.working_config.duplicate()),
                None => None,
            },
            font_size: self.font_size,
            ui_scale: self.ui_scale,
            theme_color: self.theme_color,
            show_scrollbar: self.show_scrollbar,
        }
    }

    /// The dialog after a frame in which it was drawn: `button` is the
    /// button that was pressed, `open` says whether the window is still
    /// open. The confirm and the cancel button close the dialog; closing
    /// the window closes it too, and ends the editing of shortcuts.
    /// Returns whether the dialog stays open, whether the window is open,
    /// and the button. Of a closed dialog nothing is reported.
    pub fn show(&mut self, button: Option<DialogButtonAction>, open: bool) -> (shown: (
        bool,
        bool,
        Option<DialogButtonAction>,
    ))
        ensures
            !old(self).show ==> shown == (false, false, None::<DialogButtonAction>) && *final(self)
                == *old(self),
            old(self).show ==> {
                &&& shown == (final(self).show, open, button)
                &&& final(self).show == (open && button != Some(DialogButtonAction::Confirm)
                    && button != Some(DialogButtonAction::Cancel))
                &&& final(self).shortcut_editor == if open {
                    old(self).shortcut_editor
                } else {
                    None
                }
            },
            final(self).active_tab == old(self).active_tab,
            final(self).selected_language == old(self).selected_language,
            final(self).auto_save_enabled == old(self).auto_save_enabled,
            final(self).pending_changes == old(self).pending_changes,
            final(self).font_size == old(self).font_size,
            final(self).ui_scale == old(self).ui_scale,
            final(self).theme_color == old(self).theme_color,
            final(self).show_scrollbar == old(self).show_scrollbar,
            final(self).search_text == old(self).search_text,
    {
        if !self.show {
            return (false, false, None);
        }
        match button {
            Some(DialogButtonAction::Confirm) | Some(DialogButtonAction::Cancel) => {
                self.show = false;
            },
            _ => {},
        }
        if !open {
            self.show = false;
            self.shortcut_editor = None;
        }
        (self.show, open, button)
    }

    /// Hands the text that is searched for to the editor of shortcuts, if
    /// one is open: its list then shows the actions whose names contain the
    /// text.
    pub fn sync_search(&mut self)
        ensures
            match old(self).shortcut_editor {
                Some(before) => final(self).shortcut_editor matches Some(editor) && editor
                    == (ShortcutEditorState { search_filter: editor.search_filter, ..before })
                    && editor.search_filter@ == old(self).search_text@,
                None => final(self).shortcut_editor is None,
            },
            final(self).show == old(self).show,
            final(self).active_tab == old(self).active_tab,
            final(self).selected_language == old(self).selected_language,
            final(self).auto_save_enabled == old(self).auto_save_enabled,
            final(self).pending_changes == old(self).pending_changes,
            final(self).font_size == old(self).font_size,
            final(self).ui_scale == old(self).ui_scale,
            final(self).theme_color == old(self).theme_color,
            final(self).show_scrollbar == old(self).show_scrollbar,
            final(self).search_text == old(self).search_text,
    {
        let text: String = self.search_text.clone();
        match &mut self.shortcut_editor {
            Some(editor) => {
                editor.search_filter = text;
            },
            None => {},
        }
    }

    /// Sets every setting back to its default; the shortcuts of an open
    /// editor go back to the default configuration. The change is pending.
    pub fn restore_defaults(&mut self)
        ensures
            final(self).selected_language == Language::ZhCN,
            final(self).auto_save_enabled,
            final(self).font_size == DEFAULT_FONT_SIZE,
            final(self).ui_scale == DEFAULT_UI_SCALE,
            final(self).theme_color == ThemeColor::Dark,
            final(self).show_scrollbar,
            final(self).search_text@.len() == 0,
            final(self).active_tab == OptionsTab::General,
            final(self).pending_changes,
            final(self).show == old(self).show,
            match old(self).shortcut_editor {
                Some(_) => final(self).shortcut_editor matches Some(editor)
                    && editor.working_config@ == crate::keymap::default_config_view()
                    && editor.wf(),
                None => final(self).shortcut_editor is None,
            },
    {
        self.selected_language = Language::ZhCN;
        self.auto_save_enabled = true;
        self.font_size = DEFAULT_FONT_SIZE;
        self.ui_scale = DEFAULT_UI_SCALE;
        self.theme_color = ThemeColor::Dark;
        self.show_scrollbar = true;
        self.search_text = String::new();
        self.active_tab = OptionsTab::General;
        match &mut self.shortcut_editor {
            Some(editor) => {
                editor.working_config = ShortcutConfig::default_config();
                editor.refresh_conflicts();
            },
            None => {},
        }
        self.pending_changes = true;
    }
}

/// How many images of a project have a document.
#[derive(Clone, Copy, Debug, PartialEq, Eq, Structural)]
pub struct ProgressStats {
    /// The images of the project.
    pub total: usize,
    /// Those with a document.
    pub annotated: usize,
    /// Those without.
    pub remaining: usize,
}

impl ProgressStats {
    /// The statistics of `annotated` images with a document out of
    /// `total`.
    pub fn new(total: usize, annotated: usize) -> (stats: ProgressStats)
        requires
            annotated <= total,
        ensures
            stats == (ProgressStats { total, annotated, remaining: (total - annotated) as usize }),
    {
        ProgressStats { total, annotated, remaining: total - annotated }
    }

    /// The share of images with a document, in thousandths of a percent,
    /// rounded down; zero for a project without images.
    pub fn percentage(&self) -> (share: u128)
        ensures
            share == if self.total == 0 {
                0
            } else {
                self.annotated * 100_000 / (self.total as int)
            },
    {
        if self.total == 0 {
            0
        } else {
            (self.annotated as u128) * 100_000 / (self.total as u128)
        }
    }
}

} // verus!
