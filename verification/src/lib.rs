//! Verified core of a polygon annotation tool: exact integer geometry,
//! hit-testing, self-intersection repair and the pointer interaction
//! state machine that turns pointer events into edits of a document.

pub mod actions;
pub mod annotation;
pub mod app_state;
pub mod canvas;
pub mod containment;
pub mod dialogs;
pub mod edit;
pub mod error;
pub mod export;
pub mod geometry;
pub mod hit_test;
pub mod i18n;
pub mod import;
pub mod keymap;
pub mod meta;
pub mod properties;
pub mod repair;
pub mod search;
pub mod shape_id;
pub mod shortcuts;
pub mod state;
pub mod text;
pub mod validation;
