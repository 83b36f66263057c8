//! Core of a small tray-controlled desktop shell: it decides how persisted
//! window settings (geometry and an always-on-top flag) are loaded, applied,
//! and written back, and which window and store operations each tray-menu or
//! window event must trigger. The surrounding process performs the actual
//! window, tray and disk operations and feeds plain values in and out.

pub mod control;
pub mod geometry;
pub mod menu;
pub mod settings;
pub mod sync;
