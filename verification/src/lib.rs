//! The hotkey and visibility core of a tray application that shows and hides
//! one window.
//!
//! Everything here is free of I/O. Where the operating system, the windowing
//! layer or the updater has to act, a function returns what is to be done and
//! a second function takes what came of it.

pub mod dispatch;
pub mod outcome;
pub mod registry;
pub mod shortcut;
pub mod state;
mod text;
pub mod update;
pub mod visibility;

pub use state::{AppState, HotkeyResult};
