//! Decision core of a small game: the movement intent resolved from raw
//! input, the main menu with its settings screen, and the handling of the
//! events that menu selections produce.
//!
//! Nothing in this crate touches a device, a renderer or a store. Callers
//! sample input, draw menus and carry out the requests that the handlers
//! return.

pub mod actions;
pub mod mainmenu;
pub mod settings;
pub mod ui_events;

use vstd::prelude::*;

verus! {

/// Top-level mode of the application.
#[derive(Debug, Clone, Copy, PartialEq, Eq, Hash, Structural)]
pub enum GameState {
    /// The main menu is shown.
    Menu,
    /// The game itself runs.
    Playing,
}

} // verus!
