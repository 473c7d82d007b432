//! Session orchestration and focus routing for a terminal-resident,
//! multi-pane application shell.
//!
//! The crate models the runtime state of the shell — tabbed collections of
//! editor and terminal sessions, pane visibility, keyboard focus, the command
//! palette and the global keybinding table — and verifies the state machine
//! that routes every input event through a fixed priority chain.  Process
//! spawning, pseudo-terminal I/O and rendering live outside this crate; the
//! library decides, and hands each outside effect to its caller as an explicit
//! directive.
use vstd::prelude::*;

pub mod app;
pub mod background;
pub mod command_palette;
pub mod event_handler;
pub mod help_widget;
pub mod keys;
pub mod main_widget;
pub mod notification;
pub mod popup;
pub mod secondary_sidebar;
pub mod settings;
pub mod settings_editor;
pub mod status;
pub mod strutil;
pub mod tabs;

pub use popup::Popup;
pub use popup::PopupResult;

verus! {

/// The pane that currently owns keyboard input outside of modal and global
/// handling.
#[derive(PartialEq, Eq, Clone, Copy, Debug, Structural)]
pub enum ActiveTarget {
    Editor,
    Panel,
    PrimarySideBar,
    SecondarySideBar,
}

/// What a main-content tab holds: an editor session of the caller's type, the
/// settings editor, or the welcome placeholder.  The set is closed and is
/// matched exhaustively wherever the kinds differ.
pub enum MainWidgetContent<E> {
    Editor(E),
    SettingsEditor(settings_editor::SettingsEditor),
    Welcome(main_widget::WelcomeWidget),
}

} // verus!
