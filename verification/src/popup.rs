//! The modal confirmation popup: two buttons, one selection, and a result
//! per key press.  While a popup is present it owns every key.
use crate::keys::{KeyCode, KeyEvent};
use vstd::prelude::*;

verus! {

/// What a key press did to the popup.
#[derive(PartialEq, Eq, Clone, Copy, Debug, Structural)]
pub enum PopupResult {
    Confirm,
    Cancel,
    Ignored,
}

/// A modal popup with a confirm/cancel pair of buttons.
pub struct Popup {
    pub title: String,
    pub message: String,
    pub confirm_selected: bool,
    /// A popup that asks whether to quit: confirming it requests application
    /// exit.
    pub quit_confirm: bool,
}

impl Popup {
    pub fn new(title: String, message: String) -> (r: Popup)
        ensures
            r.title == title,
            r.message == message,
            r.confirm_selected,
            !r.quit_confirm,
    {
        Popup { title, message, confirm_selected: true, quit_confirm: false }
    }

    /// A quit-confirmation popup: the confirm button requests exit.
    pub fn new_quit_confirm(title: String, message: String) -> (r: Popup)
        ensures
            r.title == title,
            r.message == message,
            r.confirm_selected,
            r.quit_confirm,
    {
        Popup { title, message, confirm_selected: true, quit_confirm: true }
    }

    /// Routes one key press: left, right and tab move the selection; enter
    /// yields the selected button; escape cancels; everything else is
    /// swallowed.
    pub fn handle_key(&mut self, key: KeyEvent) -> (r: PopupResult)
        ensures
            final(self).title == old(self).title,
            final(self).message == old(self).message,
            final(self).quit_confirm == old(self).quit_confirm,
            match key.code {
                KeyCode::Left | KeyCode::Right | KeyCode::Tab => final(self).confirm_selected
                    != old(self).confirm_selected && r == PopupResult::Ignored,
                KeyCode::Enter => final(self).confirm_selected == old(self).confirm_selected && r
                    == if old(self).confirm_selected {
                    PopupResult::Confirm
                } else {
                    PopupResult::Cancel
                },
                KeyCode::Esc => final(self).confirm_selected == old(self).confirm_selected && r
                    == PopupResult::Cancel,
                _ => final(self).confirm_selected == old(self).confirm_selected && r
                    == PopupResult::Ignored,
            },
    {
        match key.code {
            KeyCode::Left | KeyCode::Right | KeyCode::Tab => {
                self.confirm_selected = !self.confirm_selected;
                PopupResult::Ignored
            },
            KeyCode::Enter => {
                if self.confirm_selected {
                    PopupResult::Confirm
                } else {
                    PopupResult::Cancel
                }
            },
            KeyCode::Esc => PopupResult::Cancel,
            _ => PopupResult::Ignored,
        }
    }
}

} // verus!
