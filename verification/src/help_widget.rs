//! The floating help overlay: a visibility flag the shell toggles.
use vstd::prelude::*;

verus! {

/// The help overlay's state; its text is fixed and drawn elsewhere.
pub struct HelpWidget {
    pub is_visible: bool,
}

impl HelpWidget {
    pub fn new() -> (r: HelpWidget)
        ensures
            !r.is_visible,
    {
        HelpWidget { is_visible: false }
    }

    pub fn toggle_visibility(&mut self)
        ensures
            final(self).is_visible == !old(self).is_visible,
    {
        self.is_visible = !self.is_visible;
    }
}

} // verus!
