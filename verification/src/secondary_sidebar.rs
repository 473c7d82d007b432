//! The secondary sidebar and its single widget, the keybinding help list.
use vstd::prelude::*;

verus! {

/// The keybinding help list; it has no state of its own, its contents are
/// fixed and drawn elsewhere.
#[derive(Default)]
pub struct HelpWidget {}

impl HelpWidget {
    pub fn new() -> (r: HelpWidget) {
        HelpWidget {  }
    }
}

/// The closed set of widgets the secondary sidebar can host.
pub enum SecondarySidebarComponent {
    Help(HelpWidget),
}

} // verus!
