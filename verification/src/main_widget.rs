//! The welcome view shown in the main content area when nothing else is
//! open.  Its banner is fixed; only its presence matters to the shell.
use vstd::prelude::*;

verus! {

/// The placeholder tab content installed whenever the main content area
/// would otherwise be empty.
#[derive(Default)]
pub struct WelcomeWidget;

impl WelcomeWidget {
    pub fn new() -> (r: WelcomeWidget) {
        WelcomeWidget
    }
}

} // verus!
