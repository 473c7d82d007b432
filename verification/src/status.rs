//! The status bar's state: one message line.  Clock and version-control
//! summaries are gathered outside this crate at render time.
use vstd::prelude::*;
use vstd::string::StringExecFns;

verus! {

/// The status bar shown at the bottom of the shell.
pub struct StatusBar {
    pub message: String,
}

impl StatusBar {
    pub fn new(message: String) -> (r: StatusBar)
        ensures
            r.message == message,
    {
        StatusBar { message }
    }

    pub fn set_message(&mut self, msg: String)
        ensures
            final(self).message == msg,
    {
        self.message = msg;
    }

    /// The resource-usage segment of the status line.  A fixed placeholder:
    /// real measurement would need a system probe, which lives outside this
    /// crate.
    pub fn get_resource_usage(&self) -> (r: String)
        ensures
            r@ == "CPU: 25% Mem: 60%"@,
    {
        String::from_str("CPU: 25% Mem: 60%")
    }
}

} // verus!
