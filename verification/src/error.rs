//! The errors that the bar reports.

use vstd::prelude::*;

verus! {

/// What can go wrong while the bar follows the window manager. Neither is
/// fatal: the widget stays as it was until the next state arrives.
#[derive(Clone, Copy, Debug, PartialEq, Eq, Structural)]
pub enum BarError {
    /// The state holds no monitor under the index that the bar shows.
    MonitorUnavailable,
    /// The window manager did not take a batch of commands.
    CommandSendFailure,
}

impl BarError {
    /// The message of the error.
    pub open spec fn message(self) -> Seq<char> {
        match self {
            BarError::MonitorUnavailable => "the monitor of this bar is not connected"@,
            BarError::CommandSendFailure => "could not send the commands to the window manager"@,
        }
    }

    /// The message of the error.
    pub fn to_string(&self) -> (s: String)
        ensures
            s@ == self.message(),
    {
        match self {
            BarError::MonitorUnavailable => "the monitor of this bar is not connected".to_owned(),
            BarError::CommandSendFailure => {
                "could not send the commands to the window manager".to_owned()
            },
        }
    }
}

} // verus!
