//! What can go wrong in a stage.
use vstd::prelude::*;

verus! {

/// The errors that workers report and the runtime raises.
#[derive(Clone, Copy, Debug, PartialEq, Eq, Structural)]
pub enum Error {
    /// A message could not be sent through an output port.
    SendError,
    /// No message could be received from an input port.
    RecvError,
    /// A port was used before it was connected.
    NotConnected,
    /// The work cannot go on.
    WorkPanic,
    /// The worker wants to be bootstrapped again.
    ShouldRestart,
    /// The same work may succeed when it is tried again.
    RetryableError,
    /// The work failed in a way that can be passed over.
    DismissableError,
    /// The retry policy allows no further attempt.
    MaxRetries,
    /// The stage behind a tether is gone.
    TetherDropped,
}

impl Error {
    /// The text of the error, as it appears in the log.
    pub open spec fn text(self) -> Seq<char> {
        match self {
            Error::SendError => "failed to send message"@,
            Error::RecvError => "failed to receive message"@,
            Error::NotConnected => "port is not connected"@,
            Error::WorkPanic => "work panic"@,
            Error::ShouldRestart => "stage should restart"@,
            Error::RetryableError => "work should be retried"@,
            Error::DismissableError => "work error was dismissed"@,
            Error::MaxRetries => "max retries reached"@,
            Error::TetherDropped => "tether dropped"@,
        }
    }

    /// A text for people to read.
    pub fn describe(&self) -> (text: &'static str)
        ensures
            text@ == self.text(),
    {
        match self {
            Error::SendError => "failed to send message",
            Error::RecvError => "failed to receive message",
            Error::NotConnected => "port is not connected",
            Error::WorkPanic => "work panic",
            Error::ShouldRestart => "stage should restart",
            Error::RetryableError => "work should be retried",
            Error::DismissableError => "work error was dismissed",
            Error::MaxRetries => "max retries reached",
            Error::TetherDropped => "tether dropped",
        }
    }
}

} // verus!
