//! The failures that end a supervisor.

use vstd::prelude::*;

verus! {

/// A channel of the supervisor lost its other end. None of these happens
/// while every task of the supervisor is running; each one is fatal.
#[derive(Clone, Copy, Debug, PartialEq, Eq, Structural)]
pub enum SupervisorError {
    /// Every exit watcher is gone while children are still counted as running.
    ExitChannelClosed,
    /// The signal listener is gone before it handed over a signal.
    BroadcastChannelClosed,
    /// The listener could not hand a signal over for broadcast.
    SignalNotForwarded,
    /// A child that counts as alive no longer has a relay to take a signal.
    DeliveryFailed,
    /// The relay of a child went away before it heard of the child's exit.
    RelayNotNotified,
    /// The coordinator went away before it heard of a child's exit.
    ExitNotReported,
}

/// The diagnostic of each failure.
pub open spec fn diagnostic(error: SupervisorError) -> Seq<char> {
    match error {
        SupervisorError::ExitChannelClosed => "failed to receive exit message"@,
        SupervisorError::BroadcastChannelClosed => "failed to receive signal message"@,
        SupervisorError::SignalNotForwarded => "failed to send signal from handler"@,
        SupervisorError::DeliveryFailed => "failed to send signal message to child"@,
        SupervisorError::RelayNotNotified => "failed to send local exit message"@,
        SupervisorError::ExitNotReported => "failed to send exit message"@,
    }
}

impl SupervisorError {
    /// The diagnostic that is printed when the supervisor gives up.
    pub fn message(&self) -> (text: &'static str)
        ensures
            text@ == diagnostic(*self),
    {
        match self {
            SupervisorError::ExitChannelClosed => "failed to receive exit message",
            SupervisorError::BroadcastChannelClosed => "failed to receive signal message",
            SupervisorError::SignalNotForwarded => "failed to send signal from handler",
            SupervisorError::DeliveryFailed => "failed to send signal message to child",
            SupervisorError::RelayNotNotified => "failed to send local exit message",
            SupervisorError::ExitNotReported => "failed to send exit message",
        }
    }
}

} // verus!
