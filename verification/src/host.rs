//! What the host's own events ask of the backend.

use crate::lifecycle::{start_error_text, StartError};
use vstd::prelude::*;
use vstd::string::StringExecFns;

verus! {

/// How long after the host is ready the backend is started, in milliseconds.
pub const AUTO_START_DELAY_MILLIS: u64 = 1000;

/// An event of the host application.
#[derive(Clone, Copy, Debug, PartialEq, Eq, Structural)]
pub enum HostEvent {
    /// The application has finished its setup.
    Ready,
    /// The user asked to close the window.
    CloseRequested,
    /// Any other window event.
    Other,
}

/// What the host is to do about the backend.
#[derive(Clone, Copy, Debug, PartialEq, Eq, Structural)]
pub enum HostAction {
    /// Start the backend in the background once the delay has passed.
    StartAfter { delay_millis: u64 },
    /// Stop the backend now.
    Stop,
    Nothing,
}

/// The action that an event calls for.
pub open spec fn action_for(event: HostEvent) -> HostAction {
    match event {
        HostEvent::Ready => HostAction::StartAfter { delay_millis: AUTO_START_DELAY_MILLIS },
        HostEvent::CloseRequested => HostAction::Stop,
        HostEvent::Other => HostAction::Nothing,
    }
}

/// The text that reports a failed automatic start.
pub open spec fn auto_start_failure_text(error: StartError) -> Seq<char> {
    "Failed to auto-start backend: "@ + start_error_text(error)
}

/// Decides what an event of the host means for the backend.
pub fn on_host_event(event: HostEvent) -> (action: HostAction)
    ensures
        action == action_for(event),
{
    match event {
        HostEvent::Ready => HostAction::StartAfter { delay_millis: AUTO_START_DELAY_MILLIS },
        HostEvent::CloseRequested => HostAction::Stop,
        HostEvent::Other => HostAction::Nothing,
    }
}

/// Says that an automatic start failed, and why.  The host prints this
/// and goes on without a backend.
pub fn auto_start_failure(error: &StartError) -> (text: String)
    ensures
        text@ == auto_start_failure_text(*error),
{
    let mut text = String::from_str("Failed to auto-start backend: ");
    let message = error.message();
    text.append(message.as_str());
    text
}

} // verus!
