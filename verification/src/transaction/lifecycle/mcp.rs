//! Gateway decisions: when the loopback listener goes on, and what a request
//! gets that the supervisor did not run.

use crate::transaction::lifecycle::shared::RuntimeState;
use vstd::prelude::*;

verus! {

/// What the listener saw.
#[derive(Clone, Copy, Debug, PartialEq, Eq, Structural)]
pub enum ListenerEvent {
    /// Nothing yet.
    Ready,
    /// Someone called.
    Woken,
    /// A peer connected.
    Accepted,
    /// Accepting failed.
    Failed,
}

/// What the listener does.
#[derive(Clone, Copy, Debug, PartialEq, Eq, Structural)]
pub enum ListenerAction {
    /// Wait for a peer or a call.
    Wait,
    /// Drop the peer and look again.
    DropPeer,
    /// Stop and take the address back.
    Stop,
}

/// Whether the runtime winds down or is stopped.
pub open spec fn winding_down(state: RuntimeState) -> bool {
    state == RuntimeState::Quiescing || state == RuntimeState::Stopped
}

/// What the listener does. A peer that connected is dropped: there is no
/// session protocol without tools.
pub fn listener_step(state: RuntimeState, event: ListenerEvent) -> (r: ListenerAction)
    ensures
        r == (match event {
            ListenerEvent::Ready | ListenerEvent::Woken => if winding_down(state) {
                ListenerAction::Stop
            } else {
                ListenerAction::Wait
            },
            ListenerEvent::Accepted => ListenerAction::DropPeer,
            ListenerEvent::Failed => ListenerAction::Stop,
        }),
{
    match event {
        ListenerEvent::Ready | ListenerEvent::Woken => {
            if state == RuntimeState::Quiescing || state == RuntimeState::Stopped {
                ListenerAction::Stop
            } else {
                ListenerAction::Wait
            }
        },
        ListenerEvent::Accepted => ListenerAction::DropPeer,
        ListenerEvent::Failed => ListenerAction::Stop,
    }
}

/// How a gateway request went.
#[derive(Clone, Copy, Debug, PartialEq, Eq, Structural)]
pub enum RequestRun {
    /// Its task answered.
    Answered,
    /// Its task was started and went away.
    Dropped,
    /// Its task was not started.
    NotStarted,
}

/// What the peer gets.
#[derive(Clone, Copy, Debug, PartialEq, Eq)]
pub enum McpReply {
    /// The answer of the task.
    Forward,
    /// Service unavailable, with this body.
    Unavailable(&'static str),
}

/// What the peer gets. Work that was not started is never run in its place.
pub fn request_reply(run: RequestRun) -> (r: McpReply)
    ensures
        r == (match run {
            RequestRun::Answered => McpReply::Forward,
            RequestRun::Dropped => McpReply::Unavailable("mcp request task dropped"),
            RequestRun::NotStarted => McpReply::Unavailable("mcp request spawn unavailable"),
        }),
{
    match run {
        RequestRun::Answered => McpReply::Forward,
        RequestRun::Dropped => McpReply::Unavailable("mcp request task dropped"),
        RequestRun::NotStarted => McpReply::Unavailable("mcp request spawn unavailable"),
    }
}

} // verus!
