//! Orchestration of the main control loop.
//!
//! The loop walks a fixed course: wait for connectivity, launch the sampler,
//! perform the publish handshake once, then relay forever. The embedding
//! program performs each step's outside work (poll the link, spawn the
//! thread, move the bytes) and reports what happened; which step comes next
//! is decided here. A handshake failure is fatal: the course ends, nothing
//! reconnects.
use vstd::prelude::*;
use crate::client::ConnectError;

verus! {

/// Where the main control loop stands.
#[derive(Clone, Copy, PartialEq, Eq, Structural, Debug)]
pub enum ControlState {
    /// Polling the link until it reports connected.
    AwaitConnectivity,
    /// Connected: the sampler thread is to be started.
    LaunchSampler,
    /// Sampler running: the publish handshake is to be performed once.
    Handshake,
    /// Handshake accepted: drain the handoff slot and publish, forever.
    Relay,
    /// The handshake failed; the course is over.
    Failed,
}

/// What the embedding program reports back after one step's outside work.
#[derive(Clone, Copy, PartialEq, Eq, Structural, Debug)]
pub enum ControlEvent {
    /// Whether the link reports connected.
    ConnectivityReport(bool),
    /// The sampler thread is running.
    SamplerLaunched,
    /// The publish handshake was accepted.
    HandshakeAccepted,
    /// The publish handshake failed for this reason.
    HandshakeRefused(ConnectError),
}

/// The next piece of outside work the embedding program is to perform.
#[derive(Clone, Copy, PartialEq, Eq, Structural, Debug)]
pub enum ControlAction {
    /// Ask the link again whether it is connected.
    PollConnectivity,
    /// Start the sampler on its own thread.
    StartSampler,
    /// Build, send and answer the connect handshake.
    PerformHandshake,
    /// Enter the relay loop: poll the handoff slot and publish.
    RunRelay,
    /// Stop: a fatal failure, nothing recovers.
    Stop,
}

/// Whether an event is one the given state's outside work can report.
pub open spec fn event_fits(state: ControlState, event: ControlEvent) -> bool {
    match state {
        ControlState::AwaitConnectivity => event is ConnectivityReport,
        ControlState::LaunchSampler => event == ControlEvent::SamplerLaunched,
        ControlState::Handshake => event is HandshakeAccepted || event is HandshakeRefused,
        ControlState::Relay => false,
        ControlState::Failed => false,
    }
}

/// One decision of the main control loop: from the state it stands in and
/// what the outside work reported, the state it moves to and the work to
/// perform next. Connectivity is awaited for as long as it takes, the
/// handshake happens exactly once, and only an accepted handshake reaches
/// the relay; its failure stops the course for good.
pub fn control_step(state: ControlState, event: ControlEvent) -> (r: (ControlState, ControlAction))
    requires
        event_fits(state, event),
    ensures
        match state {
            ControlState::AwaitConnectivity => {
                &&& event == ControlEvent::ConnectivityReport(false) ==> r == (
                    ControlState::AwaitConnectivity,
                    ControlAction::PollConnectivity,
                )
                &&& event == ControlEvent::ConnectivityReport(true) ==> r == (
                    ControlState::LaunchSampler,
                    ControlAction::StartSampler,
                )
            },
            ControlState::LaunchSampler => r == (
                ControlState::Handshake,
                ControlAction::PerformHandshake,
            ),
            ControlState::Handshake => {
                &&& event == ControlEvent::HandshakeAccepted ==> r == (
                    ControlState::Relay,
                    ControlAction::RunRelay,
                )
                &&& (event matches ControlEvent::HandshakeRefused(_)) ==> r == (
                    ControlState::Failed,
                    ControlAction::Stop,
                )
            },
            _ => true,
        },
{
    match (state, event) {
        (ControlState::AwaitConnectivity, ControlEvent::ConnectivityReport(true)) => (
            ControlState::LaunchSampler,
            ControlAction::StartSampler,
        ),
        (ControlState::AwaitConnectivity, _) => (
            ControlState::AwaitConnectivity,
            ControlAction::PollConnectivity,
        ),
        (ControlState::LaunchSampler, _) => (ControlState::Handshake, ControlAction::PerformHandshake),
        (ControlState::Handshake, ControlEvent::HandshakeAccepted) => (
            ControlState::Relay,
            ControlAction::RunRelay,
        ),
        (_, _) => (ControlState::Failed, ControlAction::Stop),
    }
}

} // verus!
