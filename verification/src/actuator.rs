//! The control loop of the actuator node.
//!
//! The node joins the network, starts its command server, and then looks at
//! the link once per interval. When the link is lost the server is stopped
//! before the network is joined again, so that no request of the old session
//! is still at the relays or the sensors when the new one begins.

use crate::indicator::indicate;
use crate::indicator::spec_indicate;
use crate::indicator::ControlState;
use crate::indicator::IndicatorColor;
use crate::link::LinkState;
use vstd::prelude::*;

verus! {

/// How long the node waits between two looks at the link, in milliseconds.
pub const LINK_CHECK_INTERVAL_MS: u32 = 60000;

/// Where the loop stands: what it is waiting on.
#[derive(Clone, Copy, Debug, PartialEq, Eq, Structural)]
pub enum ActuatorPhase {
    /// The network is being joined.
    Connecting,
    /// The server is being started.
    StartingServer,
    /// The server runs; the interval is running.
    Serving,
    /// The server runs; the link is being checked.
    CheckingLink,
    /// The link was lost; the server is being stopped.
    StoppingServer,
}

/// What the caller reports.
#[derive(Clone, Copy, Debug, PartialEq, Eq, Structural)]
pub enum ActuatorEvent {
    /// The link is up; holds the baseline signal strength of the session.
    Connected(i8),
    /// The server takes requests.
    ServerStarted,
    /// The wait is over.
    Elapsed,
    /// The link was checked; `true` is a link that is still up.
    LinkChecked(bool),
    /// The server has stopped and no request is under way.
    ServerStopped,
}

/// What the caller is asked to do.
#[derive(Clone, Copy, Debug, PartialEq, Eq, Structural)]
pub enum ActuatorAction {
    /// Join the network, however long it takes.
    Connect,
    /// Start the server with its routes.
    StartServer,
    /// Wait for so many milliseconds.
    Wait(u32),
    /// Check whether the link is still up.
    CheckLink,
    /// Stop the server and let the requests under way come to their end.
    StopServer,
}

/// The actuator node's control state.
#[derive(Clone, Copy, Debug, PartialEq, Eq, Structural)]
pub struct ActuatorNode {
    pub phase: ActuatorPhase,
    /// Baseline signal strength of the session; it means something only while
    /// the link is up.
    pub session_rssi: i8,
}

/// Whether `event` is what `phase` is waiting on.
pub open spec fn spec_awaits(phase: ActuatorPhase, event: ActuatorEvent) -> bool {
    match phase {
        ActuatorPhase::Connecting => event is Connected,
        ActuatorPhase::StartingServer => event is ServerStarted,
        ActuatorPhase::Serving => event is Elapsed,
        ActuatorPhase::CheckingLink => event is LinkChecked,
        ActuatorPhase::StoppingServer => event is ServerStopped,
    }
}

/// What is to be done in `phase`.
pub open spec fn spec_pending(phase: ActuatorPhase) -> ActuatorAction {
    match phase {
        ActuatorPhase::Connecting => ActuatorAction::Connect,
        ActuatorPhase::StartingServer => ActuatorAction::StartServer,
        ActuatorPhase::Serving => ActuatorAction::Wait(LINK_CHECK_INTERVAL_MS),
        ActuatorPhase::CheckingLink => ActuatorAction::CheckLink,
        ActuatorPhase::StoppingServer => ActuatorAction::StopServer,
    }
}

/// The node after `event`. An event that the phase is not waiting on leaves
/// the node as it is.
pub open spec fn spec_next(node: ActuatorNode, event: ActuatorEvent) -> ActuatorNode {
    match node.phase {
        ActuatorPhase::Connecting => match event {
            ActuatorEvent::Connected(rssi) => ActuatorNode {
                phase: ActuatorPhase::StartingServer,
                session_rssi: rssi,
            },
            _ => node,
        },
        ActuatorPhase::StartingServer => match event {
            ActuatorEvent::ServerStarted => ActuatorNode { phase: ActuatorPhase::Serving, ..node },
            _ => node,
        },
        ActuatorPhase::Serving => match event {
            ActuatorEvent::Elapsed => ActuatorNode { phase: ActuatorPhase::CheckingLink, ..node },
            _ => node,
        },
        ActuatorPhase::CheckingLink => match event {
            ActuatorEvent::LinkChecked(up) => ActuatorNode {
                phase: if up {
                    ActuatorPhase::Serving
                } else {
                    ActuatorPhase::StoppingServer
                },
                ..node
            },
            _ => node,
        },
        ActuatorPhase::StoppingServer => match event {
            ActuatorEvent::ServerStopped => ActuatorNode {
                phase: ActuatorPhase::Connecting,
                ..node
            },
            _ => node,
        },
    }
}

/// What is asked for after `event`: what the new phase is waiting on, and
/// nothing where the event was not waited on.
pub open spec fn spec_asked(node: ActuatorNode, event: ActuatorEvent) -> Option<ActuatorAction> {
    if spec_awaits(node.phase, event) {
        Some(spec_pending(spec_next(node, event).phase))
    } else {
        None
    }
}

/// The state of the link as the node knows it.
pub open spec fn spec_link(node: ActuatorNode) -> LinkState {
    match node.phase {
        ActuatorPhase::Connecting => LinkState::Connecting,
        ActuatorPhase::StoppingServer => LinkState::Disconnected,
        _ => LinkState::Associated(node.session_rssi),
    }
}

/// Whether requests are taken in `phase`.
pub open spec fn spec_serves(phase: ActuatorPhase) -> bool {
    phase == ActuatorPhase::Serving || phase == ActuatorPhase::CheckingLink
}

/// What the indicator goes by: the link alone.
pub open spec fn spec_control_state(node: ActuatorNode) -> ControlState {
    ControlState {
        link: spec_link(node),
        opening_on_arrival: false,
        button_active: false,
        cooling_down: false,
    }
}

impl ActuatorNode {
    /// A node that is about to join the network.
    pub fn new() -> (node: ActuatorNode)
        ensures
            node.phase == ActuatorPhase::Connecting,
            node.session_rssi == 0,
    {
        ActuatorNode { phase: ActuatorPhase::Connecting, session_rssi: 0 }
    }

    /// What is to be done now.
    pub fn pending(&self) -> (action: ActuatorAction)
        ensures
            action == spec_pending(self.phase),
    {
        match self.phase {
            ActuatorPhase::Connecting => ActuatorAction::Connect,
            ActuatorPhase::StartingServer => ActuatorAction::StartServer,
            ActuatorPhase::Serving => ActuatorAction::Wait(LINK_CHECK_INTERVAL_MS),
            ActuatorPhase::CheckingLink => ActuatorAction::CheckLink,
            ActuatorPhase::StoppingServer => ActuatorAction::StopServer,
        }
    }

    /// Takes what came of the last action and gives the next one.
    pub fn step(&mut self, event: ActuatorEvent) -> (action: Option<ActuatorAction>)
        ensures
            *final(self) == spec_next(*old(self), event),
            action == spec_asked(*old(self), event),
    {
        let accepted = match self.phase {
            ActuatorPhase::Connecting => match event {
                ActuatorEvent::Connected(rssi) => {
                    self.session_rssi = rssi;
                    self.phase = ActuatorPhase::StartingServer;
                    true
                },
                _ => false,
            },
            ActuatorPhase::StartingServer => match event {
                ActuatorEvent::ServerStarted => {
                    self.phase = ActuatorPhase::Serving;
                    true
                },
                _ => false,
            },
            ActuatorPhase::Serving => match event {
                ActuatorEvent::Elapsed => {
                    self.phase = ActuatorPhase::CheckingLink;
                    true
                },
                _ => false,
            },
            ActuatorPhase::CheckingLink => match event {
                ActuatorEvent::LinkChecked(up) => {
                    self.phase = if up {
                        ActuatorPhase::Serving
                    } else {
                        ActuatorPhase::StoppingServer
                    };
                    true
                },
                _ => false,
            },
            ActuatorPhase::StoppingServer => match event {
                ActuatorEvent::ServerStopped => {
                    self.phase = ActuatorPhase::Connecting;
                    true
                },
                _ => false,
            },
        };
        if accepted {
            Some(self.pending())
        } else {
            None
        }
    }

    /// The state of the link as the node knows it.
    pub fn link_state(&self) -> (link: LinkState)
        ensures
            link == spec_link(*self),
    {
        match self.phase {
            ActuatorPhase::Connecting => LinkState::Connecting,
            ActuatorPhase::StoppingServer => LinkState::Disconnected,
            _ => LinkState::Associated(self.session_rssi),
        }
    }

    /// Whether requests are taken now.
    pub fn is_serving(&self) -> (serving: bool)
        ensures
            serving == spec_serves(self.phase),
    {
        match self.phase {
            ActuatorPhase::Serving => true,
            ActuatorPhase::CheckingLink => true,
            _ => false,
        }
    }

    /// The colour that the indicator shows now: amber without a link, green
    /// with one.
    pub fn indicator(&self) -> (color: IndicatorColor)
        ensures
            color == spec_indicate(spec_control_state(*self)),
            color == if spec_link(*self) is Associated {
                IndicatorColor::Green
            } else {
                IndicatorColor::Amber
            },
    {
        indicate(
            ControlState {
                link: self.link_state(),
                opening_on_arrival: false,
                button_active: false,
                cooling_down: false,
            },
        )
    }
}

/// The network is joined again only once the server has stopped: no step
/// leads from a running server straight to a new session.
pub proof fn lemma_rejoin_only_after_stop(node: ActuatorNode, event: ActuatorEvent)
    requires
        node.phase != ActuatorPhase::Connecting,
        spec_next(node, event).phase == ActuatorPhase::Connecting,
    ensures
        node.phase == ActuatorPhase::StoppingServer,
        event == ActuatorEvent::ServerStopped,
        !spec_serves(node.phase),
{
}

/// Requests are taken only while the link is known to be up.
pub proof fn lemma_serves_only_with_link(node: ActuatorNode)
    requires
        spec_serves(node.phase),
    ensures
        spec_link(node) == LinkState::Associated(node.session_rssi),
{
}

} // verus!
