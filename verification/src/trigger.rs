//! The control loop of the trigger node.
//!
//! The node joins the network, asks for an opening when the link has
//! come up weak, and then watches its button: each press asks for one step.
//! When the link is lost it waits out a cooldown and joins again.
//!
//! The loop is a state machine. [`TriggerNode::pending`] says what to do; the
//! caller does it and reports through [`TriggerNode::step`], which gives the
//! next thing to do.

use crate::debounce::spec_edge;
use crate::debounce::spec_next_state;
use crate::debounce::ButtonEdge;
use crate::debounce::DetectorState;
use crate::debounce::EdgeDetector;
use crate::debounce::SAMPLE_INTERVAL_MS;
use crate::dispatch::Command;
use crate::dispatch::NetworkError;
use crate::indicator::indicate;
use crate::indicator::spec_indicate;
use crate::indicator::ControlState;
use crate::indicator::IndicatorColor;
use crate::link::LinkState;
use vstd::prelude::*;

verus! {

/// How long the node rests after it has asked for an opening on
/// arrival, in milliseconds.
pub const ARRIVAL_SETTLE_MS: u32 = 1000;

/// How long the node waits after the link was lost before it joins again, in
/// milliseconds.
pub const LINK_LOSS_COOLDOWN_MS: u32 = 60000;

/// Where the loop stands: what it is waiting on.
#[derive(Clone, Copy, Debug, PartialEq, Eq, Structural)]
pub enum TriggerPhase {
    /// The network is being joined.
    Connecting,
    /// The link came up weak; the command to open is on its way.
    OpeningOnArrival,
    /// The command to open was sent; the node rests.
    Settling,
    /// The button is being sampled.
    Sampling,
    /// The button was pressed; the command to step is on its way.
    Stepping,
    /// The sampling interval is running.
    Waiting,
    /// The link is being checked.
    CheckingLink,
    /// The link was lost; the cooldown is running.
    CoolingDown,
}

/// What the caller reports.
#[derive(Clone, Copy, Debug)]
pub enum TriggerEvent {
    /// The link is up; holds the baseline signal strength of the session.
    Connected(i8),
    /// The command was sent, or could not be.
    DispatchFinished(Result<(), NetworkError>),
    /// The wait is over.
    Elapsed,
    /// The button was sampled; `true` is an electrically low line.
    ButtonSample(bool),
    /// The link was checked; `true` is a link that is still up.
    LinkChecked(bool),
}

/// What the caller is asked to do.
#[derive(Clone, Copy, Debug, PartialEq, Eq, Structural)]
pub enum TriggerAction {
    /// Join the network, however long it takes.
    Connect,
    /// Send this command to the actuator node.
    Dispatch(Command),
    /// Wait for so many milliseconds.
    Wait(u32),
    /// Sample the button.
    SampleButton,
    /// Check whether the link is still up.
    CheckLink,
}

/// The trigger node's control state.
#[derive(Clone, Copy, Debug, PartialEq, Eq, Structural)]
pub struct TriggerNode {
    /// A session whose baseline is below this asks for an opening.
    pub threshold: i8,
    pub phase: TriggerPhase,
    pub detector: EdgeDetector,
    /// Baseline signal strength of the session; it means something only while
    /// the link is up.
    pub session_rssi: i8,
}

/// Whether `event` is what `phase` is waiting on.
pub open spec fn spec_awaits(phase: TriggerPhase, event: TriggerEvent) -> bool {
    match phase {
        TriggerPhase::Connecting => event is Connected,
        TriggerPhase::OpeningOnArrival => event is DispatchFinished,
        TriggerPhase::Settling => event is Elapsed,
        TriggerPhase::Sampling => event is ButtonSample,
        TriggerPhase::Stepping => event is DispatchFinished,
        TriggerPhase::Waiting => event is Elapsed,
        TriggerPhase::CheckingLink => event is LinkChecked,
        TriggerPhase::CoolingDown => event is Elapsed,
    }
}

/// What is to be done in `phase`.
pub open spec fn spec_pending(phase: TriggerPhase) -> TriggerAction {
    match phase {
        TriggerPhase::Connecting => TriggerAction::Connect,
        TriggerPhase::OpeningOnArrival => TriggerAction::Dispatch(Command::Open),
        TriggerPhase::Settling => TriggerAction::Wait(ARRIVAL_SETTLE_MS),
        TriggerPhase::Sampling => TriggerAction::SampleButton,
        TriggerPhase::Stepping => TriggerAction::Dispatch(Command::Step),
        TriggerPhase::Waiting => TriggerAction::Wait(SAMPLE_INTERVAL_MS),
        TriggerPhase::CheckingLink => TriggerAction::CheckLink,
        TriggerPhase::CoolingDown => TriggerAction::Wait(LINK_LOSS_COOLDOWN_MS),
    }
}

/// The phase that follows a sample of the button, given the detector before
/// it: a press sends the command to step, a release lets the link be checked,
/// and anything else waits for the next sample.
pub open spec fn spec_phase_after_sample(state: DetectorState, active: bool) -> TriggerPhase {
    match spec_edge(state, active) {
        Some(ButtonEdge::Pressed) => TriggerPhase::Stepping,
        Some(ButtonEdge::Released) => TriggerPhase::CheckingLink,
        Some(ButtonEdge::HeldLow) => TriggerPhase::Waiting,
        None => TriggerPhase::Waiting,
    }
}

/// The node after `event`. An event that the phase is not waiting on leaves
/// the node as it is.
pub open spec fn spec_next(node: TriggerNode, event: TriggerEvent) -> TriggerNode {
    match node.phase {
        TriggerPhase::Connecting => match event {
            TriggerEvent::Connected(rssi) => TriggerNode {
                threshold: node.threshold,
                phase: if rssi < node.threshold {
                    TriggerPhase::OpeningOnArrival
                } else {
                    TriggerPhase::Sampling
                },
                detector: EdgeDetector { state: DetectorState::Idle },
                session_rssi: rssi,
            },
            _ => node,
        },
        TriggerPhase::OpeningOnArrival => match event {
            TriggerEvent::DispatchFinished(_) => TriggerNode {
                phase: TriggerPhase::Settling,
                ..node
            },
            _ => node,
        },
        TriggerPhase::Settling => match event {
            TriggerEvent::Elapsed => TriggerNode { phase: TriggerPhase::Sampling, ..node },
            _ => node,
        },
        TriggerPhase::Sampling => match event {
            TriggerEvent::ButtonSample(active) => TriggerNode {
                phase: spec_phase_after_sample(node.detector.state, active),
                detector: EdgeDetector { state: spec_next_state(node.detector.state, active) },
                ..node
            },
            _ => node,
        },
        TriggerPhase::Stepping => match event {
            TriggerEvent::DispatchFinished(_) => TriggerNode {
                phase: TriggerPhase::Waiting,
                ..node
            },
            _ => node,
        },
        TriggerPhase::Waiting => match event {
            TriggerEvent::Elapsed => TriggerNode {
                phase: if node.detector.state == DetectorState::Active {
                    TriggerPhase::Sampling
                } else {
                    TriggerPhase::CheckingLink
                },
                ..node
            },
            _ => node,
        },
        TriggerPhase::CheckingLink => match event {
            TriggerEvent::LinkChecked(up) => TriggerNode {
                phase: if up {
                    TriggerPhase::Sampling
                } else {
                    TriggerPhase::CoolingDown
                },
                ..node
            },
            _ => node,
        },
        TriggerPhase::CoolingDown => match event {
            TriggerEvent::Elapsed => TriggerNode { phase: TriggerPhase::Connecting, ..node },
            _ => node,
        },
    }
}

/// What is asked for after `event`: what the new phase is waiting on, and
/// nothing where the event was not waited on.
pub open spec fn spec_asked(node: TriggerNode, event: TriggerEvent) -> Option<TriggerAction> {
    if spec_awaits(node.phase, event) {
        Some(spec_pending(spec_next(node, event).phase))
    } else {
        None
    }
}

/// The state of the link as the node knows it.
pub open spec fn spec_link(node: TriggerNode) -> LinkState {
    match node.phase {
        TriggerPhase::Connecting => LinkState::Connecting,
        TriggerPhase::CoolingDown => LinkState::Disconnected,
        _ => LinkState::Associated(node.session_rssi),
    }
}

/// What the indicator goes by.
pub open spec fn spec_control_state(node: TriggerNode) -> ControlState {
    ControlState {
        link: spec_link(node),
        opening_on_arrival: node.phase == TriggerPhase::OpeningOnArrival || node.phase
            == TriggerPhase::Settling,
        button_active: node.detector.state == DetectorState::Active,
        cooling_down: node.phase == TriggerPhase::CoolingDown,
    }
}

/// The node after a run of events.
pub open spec fn spec_node_after(node: TriggerNode, events: Seq<TriggerEvent>) -> TriggerNode
    decreases events.len(),
{
    if events.len() == 0 {
        node
    } else {
        spec_node_after(spec_next(node, events[0]), events.drop_first())
    }
}

/// Everything that is asked for in the course of a run of events, in order.
pub open spec fn spec_trace(node: TriggerNode, events: Seq<TriggerEvent>) -> Seq<TriggerAction>
    decreases events.len(),
{
    if events.len() == 0 {
        Seq::empty()
    } else {
        let later = spec_trace(spec_next(node, events[0]), events.drop_first());
        match spec_asked(node, events[0]) {
            Some(action) => seq![action] + later,
            None => later,
        }
    }
}

/// How many commands to open stand in `trace` before the button is first
/// sampled.
pub open spec fn spec_opens_before_sampling(trace: Seq<TriggerAction>) -> nat
    decreases trace.len(),
{
    if trace.len() == 0 {
        0
    } else if trace[0] == TriggerAction::SampleButton {
        0
    } else {
        spec_opens_before_sampling(trace.drop_first()) + if trace[0] == TriggerAction::Dispatch(
            Command::Open,
        ) {
            1nat
        } else {
            0nat
        }
    }
}

impl TriggerNode {
    /// A node that is about to join the network.
    pub fn new(threshold: i8) -> (node: TriggerNode)
        ensures
            node.threshold == threshold,
            node.phase == TriggerPhase::Connecting,
            node.detector.state == DetectorState::Idle,
            node.session_rssi == 0,
    {
        TriggerNode {
            threshold,
            phase: TriggerPhase::Connecting,
            detector: EdgeDetector::new(),
            session_rssi: 0,
        }
    }

    /// What is to be done now.
    pub fn pending(&self) -> (action: TriggerAction)
        ensures
            action == spec_pending(self.phase),
    {
        match self.phase {
            TriggerPhase::Connecting => TriggerAction::Connect,
            TriggerPhase::OpeningOnArrival => TriggerAction::Dispatch(Command::Open),
            TriggerPhase::Settling => TriggerAction::Wait(ARRIVAL_SETTLE_MS),
            TriggerPhase::Sampling => TriggerAction::SampleButton,
            TriggerPhase::Stepping => TriggerAction::Dispatch(Command::Step),
            TriggerPhase::Waiting => TriggerAction::Wait(SAMPLE_INTERVAL_MS),
            TriggerPhase::CheckingLink => TriggerAction::CheckLink,
            TriggerPhase::CoolingDown => TriggerAction::Wait(LINK_LOSS_COOLDOWN_MS),
        }
    }

    /// Takes what came of the last action and gives the next one. Whether a
    /// command got through makes no difference to what follows.
    pub fn step(&mut self, event: TriggerEvent) -> (action: Option<TriggerAction>)
        ensures
            *final(self) == spec_next(*old(self), event),
            action == spec_asked(*old(self), event),
    {
        let accepted = match self.phase {
            TriggerPhase::Connecting => match event {
                TriggerEvent::Connected(rssi) => {
                    self.session_rssi = rssi;
                    self.detector = EdgeDetector::new();
                    self.phase = if rssi < self.threshold {
                        TriggerPhase::OpeningOnArrival
                    } else {
                        TriggerPhase::Sampling
                    };
                    true
                },
                _ => false,
            },
            TriggerPhase::OpeningOnArrival => match event {
                TriggerEvent::DispatchFinished(_) => {
                    self.phase = TriggerPhase::Settling;
                    true
                },
                _ => false,
            },
            TriggerPhase::Settling => match event {
                TriggerEvent::Elapsed => {
                    self.phase = TriggerPhase::Sampling;
                    true
                },
                _ => false,
            },
            TriggerPhase::Sampling => match event {
                TriggerEvent::ButtonSample(active) => {
                    let mut detector = self.detector;
                    let edge = detector.sample(active);
                    self.detector = detector;
                    self.phase = match edge {
                        Some(ButtonEdge::Pressed) => TriggerPhase::Stepping,
                        Some(ButtonEdge::Released) => TriggerPhase::CheckingLink,
                        Some(ButtonEdge::HeldLow) => TriggerPhase::Waiting,
                        None => TriggerPhase::Waiting,
                    };
                    true
                },
                _ => false,
            },
            TriggerPhase::Stepping => match event {
                TriggerEvent::DispatchFinished(_) => {
                    self.phase = TriggerPhase::Waiting;
                    true
                },
                _ => false,
            },
            TriggerPhase::Waiting => match event {
                TriggerEvent::Elapsed => {
                    self.phase = if self.detector.is_active() {
                        TriggerPhase::Sampling
                    } else {
                        TriggerPhase::CheckingLink
                    };
                    true
                },
                _ => false,
            },
            TriggerPhase::CheckingLink => match event {
                TriggerEvent::LinkChecked(up) => {
                    self.phase = if up {
                        TriggerPhase::Sampling
                    } else {
                        TriggerPhase::CoolingDown
                    };
                    true
                },
                _ => false,
            },
            TriggerPhase::CoolingDown => match event {
                TriggerEvent::Elapsed => {
                    self.phase = TriggerPhase::Connecting;
                    true
                },
                _ => false,
            },
        };
        if accepted {
            Some(self.pending())
        } else {
            None
        }
    }

    /// The state of the link as the node knows it.
    pub fn link_state(&self) -> (link: LinkState)
        ensures
            link == spec_link(*self),
    {
        match self.phase {
            TriggerPhase::Connecting => LinkState::Connecting,
            TriggerPhase::CoolingDown => LinkState::Disconnected,
            _ => LinkState::Associated(self.session_rssi),
        }
    }

    /// The colour that the indicator shows now.
    pub fn indicator(&self) -> (color: IndicatorColor)
        ensures
            color == spec_indicate(spec_control_state(*self)),
    {
        let opening = match self.phase {
            TriggerPhase::OpeningOnArrival => true,
            TriggerPhase::Settling => true,
            _ => false,
        };
        let cooling = match self.phase {
            TriggerPhase::CoolingDown => true,
            _ => false,
        };
        indicate(
            ControlState {
                link: self.link_state(),
                opening_on_arrival: opening,
                button_active: self.detector.is_active(),
                cooling_down: cooling,
            },
        )
    }

    /// Feeds a run of events, oldest first, and collects what is asked for.
    pub fn run(&mut self, events: &Vec<TriggerEvent>) -> (trace: Vec<TriggerAction>)
        ensures
            *final(self) == spec_node_after(*old(self), events@),
            trace@ == spec_trace(*old(self), events@),
    {
        let ghost start = *self;
        let mut trace: Vec<TriggerAction> = Vec::new();
        let mut i: usize = 0;
        assert(events@.skip(0) =~= events@);
        while i < events.len()
            invariant
                0 <= i <= events.len(),
                spec_node_after(start, events@) == spec_node_after(*self, events@.skip(i as int)),
                spec_trace(start, events@) == trace@ + spec_trace(*self, events@.skip(i as int)),
            decreases events.len() - i,
        {
            let ghost before = *self;
            let ghost earlier = trace@;
            let ghost rest = events@.skip(i as int);
            proof {
                assert(rest[0] == events@[i as int]);
                assert(rest.drop_first() =~= events@.skip(i + 1));
            }
            match self.step(events[i]) {
                Some(action) => {
                    trace.push(action);
                    assert(trace@ + spec_trace(*self, events@.skip(i + 1)) =~= earlier + (
                    seq![action] + spec_trace(*self, events@.skip(i + 1))));
                },
                None => {},
            }
            i += 1;
        }
        assert(trace@ + Seq::<TriggerAction>::empty() =~= trace@);
        trace
    }
}

/// While the command to open is on its way, and while the node rests after
/// it, no second command to open is asked for before the button is sampled.
proof fn lemma_no_open_after_arrival(node: TriggerNode, events: Seq<TriggerEvent>)
    requires
        node.phase == TriggerPhase::OpeningOnArrival || node.phase == TriggerPhase::Settling,
    ensures
        spec_opens_before_sampling(spec_trace(node, events)) == 0,
    decreases events.len(),
{
    if events.len() > 0 {
        let next = spec_next(node, events[0]);
        let later = spec_trace(next, events.drop_first());
        match spec_asked(node, events[0]) {
            Some(action) => {
                let trace = seq![action] + later;
                assert(trace[0] == action);
                assert(trace.drop_first() =~= later);
                if next.phase != TriggerPhase::Sampling {
                    lemma_no_open_after_arrival(next, events.drop_first());
                }
            },
            None => {
                lemma_no_open_after_arrival(next, events.drop_first());
            },
        }
    }
}

/// A session that comes up with a baseline below the threshold asks for the
/// gate to open exactly once before the button is first sampled, whatever is
/// reported after that. A session that comes up at or above the threshold
/// does not ask for it at all.
pub proof fn lemma_one_open_on_weak_arrival(
    node: TriggerNode,
    rssi: i8,
    later: Seq<TriggerEvent>,
)
    requires
        node.phase == TriggerPhase::Connecting,
    ensures
        spec_opens_before_sampling(
            spec_trace(node, seq![TriggerEvent::Connected(rssi)] + later),
        ) == if rssi < node.threshold {
            1nat
        } else {
            0nat
        },
        rssi < node.threshold ==> spec_asked(node, TriggerEvent::Connected(rssi)) == Some(
            TriggerAction::Dispatch(Command::Open),
        ),
        rssi >= node.threshold ==> spec_asked(node, TriggerEvent::Connected(rssi)) == Some(
            TriggerAction::SampleButton,
        ),
{
    let events = seq![TriggerEvent::Connected(rssi)] + later;
    let next = spec_next(node, events[0]);
    assert(events.drop_first() =~= later);
    let rest = spec_trace(next, later);
    let first = spec_pending(next.phase);
    let trace = seq![first] + rest;
    assert(spec_trace(node, events) == trace);
    assert(trace[0] == first);
    assert(trace.drop_first() =~= rest);
    if rssi < node.threshold {
        lemma_no_open_after_arrival(next, later);
    }
}

/// A command to step is asked for exactly when a sample of the button is a
/// press: once for each press, and never while the button is held.
pub proof fn lemma_step_only_on_press(node: TriggerNode, event: TriggerEvent)
    ensures
        spec_asked(node, event) == Some(TriggerAction::Dispatch(Command::Step)) <==> node.phase
            == TriggerPhase::Sampling && (exists|active: bool|
            event == TriggerEvent::ButtonSample(active) && spec_edge(node.detector.state, active)
                == Some(ButtonEdge::Pressed)),
{
    if node.phase == TriggerPhase::Sampling {
        match event {
            TriggerEvent::ButtonSample(active) => {
                if spec_edge(node.detector.state, active) == Some(ButtonEdge::Pressed) {
                    assert(event == TriggerEvent::ButtonSample(active) && spec_edge(
                        node.detector.state,
                        active,
                    ) == Some(ButtonEdge::Pressed));
                }
            },
            _ => {},
        }
    }
}

/// Whether a command got through changes nothing of what the node does
/// next.
pub proof fn lemma_dispatch_result_is_ignored(
    node: TriggerNode,
    first: Result<(), NetworkError>,
    second: Result<(), NetworkError>,
)
    ensures
        spec_next(node, TriggerEvent::DispatchFinished(first)) == spec_next(
            node,
            TriggerEvent::DispatchFinished(second),
        ),
        spec_asked(node, TriggerEvent::DispatchFinished(first)) == spec_asked(
            node,
            TriggerEvent::DispatchFinished(second),
        ),
{
}

/// The colour in each phase: amber while the network is joined, red while
/// an opening is asked for on arrival, violet through the whole cooldown,
/// and otherwise blue from a press until the button is seen released, green
/// when it is not down.
pub proof fn lemma_indicator_by_phase(node: TriggerNode)
    ensures
        spec_indicate(spec_control_state(node)) == match node.phase {
            TriggerPhase::Connecting => IndicatorColor::Amber,
            TriggerPhase::OpeningOnArrival => IndicatorColor::Red,
            TriggerPhase::Settling => IndicatorColor::Red,
            TriggerPhase::CoolingDown => IndicatorColor::Violet,
            _ => if node.detector.state == DetectorState::Active {
                IndicatorColor::Blue
            } else {
                IndicatorColor::Green
            },
        },
{
}

/// The link is checked only while the button is not down, so a session ends
/// with the detector at rest.
pub proof fn lemma_link_checked_at_rest(node: TriggerNode, event: TriggerEvent)
    requires
        node.phase != TriggerPhase::CheckingLink,
        spec_next(node, event).phase == TriggerPhase::CheckingLink,
    ensures
        spec_next(node, event).detector.state == DetectorState::Idle,
{
}

} // verus!
