//! The command server of the actuator node: its routes, what each of them
//! does to the relays, and what it answers.
//!
//! The answers to the two commands are acknowledgements, not results: they
//! say that the leaf is on its way whatever came of the pulse, and a client
//! asks for the status to see where it has got to.

use crate::position::spec_code;
use crate::position::spec_estimate;
use crate::position::spec_status_body;
use crate::position::estimate;
use crate::position::GatePosition;
use crate::pulse::ActuationPulse;
use crate::pulse::PulseTarget;
use crate::pulse::PULSE_DURATION_MS;
use vstd::prelude::*;

verus! {

/// The routes of the server. All of them are GET.
#[derive(Clone, Copy, Debug, PartialEq, Eq, Structural)]
pub enum Route {
    /// The status page.
    Home,
    /// The position as a status document.
    Status,
    /// One step pulse.
    Step,
    /// One full-cycle pulse.
    Open,
}

/// What a command answers, and the pulse that goes with it.
#[derive(Clone, Debug)]
pub struct CommandReply {
    pub pulse: ActuationPulse,
    pub body: String,
}

/// The path of a route.
pub open spec fn spec_path(route: Route) -> Seq<char> {
    match route {
        Route::Home => "/"@,
        Route::Status => "/gate_status"@,
        Route::Step => "/gate_sbs"@,
        Route::Open => "/gate_open"@,
    }
}

/// The output that a route pulses, if it pulses one.
pub open spec fn spec_target(route: Route) -> Option<PulseTarget> {
    match route {
        Route::Step => Some(PulseTarget::Step),
        Route::Open => Some(PulseTarget::FullCycle),
        _ => None,
    }
}

/// The status document that a route answers with, given the levels of the
/// two sensors. A command answers with the position in between, whatever the
/// sensors say. The page is not a status document.
pub open spec fn spec_json_body(route: Route, opened_high: bool, closed_high: bool) -> Option<
    Seq<char>,
> {
    match route {
        Route::Home => None,
        Route::Status => Some(spec_status_body(spec_code(spec_estimate(opened_high, closed_high)))),
        _ => Some(spec_status_body(spec_code(GatePosition::Intermediate))),
    }
}

impl Route {
    /// The path under which the route is served.
    pub fn path(self) -> (path: &'static str)
        ensures
            path@ == spec_path(self),
    {
        match self {
            Route::Home => "/",
            Route::Status => "/gate_status",
            Route::Step => "/gate_sbs",
            Route::Open => "/gate_open",
        }
    }

    /// The pulse that the route issues before it answers. The page and the
    /// status issue none.
    pub fn pulse(self) -> (pulse: Option<ActuationPulse>)
        ensures
            match spec_target(self) {
                Some(target) => pulse == Some(
                    ActuationPulse { target, duration_ms: PULSE_DURATION_MS },
                ),
                None => pulse == None::<ActuationPulse>,
            },
    {
        match self {
            Route::Step => Some(ActuationPulse::new(PulseTarget::Step)),
            Route::Open => Some(ActuationPulse::new(PulseTarget::FullCycle)),
            _ => None,
        }
    }

    /// Whether the route reads the sensors for its answer.
    pub fn reads_position(self) -> (reads: bool)
        ensures
            reads == (self == Route::Home || self == Route::Status),
    {
        match self {
            Route::Home => true,
            Route::Status => true,
            _ => false,
        }
    }

    /// The status document that the route answers with, given the levels of
    /// the two sensors; nothing for the page, which is rendered elsewhere
    /// from the position.
    pub fn json_body(self, opened_high: bool, closed_high: bool) -> (body: Option<String>)
        ensures
            match spec_json_body(self, opened_high, closed_high) {
                Some(text) => body is Some && body->Some_0@ == text,
                None => body is None,
            },
    {
        match self {
            Route::Home => None,
            Route::Status => Some(estimate(opened_high, closed_high).json()),
            _ => Some(GatePosition::Intermediate.json()),
        }
    }
}

/// What a command on `target` does and answers: one pulse of the fixed
/// duration, and the document that reports the position in between.
pub fn command_reply(target: PulseTarget) -> (reply: CommandReply)
    ensures
        reply.pulse == (ActuationPulse { target, duration_ms: PULSE_DURATION_MS }),
        reply.body@ == spec_status_body(2),
{
    CommandReply { pulse: ActuationPulse::new(target), body: GatePosition::Intermediate.json() }
}

/// The step command: a pulse on the step output, answered with `{"s":2}`.
pub fn gate_sbs() -> (reply: CommandReply)
    ensures
        reply.pulse == (ActuationPulse { target: PulseTarget::Step, duration_ms: PULSE_DURATION_MS }),
        reply.body@ == spec_status_body(2),
{
    command_reply(PulseTarget::Step)
}

/// The open command: a pulse on the full-cycle output, answered with
/// `{"s":2}`.
pub fn gate_open() -> (reply: CommandReply)
    ensures
        reply.pulse == (
            ActuationPulse { target: PulseTarget::FullCycle, duration_ms: PULSE_DURATION_MS }
        ),
        reply.body@ == spec_status_body(2),
{
    command_reply(PulseTarget::FullCycle)
}

/// Asking for the status moves nothing, and asking again tells the same: the
/// route issues no pulse, and any two queries that find the sensors at the
/// same levels answer with the same document.
pub proof fn lemma_status_is_idempotent(
    opened_first: bool,
    closed_first: bool,
    opened_again: bool,
    closed_again: bool,
)
    requires
        opened_first == opened_again,
        closed_first == closed_again,
    ensures
        spec_target(Route::Status) == None::<PulseTarget>,
        spec_target(Route::Home) == None::<PulseTarget>,
        spec_estimate(opened_first, closed_first) == spec_estimate(opened_again, closed_again),
        spec_json_body(Route::Status, opened_first, closed_first) == spec_json_body(
            Route::Status,
            opened_again,
            closed_again,
        ),
{
}

/// The routes are told apart by their paths.
pub proof fn lemma_paths_are_distinct(a: Route, b: Route)
    requires
        spec_path(a) == spec_path(b),
    ensures
        a == b,
{
    reveal_strlit("/");
    reveal_strlit("/gate_status");
    reveal_strlit("/gate_sbs");
    reveal_strlit("/gate_open");
    assert("/"@.len() == 1);
    assert("/gate_status"@.len() == 12);
    assert("/gate_sbs"@.len() == 9);
    assert("/gate_open"@.len() == 10);
}

} // verus!
