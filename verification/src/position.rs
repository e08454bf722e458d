//! Tri-state gate position estimated from two active-low proximity sensors.
//!
//! The sensors are sampled on demand. Every estimate is a fresh function of
//! the two electrical levels handed in; nothing is averaged or remembered.

use vstd::prelude::*;

verus! {

/// Where the leaf stands, as far as the two end-stop sensors can tell.
#[derive(Clone, Copy, Debug, PartialEq, Eq, Structural)]
pub enum GatePosition {
    Open,
    Closed,
    Intermediate,
}

/// The position that a pair of sensor levels stands for: the opened sensor
/// wins when its line is high, then the closed sensor, and anything else is
/// an intermediate position.
pub open spec fn spec_estimate(opened_high: bool, closed_high: bool) -> GatePosition {
    if opened_high {
        GatePosition::Open
    } else if closed_high {
        GatePosition::Closed
    } else {
        GatePosition::Intermediate
    }
}

/// The number under which a position travels on the wire.
pub open spec fn spec_code(position: GatePosition) -> u8 {
    match position {
        GatePosition::Open => 0u8,
        GatePosition::Closed => 1u8,
        GatePosition::Intermediate => 2u8,
    }
}

/// The decimal digit of a wire code.
pub open spec fn spec_digit(code: u8) -> char {
    if code == 0 {
        '0'
    } else if code == 1 {
        '1'
    } else {
        '2'
    }
}

/// The status document for a wire code: `{"s":<code>}`.
pub open spec fn spec_status_body(code: u8) -> Seq<char> {
    seq!['{', '"', 's', '"', ':', spec_digit(code), '}']
}

/// Estimates the position from the electrical levels of the two sensors.
pub fn estimate(opened_high: bool, closed_high: bool) -> (position: GatePosition)
    ensures
        position == spec_estimate(opened_high, closed_high),
        position == GatePosition::Open <==> opened_high,
        position == GatePosition::Closed <==> !opened_high && closed_high,
        position == GatePosition::Intermediate <==> !opened_high && !closed_high,
{
    if opened_high {
        GatePosition::Open
    } else if closed_high {
        GatePosition::Closed
    } else {
        GatePosition::Intermediate
    }
}

impl GatePosition {
    /// The wire code of this position: 0 open, 1 closed, 2 in between.
    pub fn code(self) -> (code: u8)
        ensures
            code == spec_code(self),
            code <= 2,
    {
        match self {
            GatePosition::Open => 0,
            GatePosition::Closed => 1,
            GatePosition::Intermediate => 2,
        }
    }

    /// The status document that reports this position.
    pub fn json(self) -> (body: String)
        ensures
            body@ == spec_status_body(spec_code(self)),
    {
        let text = match self {
            GatePosition::Open => {
                proof {
                    reveal_strlit("{\"s\":0}");
                }
                "{\"s\":0}"
            },
            GatePosition::Closed => {
                proof {
                    reveal_strlit("{\"s\":1}");
                }
                "{\"s\":1}"
            },
            GatePosition::Intermediate => {
                proof {
                    reveal_strlit("{\"s\":2}");
                }
                "{\"s\":2}"
            },
        };
        assert(text@ =~= spec_status_body(spec_code(self)));
        text.to_owned()
    }
}

/// The wire code of the position that the two sensor levels stand for.
pub fn gate_status(opened_high: bool, closed_high: bool) -> (code: u8)
    ensures
        code == spec_code(spec_estimate(opened_high, closed_high)),
{
    estimate(opened_high, closed_high).code()
}

/// The status document for the two sensor levels.
pub fn gate_json_status(opened_high: bool, closed_high: bool) -> (body: String)
    ensures
        body@ == spec_status_body(spec_code(spec_estimate(opened_high, closed_high))),
{
    estimate(opened_high, closed_high).json()
}

/// Different positions never share a status document.
pub proof fn lemma_status_body_tells_positions_apart(a: GatePosition, b: GatePosition)
    requires
        spec_status_body(spec_code(a)) == spec_status_body(spec_code(b)),
    ensures
        a == b,
{
    let x = spec_status_body(spec_code(a));
    let y = spec_status_body(spec_code(b));
    assert(x[5] == y[5]);
}

} // verus!
