//! The status indicator: one colour for the current control state.
//!
//! The colour is a function of the state alone. Nothing is remembered, and
//! nothing runs on a timer.

use crate::link::LinkState;
use vstd::prelude::*;

verus! {

/// The colours that the indicator can show.
#[derive(Clone, Copy, Debug, PartialEq, Eq, Structural)]
pub enum IndicatorColor {
    /// No link yet.
    Amber,
    /// The link came up weak and an opening is being asked for.
    Red,
    /// Steady operation.
    Green,
    /// A step was requested and the button is still down.
    Blue,
    /// The link was lost; the cooldown is running.
    Violet,
}

/// What the indicator goes by.
#[derive(Clone, Copy, Debug, PartialEq, Eq, Structural)]
pub struct ControlState {
    pub link: LinkState,
    /// The link has just come up weak and the automatic opening is under way.
    pub opening_on_arrival: bool,
    /// The edge detector is active.
    pub button_active: bool,
    /// The link was lost and the cooldown has not passed.
    pub cooling_down: bool,
}

/// The colour for a control state. The cooldown after a lost link comes
/// first; without a link the colour is amber; with one, the automatic opening
/// shows before the button, and the button before steady operation.
pub open spec fn spec_indicate(state: ControlState) -> IndicatorColor {
    if state.cooling_down {
        IndicatorColor::Violet
    } else if !(state.link is Associated) {
        IndicatorColor::Amber
    } else if state.opening_on_arrival {
        IndicatorColor::Red
    } else if state.button_active {
        IndicatorColor::Blue
    } else {
        IndicatorColor::Green
    }
}

/// The red, green and blue levels of a colour.
pub open spec fn spec_rgb(color: IndicatorColor) -> (u8, u8, u8) {
    match color {
        IndicatorColor::Amber => (50u8, 50u8, 0u8),
        IndicatorColor::Red => (50u8, 0u8, 0u8),
        IndicatorColor::Green => (0u8, 50u8, 0u8),
        IndicatorColor::Blue => (0u8, 0u8, 50u8),
        IndicatorColor::Violet => (50u8, 0u8, 50u8),
    }
}

/// The colour for a control state.
pub fn indicate(state: ControlState) -> (color: IndicatorColor)
    ensures
        color == spec_indicate(state),
{
    if state.cooling_down {
        return IndicatorColor::Violet;
    }
    match state.link {
        LinkState::Associated(_) => if state.opening_on_arrival {
            IndicatorColor::Red
        } else if state.button_active {
            IndicatorColor::Blue
        } else {
            IndicatorColor::Green
        },
        _ => IndicatorColor::Amber,
    }
}

impl IndicatorColor {
    /// The red, green and blue levels to drive the indicator with.
    pub fn rgb(self) -> (levels: (u8, u8, u8))
        ensures
            levels == spec_rgb(self),
    {
        match self {
            IndicatorColor::Amber => (50, 50, 0),
            IndicatorColor::Red => (50, 0, 0),
            IndicatorColor::Green => (0, 50, 0),
            IndicatorColor::Blue => (0, 0, 50),
            IndicatorColor::Violet => (50, 0, 50),
        }
    }
}

/// No two colours drive the indicator alike.
pub proof fn lemma_colors_are_distinct(a: IndicatorColor, b: IndicatorColor)
    requires
        spec_rgb(a) == spec_rgb(b),
    ensures
        a == b,
{
}

} // verus!
