use gate_control::indicator::indicate;
use gate_control::indicator::ControlState;
use gate_control::indicator::IndicatorColor;
use gate_control::link::LinkState;

fn state(link: LinkState, opening: bool, button: bool, cooling: bool) -> ControlState {
    ControlState { link, opening_on_arrival: opening, button_active: button, cooling_down: cooling }
}

#[test]
fn no_link_is_amber() {
    assert_eq!(indicate(state(LinkState::Disconnected, false, false, false)), IndicatorColor::Amber);
    assert_eq!(indicate(state(LinkState::Scanning, false, false, false)), IndicatorColor::Amber);
    assert_eq!(indicate(state(LinkState::Connecting, false, false, false)), IndicatorColor::Amber);
    assert_eq!(indicate(state(LinkState::Connecting, true, true, false)), IndicatorColor::Amber);
}

#[test]
fn weak_arrival_is_red() {
    assert_eq!(indicate(state(LinkState::Associated(-85), true, false, false)), IndicatorColor::Red);
    assert_eq!(indicate(state(LinkState::Associated(-85), true, true, false)), IndicatorColor::Red);
}

#[test]
fn steady_operation_is_green() {
    assert_eq!(indicate(state(LinkState::Associated(-60), false, false, false)), IndicatorColor::Green);
}

#[test]
fn button_down_is_blue() {
    assert_eq!(indicate(state(LinkState::Associated(-60), false, true, false)), IndicatorColor::Blue);
}

#[test]
fn cooldown_is_violet() {
    assert_eq!(indicate(state(LinkState::Disconnected, false, false, true)), IndicatorColor::Violet);
    assert_eq!(indicate(state(LinkState::Associated(-60), true, true, true)), IndicatorColor::Violet);
}

#[test]
fn colour_levels() {
    assert_eq!(IndicatorColor::Amber.rgb(), (50, 50, 0));
    assert_eq!(IndicatorColor::Red.rgb(), (50, 0, 0));
    assert_eq!(IndicatorColor::Green.rgb(), (0, 50, 0));
    assert_eq!(IndicatorColor::Blue.rgb(), (0, 0, 50));
    assert_eq!(IndicatorColor::Violet.rgb(), (50, 0, 50));
}
