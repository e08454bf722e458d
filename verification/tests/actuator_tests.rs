use gate_control::actuator::ActuatorAction;
use gate_control::actuator::ActuatorEvent;
use gate_control::actuator::ActuatorNode;
use gate_control::actuator::ActuatorPhase;
use gate_control::actuator::LINK_CHECK_INTERVAL_MS;
use gate_control::indicator::IndicatorColor;
use gate_control::link::LinkState;

#[test]
fn link_is_checked_once_a_minute() {
    assert_eq!(LINK_CHECK_INTERVAL_MS, 60000);
}

#[test]
fn new_actuator_node_joins_the_network() {
    let node = ActuatorNode::new();
    assert_eq!(node.phase, ActuatorPhase::Connecting);
    assert_eq!(node.pending(), ActuatorAction::Connect);
    assert_eq!(node.link_state(), LinkState::Connecting);
    assert_eq!(node.indicator(), IndicatorColor::Amber);
    assert!(!node.is_serving());
}

#[test]
fn server_starts_once_the_link_is_up() {
    let mut node = ActuatorNode::new();
    assert_eq!(node.step(ActuatorEvent::Connected(-66)), Some(ActuatorAction::StartServer));
    assert_eq!(node.session_rssi, -66);
    assert!(!node.is_serving());
    assert_eq!(node.step(ActuatorEvent::ServerStarted), Some(ActuatorAction::Wait(60000)));
    assert!(node.is_serving());
    assert_eq!(node.link_state(), LinkState::Associated(-66));
    assert_eq!(node.indicator(), IndicatorColor::Green);
}

#[test]
fn link_is_checked_after_each_interval() {
    let mut node = ActuatorNode::new();
    node.step(ActuatorEvent::Connected(-66));
    node.step(ActuatorEvent::ServerStarted);
    for _ in 0..3 {
        assert_eq!(node.step(ActuatorEvent::Elapsed), Some(ActuatorAction::CheckLink));
        assert!(node.is_serving());
        assert_eq!(node.step(ActuatorEvent::LinkChecked(true)), Some(ActuatorAction::Wait(60000)));
    }
    assert_eq!(node.phase, ActuatorPhase::Serving);
}

#[test]
fn lost_link_stops_the_server_before_joining_again() {
    let mut node = ActuatorNode::new();
    node.step(ActuatorEvent::Connected(-66));
    node.step(ActuatorEvent::ServerStarted);
    node.step(ActuatorEvent::Elapsed);
    assert_eq!(node.step(ActuatorEvent::LinkChecked(false)), Some(ActuatorAction::StopServer));
    assert_eq!(node.phase, ActuatorPhase::StoppingServer);
    assert!(!node.is_serving());
    assert_eq!(node.link_state(), LinkState::Disconnected);
    assert_eq!(node.indicator(), IndicatorColor::Amber);
    assert_eq!(node.step(ActuatorEvent::Connected(-50)), None);
    assert_eq!(node.step(ActuatorEvent::ServerStopped), Some(ActuatorAction::Connect));
    assert_eq!(node.phase, ActuatorPhase::Connecting);
}

#[test]
fn actuator_ignores_out_of_turn_events() {
    let mut node = ActuatorNode::new();
    let before = node;
    assert_eq!(node.step(ActuatorEvent::Elapsed), None);
    assert_eq!(node.step(ActuatorEvent::ServerStarted), None);
    assert_eq!(node.step(ActuatorEvent::LinkChecked(false)), None);
    assert_eq!(node.step(ActuatorEvent::ServerStopped), None);
    assert_eq!(node, before);
}
