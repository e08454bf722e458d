use gate_control::config::Config;
use gate_control::debounce::DetectorState;
use gate_control::dispatch::Command;
use gate_control::dispatch::NetworkError;
use gate_control::indicator::IndicatorColor;
use gate_control::link::LinkState;
use gate_control::trigger::TriggerAction;
use gate_control::trigger::TriggerEvent;
use gate_control::trigger::TriggerNode;
use gate_control::trigger::TriggerPhase;
use gate_control::trigger::ARRIVAL_SETTLE_MS;
use gate_control::trigger::LINK_LOSS_COOLDOWN_MS;

fn opens_before_sampling(trace: &[TriggerAction]) -> usize {
    trace
        .iter()
        .take_while(|a| **a != TriggerAction::SampleButton)
        .filter(|a| **a == TriggerAction::Dispatch(Command::Open))
        .count()
}

fn steps_in(trace: &[TriggerAction]) -> usize {
    trace.iter().filter(|a| **a == TriggerAction::Dispatch(Command::Step)).count()
}

#[test]
fn waits_are_one_second_and_one_minute() {
    assert_eq!(ARRIVAL_SETTLE_MS, 1000);
    assert_eq!(LINK_LOSS_COOLDOWN_MS, 60000);
}

#[test]
fn new_trigger_node_joins_the_network() {
    let node = TriggerNode::new(-80);
    assert_eq!(node.threshold, -80);
    assert_eq!(node.phase, TriggerPhase::Connecting);
    assert_eq!(node.pending(), TriggerAction::Connect);
    assert_eq!(node.link_state(), LinkState::Connecting);
    assert_eq!(node.indicator(), IndicatorColor::Amber);
}

#[test]
fn weak_arrival_sends_one_open_before_polling() {
    let config = Config::new("home", "pw", -80, "http://10.0.0.2/gate_open", "http://10.0.0.2/gate_sbs");
    let mut node = TriggerNode::new(config.min_rssi_threshold);
    let events = vec![
        TriggerEvent::Connected(-85),
        TriggerEvent::DispatchFinished(Ok(())),
        TriggerEvent::Elapsed,
    ];
    let trace = node.run(&events);
    assert_eq!(
        trace,
        vec![
            TriggerAction::Dispatch(Command::Open),
            TriggerAction::Wait(1000),
            TriggerAction::SampleButton,
        ]
    );
    assert_eq!(opens_before_sampling(&trace), 1);
    match trace[0] {
        TriggerAction::Dispatch(command) => {
            assert_eq!(command.url(&config), "http://10.0.0.2/gate_open")
        }
        _ => panic!("the first action is no dispatch"),
    }
    assert_eq!(node.phase, TriggerPhase::Sampling);
}

#[test]
fn strong_arrival_sends_no_open() {
    let mut node = TriggerNode::new(-80);
    let trace = node.run(&vec![TriggerEvent::Connected(-60)]);
    assert_eq!(trace, vec![TriggerAction::SampleButton]);
    assert_eq!(opens_before_sampling(&trace), 0);
}

#[test]
fn arrival_at_the_threshold_sends_no_open() {
    let mut node = TriggerNode::new(-80);
    let trace = node.run(&vec![TriggerEvent::Connected(-80)]);
    assert_eq!(trace, vec![TriggerAction::SampleButton]);
}

#[test]
fn arrival_just_below_the_threshold_sends_open() {
    let mut node = TriggerNode::new(-80);
    assert_eq!(
        node.step(TriggerEvent::Connected(-81)),
        Some(TriggerAction::Dispatch(Command::Open))
    );
    assert_eq!(node.session_rssi, -81);
}

#[test]
fn stray_reports_on_arrival_cause_no_second_open() {
    let mut node = TriggerNode::new(-80);
    let events = vec![
        TriggerEvent::Connected(-90),
        TriggerEvent::Connected(-95),
        TriggerEvent::Elapsed,
        TriggerEvent::ButtonSample(true),
        TriggerEvent::DispatchFinished(Err(NetworkError)),
        TriggerEvent::DispatchFinished(Ok(())),
        TriggerEvent::LinkChecked(false),
        TriggerEvent::Elapsed,
    ];
    let trace = node.run(&events);
    assert_eq!(opens_before_sampling(&trace), 1);
    assert_eq!(
        trace,
        vec![
            TriggerAction::Dispatch(Command::Open),
            TriggerAction::Wait(1000),
            TriggerAction::SampleButton,
        ]
    );
}

#[test]
fn failed_open_does_not_change_the_course() {
    let mut sent = TriggerNode::new(-80);
    let mut lost = TriggerNode::new(-80);
    sent.step(TriggerEvent::Connected(-85));
    lost.step(TriggerEvent::Connected(-85));
    assert_eq!(
        sent.step(TriggerEvent::DispatchFinished(Ok(()))),
        lost.step(TriggerEvent::DispatchFinished(Err(NetworkError)))
    );
    assert_eq!(sent, lost);
}

#[test]
fn idle_poll_waits_then_checks_the_link() {
    let mut node = TriggerNode::new(-80);
    node.step(TriggerEvent::Connected(-50));
    assert_eq!(node.step(TriggerEvent::ButtonSample(false)), Some(TriggerAction::Wait(100)));
    assert_eq!(node.step(TriggerEvent::Elapsed), Some(TriggerAction::CheckLink));
    assert_eq!(node.step(TriggerEvent::LinkChecked(true)), Some(TriggerAction::SampleButton));
    assert_eq!(node.indicator(), IndicatorColor::Green);
}

#[test]
fn one_press_sends_one_step() {
    let mut node = TriggerNode::new(-80);
    let events = vec![
        TriggerEvent::Connected(-50),
        TriggerEvent::ButtonSample(true),
        TriggerEvent::DispatchFinished(Ok(())),
        TriggerEvent::Elapsed,
        TriggerEvent::ButtonSample(true),
        TriggerEvent::Elapsed,
        TriggerEvent::ButtonSample(true),
        TriggerEvent::Elapsed,
        TriggerEvent::ButtonSample(false),
        TriggerEvent::LinkChecked(true),
    ];
    let trace = node.run(&events);
    assert_eq!(
        trace,
        vec![
            TriggerAction::SampleButton,
            TriggerAction::Dispatch(Command::Step),
            TriggerAction::Wait(100),
            TriggerAction::SampleButton,
            TriggerAction::Wait(100),
            TriggerAction::SampleButton,
            TriggerAction::Wait(100),
            TriggerAction::SampleButton,
            TriggerAction::CheckLink,
            TriggerAction::SampleButton,
        ]
    );
    assert_eq!(steps_in(&trace), 1);
    assert_eq!(node.detector.state, DetectorState::Idle);
}

#[test]
fn two_presses_send_two_steps() {
    let mut node = TriggerNode::new(-80);
    let mut events = vec![TriggerEvent::Connected(-50)];
    for _ in 0..2 {
        events.push(TriggerEvent::ButtonSample(true));
        events.push(TriggerEvent::DispatchFinished(Ok(())));
        events.push(TriggerEvent::Elapsed);
        events.push(TriggerEvent::ButtonSample(false));
        events.push(TriggerEvent::LinkChecked(true));
    }
    let trace = node.run(&events);
    assert_eq!(steps_in(&trace), 2);
}

#[test]
fn indicator_is_blue_from_press_to_release() {
    let mut node = TriggerNode::new(-80);
    node.step(TriggerEvent::Connected(-50));
    assert_eq!(node.indicator(), IndicatorColor::Green);
    node.step(TriggerEvent::ButtonSample(true));
    assert_eq!(node.phase, TriggerPhase::Stepping);
    assert_eq!(node.indicator(), IndicatorColor::Blue);
    node.step(TriggerEvent::DispatchFinished(Err(NetworkError)));
    assert_eq!(node.indicator(), IndicatorColor::Blue);
    node.step(TriggerEvent::Elapsed);
    assert_eq!(node.indicator(), IndicatorColor::Blue);
    node.step(TriggerEvent::ButtonSample(true));
    assert_eq!(node.indicator(), IndicatorColor::Blue);
    node.step(TriggerEvent::Elapsed);
    node.step(TriggerEvent::ButtonSample(false));
    assert_eq!(node.phase, TriggerPhase::CheckingLink);
    assert_eq!(node.indicator(), IndicatorColor::Green);
}

#[test]
fn indicator_is_red_while_opening_on_arrival() {
    let mut node = TriggerNode::new(-80);
    node.step(TriggerEvent::Connected(-85));
    assert_eq!(node.indicator(), IndicatorColor::Red);
    assert_eq!(node.link_state(), LinkState::Associated(-85));
    node.step(TriggerEvent::DispatchFinished(Ok(())));
    assert_eq!(node.phase, TriggerPhase::Settling);
    assert_eq!(node.indicator(), IndicatorColor::Red);
    node.step(TriggerEvent::Elapsed);
    assert_eq!(node.indicator(), IndicatorColor::Green);
}

#[test]
fn lost_link_cools_down_and_joins_again() {
    let mut node = TriggerNode::new(-80);
    node.step(TriggerEvent::Connected(-50));
    node.step(TriggerEvent::ButtonSample(false));
    node.step(TriggerEvent::Elapsed);
    assert_eq!(node.step(TriggerEvent::LinkChecked(false)), Some(TriggerAction::Wait(60000)));
    assert_eq!(node.phase, TriggerPhase::CoolingDown);
    assert_eq!(node.indicator(), IndicatorColor::Violet);
    assert_eq!(node.link_state(), LinkState::Disconnected);
    assert_eq!(node.step(TriggerEvent::ButtonSample(true)), None);
    assert_eq!(node.indicator(), IndicatorColor::Violet);
    assert_eq!(node.step(TriggerEvent::Elapsed), Some(TriggerAction::Connect));
    assert_eq!(node.indicator(), IndicatorColor::Amber);
    assert_eq!(
        node.step(TriggerEvent::Connected(-90)),
        Some(TriggerAction::Dispatch(Command::Open))
    );
}

#[test]
fn trigger_ignores_out_of_turn_events() {
    let mut node = TriggerNode::new(-80);
    let before = node;
    assert_eq!(node.step(TriggerEvent::Elapsed), None);
    assert_eq!(node.step(TriggerEvent::ButtonSample(true)), None);
    assert_eq!(node.step(TriggerEvent::LinkChecked(false)), None);
    assert_eq!(node.step(TriggerEvent::DispatchFinished(Ok(()))), None);
    assert_eq!(node, before);
}

#[test]
fn empty_trigger_run_changes_nothing() {
    let mut node = TriggerNode::new(-70);
    let trace = node.run(&Vec::new());
    assert!(trace.is_empty());
    assert_eq!(node, TriggerNode::new(-70));
}

#[test]
fn held_press_sends_one_step_at_the_first_active_sample() {
    // Samples on the tick: inactive, active, active, active, inactive.
    let mut node = TriggerNode::new(-80);
    node.step(TriggerEvent::Connected(-50));
    let mut steps_after: Vec<usize> = Vec::new();
    let mut sent = 0;
    for active in [false, true, true, true, false] {
        assert_eq!(node.pending(), TriggerAction::SampleButton);
        let mut asked = node.step(TriggerEvent::ButtonSample(active));
        // Do what is asked until the button is to be sampled again.
        while let Some(action) = asked {
            asked = match action {
                TriggerAction::Dispatch(Command::Step) => {
                    sent += 1;
                    node.step(TriggerEvent::DispatchFinished(Ok(())))
                }
                TriggerAction::Wait(_) => node.step(TriggerEvent::Elapsed),
                TriggerAction::CheckLink => node.step(TriggerEvent::LinkChecked(true)),
                TriggerAction::SampleButton => None,
                other => panic!("not expected: {:?}", other),
            };
        }
        steps_after.push(sent);
    }
    assert_eq!(steps_after, vec![0, 1, 1, 1, 1]);
    assert_eq!(node.detector.state, DetectorState::Idle);
}
