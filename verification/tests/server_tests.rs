use gate_control::position::gate_json_status;
use gate_control::pulse::pulse;
use gate_control::pulse::ActuationPulse;
use gate_control::pulse::PinStep;
use gate_control::pulse::PulseTarget;
use gate_control::pulse::StepResult;
use gate_control::server::command_reply;
use gate_control::server::gate_open;
use gate_control::server::gate_sbs;
use gate_control::server::Route;

#[test]
fn routes_have_their_paths() {
    assert_eq!(Route::Home.path(), "/");
    assert_eq!(Route::Status.path(), "/gate_status");
    assert_eq!(Route::Step.path(), "/gate_sbs");
    assert_eq!(Route::Open.path(), "/gate_open");
}

#[test]
fn only_commands_pulse() {
    assert_eq!(Route::Home.pulse(), None);
    assert_eq!(Route::Status.pulse(), None);
    assert_eq!(
        Route::Step.pulse(),
        Some(ActuationPulse { target: PulseTarget::Step, duration_ms: 200 })
    );
    assert_eq!(
        Route::Open.pulse(),
        Some(ActuationPulse { target: PulseTarget::FullCycle, duration_ms: 200 })
    );
}

#[test]
fn only_page_and_status_read_the_sensors() {
    assert!(Route::Home.reads_position());
    assert!(Route::Status.reads_position());
    assert!(!Route::Step.reads_position());
    assert!(!Route::Open.reads_position());
}

#[test]
fn status_answers_with_the_position() {
    assert_eq!(Route::Status.json_body(true, false), Some("{\"s\":0}".to_string()));
    assert_eq!(Route::Status.json_body(true, true), Some("{\"s\":0}".to_string()));
    assert_eq!(Route::Status.json_body(false, true), Some("{\"s\":1}".to_string()));
    assert_eq!(Route::Status.json_body(false, false), Some("{\"s\":2}".to_string()));
}

#[test]
fn commands_answer_in_progress_whatever_the_sensors_say() {
    for opened in [false, true] {
        for closed in [false, true] {
            assert_eq!(Route::Step.json_body(opened, closed), Some("{\"s\":2}".to_string()));
            assert_eq!(Route::Open.json_body(opened, closed), Some("{\"s\":2}".to_string()));
        }
    }
}

#[test]
fn page_has_no_status_document() {
    assert_eq!(Route::Home.json_body(false, true), None);
}

#[test]
fn step_command_pulses_the_step_output() {
    let reply = gate_sbs();
    assert_eq!(reply.pulse, ActuationPulse { target: PulseTarget::Step, duration_ms: 200 });
    assert_eq!(reply.body, "{\"s\":2}");
}

#[test]
fn open_command_pulses_the_full_cycle_output() {
    let reply = gate_open();
    assert_eq!(reply.pulse, ActuationPulse { target: PulseTarget::FullCycle, duration_ms: 200 });
    assert_eq!(reply.body, "{\"s\":2}");
}

#[test]
fn command_reply_follows_its_target() {
    assert_eq!(command_reply(PulseTarget::Step).pulse.target, PulseTarget::Step);
    assert_eq!(command_reply(PulseTarget::FullCycle).pulse.target, PulseTarget::FullCycle);
    assert_eq!(command_reply(PulseTarget::FullCycle).body, "{\"s\":2}");
}

#[test]
fn closed_status_then_step_command() {
    // The sensors read opened low and closed high.
    assert_eq!(gate_json_status(false, true), "{\"s\":1}");
    assert_eq!(Route::Status.json_body(false, true), Some("{\"s\":1}".to_string()));
    // The step command: one high pulse of 200 ms on the step output, and
    // the answer that does not wait for any movement.
    let reply = gate_sbs();
    assert_eq!(
        reply.pulse.steps(),
        vec![
            PinStep::Raise(PulseTarget::Step),
            PinStep::Hold(200),
            PinStep::Lower(PulseTarget::Step)
        ]
    );
    assert_eq!(reply.body, "{\"s\":2}");
    // The answer is the same when the line cannot be driven.
    let (_, outcome) = pulse(reply.pulse.target, StepResult::Failed, StepResult::Done);
    assert!(outcome.is_err());
    assert_eq!(gate_sbs().body, "{\"s\":2}");
}
