use gate_control::pulse::pulse;
use gate_control::pulse::Ack;
use gate_control::pulse::ActuationPulse;
use gate_control::pulse::HardwareFault;
use gate_control::pulse::PinStep;
use gate_control::pulse::PulsePhase;
use gate_control::pulse::PulseRun;
use gate_control::pulse::PulseTarget;
use gate_control::pulse::StepResult;
use gate_control::pulse::PULSE_DURATION_MS;

#[test]
fn pulse_lasts_two_hundred_milliseconds() {
    assert_eq!(PULSE_DURATION_MS, 200);
    let p = ActuationPulse::new(PulseTarget::Step);
    assert_eq!(p.target, PulseTarget::Step);
    assert_eq!(p.duration_ms, 200);
}

#[test]
fn steps_are_raise_hold_lower() {
    let p = ActuationPulse::new(PulseTarget::FullCycle);
    assert_eq!(
        p.steps(),
        vec![
            PinStep::Raise(PulseTarget::FullCycle),
            PinStep::Hold(200),
            PinStep::Lower(PulseTarget::FullCycle)
        ]
    );
}

#[test]
fn run_walks_through_its_phases() {
    let mut run = PulseRun::new(ActuationPulse::new(PulseTarget::Step));
    assert_eq!(run.phase, PulsePhase::Ready);
    assert_eq!(run.outcome(), None);
    assert_eq!(run.begin(), Some(PinStep::Raise(PulseTarget::Step)));
    assert_eq!(run.phase, PulsePhase::Raising);
    assert_eq!(run.advance(StepResult::Done), Some(PinStep::Hold(200)));
    assert_eq!(run.phase, PulsePhase::Holding);
    assert_eq!(run.outcome(), None);
    assert_eq!(run.advance(StepResult::Done), Some(PinStep::Lower(PulseTarget::Step)));
    assert_eq!(run.phase, PulsePhase::Lowering);
    assert_eq!(run.advance(StepResult::Done), None);
    assert_eq!(run.phase, PulsePhase::Finished);
    assert_eq!(run.outcome(), Some(Ok(Ack { target: PulseTarget::Step })));
}

#[test]
fn begin_twice_asks_once() {
    let mut run = PulseRun::new(ActuationPulse::new(PulseTarget::Step));
    assert_eq!(run.begin(), Some(PinStep::Raise(PulseTarget::Step)));
    assert_eq!(run.begin(), None);
    assert_eq!(run.phase, PulsePhase::Raising);
}

#[test]
fn advance_before_begin_changes_nothing() {
    let mut run = PulseRun::new(ActuationPulse::new(PulseTarget::Step));
    assert_eq!(run.advance(StepResult::Done), None);
    assert_eq!(run.phase, PulsePhase::Ready);
}

#[test]
fn failed_raise_is_a_hardware_fault() {
    let mut run = PulseRun::new(ActuationPulse::new(PulseTarget::FullCycle));
    run.begin();
    assert_eq!(run.advance(StepResult::Failed), None);
    assert_eq!(run.phase, PulsePhase::Faulted);
    assert_eq!(run.outcome(), Some(Err(HardwareFault { target: PulseTarget::FullCycle })));
    assert_eq!(run.advance(StepResult::Done), None);
    assert_eq!(run.phase, PulsePhase::Faulted);
}

#[test]
fn failed_lower_is_a_hardware_fault() {
    let mut run = PulseRun::new(ActuationPulse::new(PulseTarget::Step));
    run.begin();
    run.advance(StepResult::Done);
    run.advance(StepResult::Done);
    assert_eq!(run.advance(StepResult::Failed), None);
    assert_eq!(run.outcome(), Some(Err(HardwareFault { target: PulseTarget::Step })));
}

#[test]
fn finished_run_stays_finished() {
    let mut run = PulseRun::new(ActuationPulse::new(PulseTarget::Step));
    run.begin();
    run.advance(StepResult::Done);
    run.advance(StepResult::Done);
    run.advance(StepResult::Done);
    assert_eq!(run.advance(StepResult::Failed), None);
    assert_eq!(run.phase, PulsePhase::Finished);
}

#[test]
fn pulse_is_acknowledged_when_the_line_can_be_driven() {
    let (steps, outcome) = pulse(PulseTarget::Step, StepResult::Done, StepResult::Done);
    assert_eq!(
        steps,
        vec![
            PinStep::Raise(PulseTarget::Step),
            PinStep::Hold(200),
            PinStep::Lower(PulseTarget::Step)
        ]
    );
    assert_eq!(outcome, Ok(Ack { target: PulseTarget::Step }));
}

#[test]
fn pulse_stops_at_a_failed_raise() {
    let (steps, outcome) = pulse(PulseTarget::FullCycle, StepResult::Failed, StepResult::Done);
    assert_eq!(steps, vec![PinStep::Raise(PulseTarget::FullCycle)]);
    assert_eq!(outcome, Err(HardwareFault { target: PulseTarget::FullCycle }));
}

#[test]
fn pulse_reports_a_failed_lower() {
    let (steps, outcome) = pulse(PulseTarget::Step, StepResult::Done, StepResult::Failed);
    assert_eq!(steps.len(), 3);
    assert_eq!(outcome, Err(HardwareFault { target: PulseTarget::Step }));
}

#[test]
fn serial_pulses_do_not_overlap() {
    // Two pulses on the step output, one after the other: walk the line
    // level through their steps and note each high interval.
    let mut steps = ActuationPulse::new(PulseTarget::Step).steps();
    steps.extend(ActuationPulse::new(PulseTarget::Step).steps());
    let mut high = false;
    let mut now: u32 = 0;
    let mut intervals: Vec<(u32, u32)> = Vec::new();
    let mut since: u32 = 0;
    for step in steps {
        match step {
            PinStep::Raise(PulseTarget::Step) => {
                assert!(!high);
                high = true;
                since = now;
            }
            PinStep::Lower(PulseTarget::Step) => {
                assert!(high);
                high = false;
                intervals.push((since, now));
            }
            PinStep::Hold(ms) => now += ms,
            _ => {}
        }
    }
    assert!(!high);
    assert_eq!(intervals, vec![(0, 200), (200, 400)]);
}

#[test]
fn interleaved_requests_under_one_lock_do_not_overlap() {
    // Two requests for the step output take turns in trying to move. A
    // request moves only while it holds the lock, takes the lock only while
    // it is free, and gives it back once its pulse is finished.
    let mut runs = [
        PulseRun::new(ActuationPulse::new(PulseTarget::Step)),
        PulseRun::new(ActuationPulse::new(PulseTarget::Step)),
    ];
    let mut pending: [Option<PinStep>; 2] = [None, None];
    let mut holder: Option<usize> = None;
    let mut done: Vec<PinStep> = Vec::new();
    for turn in 0..40 {
        let i = if turn % 3 == 0 { 0 } else { 1 };
        match holder {
            None => {
                if runs[i].phase == PulsePhase::Ready {
                    pending[i] = runs[i].begin();
                    holder = Some(i);
                }
            }
            Some(h) if h == i => match pending[i] {
                Some(step) => {
                    done.push(step);
                    pending[i] = runs[i].advance(StepResult::Done);
                }
                None => holder = None,
            },
            Some(_) => {}
        }
    }
    assert_eq!(runs[0].outcome(), Some(Ok(Ack { target: PulseTarget::Step })));
    assert_eq!(runs[1].outcome(), Some(Ok(Ack { target: PulseTarget::Step })));
    let raise = PinStep::Raise(PulseTarget::Step);
    let lower = PinStep::Lower(PulseTarget::Step);
    assert_eq!(
        done,
        vec![raise, PinStep::Hold(200), lower, raise, PinStep::Hold(200), lower]
    );
    let mut high = false;
    for step in done {
        match step {
            PinStep::Raise(_) => {
                assert!(!high);
                high = true;
            }
            PinStep::Lower(_) => {
                assert!(high);
                high = false;
            }
            PinStep::Hold(ms) => {
                assert!(high);
                assert_eq!(ms, 200);
            }
        }
    }
    assert!(!high);
}
