//! Fixed-length pulses on the two relay outputs of the actuator node.
//!
//! A pulse raises its output, holds it for the pulse duration and lowers it
//! again. The line is driven and the time is waited out elsewhere: this module
//! decides which step comes next and how the pulse ends.
//!
//! Requests that pulse the same output hold its lock from their first step
//! to their last. The lock itself is kept elsewhere; what that discipline
//! gives is stated here, over every order in which the requests may move.

use vstd::prelude::*;

verus! {

/// How long an output is held high, in milliseconds.
pub const PULSE_DURATION_MS: u32 = 200;

/// The relay output that a pulse goes to.
#[derive(Clone, Copy, Debug, PartialEq, Eq, Structural)]
pub enum PulseTarget {
    /// The output that runs a full open or close.
    FullCycle,
    /// The output that advances the motor controller by one step.
    Step,
}

/// One pulse: where it goes and how long it lasts.
#[derive(Clone, Copy, Debug, PartialEq, Eq, Structural)]
pub struct ActuationPulse {
    pub target: PulseTarget,
    pub duration_ms: u32,
}

/// One thing to do to the hardware in the course of a pulse.
#[derive(Clone, Copy, Debug, PartialEq, Eq, Structural)]
pub enum PinStep {
    /// Drive the output high.
    Raise(PulseTarget),
    /// Keep everything as it is for so many milliseconds.
    Hold(u32),
    /// Drive the output low.
    Lower(PulseTarget),
}

/// What came of the step that was asked for last.
#[derive(Clone, Copy, Debug, PartialEq, Eq, Structural)]
pub enum StepResult {
    /// The line was driven, or the time has passed.
    Done,
    /// The line could not be driven.
    Failed,
}

/// Confirms that the electrical pulse was issued. It says nothing of any
/// movement.
#[derive(Clone, Copy, Debug, PartialEq, Eq, Structural)]
pub struct Ack {
    pub target: PulseTarget,
}

/// The drive line of `target` could not be set.
#[derive(Clone, Copy, Debug, PartialEq, Eq, Structural)]
pub struct HardwareFault {
    pub target: PulseTarget,
}

/// How far a pulse has come.
#[derive(Clone, Copy, Debug, PartialEq, Eq, Structural)]
pub enum PulsePhase {
    /// Nothing was done yet.
    Ready,
    /// The output is being driven high.
    Raising,
    /// The output is high and the pulse duration is running.
    Holding,
    /// The output is being driven low.
    Lowering,
    /// The pulse was issued.
    Finished,
    /// A line could not be driven; the pulse was given up.
    Faulted,
}

/// A pulse in the course of its execution.
#[derive(Clone, Copy, Debug, PartialEq, Eq, Structural)]
pub struct PulseRun {
    pub pulse: ActuationPulse,
    pub phase: PulsePhase,
}

/// The phase that follows `phase` once its step has ended with `result`.
/// A pulse that has ended stays as it is.
pub open spec fn spec_next_phase(phase: PulsePhase, result: StepResult) -> PulsePhase {
    match phase {
        PulsePhase::Ready => PulsePhase::Raising,
        PulsePhase::Raising => if result == StepResult::Done {
            PulsePhase::Holding
        } else {
            PulsePhase::Faulted
        },
        PulsePhase::Holding => PulsePhase::Lowering,
        PulsePhase::Lowering => if result == StepResult::Done {
            PulsePhase::Finished
        } else {
            PulsePhase::Faulted
        },
        PulsePhase::Finished => PulsePhase::Finished,
        PulsePhase::Faulted => PulsePhase::Faulted,
    }
}

/// The step that a pulse in `phase` is waiting on, if it is waiting on one.
pub open spec fn spec_pending_step(pulse: ActuationPulse, phase: PulsePhase) -> Option<PinStep> {
    match phase {
        PulsePhase::Raising => Some(PinStep::Raise(pulse.target)),
        PulsePhase::Holding => Some(PinStep::Hold(pulse.duration_ms)),
        PulsePhase::Lowering => Some(PinStep::Lower(pulse.target)),
        _ => None,
    }
}

/// How a pulse in `phase` has ended, if it has.
pub open spec fn spec_outcome(pulse: ActuationPulse, phase: PulsePhase) -> Option<
    Result<Ack, HardwareFault>,
> {
    match phase {
        PulsePhase::Finished => Some(Ok(Ack { target: pulse.target })),
        PulsePhase::Faulted => Some(Err(HardwareFault { target: pulse.target })),
        _ => None,
    }
}

/// The steps of a pulse on which every line could be driven.
pub open spec fn spec_steps(pulse: ActuationPulse) -> Seq<PinStep> {
    seq![
        PinStep::Raise(pulse.target),
        PinStep::Hold(pulse.duration_ms),
        PinStep::Lower(pulse.target),
    ]
}

/// The steps of several pulses that run one after the other.
pub open spec fn spec_serial_steps(pulses: Seq<ActuationPulse>) -> Seq<PinStep>
    decreases pulses.len(),
{
    if pulses.len() == 0 {
        Seq::empty()
    } else {
        spec_serial_steps(pulses.drop_last()) + spec_steps(pulses.last())
    }
}

/// The level of the output `target` once `step` is done, given its level
/// before.
pub open spec fn spec_level_after(high: bool, step: PinStep, target: PulseTarget) -> bool {
    match step {
        PinStep::Raise(t) => high || t == target,
        PinStep::Hold(_) => high,
        PinStep::Lower(t) => high && t != target,
    }
}

/// The level of the output `target` after all of `steps`.
pub open spec fn spec_level_after_all(high: bool, steps: Seq<PinStep>, target: PulseTarget) -> bool
    decreases steps.len(),
{
    if steps.len() == 0 {
        high
    } else {
        spec_level_after(
            spec_level_after_all(high, steps.drop_last(), target),
            steps.last(),
            target,
        )
    }
}

/// No high interval of `target` runs into another: each time the output is
/// raised it is low, and each time it is lowered it is high.
pub open spec fn spec_highs_apart(high: bool, steps: Seq<PinStep>, target: PulseTarget) -> bool
    decreases steps.len(),
{
    if steps.len() == 0 {
        true
    } else {
        let before = spec_level_after_all(high, steps.drop_last(), target);
        &&& spec_highs_apart(high, steps.drop_last(), target)
        &&& match steps.last() {
            PinStep::Raise(t) => t == target ==> !before,
            PinStep::Hold(_) => true,
            PinStep::Lower(t) => t == target ==> before,
        }
    }
}

/// The time for which `target` is high in the course of `steps`, in
/// milliseconds.
pub open spec fn spec_high_time(high: bool, steps: Seq<PinStep>, target: PulseTarget) -> nat
    decreases steps.len(),
{
    if steps.len() == 0 {
        0
    } else {
        let before = spec_level_after_all(high, steps.drop_last(), target);
        spec_high_time(high, steps.drop_last(), target) + match steps.last() {
            PinStep::Hold(ms) => if before {
                ms as nat
            } else {
                0nat
            },
            _ => 0nat,
        }
    }
}

impl ActuationPulse {
    /// A pulse of the fixed duration on `target`.
    pub fn new(target: PulseTarget) -> (pulse: ActuationPulse)
        ensures
            pulse.target == target,
            pulse.duration_ms == PULSE_DURATION_MS,
    {
        ActuationPulse { target, duration_ms: PULSE_DURATION_MS }
    }

    /// The steps of this pulse, in order, when every line can be driven.
    pub fn steps(&self) -> (steps: Vec<PinStep>)
        ensures
            steps@ == spec_steps(*self),
    {
        let mut steps: Vec<PinStep> = Vec::new();
        steps.push(PinStep::Raise(self.target));
        steps.push(PinStep::Hold(self.duration_ms));
        steps.push(PinStep::Lower(self.target));
        assert(steps@ =~= spec_steps(*self));
        steps
    }
}

impl PulseRun {
    /// A pulse that has not begun.
    pub fn new(pulse: ActuationPulse) -> (run: PulseRun)
        ensures
            run.pulse == pulse,
            run.phase == PulsePhase::Ready,
    {
        PulseRun { pulse, phase: PulsePhase::Ready }
    }

    /// Begins the pulse: the first step is to raise the output. On a pulse
    /// that has begun already this changes nothing and asks for nothing.
    pub fn begin(&mut self) -> (step: Option<PinStep>)
        ensures
            final(self).pulse == old(self).pulse,
            old(self).phase == PulsePhase::Ready ==> final(self).phase == PulsePhase::Raising
                && step == Some(PinStep::Raise(old(self).pulse.target)),
            old(self).phase != PulsePhase::Ready ==> final(self).phase == old(self).phase && step
                == None::<PinStep>,
    {
        match self.phase {
            PulsePhase::Ready => {
                self.phase = PulsePhase::Raising;
                Some(PinStep::Raise(self.pulse.target))
            },
            _ => None,
        }
    }

    /// Takes the result of the step that was asked for last and gives the
    /// next one. `None` means that no step is left: the pulse has ended, or
    /// it has not begun.
    pub fn advance(&mut self, result: StepResult) -> (step: Option<PinStep>)
        ensures
            final(self).pulse == old(self).pulse,
            old(self).phase == PulsePhase::Ready ==> final(self).phase == PulsePhase::Ready && step
                == None::<PinStep>,
            old(self).phase != PulsePhase::Ready ==> final(self).phase == spec_next_phase(
                old(self).phase,
                result,
            ) && step == spec_pending_step(old(self).pulse, final(self).phase),
    {
        let next = match self.phase {
            PulsePhase::Ready => PulsePhase::Ready,
            PulsePhase::Raising => match result {
                StepResult::Done => PulsePhase::Holding,
                StepResult::Failed => PulsePhase::Faulted,
            },
            PulsePhase::Holding => PulsePhase::Lowering,
            PulsePhase::Lowering => match result {
                StepResult::Done => PulsePhase::Finished,
                StepResult::Failed => PulsePhase::Faulted,
            },
            PulsePhase::Finished => PulsePhase::Finished,
            PulsePhase::Faulted => PulsePhase::Faulted,
        };
        self.phase = next;
        match next {
            PulsePhase::Holding => Some(PinStep::Hold(self.pulse.duration_ms)),
            PulsePhase::Lowering => Some(PinStep::Lower(self.pulse.target)),
            _ => None,
        }
    }

    /// How the pulse has ended: with an acknowledgement once the output was
    /// lowered again, with a fault once a line could not be driven, and not
    /// at all before that.
    pub fn outcome(&self) -> (outcome: Option<Result<Ack, HardwareFault>>)
        ensures
            outcome == spec_outcome(self.pulse, self.phase),
    {
        match self.phase {
            PulsePhase::Finished => Some(Ok(Ack { target: self.pulse.target })),
            PulsePhase::Faulted => Some(Err(HardwareFault { target: self.pulse.target })),
            _ => None,
        }
    }
}

/// Issues a pulse on `target`, given whether the output could be driven high
/// and, after the hold, whether it could be driven low. The pulse is
/// acknowledged when both could be done. It fails at the first line that
/// could not be driven, and nothing more is asked of the hardware after that.
pub fn pulse(target: PulseTarget, raised: StepResult, lowered: StepResult) -> (outcome: (
    Vec<PinStep>,
    Result<Ack, HardwareFault>,
))
    ensures
        raised == StepResult::Done && lowered == StepResult::Done ==> outcome.1 == Ok::<
            Ack,
            HardwareFault,
        >(Ack { target }) && outcome.0@ == spec_steps(
            ActuationPulse { target, duration_ms: PULSE_DURATION_MS },
        ),
        raised == StepResult::Done && lowered == StepResult::Failed ==> outcome.1 == Err::<
            Ack,
            HardwareFault,
        >(HardwareFault { target }) && outcome.0@ == spec_steps(
            ActuationPulse { target, duration_ms: PULSE_DURATION_MS },
        ),
        raised == StepResult::Failed ==> outcome.1 == Err::<Ack, HardwareFault>(
            HardwareFault { target },
        ) && outcome.0@ == seq![PinStep::Raise(target)],
{
    let mut run = PulseRun::new(ActuationPulse::new(target));
    let mut steps: Vec<PinStep> = Vec::new();
    match run.begin() {
        Some(raise) => steps.push(raise),
        None => {},
    }
    match run.advance(raised) {
        Some(hold) => {
            steps.push(hold);
            match run.advance(StepResult::Done) {
                Some(lower) => {
                    steps.push(lower);
                    run.advance(lowered);
                },
                None => {},
            }
        },
        None => {},
    }
    assert(raised == StepResult::Done ==> steps@ =~= spec_steps(
        ActuationPulse { target, duration_ms: PULSE_DURATION_MS },
    ));
    assert(raised == StepResult::Failed ==> steps@ =~= seq![PinStep::Raise(target)]);
    match run.outcome() {
        Some(outcome) => (steps, outcome),
        None => (steps, Err(HardwareFault { target })),
    }
}

/// One whole pulse on an output that is low raises it when it is low, holds
/// it high for exactly the pulse duration, and leaves it low. An output that
/// the pulse does not go to is left as it was.
pub proof fn lemma_pulse_is_one_high_interval(pulse: ActuationPulse, target: PulseTarget)
    ensures
        spec_highs_apart(false, spec_steps(pulse), pulse.target),
        !spec_level_after_all(false, spec_steps(pulse), pulse.target),
        spec_high_time(false, spec_steps(pulse), pulse.target) == pulse.duration_ms,
        target != pulse.target ==> forall|high: bool|
            spec_level_after_all(high, spec_steps(pulse), target) == high,
{
    lemma_pulse_from_low(pulse, pulse.target);
    assert forall|high: bool| target != pulse.target implies spec_level_after_all(
        high,
        spec_steps(pulse),
        target,
    ) == high by {
        lemma_pulse_unfolds(high, pulse, target);
    }
}

/// What the three steps of a pulse do to an output, written out.
proof fn lemma_pulse_unfolds(high: bool, pulse: ActuationPulse, target: PulseTarget)
    ensures
        spec_level_after_all(high, spec_steps(pulse), target) == (high && pulse.target != target),
        spec_highs_apart(high, spec_steps(pulse), target) == (pulse.target == target ==> !high),
        spec_high_time(high, spec_steps(pulse), target) == if high || pulse.target == target {
            pulse.duration_ms as nat
        } else {
            0nat
        },
{
    let s3 = spec_steps(pulse);
    let s2 = s3.drop_last();
    let s1 = s2.drop_last();
    let s0 = s1.drop_last();
    assert(s0.len() == 0);
    assert(s1.last() == PinStep::Raise(pulse.target));
    assert(s2.last() == PinStep::Hold(pulse.duration_ms));
    assert(s3.last() == PinStep::Lower(pulse.target));
    assert(spec_level_after_all(high, s0, target) == high);
    assert(spec_level_after_all(high, s1, target) == (high || pulse.target == target));
    assert(spec_level_after_all(high, s2, target) == (high || pulse.target == target));
    assert(spec_highs_apart(high, s0, target));
    assert(spec_highs_apart(high, s1, target) == (pulse.target == target ==> !high));
    assert(spec_highs_apart(high, s2, target) == (pulse.target == target ==> !high));
    assert(spec_high_time(high, s0, target) == 0);
    assert(spec_high_time(high, s1, target) == 0);
    assert(spec_high_time(high, s2, target) == if high || pulse.target == target {
        pulse.duration_ms as nat
    } else {
        0nat
    });
    assert(spec_high_time(high, s3, target) == spec_high_time(high, s2, target));
}

/// A pulse on an output that is low, written for any output.
proof fn lemma_pulse_from_low(pulse: ActuationPulse, target: PulseTarget)
    ensures
        spec_highs_apart(false, spec_steps(pulse), target),
        !spec_level_after_all(false, spec_steps(pulse), target),
        spec_high_time(false, spec_steps(pulse), target) == if pulse.target == target {
            pulse.duration_ms as nat
        } else {
            0nat
        },
{
    lemma_pulse_unfolds(false, pulse, target);
}

/// Steps that follow other steps start from the level that those have left.
proof fn lemma_steps_append(high: bool, first: Seq<PinStep>, second: Seq<PinStep>, target: PulseTarget)
    ensures
        spec_level_after_all(high, first + second, target) == spec_level_after_all(
            spec_level_after_all(high, first, target),
            second,
            target,
        ),
        spec_highs_apart(high, first + second, target) == (spec_highs_apart(high, first, target)
            && spec_highs_apart(spec_level_after_all(high, first, target), second, target)),
        spec_high_time(high, first + second, target) == spec_high_time(high, first, target)
            + spec_high_time(spec_level_after_all(high, first, target), second, target),
    decreases second.len(),
{
    if second.len() == 0 {
        assert(first + second =~= first);
    } else {
        assert((first + second).drop_last() =~= first + second.drop_last());
        assert((first + second).last() == second.last());
        lemma_steps_append(high, first, second.drop_last(), target);
    }
}

/// Pulses that run one after the other never overlap: on every output, each
/// pulse finds the line low and leaves it low, so no two high intervals meet,
/// and the output ends low.
pub proof fn lemma_serial_pulses_never_overlap(pulses: Seq<ActuationPulse>, target: PulseTarget)
    ensures
        spec_highs_apart(false, spec_serial_steps(pulses), target),
        !spec_level_after_all(false, spec_serial_steps(pulses), target),
    decreases pulses.len(),
{
    if pulses.len() > 0 {
        let earlier = spec_serial_steps(pulses.drop_last());
        lemma_serial_pulses_never_overlap(pulses.drop_last(), target);
        lemma_steps_append(false, earlier, spec_steps(pulses.last()), target);
        lemma_pulse_from_low(pulses.last(), target);
    }
}

/// One move of a request that shares an output with others. Each request
/// issues one pulse and holds the lock of the output from its first step to
/// its last.
pub enum Turn {
    /// The request asks for the lock.
    Lock(usize),
    /// The request does the step that its pulse is waiting on.
    Drive(usize),
    /// The request gives the lock back.
    Unlock(usize),
}

/// An output that several requests pulse: how far each request has come,
/// which of them holds the lock, and the steps done to the output so far.
pub struct SharedOutput {
    pub phases: Seq<PulsePhase>,
    pub holder: Option<usize>,
    pub done: Seq<PinStep>,
}

/// The output before any request has moved.
pub open spec fn spec_untouched(requests: nat) -> SharedOutput {
    SharedOutput {
        phases: Seq::new(requests, |i: int| PulsePhase::Ready),
        holder: None,
        done: Seq::empty(),
    }
}

/// The output after one move. The lock is had only while it is free, and by
/// a request that has not begun. A step is done only by the request that
/// holds the lock. The lock is given back only once the pulse is finished.
/// A move that may not be made waits: it changes nothing.
pub open spec fn spec_turn(pulse: ActuationPulse, output: SharedOutput, turn: Turn) -> SharedOutput {
    match turn {
        Turn::Lock(i) => if i < output.phases.len() && output.holder is None && output.phases[i as int]
            == PulsePhase::Ready {
            SharedOutput {
                phases: output.phases.update(
                    i as int,
                    spec_next_phase(PulsePhase::Ready, StepResult::Done),
                ),
                holder: Some(i),
                done: output.done,
            }
        } else {
            output
        },
        Turn::Drive(i) => if i < output.phases.len() && output.holder == Some(i) {
            match spec_pending_step(pulse, output.phases[i as int]) {
                Some(step) => SharedOutput {
                    phases: output.phases.update(
                        i as int,
                        spec_next_phase(output.phases[i as int], StepResult::Done),
                    ),
                    holder: output.holder,
                    done: output.done.push(step),
                },
                None => output,
            }
        } else {
            output
        },
        Turn::Unlock(i) => if i < output.phases.len() && output.holder == Some(i)
            && output.phases[i as int] == PulsePhase::Finished {
            SharedOutput { phases: output.phases, holder: None, done: output.done }
        } else {
            output
        },
    }
}

/// The output after a schedule: any moves of any of `requests` requests, in
/// any order.
pub open spec fn spec_schedule(pulse: ActuationPulse, requests: nat, turns: Seq<Turn>) -> SharedOutput
    decreases turns.len(),
{
    if turns.len() == 0 {
        spec_untouched(requests)
    } else {
        spec_turn(pulse, spec_schedule(pulse, requests, turns.drop_last()), turns.last())
    }
}

/// So many pulses, all alike.
pub open spec fn spec_repeated(count: nat, pulse: ActuationPulse) -> Seq<ActuationPulse> {
    Seq::new(count, |i: int| pulse)
}

/// How many steps of its pulse a request in `phase` has done.
pub open spec fn spec_progress(phase: PulsePhase) -> int {
    match phase {
        PulsePhase::Holding => 1,
        PulsePhase::Lowering => 2,
        PulsePhase::Finished => 3,
        _ => 0,
    }
}

/// How many steps the pulse that holds the lock has done; none when the lock
/// is free.
pub open spec fn spec_progress_of_holder(output: SharedOutput) -> int {
    match output.holder {
        Some(i) => spec_progress(output.phases[i as int]),
        None => 0,
    }
}

/// What holds of a shared output after every schedule, for some number of
/// whole pulses.
spec fn spec_serialized(pulse: ActuationPulse, output: SharedOutput, whole: nat) -> bool {
    &&& match output.holder {
        Some(i) => i < output.phases.len() && output.phases[i as int] != PulsePhase::Ready
            && output.phases[i as int] != PulsePhase::Faulted,
        None => true,
    }
    &&& output.done == spec_serial_steps(spec_repeated(whole, pulse)) + spec_steps(pulse).take(
        spec_progress_of_holder(output),
    )
}

proof fn lemma_schedule_is_serialized(pulse: ActuationPulse, requests: nat, turns: Seq<Turn>) -> (whole:
    nat)
    ensures
        spec_serialized(pulse, spec_schedule(pulse, requests, turns), whole),
    decreases turns.len(),
{
    let steps = spec_steps(pulse);
    if turns.len() == 0 {
        assert(spec_repeated(0, pulse).len() == 0);
        assert(spec_untouched(requests).done =~= spec_serial_steps(spec_repeated(0, pulse))
            + steps.take(0));
        0
    } else {
        let before = spec_schedule(pulse, requests, turns.drop_last());
        let earlier = lemma_schedule_is_serialized(pulse, requests, turns.drop_last());
        let after = spec_turn(pulse, before, turns.last());
        let serial = spec_serial_steps(spec_repeated(earlier, pulse));
        match turns.last() {
            Turn::Lock(i) => {
                earlier
            },
            Turn::Drive(i) => {
                if i < before.phases.len() && before.holder == Some(i) {
                    let phase = before.phases[i as int];
                    let progress = spec_progress(phase);
                    match spec_pending_step(pulse, phase) {
                        Some(step) => {
                            assert(step == steps[progress]);
                            assert(steps.take(progress + 1) =~= steps.take(progress).push(step));
                            assert(after.done =~= serial + steps.take(progress + 1));
                        },
                        None => {},
                    }
                }
                earlier
            },
            Turn::Unlock(i) => {
                if i < before.phases.len() && before.holder == Some(i) && before.phases[i as int]
                    == PulsePhase::Finished {
                    let more = spec_repeated(earlier + 1, pulse);
                    assert(more.drop_last() =~= spec_repeated(earlier, pulse));
                    assert(more.last() == pulse);
                    assert(steps.take(3) =~= steps);
                    assert(after.done =~= spec_serial_steps(more) + steps.take(0));
                    earlier + 1
                } else {
                    earlier
                }
            },
        }
    }
}

/// The beginning of a pulse on an output that is low: the output is raised
/// while low, is high after one and after two steps, and is low again after
/// all three.
proof fn lemma_pulse_begun(pulse: ActuationPulse, progress: int)
    requires
        0 <= progress <= 3,
    ensures
        spec_highs_apart(false, spec_steps(pulse).take(progress), pulse.target),
        spec_level_after_all(false, spec_steps(pulse).take(progress), pulse.target) == (progress
            == 1 || progress == 2),
    decreases progress,
{
    let steps = spec_steps(pulse);
    if progress > 0 {
        lemma_pulse_begun(pulse, progress - 1);
        assert(steps.take(progress).drop_last() =~= steps.take(progress - 1));
        assert(steps.take(progress).last() == steps[progress - 1]);
    }
}

/// Requests that pulse one output under its lock never overlap. However
/// many requests there are and however their moves fall in time, as long as
/// the line can be driven, the steps done to the output are those of whole
/// pulses one after the other, followed by the steps that the holder of the
/// lock has done so far. So each high interval is one raise, one hold of the
/// full duration and one lower, no two of them meet, and the output is low
/// whenever the lock is free. `whole` is the number of pulses that were
/// issued in full.
pub proof fn lemma_locked_pulses_never_overlap(
    pulse: ActuationPulse,
    requests: nat,
    turns: Seq<Turn>,
) -> (whole: nat)
    ensures
        0 <= spec_progress_of_holder(spec_schedule(pulse, requests, turns)) <= 3,
        spec_schedule(pulse, requests, turns).done == spec_serial_steps(
            spec_repeated(whole, pulse),
        ) + spec_steps(pulse).take(
            spec_progress_of_holder(spec_schedule(pulse, requests, turns)),
        ),
        spec_highs_apart(false, spec_schedule(pulse, requests, turns).done, pulse.target),
        spec_schedule(pulse, requests, turns).holder is None ==> !spec_level_after_all(
            false,
            spec_schedule(pulse, requests, turns).done,
            pulse.target,
        ),
        spec_high_time(false, spec_schedule(pulse, requests, turns).done, pulse.target) == whole
            * pulse.duration_ms + if spec_progress_of_holder(
            spec_schedule(pulse, requests, turns),
        ) >= 2 {
            pulse.duration_ms as int
        } else {
            0
        },
{
    let output = spec_schedule(pulse, requests, turns);
    let whole = lemma_schedule_is_serialized(pulse, requests, turns);
    let serial = spec_serial_steps(spec_repeated(whole, pulse));
    let progress = spec_progress_of_holder(output);
    let begun = spec_steps(pulse).take(progress);
    lemma_serial_pulses_never_overlap(spec_repeated(whole, pulse), pulse.target);
    lemma_serial_high_time(whole, pulse);
    lemma_steps_append(false, serial, begun, pulse.target);
    lemma_pulse_begun(pulse, progress);
    lemma_pulse_begun_high_time(pulse, progress);
    whole
}

/// The time for which a pulse that was begun on a low output has held it
/// high: the full duration once the hold is done, and nothing before.
proof fn lemma_pulse_begun_high_time(pulse: ActuationPulse, progress: int)
    requires
        0 <= progress <= 3,
    ensures
        spec_high_time(false, spec_steps(pulse).take(progress), pulse.target) == if progress >= 2 {
            pulse.duration_ms as nat
        } else {
            0nat
        },
    decreases progress,
{
    let steps = spec_steps(pulse);
    if progress > 0 {
        lemma_pulse_begun_high_time(pulse, progress - 1);
        lemma_pulse_begun(pulse, progress - 1);
        assert(steps.take(progress).drop_last() =~= steps.take(progress - 1));
        assert(steps.take(progress).last() == steps[progress - 1]);
    }
}

/// So many whole pulses, one after the other, hold their output high for so
/// many pulse durations.
proof fn lemma_serial_high_time(count: nat, pulse: ActuationPulse)
    ensures
        spec_high_time(false, spec_serial_steps(spec_repeated(count, pulse)), pulse.target)
            == count * pulse.duration_ms,
    decreases count,
{
    if count > 0 {
        let pulses = spec_repeated(count, pulse);
        assert(pulses.drop_last() =~= spec_repeated((count - 1) as nat, pulse));
        assert(pulses.last() == pulse);
        lemma_serial_high_time((count - 1) as nat, pulse);
        lemma_serial_pulses_never_overlap(pulses.drop_last(), pulse.target);
        lemma_steps_append(
            false,
            spec_serial_steps(pulses.drop_last()),
            spec_steps(pulse),
            pulse.target,
        );
        lemma_pulse_from_low(pulse, pulse.target);
        assert(spec_serial_steps(pulses) == spec_serial_steps(pulses.drop_last()) + spec_steps(
            pulse,
        ));
        assert(count * pulse.duration_ms == (count - 1) * pulse.duration_ms + pulse.duration_ms)
            by (nonlinear_arith);
    } else {
        assert(spec_repeated(0, pulse).len() == 0);
        assert(count * pulse.duration_ms == 0) by (nonlinear_arith)
            requires
                count == 0,
        ;
    }
}

} // verus!
