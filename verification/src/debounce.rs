//! Debounced edge detection on a sampled, active-low input.
//!
//! The detector is fed one sample per sampling interval. It reports a press
//! once when the input is first seen active, reports nothing for as long as
//! the input stays active, and reports the release when the input is next
//! seen inactive. Whatever the input does between two samples is never seen,
//! which is what absorbs contact bounce.

use vstd::prelude::*;

verus! {

/// Time between two samples of the input, in milliseconds. It is also the
/// window in which contact bounce is absorbed.
pub const SAMPLE_INTERVAL_MS: u32 = 100;

/// What the button does, as the detector tells it.
#[derive(Clone, Copy, Debug, PartialEq, Eq, Structural)]
pub enum ButtonEdge {
    /// The input was idle and is now seen active.
    Pressed,
    /// The input is down, between its press and its release. No sample
    /// reports this: the detector is silent while the input is held.
    HeldLow,
    /// The input was active and is now seen inactive.
    Released,
}

/// The two states of the detector.
#[derive(Clone, Copy, Debug, PartialEq, Eq, Structural)]
pub enum DetectorState {
    Idle,
    Active,
}

/// The detector: nothing but its current state.
#[derive(Clone, Copy, Debug, PartialEq, Eq, Structural)]
pub struct EdgeDetector {
    pub state: DetectorState,
}

/// The state after a sample: the detector follows the level it has just seen.
pub open spec fn spec_next_state(state: DetectorState, active: bool) -> DetectorState {
    if active {
        DetectorState::Active
    } else {
        DetectorState::Idle
    }
}

/// What a sample reports, given the state it is seen in: the press when an
/// idle input is seen active, the release when an active input is seen
/// inactive, and nothing while the input stays as it was.
pub open spec fn spec_edge(state: DetectorState, active: bool) -> Option<ButtonEdge> {
    match state {
        DetectorState::Idle => if active {
            Some(ButtonEdge::Pressed)
        } else {
            None
        },
        DetectorState::Active => if active {
            None
        } else {
            Some(ButtonEdge::Released)
        },
    }
}

/// The state after a run of samples.
pub open spec fn spec_state_after(state: DetectorState, samples: Seq<bool>) -> DetectorState {
    if samples.len() == 0 {
        state
    } else {
        spec_next_state(state, samples.last())
    }
}

/// Everything that a run of samples reports, in order.
pub open spec fn spec_edges(state: DetectorState, samples: Seq<bool>) -> Seq<ButtonEdge>
    decreases samples.len(),
{
    if samples.len() == 0 {
        Seq::empty()
    } else {
        let before = samples.drop_last();
        let earlier = spec_edges(state, before);
        match spec_edge(spec_state_after(state, before), samples.last()) {
            Some(edge) => earlier.push(edge),
            None => earlier,
        }
    }
}

/// How often `edge` occurs in `edges`.
pub open spec fn spec_count(edges: Seq<ButtonEdge>, edge: ButtonEdge) -> nat
    decreases edges.len(),
{
    if edges.len() == 0 {
        0
    } else {
        spec_count(edges.drop_last(), edge) + if edges.last() == edge {
            1nat
        } else {
            0nat
        }
    }
}

/// A run of `len` samples that all read the same level.
pub open spec fn spec_steady(len: nat, active: bool) -> Seq<bool> {
    Seq::new(len, |i: int| active)
}

/// How many sampling instants lie before instant `t`: the multiples of
/// `period` from zero on that are below `t`.
pub open spec fn spec_instants_before(t: int, period: nat) -> int
    recommends
        period > 0,
{
    if t <= 0 {
        0
    } else {
        (t - 1) / (period as int) + 1
    }
}

/// The samples that a detector takes of a raw signal: one every `period`
/// instants, the first at instant zero.
pub open spec fn spec_sampled(raw: Seq<bool>, period: nat) -> Seq<bool>
    recommends
        period > 0,
{
    Seq::new(spec_instants_before(raw.len() as int, period) as nat, |k: int| raw[k * period])
}

/// The raw signal is active nowhere but inside the instants `from..until`.
pub open spec fn spec_active_only_within(raw: Seq<bool>, from: int, until: int) -> bool {
    forall|t: int| 0 <= t < raw.len() && #[trigger] raw[t] ==> from <= t < until
}

impl EdgeDetector {
    /// A detector at rest.
    pub fn new() -> (detector: EdgeDetector)
        ensures
            detector.state == DetectorState::Idle,
    {
        EdgeDetector { state: DetectorState::Idle }
    }

    /// Whether the input was active at the last sample.
    pub fn is_active(&self) -> (active: bool)
        ensures
            active == (self.state == DetectorState::Active),
    {
        match self.state {
            DetectorState::Active => true,
            DetectorState::Idle => false,
        }
    }

    /// Takes one sample of the input (`active` is an electrically low line)
    /// and reports what it tells.
    pub fn sample(&mut self, active: bool) -> (edge: Option<ButtonEdge>)
        ensures
            edge == spec_edge(old(self).state, active),
            final(self).state == spec_next_state(old(self).state, active),
    {
        let edge = match self.state {
            DetectorState::Idle => if active {
                Some(ButtonEdge::Pressed)
            } else {
                None
            },
            DetectorState::Active => if active {
                None
            } else {
                Some(ButtonEdge::Released)
            },
        };
        self.state = if active {
            DetectorState::Active
        } else {
            DetectorState::Idle
        };
        edge
    }

    /// Takes a run of samples, oldest first, and collects what they report.
    pub fn sample_all(&mut self, samples: &[bool]) -> (edges: Vec<ButtonEdge>)
        ensures
            edges@ == spec_edges(old(self).state, samples@),
            final(self).state == spec_state_after(old(self).state, samples@),
    {
        let ghost start = self.state;
        let mut edges: Vec<ButtonEdge> = Vec::new();
        let mut i: usize = 0;
        while i < samples.len()
            invariant
                0 <= i <= samples.len(),
                edges@ == spec_edges(start, samples@.take(i as int)),
                self.state == spec_state_after(start, samples@.take(i as int)),
            decreases samples.len() - i,
        {
            proof {
                let next = samples@.take(i + 1);
                assert(next.drop_last() =~= samples@.take(i as int));
                assert(next.last() == samples@[i as int]);
            }
            match self.sample(samples[i]) {
                Some(edge) => edges.push(edge),
                None => {},
            }
            i += 1;
        }
        proof {
            assert(samples@.take(samples.len() as int) =~= samples@);
        }
        edges
    }
}

/// While the input is never seen active, an idle detector reports nothing and
/// stays idle.
pub proof fn lemma_quiet_input_reports_nothing(samples: Seq<bool>)
    requires
        forall|i: int| 0 <= i < samples.len() ==> !samples[i],
    ensures
        spec_edges(DetectorState::Idle, samples) == Seq::<ButtonEdge>::empty(),
        spec_state_after(DetectorState::Idle, samples) == DetectorState::Idle,
    decreases samples.len(),
{
    if samples.len() > 0 {
        lemma_quiet_input_reports_nothing(samples.drop_last());
    }
}

/// A glitch narrower than the sampling window that falls between two
/// sampling instants is absorbed: the detector reports nothing at all.
pub proof fn lemma_unsampled_glitch_is_absorbed(
    raw: Seq<bool>,
    period: nat,
    from: int,
    until: int,
)
    requires
        period > 0,
        until - from < period,
        spec_active_only_within(raw, from, until),
        forall|k: int| !(from <= #[trigger] (k * period) < until),
    ensures
        spec_edges(DetectorState::Idle, spec_sampled(raw, period)) == Seq::<ButtonEdge>::empty(),
        spec_state_after(DetectorState::Idle, spec_sampled(raw, period)) == DetectorState::Idle,
{
    let samples = spec_sampled(raw, period);
    assert forall|k: int| 0 <= k < samples.len() implies !samples[k] by {
        lemma_sampling_instant_in_range(raw, period, k);
        let t = k * period;
        if raw[t] {
            assert(from <= t < until);
        }
    }
    lemma_quiet_input_reports_nothing(samples);
}

/// Every sample is taken at an instant of the raw signal.
pub proof fn lemma_sampling_instant_in_range(raw: Seq<bool>, period: nat, k: int)
    requires
        period > 0,
        0 <= k < spec_sampled(raw, period).len(),
    ensures
        0 <= k * period < raw.len(),
        spec_sampled(raw, period)[k] == raw[k * period],
{
    let last = raw.len() - 1;
    let p = period as int;
    assert(k <= last / p);
    assert(k * p <= last) by (nonlinear_arith)
        requires
            0 <= k <= last / p,
            p > 0,
            last >= 0,
    ;
    assert(0 <= k * p) by (nonlinear_arith)
        requires
            0 <= k,
            p > 0,
    ;
}

/// A glitch narrower than the sampling window is seen by at most one sample.
pub proof fn lemma_glitch_meets_one_sample_at_most(
    raw: Seq<bool>,
    period: nat,
    from: int,
    until: int,
    j: int,
    k: int,
)
    requires
        period > 0,
        until - from < period,
        spec_active_only_within(raw, from, until),
        0 <= j < spec_sampled(raw, period).len(),
        0 <= k < spec_sampled(raw, period).len(),
        spec_sampled(raw, period)[j],
        spec_sampled(raw, period)[k],
    ensures
        j == k,
{
    lemma_sampling_instant_in_range(raw, period, j);
    lemma_sampling_instant_in_range(raw, period, k);
    let p = period as int;
    assert(raw[j * p]);
    assert(raw[k * p]);
    assert(from <= j * p < until);
    assert(from <= k * p < until);
    if j < k {
        assert(k * p - j * p >= p) by (nonlinear_arith)
            requires
                j < k,
                p > 0,
        ;
    } else if k < j {
        assert(j * p - k * p >= p) by (nonlinear_arith)
            requires
                k < j,
                p > 0,
        ;
    }
}

/// While the input stays active after a quiet spell, the detector reports the
/// press and nothing more, however long the input is held.
pub proof fn lemma_hold_reports_one_press(quiet: nat, held: nat)
    requires
        held >= 1,
    ensures
        spec_edges(DetectorState::Idle, spec_steady(quiet, false) + spec_steady(held, true))
            == seq![ButtonEdge::Pressed],
        spec_state_after(DetectorState::Idle, spec_steady(quiet, false) + spec_steady(held, true))
            == DetectorState::Active,
    decreases held,
{
    let samples = spec_steady(quiet, false) + spec_steady(held, true);
    let before = spec_steady(quiet, false) + spec_steady((held - 1) as nat, true);
    assert(samples.drop_last() =~= before);
    assert(samples.last());
    if held == 1 {
        assert(before =~= spec_steady(quiet, false));
        lemma_quiet_input_reports_nothing(before);
        assert(spec_edges(DetectorState::Idle, samples) =~= seq![ButtonEdge::Pressed]);
    } else {
        lemma_hold_reports_one_press(quiet, (held - 1) as nat);
        assert(spec_state_after(DetectorState::Idle, before) == DetectorState::Active);
    }
}

/// A press that is held over one or more samples and then let go reports
/// exactly the press and then the release, nothing in between, and leaves
/// the detector idle, however long the input stays quiet after.
pub proof fn lemma_press_and_release(quiet: nat, held: nat, after: nat)
    requires
        held >= 1,
        after >= 1,
    ensures
        spec_edges(
            DetectorState::Idle,
            spec_steady(quiet, false) + spec_steady(held, true) + spec_steady(after, false),
        ) == seq![ButtonEdge::Pressed, ButtonEdge::Released],
        spec_state_after(
            DetectorState::Idle,
            spec_steady(quiet, false) + spec_steady(held, true) + spec_steady(after, false),
        ) == DetectorState::Idle,
    decreases after,
{
    let pressed = spec_steady(quiet, false) + spec_steady(held, true);
    let samples = pressed + spec_steady(after, false);
    let before = pressed + spec_steady((after - 1) as nat, false);
    assert(samples.drop_last() =~= before);
    assert(!samples.last());
    lemma_hold_reports_one_press(quiet, held);
    if after == 1 {
        assert(before =~= pressed);
        assert(spec_edges(DetectorState::Idle, samples) =~= seq![
            ButtonEdge::Pressed,
            ButtonEdge::Released,
        ]);
    } else {
        lemma_press_and_release(quiet, held, (after - 1) as nat);
        assert(!before.last());
    }
}

/// No sample reports that the input is held: over any run of samples, from
/// either state, the detector reports presses and releases only.
pub proof fn lemma_held_input_is_silent(state: DetectorState, samples: Seq<bool>)
    ensures
        spec_edge(DetectorState::Active, true) == None::<ButtonEdge>,
        forall|i: int|
            0 <= i < spec_edges(state, samples).len() ==> spec_edges(state, samples)[i]
                != ButtonEdge::HeldLow,
        spec_count(spec_edges(state, samples), ButtonEdge::HeldLow) == 0,
    decreases samples.len(),
{
    if samples.len() > 0 {
        let before = samples.drop_last();
        lemma_held_input_is_silent(state, before);
        let earlier = spec_edges(state, before);
        match spec_edge(spec_state_after(state, before), samples.last()) {
            Some(edge) => {
                assert(earlier.push(edge).drop_last() =~= earlier);
                assert(earlier.push(edge).last() == edge);
            },
            None => {},
        }
    }
}

/// The sampling instants below an instant are counted by
/// `spec_instants_before`: sample `k` is taken before `t` exactly when `k`
/// is below that count.
pub proof fn lemma_instants_before(t: int, period: nat, k: int)
    requires
        period > 0,
        k >= 0,
    ensures
        k < spec_instants_before(t, period) <==> k * period < t,
{
    let p = period as int;
    if t <= 0 {
        assert(k * p >= 0) by (nonlinear_arith)
            requires
                k >= 0,
                p > 0,
        ;
    } else {
        let q = t - 1;
        let d = q / p;
        assert(q == d * p + q % p && 0 <= q % p < p) by (nonlinear_arith)
            requires
                q >= 0,
                p > 0,
                d == q / p,
        ;
        if k <= d {
            assert(k * p <= d * p) by (nonlinear_arith)
                requires
                    k <= d,
                    p > 0,
            ;
        } else {
            assert(k * p >= d * p + p) by (nonlinear_arith)
                requires
                    k >= d + 1,
                    p > 0,
            ;
        }
    }
}

/// A press that lasts the sampling window or longer is seen: whenever the
/// raw input is active over `from..until`, at least one window long, and
/// quiet otherwise, and one sample at least is taken after it was let go,
/// the detector reports exactly the press and then the release, and ends
/// idle.
pub proof fn lemma_long_press_is_one_press_one_release(
    raw: Seq<bool>,
    period: nat,
    from: int,
    until: int,
    later: int,
)
    requires
        period > 0,
        0 <= from,
        until - from >= period,
        forall|t: int| 0 <= t < raw.len() ==> (#[trigger] raw[t] <==> from <= t < until),
        until <= later * period < raw.len(),
    ensures
        spec_instants_before(from, period) < spec_instants_before(until, period),
        spec_edges(DetectorState::Idle, spec_sampled(raw, period)) == seq![
            ButtonEdge::Pressed,
            ButtonEdge::Released,
        ],
        spec_state_after(DetectorState::Idle, spec_sampled(raw, period)) == DetectorState::Idle,
{
    let p = period as int;
    let samples = spec_sampled(raw, period);
    let a = spec_instants_before(from, period);
    let b = spec_instants_before(until, period);
    let n = spec_instants_before(raw.len() as int, period);
    assert(samples.len() == n);
    assert(later >= 0) by (nonlinear_arith)
        requires
            later * p >= 0,
            p > 0,
    ;
    // The first sample at or after `from` is taken before `until`.
    assert(a >= 0);
    lemma_instants_before(from, period, a);
    assert(a * p >= from);
    if a > 0 {
        lemma_instants_before(from, period, a - 1);
        assert(a * p == (a - 1) * p + p) by (nonlinear_arith);
    } else {
        assert(a * p == 0) by (nonlinear_arith)
            requires
                a == 0,
        ;
    }
    assert(a * p < until);
    lemma_instants_before(until, period, a);
    assert(a < b);
    // The sample taken at `later` comes after the press and lies in the run.
    lemma_instants_before(until, period, later);
    lemma_instants_before(raw.len() as int, period, later);
    assert(b <= later < n);
    let quiet = a as nat;
    let held = (b - a) as nat;
    let after = (n - b) as nat;
    let shape = spec_steady(quiet, false) + spec_steady(held, true) + spec_steady(after, false);
    assert(shape.len() == n);
    assert forall|k: int| 0 <= k < n implies samples[k] == shape[k] by {
        lemma_sampling_instant_in_range(raw, period, k);
        lemma_instants_before(from, period, k);
        lemma_instants_before(until, period, k);
    }
    assert(samples =~= shape);
    lemma_press_and_release(quiet, held, after);
}

/// Presses and releases pair up over any run of samples: the presses seen so
/// far are the releases seen so far, plus one while the input is still held.
pub proof fn lemma_presses_match_releases(state: DetectorState, samples: Seq<bool>)
    ensures
        spec_count(spec_edges(state, samples), ButtonEdge::Pressed) + (if state
            == DetectorState::Active {
            1nat
        } else {
            0nat
        }) == spec_count(spec_edges(state, samples), ButtonEdge::Released) + (if spec_state_after(
            state,
            samples,
        ) == DetectorState::Active {
            1nat
        } else {
            0nat
        }),
    decreases samples.len(),
{
    if samples.len() > 0 {
        let before = samples.drop_last();
        lemma_presses_match_releases(state, before);
        let earlier = spec_edges(state, before);
        match spec_edge(spec_state_after(state, before), samples.last()) {
            Some(edge) => {
                assert(earlier.push(edge).drop_last() =~= earlier);
                assert(earlier.push(edge).last() == edge);
            },
            None => {},
        }
    }
}

} // verus!
