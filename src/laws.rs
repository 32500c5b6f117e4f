//! Properties of the detector over whole streams of buffers.
use vstd::prelude::*;
use crate::analyzer::{
    cooldown_elapsed, exceeds_threshold, step, step_energy, threshold_scaled, AnalyzerState,
};
use crate::energy::{energy_of, lemma_silence_has_no_energy, mean_amplitude};
use crate::window::{pushed, window_sum};

verus! {

/// The state reached, and the number of beats confirmed, when a stream of
/// `(samples, time)` buffers is analysed one after the other.
pub open spec fn run(
    s: AnalyzerState,
    enabled: bool,
    sensitivity: nat,
    inputs: Seq<(Seq<i16>, u64)>,
) -> (AnalyzerState, nat)
    decreases inputs.len(),
{
    if inputs.len() == 0 {
        (s, 0)
    } else {
        let (prev, beats) = run(s, enabled, sensitivity, inputs.drop_last());
        let (next, beat) = step(prev, enabled, sensitivity, inputs.last().0, inputs.last().1);
        (next, beats + if beat {
            1nat
        } else {
            0nat
        })
    }
}

/// A stream of buffers as plain values.
pub open spec fn stream_view(buffers: Seq<(Vec<i16>, u64)>) -> Seq<(Seq<i16>, u64)> {
    buffers.map_values(|b: (Vec<i16>, u64)| (b.0@, b.1))
}

/// Times that never go backwards, none earlier than the last beat.
pub open spec fn forward_in_time(last_beat: Option<u64>, inputs: Seq<(Seq<i16>, u64)>) -> bool {
    &&& forall|i: int, j: int| 0 <= i <= j < inputs.len() ==> inputs[i].1 <= inputs[j].1
    &&& last_beat matches Some(t) ==> forall|i: int| 0 <= i < inputs.len() ==> t <= inputs[i].1
}

/// Whether beat time `a` is no earlier than `b`, where no beat at all comes
/// before every time.
pub open spec fn no_earlier(a: Option<u64>, b: Option<u64>) -> bool {
    match (a, b) {
        (_, None) => true,
        (None, Some(_)) => false,
        (Some(x), Some(y)) => x >= y,
    }
}

/// For a fixed window with some energy in it, a higher sensitivity gives a
/// strictly higher threshold, and any energy above the higher threshold is
/// above the lower one too.
pub proof fn threshold_increases_with_sensitivity(w: Seq<u64>, low: nat, high: nat)
    requires
        low < high,
        window_sum(w) > 0,
    ensures
        threshold_scaled(w, low) < threshold_scaled(w, high),
        forall|e: nat| exceeds_threshold(e, w, high) ==> exceeds_threshold(e, w, low),
{
    let t = window_sum(w);
    assert(t * low < t * high) by (nonlinear_arith)
        requires
            low < high,
            t > 0,
    ;
}

proof fn lemma_threshold_monotone(w: Seq<u64>, low: nat, high: nat)
    requires
        low <= high,
    ensures
        threshold_scaled(w, low) <= threshold_scaled(w, high),
{
    let t = window_sum(w);
    assert(t * low <= t * high) by (nonlinear_arith)
        requires
            low <= high,
    ;
}

/// The window and settings of a run do not depend on the sensitivity, and
/// the run at the higher sensitivity is never ahead in beats: it has fewer,
/// or as many with its last beat no earlier.
proof fn lemma_sensitivity_dominance(
    s: AnalyzerState,
    enabled: bool,
    low: nat,
    high: nat,
    inputs: Seq<(Seq<i16>, u64)>,
)
    requires
        low <= high,
        forward_in_time(s.last_beat, inputs),
    ensures
        ({
            let (a1, n1) = run(s, enabled, low, inputs);
            let (a2, n2) = run(s, enabled, high, inputs);
            &&& a1.window == a2.window
            &&& a1.capacity == s.capacity && a2.capacity == s.capacity
            &&& a1.cooldown == s.cooldown && a2.cooldown == s.cooldown
            &&& n2 < n1 || (n2 == n1 && no_earlier(a2.last_beat, a1.last_beat))
            &&& inputs.len() == 0 ==> a1.last_beat == s.last_beat
            &&& inputs.len() > 0 ==> (a1.last_beat matches Some(l) ==> l <= inputs.last().1)
        }),
    decreases inputs.len(),
{
    if inputs.len() > 0 {
        let prefix = inputs.drop_last();
        assert(forward_in_time(s.last_beat, prefix));
        lemma_sensitivity_dominance(s, enabled, low, high, prefix);
        let prev_low = run(s, enabled, low, prefix).0;
        let prev_high = run(s, enabled, high, prefix).0;
        let samples = inputs.last().0;
        let t = inputs.last().1;
        if prefix.len() > 0 {
            assert(prefix.last().1 <= t);
        }
        if let Some(e) = energy_of(samples) {
            let w = pushed(prev_low.window, prev_low.capacity, e as u64);
            lemma_threshold_monotone(w, low, high);
            if cooldown_elapsed(prev_high.last_beat, prev_high.cooldown, t as nat) && no_earlier(
                prev_high.last_beat,
                prev_low.last_beat,
            ) {
                assert(cooldown_elapsed(prev_low.last_beat, prev_low.cooldown, t as nat));
            }
        }
    }
}

/// A higher sensitivity never confirms more beats: over any stream whose
/// times do not go backwards, the run at the higher sensitivity confirms at
/// most as many beats as the run at the lower one.
pub proof fn higher_sensitivity_never_adds_beats(
    s: AnalyzerState,
    enabled: bool,
    low: nat,
    high: nat,
    inputs: Seq<(Seq<i16>, u64)>,
)
    requires
        low <= high,
        forward_in_time(s.last_beat, inputs),
    ensures
        run(s, enabled, high, inputs).1 <= run(s, enabled, low, inputs).1,
{
    lemma_sensitivity_dominance(s, enabled, low, high, inputs);
}

/// A beat is confirmed only once the cooldown has elapsed since the last
/// one, and then becomes the last beat.
pub proof fn beats_respect_cooldown(
    s: AnalyzerState,
    enabled: bool,
    sensitivity: nat,
    samples: Seq<i16>,
    now: u64,
)
    ensures
        ({
            let (next, beat) = step(s, enabled, sensitivity, samples, now);
            beat ==> cooldown_elapsed(s.last_beat, s.cooldown, now as nat) && next.last_beat
                == Some(now)
        }),
{
}

/// With detection disabled, no stream of buffers confirms a beat, however
/// loud: the beat count stays zero and the last beat stays as it was.
pub proof fn disabled_gate_never_beats(
    s: AnalyzerState,
    sensitivity: nat,
    inputs: Seq<(Seq<i16>, u64)>,
)
    ensures
        run(s, false, sensitivity, inputs).1 == 0,
        run(s, false, sensitivity, inputs).0.last_beat == s.last_beat,
    decreases inputs.len(),
{
    if inputs.len() > 0 {
        disabled_gate_never_beats(s, sensitivity, inputs.drop_last());
    }
}

/// A buffer of silence never confirms a beat: its energy is zero, which
/// cannot lie above a threshold that is never negative.
pub proof fn silence_never_beats(
    s: AnalyzerState,
    enabled: bool,
    sensitivity: nat,
    samples: Seq<i16>,
    now: u64,
)
    requires
        forall|i: int| 0 <= i < samples.len() ==> samples[i] == 0,
    ensures
        !step(s, enabled, sensitivity, samples, now).1,
{
    lemma_silence_has_no_energy(samples);
    if samples.len() > 0 {
        assert(mean_amplitude(samples) == 0);
        let w = pushed(s.window, s.capacity, 0u64);
        assert(0 * w.len() * 1000 == 0) by (nonlinear_arith);
        assert(!exceeds_threshold(0, w, sensitivity));
        assert(!step_energy(s, enabled, sensitivity, 0u64, now).1);
    }
}

} // verus!
