//! The energy analyzer: one call per audio buffer decides whether a beat
//! occurred.
use vstd::prelude::*;
use crate::config::{ConfigError, DetectionGate};
use crate::energy::{buffer_energy, energy_of, FULL_SCALE};
use crate::laws::{run, stream_view};
use crate::signal::{next_count, BeatSignal};
use crate::window::{lemma_window_sum_bound, pushed, window_sum, EnergyWindow};

verus! {

/// Rolling window size used when none is given.
pub const DEFAULT_WINDOW_SIZE: usize = 50;

/// Cooldown between two beats used when none is given, in milliseconds.
pub const DEFAULT_COOLDOWN_MS: u64 = 300;

/// The analyzer's state as plain values.
pub struct AnalyzerState {
    /// Recent energies, oldest first.
    pub window: Seq<u64>,
    /// How many energies the window keeps.
    pub capacity: nat,
    /// Least time between two beats, in milliseconds.
    pub cooldown: nat,
    /// When the last beat was confirmed, if ever.
    pub last_beat: Option<u64>,
}

/// The dynamic threshold multiplied by `1000 * w.len()`: the window's sum
/// times the sensitivity in thousandths. For a fixed window it orders
/// sensitivities as the threshold `mean(w) * sensitivity / 1000` does.
pub open spec fn threshold_scaled(w: Seq<u64>, sensitivity: nat) -> nat {
    window_sum(w) * sensitivity
}

/// Whether `energy` lies strictly above `mean(w) * sensitivity / 1000`.
pub open spec fn exceeds_threshold(energy: nat, w: Seq<u64>, sensitivity: nat) -> bool {
    energy * w.len() * 1000 > threshold_scaled(w, sensitivity)
}

/// Whether at least `cooldown` milliseconds separate the last beat from `now`.
pub open spec fn cooldown_elapsed(last_beat: Option<u64>, cooldown: nat, now: nat) -> bool {
    match last_beat {
        None => true,
        Some(t) => now >= t + cooldown,
    }
}

/// The state and the decision after one buffer with the given energy.
/// The window is updated first; the new energy is then compared against
/// the updated window's average.
pub open spec fn step_energy(
    s: AnalyzerState,
    enabled: bool,
    sensitivity: nat,
    energy: u64,
    now: u64,
) -> (AnalyzerState, bool) {
    let w = pushed(s.window, s.capacity, energy);
    let beat = enabled && exceeds_threshold(energy as nat, w, sensitivity) && cooldown_elapsed(
        s.last_beat,
        s.cooldown,
        now as nat,
    );
    (
        AnalyzerState {
            window: w,
            last_beat: if beat {
                Some(now)
            } else {
                s.last_beat
            },
            ..s
        },
        beat,
    )
}

/// The state and the decision after one buffer of samples; an empty buffer
/// changes nothing.
pub open spec fn step(
    s: AnalyzerState,
    enabled: bool,
    sensitivity: nat,
    samples: Seq<i16>,
    now: u64,
) -> (AnalyzerState, bool) {
    match energy_of(samples) {
        None => (s, false),
        Some(e) => step_energy(s, enabled, sensitivity, e as u64, now),
    }
}

/// Detects beats in a stream of audio buffers.
pub struct EnergyAnalyzer {
    window: EnergyWindow,
    cooldown_ms: u64,
    last_beat_ms: Option<u64>,
}

impl View for EnergyAnalyzer {
    type V = AnalyzerState;

    closed spec fn view(&self) -> AnalyzerState {
        AnalyzerState {
            window: self.window@,
            capacity: self.window.spec_capacity(),
            cooldown: self.cooldown_ms as nat,
            last_beat: self.last_beat_ms,
        }
    }
}

/// Whether `energy` lies above the threshold, computed without division.
fn above_threshold(energy: u64, len: usize, sum: u128, sensitivity_permille: u32) -> (r: bool)
    requires
        energy <= FULL_SCALE,
        sum <= FULL_SCALE * len,
    ensures
        r == (energy * len * 1000 > sum * sensitivity_permille),
{
    proof {
        assert(energy * len <= FULL_SCALE * usize::MAX) by (nonlinear_arith)
            requires
                energy <= FULL_SCALE,
                len <= usize::MAX,
        ;
        assert(sum * sensitivity_permille <= FULL_SCALE * usize::MAX * u32::MAX) by (
        nonlinear_arith)
            requires
                sum <= FULL_SCALE * len,
                len <= usize::MAX,
                sensitivity_permille <= u32::MAX,
        ;
    }
    (energy as u128) * (len as u128) * 1000 > sum * (sensitivity_permille as u128)
}

impl EnergyAnalyzer {
    /// The window is well formed and holds energies of normalised buffers.
    pub closed spec fn wf(&self) -> bool {
        &&& self.window.wf()
        &&& forall|i: int| 0 <= i < self.window@.len() ==> self.window@[i] <= FULL_SCALE
    }

    /// An analyzer with an empty window of `window_size` energies and the
    /// given cooldown; a window size of zero is rejected.
    pub fn new(window_size: usize, cooldown_ms: u64) -> (r: Result<EnergyAnalyzer, ConfigError>)
        ensures
            match r {
                Ok(a) => window_size > 0 && a.wf() && a@ == (AnalyzerState {
                    window: Seq::empty(),
                    capacity: window_size as nat,
                    cooldown: cooldown_ms as nat,
                    last_beat: None,
                }),
                Err(e) => window_size == 0 && e == ConfigError::InvalidWindowSize,
            },
    {
        match EnergyWindow::new(window_size) {
            Err(e) => Err(e),
            Ok(window) => Ok(EnergyAnalyzer { window, cooldown_ms, last_beat_ms: None }),
        }
    }

    /// An analyzer with a window of 50 energies and a cooldown of 300 ms.
    pub fn with_defaults() -> (a: EnergyAnalyzer)
        ensures
            a.wf(),
            a@ == (AnalyzerState {
                window: Seq::empty(),
                capacity: DEFAULT_WINDOW_SIZE as nat,
                cooldown: DEFAULT_COOLDOWN_MS as nat,
                last_beat: None,
            }),
    {
        let window = EnergyWindow::new(DEFAULT_WINDOW_SIZE).unwrap();
        EnergyAnalyzer { window, cooldown_ms: DEFAULT_COOLDOWN_MS, last_beat_ms: None }
    }

    /// Analyses one buffer of samples received at `now_ms`.
    ///
    /// The buffer's energy is pushed into the window, and a beat is
    /// confirmed when detection is enabled, the energy lies above the
    /// window's average times the sensitivity, and the cooldown has elapsed
    /// since the last beat. A confirmed beat raises `signal` and is
    /// returned as `true`. An empty buffer changes nothing.
    pub fn process_buffer(
        &mut self,
        samples: &[i16],
        now_ms: u64,
        gate: &DetectionGate,
        signal: &mut BeatSignal,
    ) -> (beat: bool)
        requires
            old(self).wf(),
        ensures
            final(self).wf(),
            (final(self)@, beat) == step(
                old(self)@,
                gate.spec_enabled(),
                gate.spec_sensitivity(),
                samples@,
                now_ms,
            ),
            beat ==> final(signal).raised && final(signal).count == next_count(old(signal).count),
            !beat ==> *final(signal) == *old(signal),
    {
        let energy = match buffer_energy(samples) {
            None => return false,
            Some(e) => e,
        };
        self.window.push(energy);
        proof {
            assert forall|i: int| 0 <= i < self.window@.len() implies self.window@[i]
                <= FULL_SCALE by {
                let p = old(self).window@.push(energy);
                if p.len() > old(self).window.spec_capacity() {
                    assert(self.window@[i] == p[i + p.len() - old(self).window.spec_capacity()]);
                }
            }
            lemma_window_sum_bound(self.window@, FULL_SCALE as nat);
        }
        let sum = self.window.sum();
        let len = self.window.len();
        let enabled = gate.is_enabled();
        let loud = above_threshold(energy, len, sum, gate.sensitivity_permille());
        let rested = match self.last_beat_ms {
            None => true,
            Some(t) => now_ms >= t && now_ms - t >= self.cooldown_ms,
        };
        let beat = enabled && loud && rested;
        if beat {
            self.last_beat_ms = Some(now_ms);
            signal.raise();
        }
        beat
    }

    /// Analyses a sequence of `(samples, time)` buffers in order and returns
    /// how many beats were confirmed.
    pub fn process_buffers(
        &mut self,
        buffers: &[(Vec<i16>, u64)],
        gate: &DetectionGate,
        signal: &mut BeatSignal,
    ) -> (beats: usize)
        requires
            old(self).wf(),
        ensures
            final(self).wf(),
            (final(self)@, beats as nat) == run(
                old(self)@,
                gate.spec_enabled(),
                gate.spec_sensitivity(),
                stream_view(buffers@),
            ),
            beats == 0 ==> *final(signal) == *old(signal),
            beats > 0 ==> final(signal).raised,
            final(signal).count == (old(signal).count + beats) % 0x1_0000_0000_0000_0000,
    {
        let ghost start = self@;
        let ghost inputs = stream_view(buffers@);
        let n = buffers.len();
        let mut beats: usize = 0;
        let mut i: usize = 0;
        proof {
            assert(inputs.subrange(0, 0) =~= Seq::<(Seq<i16>, u64)>::empty());
            assert(old(signal).count < 0x1_0000_0000_0000_0000);
            vstd::arithmetic::div_mod::lemma_small_mod(
                old(signal).count as nat,
                0x1_0000_0000_0000_0000,
            );
        }
        while i < n
            invariant
                n == buffers@.len(),
                inputs == stream_view(buffers@),
                i <= n,
                beats <= i,
                self.wf(),
                (self@, beats as nat) == run(
                    start,
                    gate.spec_enabled(),
                    gate.spec_sensitivity(),
                    inputs.subrange(0, i as int),
                ),
                beats == 0 ==> *signal == *old(signal),
                beats > 0 ==> signal.raised,
                signal.count == (old(signal).count + beats) % 0x1_0000_0000_0000_0000,
            decreases n - i,
        {
            let ghost before = signal.count;
            let beat = self.process_buffer(buffers[i].0.as_slice(), buffers[i].1, gate, signal);
            proof {
                let prefix = inputs.subrange(0, i as int + 1);
                assert(prefix.drop_last() =~= inputs.subrange(0, i as int));
                assert(prefix.last() == (buffers@[i as int].0@, buffers@[i as int].1));
                if beat {
                    let m: int = 0x1_0000_0000_0000_0000;
                    let a: int = old(signal).count + beats;
                    vstd::arithmetic::div_mod::lemma_add_mod_noop(a, 1, m);
                    vstd::arithmetic::div_mod::lemma_small_mod(1, m as nat);
                    if before as int + 1 == m {
                        vstd::arithmetic::div_mod::lemma_mod_self_0(m);
                    } else {
                        vstd::arithmetic::div_mod::lemma_small_mod((before + 1) as nat, m as nat);
                    }
                }
            }
            if beat {
                beats = beats + 1;
            }
            i = i + 1;
        }
        proof {
            assert(inputs.subrange(0, n as int) =~= inputs);
        }
        beats
    }

    /// Empties the window and forgets the last beat.
    pub fn reset(&mut self)
        requires
            old(self).wf(),
        ensures
            final(self).wf(),
            final(self)@ == (AnalyzerState {
                window: Seq::empty(),
                last_beat: None,
                ..old(self)@
            }),
    {
        self.window.clear();
        self.last_beat_ms = None;
    }

    /// The rolling window of energies.
    pub fn window(&self) -> (r: &EnergyWindow)
        requires
            self.wf(),
        ensures
            r.wf(),
            r@ == self@.window,
            r.spec_capacity() == self@.capacity,
    {
        &self.window
    }

    pub fn cooldown_ms(&self) -> (r: u64)
        ensures
            r == self@.cooldown,
    {
        self.cooldown_ms
    }

    /// When the last beat was confirmed, if ever.
    pub fn last_beat_ms(&self) -> (r: Option<u64>)
        ensures
            r == self@.last_beat,
    {
        self.last_beat_ms
    }
}

} // verus!
