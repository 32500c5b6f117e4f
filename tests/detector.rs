use tawny_av::{
    ConfigError, BeatSignal, DetectionGate, EnergyAnalyzer, DEFAULT_COOLDOWN_MS,
    DEFAULT_SENSITIVITY_PERMILLE, DEFAULT_WINDOW_SIZE,
};

/// A buffer whose energy is exactly `level`.
fn buffer(level: i16) -> Vec<i16> {
    let mut b = Vec::new();
    for k in 0..64 {
        b.push(if k % 2 == 0 { level } else { -level });
    }
    b
}

/// Energy 0.05 of full scale, rounded down.
const QUIET: i16 = 1638;
/// Energy 0.5 of full scale.
const LOUD: i16 = 16384;

/// Feeds `n` quiet buffers 10 ms apart from `start`; returns the next time.
fn settle(a: &mut EnergyAnalyzer, gate: &DetectionGate, sig: &mut BeatSignal, start: u64, n: u64) -> u64 {
    let mut t = start;
    for _ in 0..n {
        assert!(!a.process_buffer(&buffer(QUIET), t, gate, sig));
        t += 10;
    }
    t
}

#[test]
fn defaults_match_the_documented_values() {
    let a = EnergyAnalyzer::with_defaults();
    assert_eq!(a.window().capacity(), DEFAULT_WINDOW_SIZE);
    assert_eq!(a.window().capacity(), 50);
    assert_eq!(a.cooldown_ms(), DEFAULT_COOLDOWN_MS);
    assert_eq!(a.cooldown_ms(), 300);
    assert_eq!(a.last_beat_ms(), None);
    let g = DetectionGate::new();
    assert!(g.is_enabled());
    assert_eq!(g.sensitivity_permille(), DEFAULT_SENSITIVITY_PERMILLE);
    assert_eq!(g.sensitivity_permille(), 1500);
}

#[test]
fn zero_window_size_is_rejected() {
    assert_eq!(EnergyAnalyzer::new(0, 300).err(), Some(ConfigError::InvalidWindowSize));
    assert!(EnergyAnalyzer::new(1, 0).is_ok());
}

#[test]
fn zero_sensitivity_is_rejected() {
    assert_eq!(DetectionGate::with_settings(true, 0).err(), Some(ConfigError::InvalidSensitivity));
    let mut g = DetectionGate::with_settings(false, 2000).unwrap();
    assert!(!g.is_enabled());
    assert_eq!(g.sensitivity_permille(), 2000);
    assert_eq!(g.set_sensitivity(0), Err(ConfigError::InvalidSensitivity));
    assert_eq!(g.sensitivity_permille(), 2000);
    assert_eq!(g.set_sensitivity(1200), Ok(()));
    assert_eq!(g.sensitivity_permille(), 1200);
}

#[test]
fn gate_toggles() {
    let mut g = DetectionGate::new();
    assert!(!g.toggle());
    assert!(!g.is_enabled());
    assert!(g.toggle());
    g.set_enabled(false);
    assert!(!g.is_enabled());
    assert_eq!(g.sensitivity_permille(), 1500);
}

#[test]
fn spike_over_steady_background_is_a_beat() {
    let mut a = EnergyAnalyzer::with_defaults();
    let g = DetectionGate::new();
    let mut s = BeatSignal::new();
    let t = settle(&mut a, &g, &mut s, 0, 60);
    assert!(!s.is_raised());
    assert!(a.process_buffer(&buffer(LOUD), t, &g, &mut s));
    assert!(s.is_raised());
    assert_eq!(a.last_beat_ms(), Some(t));
}

#[test]
fn first_buffer_never_beats() {
    let mut a = EnergyAnalyzer::with_defaults();
    let g = DetectionGate::new();
    let mut s = BeatSignal::new();
    assert!(!a.process_buffer(&buffer(i16::MAX), 0, &g, &mut s));
    assert!(!s.is_raised());
}

#[test]
fn energy_equal_to_threshold_is_not_a_beat() {
    // Window [100, 100, 400]: mean 200, threshold at 2.0 is exactly 400.
    let mut a = EnergyAnalyzer::new(3, 0).unwrap();
    let g = DetectionGate::with_settings(true, 2000).unwrap();
    let mut s = BeatSignal::new();
    assert!(!a.process_buffer(&buffer(100), 0, &g, &mut s));
    assert!(!a.process_buffer(&buffer(100), 10, &g, &mut s));
    assert!(!a.process_buffer(&buffer(400), 20, &g, &mut s));
    // Window [100, 400, 401]: 401 * 3 * 1000 > 901 * 2000 fails, no beat either.
    assert!(!a.process_buffer(&buffer(401), 30, &g, &mut s));
    // Window [400, 401, 2000]: mean 933.67, threshold 1867.3 < 2000.
    assert!(a.process_buffer(&buffer(2000), 40, &g, &mut s));
}

#[test]
fn higher_sensitivity_blocks_a_moderate_spike() {
    let low = DetectionGate::with_settings(true, 1500).unwrap();
    let high = DetectionGate::with_settings(true, 3000).unwrap();
    let mut a1 = EnergyAnalyzer::with_defaults();
    let mut a2 = EnergyAnalyzer::with_defaults();
    let mut s1 = BeatSignal::new();
    let mut s2 = BeatSignal::new();
    let t = settle(&mut a1, &low, &mut s1, 0, 60);
    settle(&mut a2, &high, &mut s2, 0, 60);
    // Twice the background: above 1.5x the average, below 3x.
    assert!(a1.process_buffer(&buffer(2 * QUIET), t, &low, &mut s1));
    assert!(!a2.process_buffer(&buffer(2 * QUIET), t, &high, &mut s2));
    assert!(s1.is_raised());
    assert!(!s2.is_raised());
}

#[test]
fn spikes_inside_cooldown_give_one_beat() {
    let mut a = EnergyAnalyzer::new(50, 300).unwrap();
    let g = DetectionGate::new();
    let mut s = BeatSignal::new();
    let t = settle(&mut a, &g, &mut s, 0, 60);
    assert!(a.process_buffer(&buffer(LOUD), t, &g, &mut s));
    assert!(!a.process_buffer(&buffer(LOUD), t + 100, &g, &mut s));
    assert_eq!(s.beat_count(), 1);
}

#[test]
fn spikes_past_cooldown_give_two_beats() {
    let mut a = EnergyAnalyzer::new(50, 300).unwrap();
    let g = DetectionGate::new();
    let mut s = BeatSignal::new();
    let t = settle(&mut a, &g, &mut s, 0, 60);
    assert!(a.process_buffer(&buffer(LOUD), t, &g, &mut s));
    assert!(a.process_buffer(&buffer(LOUD), t + 400, &g, &mut s));
    assert_eq!(s.beat_count(), 2);
}

#[test]
fn cooldown_elapsed_exactly_allows_a_beat() {
    let mut a = EnergyAnalyzer::new(50, 300).unwrap();
    let g = DetectionGate::new();
    let mut s = BeatSignal::new();
    let t = settle(&mut a, &g, &mut s, 0, 60);
    assert!(a.process_buffer(&buffer(LOUD), t, &g, &mut s));
    assert!(!a.process_buffer(&buffer(LOUD), t + 299, &g, &mut s));
    assert!(a.process_buffer(&buffer(LOUD), t + 300, &g, &mut s));
}

#[test]
fn disabled_gate_never_raises_the_signal() {
    let mut a = EnergyAnalyzer::with_defaults();
    let mut g = DetectionGate::new();
    g.set_enabled(false);
    let mut s = BeatSignal::new();
    let mut t = 0;
    for k in 0..200 {
        let level = if k % 7 == 0 { i16::MAX } else { 1 };
        assert!(!a.process_buffer(&buffer(level), t, &g, &mut s));
        t += 1000;
    }
    assert!(!s.is_raised());
    assert_eq!(s.beat_count(), 0);
    assert_eq!(a.last_beat_ms(), None);
}

#[test]
fn silent_buffers_never_beat() {
    let mut a = EnergyAnalyzer::with_defaults();
    let g = DetectionGate::with_settings(true, 1).unwrap();
    let mut s = BeatSignal::new();
    for k in 0..100u64 {
        assert!(!a.process_buffer(&[0i16; 128], k * 1000, &g, &mut s));
    }
    assert!(!s.is_raised());
    assert_eq!(a.window().sum(), 0);
}

#[test]
fn empty_buffer_changes_nothing() {
    let mut a = EnergyAnalyzer::with_defaults();
    let g = DetectionGate::new();
    let mut s = BeatSignal::new();
    settle(&mut a, &g, &mut s, 0, 3);
    let before = a.window().to_vec();
    assert!(!a.process_buffer(&[], 5000, &g, &mut s));
    assert_eq!(a.window().to_vec(), before);
    assert_eq!(a.last_beat_ms(), None);
}

#[test]
fn reset_clears_window_and_last_beat() {
    let mut a = EnergyAnalyzer::with_defaults();
    let g = DetectionGate::new();
    let mut s = BeatSignal::new();
    let t = settle(&mut a, &g, &mut s, 0, 10);
    assert!(a.process_buffer(&buffer(LOUD), t, &g, &mut s));
    a.reset();
    assert!(a.window().is_empty());
    assert_eq!(a.last_beat_ms(), None);
    assert_eq!(a.cooldown_ms(), 300);
}

#[test]
fn end_to_end_steady_background_then_spike() {
    let mut a = EnergyAnalyzer::with_defaults();
    let g = DetectionGate::new();
    let mut s = BeatSignal::new();
    // Sixty buffers at energy 0.05, 10 ms apart.
    let mut t = settle(&mut a, &g, &mut s, 0, 60);
    assert_eq!(a.window().len(), 50);
    assert_eq!(a.window().sum(), 50 * 1638);
    // One buffer at energy 0.5.
    let spike_at = t;
    assert!(a.process_buffer(&buffer(LOUD), t, &g, &mut s));
    t += 10;
    assert!(s.is_raised());
    // Ten more quiet buffers: no beat, and the flag waits for a consumer.
    t = settle(&mut a, &g, &mut s, t, 10);
    assert!(s.is_raised());
    assert_eq!(s.beat_count(), 1);
    // A second spike before the cooldown has elapsed is ignored.
    assert!(t < spike_at + 300);
    assert!(!a.process_buffer(&buffer(LOUD), t, &g, &mut s));
    assert_eq!(s.beat_count(), 1);
    // A consumer clears the flag.
    assert!(s.take());
    assert!(!s.is_raised());
    // Once the cooldown has elapsed, a spike is a beat again.
    assert!(a.process_buffer(&buffer(LOUD), spike_at + 300, &g, &mut s));
    assert!(s.is_raised());
    assert_eq!(s.beat_count(), 2);
}

#[test]
fn unsigned_buffers_feed_the_analyzer() {
    let mut a = EnergyAnalyzer::with_defaults();
    let g = DetectionGate::new();
    let mut s = BeatSignal::new();
    let quiet: Vec<u16> = buffer(QUIET).iter().map(|&x| (x as i32 + 32768) as u16).collect();
    let loud: Vec<u16> = buffer(LOUD).iter().map(|&x| (x as i32 + 32768) as u16).collect();
    let mut t = 0;
    for _ in 0..60 {
        assert!(!a.process_buffer(&tawny_av::samples_from_u16(&quiet), t, &g, &mut s));
        t += 10;
    }
    assert!(a.process_buffer(&tawny_av::samples_from_u16(&loud), t, &g, &mut s));
}

/// Sixty quiet buffers 10 ms apart, then the given `(level, time)` buffers.
fn stream(extra: &[(i16, u64)]) -> Vec<(Vec<i16>, u64)> {
    let mut s: Vec<(Vec<i16>, u64)> = (0..60u64).map(|k| (buffer(QUIET), k * 10)).collect();
    for &(level, t) in extra {
        s.push((buffer(level), t));
    }
    s
}

#[test]
fn stream_counts_beats_and_raises_signal() {
    let mut a = EnergyAnalyzer::with_defaults();
    let g = DetectionGate::new();
    let mut s = BeatSignal::new();
    let input = stream(&[(LOUD, 600), (LOUD, 700), (LOUD, 1000)]);
    assert_eq!(a.process_buffers(&input, &g, &mut s), 2);
    assert!(s.is_raised());
    assert_eq!(s.beat_count(), 2);
    assert_eq!(a.last_beat_ms(), Some(1000));
}

#[test]
fn quiet_stream_leaves_signal_alone() {
    let mut a = EnergyAnalyzer::with_defaults();
    let g = DetectionGate::new();
    let mut s = BeatSignal::new();
    assert_eq!(a.process_buffers(&stream(&[]), &g, &mut s), 0);
    assert!(!s.is_raised());
    assert_eq!(s.beat_count(), 0);
    assert_eq!(a.process_buffers(&[], &g, &mut s), 0);
}

#[test]
fn higher_sensitivity_confirms_no_more_beats_over_a_stream() {
    let input = stream(&[
        (2 * QUIET, 600),
        (LOUD, 800),
        (3 * QUIET, 1000),
        (LOUD, 1100),
        (2 * QUIET, 1500),
        (LOUD, 1900),
    ]);
    let mut counts = Vec::new();
    for permille in [1000u32, 1500, 2000, 3000, 6000] {
        let mut a = EnergyAnalyzer::with_defaults();
        let g = DetectionGate::with_settings(true, permille).unwrap();
        let mut s = BeatSignal::new();
        counts.push(a.process_buffers(&input, &g, &mut s));
    }
    for k in 1..counts.len() {
        assert!(counts[k] <= counts[k - 1]);
    }
    assert!(counts[0] > counts[counts.len() - 1]);
}

#[test]
fn stream_matches_buffer_by_buffer_processing() {
    let input = stream(&[(LOUD, 600), (QUIET, 610), (LOUD, 950)]);
    let g = DetectionGate::new();
    let mut a = EnergyAnalyzer::with_defaults();
    let mut s = BeatSignal::new();
    let total = a.process_buffers(&input, &g, &mut s);
    let mut b = EnergyAnalyzer::with_defaults();
    let mut r = BeatSignal::new();
    let mut one_by_one = 0;
    for (samples, t) in &input {
        if b.process_buffer(samples, *t, &g, &mut r) {
            one_by_one += 1;
        }
    }
    assert_eq!(total, one_by_one);
    assert_eq!(total, 2);
    assert_eq!(a.window().to_vec(), b.window().to_vec());
    assert_eq!(a.last_beat_ms(), b.last_beat_ms());
}
