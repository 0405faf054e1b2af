use trance_gate::params::{MIX_SCALE, TranceGateParameters};

// One full cycle in 8th notes at 256 BPM: 60 / 256 * 4 / 8 seconds, which is
// exactly 117_187_500 nanoseconds.
const EIGHTH_NOTE_256_BPM_NANOS: u64 = 117_187_500;

#[test]
fn eighth_note_derivation() {
    let p = TranceGateParameters::new(EIGHTH_NOTE_256_BPM_NANOS, 8_000);
    // 0.1171875 s * 44100 Hz = 5167.96875 samples, rounded to 5168.
    assert_eq!(p.gate_length, 5168);
    assert_eq!(p.gate_midpoint, 2584);
    // 5% of the half-cycle: 129.2 rounds to 129.
    assert_eq!(p.fade_out, 129);
    // 95% of the half-cycle: 2454.8 rounds to 2455.
    assert_eq!(p.fade_in, 2455);
    assert_eq!(p.mix_factor, 8_000);
}

#[test]
fn one_second_derivation() {
    let p = TranceGateParameters::new(1_000_000_000, MIX_SCALE as i64);
    assert_eq!(p.gate_length, 44_100);
    assert_eq!(p.gate_midpoint, 22_050);
    assert_eq!(p.fade_out, 1_103); // 1102.5 rounds up
    assert_eq!(p.fade_in, 20_948); // 20947.5 rounds up
    assert_eq!(p.mix_factor, MIX_SCALE);
}

#[test]
fn mix_factor_clamped_low() {
    let p = TranceGateParameters::new(EIGHTH_NOTE_256_BPM_NANOS, -5);
    assert_eq!(p.mix_factor, 0);
    let q = TranceGateParameters::new(EIGHTH_NOTE_256_BPM_NANOS, i64::MIN);
    assert_eq!(q.mix_factor, 0);
}

#[test]
fn mix_factor_clamped_high() {
    let p = TranceGateParameters::new(EIGHTH_NOTE_256_BPM_NANOS, 20_000);
    assert_eq!(p.mix_factor, MIX_SCALE);
    let q = TranceGateParameters::new(EIGHTH_NOTE_256_BPM_NANOS, i64::MAX);
    assert_eq!(q.mix_factor, MIX_SCALE);
}

#[test]
fn mix_factor_in_range_kept() {
    for mix in [0_i64, 1, 5_000, 9_999, 10_000] {
        let p = TranceGateParameters::new(EIGHTH_NOTE_256_BPM_NANOS, mix);
        assert_eq!(p.mix_factor as i64, mix);
    }
}

#[test]
fn zero_duration_is_degenerate() {
    let p = TranceGateParameters::new(0, 8_000);
    assert_eq!(p.gate_length, 0);
    assert_eq!(p.gate_midpoint, 0);
    assert_eq!(p.fade_out, 0);
    assert_eq!(p.fade_in, 0);
    assert_eq!(p.mix_factor, 8_000);
}

#[test]
fn tiny_durations_round_to_nearest() {
    // 11.3 microseconds -> 0.49833 samples, rounds to 0.
    let p = TranceGateParameters::new(11_300, 0);
    assert_eq!(p.gate_length, 0);
    // 11.4 microseconds -> 0.50274 samples, rounds to 1.
    let q = TranceGateParameters::new(11_400, 0);
    assert_eq!(q.gate_length, 1);
    assert_eq!(q.gate_midpoint, 1); // 0.5 rounds up to 1
    assert_eq!(q.fade_out, 0);
    assert_eq!(q.fade_in, 1); // 0.95 rounds to 1
}
