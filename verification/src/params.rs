//! Derivation of the effect's sample-domain timing constants.

use vstd::prelude::*;

verus! {

/// Reference sample rate, in samples per second, baked into the derivation.
///
/// The derivation always assumes this rate, independent of the processor's
/// actual runtime rate — a documented limitation of the design, kept as is.
pub const SAMPLE_RATE: u64 = 44100;

/// Scale of the fixed-point mix factor: a stored value of `MIX_SCALE`
/// stands for a mix of one (fully gated), `0` for a mix of zero (inaudible).
pub const MIX_SCALE: u64 = 10_000;

/// Nanoseconds in one second, the unit in which gate durations are given.
pub const NANOS_PER_SECOND: u64 = 1_000_000_000;

/// Largest gate length, in samples, that the derivation can produce.
/// Keeping every timing field at or below this bound lets the envelope
/// arithmetic stay comfortably inside 64-bit integers.
pub const MAX_GATE_LENGTH: u64 = 1_099_511_627_776;

/// Largest accepted gate duration, in nanoseconds (several months of audio);
/// chosen so that the derived gate length stays at or below
/// [`MAX_GATE_LENGTH`].
pub const MAX_GATE_DURATION_NANOS: u64 = 24_900_000_000_000_000;

/// The quotient `numerator / denominator` rounded to the nearest integer,
/// halves rounded up.  Both arguments are nonnegative here.
pub open spec fn round_div(numerator: int, denominator: int) -> int
    recommends
        numerator >= 0,
        denominator > 0,
{
    (2 * numerator + denominator) / (2 * denominator)
}

/// The mix factor clamped into `[0, MIX_SCALE]`.
pub open spec fn clamped_mix(mix_factor: int) -> int {
    if mix_factor < 0 {
        0
    } else if mix_factor > MIX_SCALE as int {
        MIX_SCALE as int
    } else {
        mix_factor
    }
}

/// The parameters consumed by [`crate::gate::TranceGate`].
///
/// All fields are sample counts except `mix_factor`, which is a fixed-point
/// fraction of [`MIX_SCALE`].
#[derive(Clone, Copy, Debug, PartialEq, Eq, Structural)]
pub struct TranceGateParameters {
    /// The length of one full gate cycle, in samples.
    pub gate_length: u64,
    /// The sample offset within the cycle where the signal moves from the
    /// "closing" to the "opening" phase; nominally half the cycle.
    pub gate_midpoint: u64,
    /// Determines how much of the gated signal is mixed with the original
    /// audio: `MIX_SCALE` fully applies the envelope, `0` leaves the signal
    /// untouched.
    pub mix_factor: u64,
    /// The number of samples a half-cycle holds at its extreme before the
    /// ramp begins.
    pub fade_out: u64,
    /// The ramp's denominator, in samples; nominally most of a half-cycle.
    pub fade_in: u64,
}

impl TranceGateParameters {
    /// Internal consistency of a parameter set: the midpoint splits the
    /// cycle, both fade offsets fit in a half-cycle, the mix factor is a
    /// clamped fraction, and everything is small enough for the envelope
    /// arithmetic to stay in range.
    pub open spec fn wf(self) -> bool {
        &&& self.gate_length <= MAX_GATE_LENGTH
        &&& self.gate_midpoint <= self.gate_length
        &&& self.fade_out <= self.gate_midpoint
        &&& self.fade_in <= self.gate_midpoint
        &&& self.mix_factor <= MIX_SCALE
    }

    /// Creates a new [`TranceGateParameters`].
    ///
    /// The duration of one full gate cycle is given in nanoseconds and
    /// converted to samples at the fixed reference rate; the midpoint is
    /// half the cycle, the fade offsets are five and ninety-five percent of
    /// a half-cycle, each rounded to the nearest sample.  The mix factor is
    /// given in units of [`MIX_SCALE`] and silently clamped into
    /// `[0, MIX_SCALE]`.  A duration of zero yields a degenerate zero-length
    /// gate, which the processor treats as "reset every sample".
    pub fn new(gate_duration_nanos: u64, mix_factor: i64) -> (result: Self)
        requires
            gate_duration_nanos <= MAX_GATE_DURATION_NANOS,
        ensures
            result.gate_length == round_div(
                gate_duration_nanos * SAMPLE_RATE,
                NANOS_PER_SECOND as int,
            ),
            result.gate_midpoint == round_div(result.gate_length as int, 2),
            result.fade_out == round_div(result.gate_midpoint as int, 20),
            result.fade_in == round_div(19 * result.gate_midpoint, 20),
            result.mix_factor == clamped_mix(mix_factor as int),
            0 <= result.mix_factor <= MIX_SCALE,
            result.wf(),
    {
        let nanos: u128 = gate_duration_nanos as u128;
        let scaled: u128 = 2 * nanos * (SAMPLE_RATE as u128);
        let gate_length_wide: u128 = (scaled + NANOS_PER_SECOND as u128) / (2
            * NANOS_PER_SECOND as u128);
        proof {
            assert(scaled + NANOS_PER_SECOND as u128 <= 2_196_180_000_001_000_000_000);
            vstd::arithmetic::div_mod::lemma_div_is_ordered(
                scaled + NANOS_PER_SECOND as int,
                2_196_180_000_001_000_000_000,
                2_000_000_000,
            );
            assert(2_196_180_000_001_000_000_000int / 2_000_000_000int == 1_098_090_000_000int);
        }
        let gate_length: u64 = gate_length_wide as u64;
        let gate_midpoint: u64 = (2 * gate_length + 2) / 4;
        let fade_out: u64 = (2 * gate_midpoint + 20) / 40;
        let fade_in: u64 = (38 * gate_midpoint + 20) / 40;
        let clamped: i64 = if mix_factor < 0 {
            0
        } else if mix_factor > 10_000 {
            10_000
        } else {
            mix_factor
        };
        TranceGateParameters {
            gate_length,
            gate_midpoint,
            mix_factor: clamped as u64,
            fade_out,
            fade_in,
        }
    }
}

} // verus!
