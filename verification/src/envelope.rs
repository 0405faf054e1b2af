//! The per-frame envelope: each frame's amplitude scale as an exact rational.
//!
//! For a cycle position the raw gate factor is an unclamped linear ramp —
//! open at the cycle start, closing towards the midpoint, reopening after
//! it.  The raw factor is then lifted so its floor is a tenth of full
//! volume, and blended with the dry signal by the mix factor.  All of this
//! is exact rational arithmetic over a fixed denominator.

use vstd::prelude::*;

use crate::params::{MIX_SCALE, TranceGateParameters};

verus! {

/// One frame's amplitude scale, as the exact ratio `num / den`.
///
/// The numerator can dip below zero or exceed the denominator: the raw
/// ramps are deliberately unclamped, and downstream blending tolerates the
/// overshoot.
#[derive(Clone, Copy, Debug, PartialEq, Eq, Structural)]
pub struct GateFactor {
    /// Numerator of the scale; may overshoot `[0, den]`.
    pub num: i64,
    /// Denominator of the scale; always positive.
    pub den: u64,
}

/// Denominator of the raw ramp: the `fade_in` field, except that a zero
/// `fade_in` is treated as an instantaneous step instead of a division by
/// zero, so the denominator is never zero.
pub open spec fn ramp_den(p: TranceGateParameters) -> int {
    if p.fade_in == 0 {
        1
    } else {
        p.fade_in as int
    }
}

/// Numerator of the raw, unclamped gate factor at a cycle position, over
/// the denominator [`ramp_den`].
///
/// In the first half of the cycle the envelope holds fully open until
/// `fade_out`, then ramps down by `1 - (counter - fade_out) / fade_in`; in
/// the second half it holds fully closed until `fade_out` past the
/// midpoint, then ramps up by `(after - fade_out) / fade_in`.  A zero
/// `fade_in` turns each ramp into an instantaneous step to its end state.
pub open spec fn raw_gate_num(p: TranceGateParameters, counter: int) -> int {
    if counter < p.gate_midpoint {
        if counter > p.fade_out {
            if p.fade_in == 0 {
                0
            } else {
                p.fade_in - (counter - p.fade_out)
            }
        } else {
            ramp_den(p)
        }
    } else {
        let after_midpoint = counter - p.gate_midpoint;
        if after_midpoint > p.fade_out {
            if p.fade_in == 0 {
                ramp_den(p)
            } else {
                after_midpoint - p.fade_out
            }
        } else {
            0
        }
    }
}

/// Denominator of the final per-frame scale.
pub open spec fn factor_den(p: TranceGateParameters) -> int {
    10 * MIX_SCALE * ramp_den(p)
}

/// Numerator of the final per-frame scale, over [`factor_den`]: the raw
/// factor lifted to a floor of one tenth (`raw * 9/10 + 1/10`), then
/// blended with the dry signal by the mix factor
/// (`lifted * mix + (1 - mix)`).
pub open spec fn factor_num(p: TranceGateParameters, counter: int) -> int {
    (9 * raw_gate_num(p, counter) + ramp_den(p)) * p.mix_factor + (MIX_SCALE - p.mix_factor) * 10
        * ramp_den(p)
}

impl GateFactor {
    /// The factor that [`frame_factor`] yields for `p` at `counter`.
    pub open spec fn is_factor_for(self, p: TranceGateParameters, counter: int) -> bool {
        &&& self.num == factor_num(p, counter)
        &&& self.den == factor_den(p)
    }
}

/// Computes the exact amplitude scale for one frame at the given cycle
/// position.
pub fn frame_factor(p: &TranceGateParameters, counter: u64) -> (factor: GateFactor)
    requires
        p.wf(),
        counter <= p.gate_length,
    ensures
        factor.is_factor_for(*p, counter as int),
        factor.den > 0,
{
    let position: i128 = counter as i128;
    let midpoint: i128 = p.gate_midpoint as i128;
    let fade_out: i128 = p.fade_out as i128;
    let ramp_den_wide: i128 = if p.fade_in == 0 {
        1
    } else {
        p.fade_in as i128
    };
    let raw: i128 = if position < midpoint {
        if position > fade_out {
            if p.fade_in == 0 {
                0
            } else {
                (p.fade_in as i128) - (position - fade_out)
            }
        } else {
            ramp_den_wide
        }
    } else {
        let after_midpoint: i128 = position - midpoint;
        if after_midpoint > fade_out {
            if p.fade_in == 0 {
                ramp_den_wide
            } else {
                after_midpoint - fade_out
            }
        } else {
            0
        }
    };
    let mix: i128 = p.mix_factor as i128;
    let lifted: i128 = 9 * raw + ramp_den_wide;
    proof {
        assert(1 <= ramp_den_wide <= 1_099_511_627_776);
        assert(-1_099_511_627_776 <= raw <= 1_099_511_627_776);
        assert(-10_995_116_277_760 <= lifted <= 10_995_116_277_760);
        assert(-109_951_162_777_600_000 <= lifted * mix <= 109_951_162_777_600_000)
            by (nonlinear_arith)
            requires
                -10_995_116_277_760 <= lifted <= 10_995_116_277_760,
                0 <= mix <= 10_000,
        ;
        assert(0 <= (10_000 - mix) * 10 * ramp_den_wide <= 109_951_162_777_600_000)
            by (nonlinear_arith)
            requires
                0 <= mix <= 10_000,
                1 <= ramp_den_wide <= 1_099_511_627_776,
        ;
        assert(100_000 <= 10 * 10_000 * ramp_den_wide <= 109_951_162_777_600_000)
            by (nonlinear_arith)
            requires
                1 <= ramp_den_wide <= 1_099_511_627_776,
        ;
    }
    let num: i128 = lifted * mix + ((MIX_SCALE as i128) - mix) * 10 * ramp_den_wide;
    let den: i128 = 10 * (MIX_SCALE as i128) * ramp_den_wide;
    GateFactor { num: num as i64, den: den as u64 }
}

/// Law: a mix factor of zero makes the effect inaudible — at every cycle
/// position the scale equals exactly one, so each frame passes unmodified.
pub proof fn lemma_mix_zero_is_identity(p: TranceGateParameters, counter: int)
    requires
        p.mix_factor == 0,
    ensures
        factor_num(p, counter) == factor_den(p),
{
}

/// Law: at full mix the scale at the cycle start is exactly one — the raw
/// factor holds at one there (provided the envelope holds open for at least one
/// sample), and the baseline lift keeps it at one: `1 * 9/10 + 1/10 = 1`.
pub proof fn lemma_full_mix_cycle_start(p: TranceGateParameters)
    requires
        p.fade_out <= p.gate_midpoint,
        p.mix_factor == MIX_SCALE,
        p.fade_out > 0,
    ensures
        factor_num(p, 0) == factor_den(p),
{
    let rd = ramp_den(p);
    let m = MIX_SCALE as int;
    assert(p.gate_midpoint > 0);
    assert(raw_gate_num(p, 0) == rd);
    assert((9 * rd + rd) * m + (m - m) * 10 * rd == 10 * m * rd) by (nonlinear_arith);
}

} // verus!
