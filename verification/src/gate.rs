//! The trance gate processor: lifecycle and per-buffer processing.

use vstd::prelude::*;

use crate::envelope::{GateFactor, frame_factor};
use crate::params::TranceGateParameters;

verus! {

/// The cycle position actually used for a frame: a position that has
/// reached the end of the cycle wraps back to the cycle start before the
/// frame's factor is computed.
pub open spec fn wrap_counter(p: TranceGateParameters, counter: int) -> int {
    if counter >= p.gate_length {
        0
    } else {
        counter
    }
}

/// The cycle position after processing `frames` frames starting from
/// position `counter`: each frame first wraps the position, then moves one
/// sample forward.
pub open spec fn counter_after(p: TranceGateParameters, counter: int, frames: nat) -> int
    decreases frames,
{
    if frames == 0 {
        counter
    } else {
        wrap_counter(p, counter_after(p, counter, (frames - 1) as nat)) + 1
    }
}

/// The trance gate DSP and its internal state.
#[derive(Debug)]
pub struct TranceGate {
    /// The parameters for the effect; absent while bypassed.
    parameters: Option<TranceGateParameters>,
    /// The number of samples processed within the current cycle.
    counter: u64,
}

impl TranceGate {
    /// The installed parameter set; `None` while bypassed.
    pub closed spec fn spec_parameters(self) -> Option<TranceGateParameters> {
        self.parameters
    }

    /// The current cycle position.
    pub closed spec fn spec_counter(self) -> u64 {
        self.counter
    }

    /// Well-formedness: while active, the installed parameters are
    /// internally consistent and the cycle position has not drifted past
    /// the point where the next frame would wrap it.
    pub open spec fn wf(self) -> bool {
        self.spec_parameters() matches Some(p) ==> p.wf() && self.spec_counter() <= p.gate_length
            + 1
    }

    /// Creates a new [`TranceGate`], bypassed until initialized.
    pub fn new() -> (gate: TranceGate)
        ensures
            gate.spec_parameters() is None,
            gate.spec_counter() == 0,
            gate.wf(),
    {
        TranceGate { parameters: None, counter: 0 }
    }

    /// Initializes the [`TranceGate`], i.e. turning it on.
    ///
    /// Installs the parameter set and resets the cycle position to the
    /// start, whatever the prior state was.
    pub fn initialize(&mut self, parameters: TranceGateParameters)
        requires
            parameters.wf(),
        ensures
            final(self).spec_parameters() == Some(parameters),
            final(self).spec_counter() == 0,
            final(self).wf(),
    {
        self.parameters = Some(parameters);
        self.counter = 0;
    }

    /// Deinitializes the [`TranceGate`], i.e. turning it off.
    ///
    /// Clears the parameter set and resets the cycle position. Idempotent.
    pub fn deinitialize(&mut self)
        ensures
            final(self).spec_parameters() is None,
            final(self).spec_counter() == 0,
            final(self).wf(),
    {
        self.parameters = None;
        self.counter = 0;
    }

    /// Applies the effect to a run of `frames` stereo frames: yields the
    /// exact amplitude scale for each frame in turn and advances the cycle
    /// position.  Both channel samples of a frame are meant to be
    /// multiplied by that frame's scale.
    ///
    /// This is a no-op yielding `None` if the [`TranceGate`] is
    /// deinitialized, so a bypassed gate leaves its buffer untouched.  The
    /// position argument is reserved for host-synchronized timing and does
    /// not influence the result.
    pub fn process(&mut self, _position: usize, frames: usize) -> (factors: Option<
        Vec<GateFactor>,
    >)
        requires
            old(self).wf(),
        ensures
            final(self).wf(),
            final(self).spec_parameters() == old(self).spec_parameters(),
            old(self).spec_parameters() is None ==> factors is None && *final(self) == *old(self),
            old(self).spec_parameters() matches Some(p) ==> {
                &&& factors matches Some(v)
                &&& v@.len() == frames
                &&& forall|k: int|
                    0 <= k < frames ==> (#[trigger] v@[k]).is_factor_for(
                        p,
                        wrap_counter(p, counter_after(p, old(self).spec_counter() as int, k as nat)),
                    )
                &&& final(self).spec_counter() == counter_after(
                    p,
                    old(self).spec_counter() as int,
                    frames as nat,
                )
            },
    {
        let parameters = match self.parameters {
            Some(parameters) => parameters,
            None => { return None; },
        };
        let ghost start: int = self.counter as int;
        let mut factors: Vec<GateFactor> = Vec::new();
        let mut index: usize = 0;
        while index < frames
            invariant
                self.parameters == Some(parameters),
                parameters.wf(),
                index <= frames,
                factors@.len() == index,
                self.counter <= parameters.gate_length + 1,
                self.counter == counter_after(parameters, start, index as nat),
                forall|k: int|
                    0 <= k < index ==> (#[trigger] factors@[k]).is_factor_for(
                        parameters,
                        wrap_counter(parameters, counter_after(parameters, start, k as nat)),
                    ),
            decreases frames - index,
        {
            if self.counter >= parameters.gate_length {
                self.counter = 0;
            }
            let factor = frame_factor(&parameters, self.counter);
            factors.push(factor);
            self.counter = self.counter + 1;
            index = index + 1;
        }
        Some(factors)
    }
}

/// From a fresh start, the cycle position used for the frame at step
/// `frames` is exactly `frames` modulo the cycle length.
proof fn lemma_counter_cycles(p: TranceGateParameters, frames: nat)
    requires
        p.gate_length >= 1,
    ensures
        wrap_counter(p, counter_after(p, 0, frames)) == frames as int % p.gate_length as int,
        counter_after(p, 0, frames) == if frames == 0 {
            0int
        } else {
            (frames - 1) as int % p.gate_length as int + 1
        },
    decreases frames,
{
    let length = p.gate_length as int;
    if frames == 0 {
        assert(0int % length == 0) by {
            vstd::arithmetic::div_mod::lemma_small_mod(0, p.gate_length as nat);
        }
    } else {
        let previous = (frames - 1) as nat;
        lemma_counter_cycles(p, previous);
        let wrapped_previous = previous as int % length;
        vstd::arithmetic::div_mod::lemma_add_mod_noop(previous as int, 1, length);
        if length == 1 {
            vstd::arithmetic::div_mod::lemma_mod_self_0(length);
            assert(frames as int % length == 0) by {
                vstd::arithmetic::div_mod::lemma_small_mod(0, p.gate_length as nat);
            }
        } else {
            vstd::arithmetic::div_mod::lemma_small_mod(1, p.gate_length as nat);
            if wrapped_previous + 1 == length {
                vstd::arithmetic::div_mod::lemma_mod_self_0(length);
            } else {
                vstd::arithmetic::div_mod::lemma_small_mod(
                    (wrapped_previous + 1) as nat,
                    p.gate_length as nat,
                );
            }
        }
    }
}

/// Law: the produced scale sequence is periodic with period `gate_length`.
/// From a fresh start, the frame at step `frames + gate_length` gets
/// exactly the scale of the frame at step `frames`, so processing one full
/// cycle and then another yields identical factor sequences.
pub proof fn lemma_factor_periodic(p: TranceGateParameters, frames: nat)
    requires
        p.gate_length >= 1,
    ensures
        wrap_counter(p, counter_after(p, 0, frames + p.gate_length as nat)) == wrap_counter(
            p,
            counter_after(p, 0, frames),
        ),
        crate::envelope::factor_num(
            p,
            wrap_counter(p, counter_after(p, 0, frames + p.gate_length as nat)),
        ) == crate::envelope::factor_num(p, wrap_counter(p, counter_after(p, 0, frames))),
{
    let length = p.gate_length as int;
    lemma_counter_cycles(p, frames);
    lemma_counter_cycles(p, frames + p.gate_length as nat);
    assert((frames + length) % length == frames as int % length) by {
        vstd::arithmetic::div_mod::lemma_mod_add_multiples_vanish(frames as int, length);
    }
}

} // verus!
