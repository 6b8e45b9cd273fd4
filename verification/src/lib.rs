//! Single-channel digital automatic gain control (AGC).
//!
//! A [`MonoAgc`] rescales an audio sample stream toward a target output
//! loudness by a per-sample feedback rule. Samples, the target level and the
//! gain are IEEE 754 single-precision values, carried everywhere as their raw
//! 32-bit patterns (`u32`); the [`bits`] module defines what the patterns
//! mean, the [`arith`] module performs the arithmetic on them, and the
//! [`model`] module states what one processing pass does and the laws it
//! obeys.
//!
//! The per-sample multiplicative gain step is clamped from below at one
//! tenth, so that a single extreme power spike can neither flip the gain's
//! sign nor collapse it to zero; see [`model::floored_step`].

pub mod arith;
pub mod bits;
pub mod model;

use vstd::prelude::*;

verus! {

use vstd::pervasive::VecAdditionalExecFns;

use crate::arith::{f32_mul, f32_div, f32_add, f32_sub};
use crate::bits::{
    valid_target_rms, valid_distortion_factor, is_valid_target_rms, is_valid_distortion_factor,
    is_nan, lt_bits, F32_ONE_BITS, F32_TENTH_BITS,
};
use crate::model::{
    AgcModel, floored_step, model_after_frame, frame_output, scaled_sample,
    lemma_frame_snoc, lemma_frame_output_len, lemma_frame_preserves_settings,
};

/// Why construction of a [`MonoAgc`] was refused. Each variant carries the
/// offending value, as the bit pattern that was handed in.
#[derive(Debug, Clone, Copy, PartialEq, Eq, Structural)]
pub enum Error {
    /// The desired output level must be a finite, strictly positive value.
    InvalidTargetRms { value: u32 },
    /// The distortion factor must lie between zero and one inclusive.
    InvalidDistortionFactor { value: u32 },
}

/// AGC for a monaural channel.
///
/// All numeric state is held as IEEE 754 single-precision bit patterns. The
/// target level and the distortion factor are fixed at construction; the
/// gain starts at one and is advanced by [`MonoAgc::process`] while not
/// frozen.
#[derive(Debug)]
pub struct MonoAgc {
    target_rms: u32,
    distortion_factor: u32,
    gain: u32,
    frozen: bool,
}

impl View for MonoAgc {
    type V = AgcModel;

    closed spec fn view(&self) -> AgcModel {
        AgcModel {
            target_rms: self.target_rms,
            distortion_factor: self.distortion_factor,
            gain: self.gain,
            frozen: self.frozen,
        }
    }
}

/// The floor on the per-sample gain step.
fn floor_step(z: u32) -> (r: u32)
    ensures
        r == floored_step(z),
{
    if is_nan(z) || lt_bits(z, F32_TENTH_BITS) {
        F32_TENTH_BITS
    } else {
        z
    }
}

impl MonoAgc {
    /// Makes a new controller from the desired output level (in terms of
    /// RMS power) and the distortion factor, both as single-precision bit
    /// patterns.
    ///
    /// Succeeds exactly when the target is finite and strictly positive and
    /// the distortion factor lies between zero and one inclusive (a NaN
    /// factor lies in no interval and is rejected); the fresh controller
    /// carries a gain of one and is not frozen. The target is checked
    /// first, so when both parameters are bad the target's error is the one
    /// reported.
    pub fn new(target_rms: u32, distortion_factor: u32) -> (r: Result<MonoAgc, Error>)
        ensures
            r is Ok <==> valid_target_rms(target_rms) && valid_distortion_factor(
                distortion_factor,
            ),
            r matches Ok(agc) ==> agc@.wf(),
            r matches Ok(agc) ==> agc@ == (AgcModel {
                target_rms,
                distortion_factor,
                gain: F32_ONE_BITS,
                frozen: false,
            }),
            !valid_target_rms(target_rms) ==> r == Err::<MonoAgc, Error>(
                Error::InvalidTargetRms { value: target_rms },
            ),
            valid_target_rms(target_rms) && !valid_distortion_factor(distortion_factor)
                ==> r == Err::<MonoAgc, Error>(
                Error::InvalidDistortionFactor { value: distortion_factor },
            ),
    {
        if !is_valid_target_rms(target_rms) {
            return Err(Error::InvalidTargetRms { value: target_rms });
        }
        if !is_valid_distortion_factor(distortion_factor) {
            return Err(Error::InvalidDistortionFactor { value: distortion_factor });
        }
        Ok(MonoAgc { target_rms, distortion_factor, gain: F32_ONE_BITS, frozen: false })
    }

    /// Suspends (`true`) or resumes (`false`) gain adaptation; nothing else
    /// moves. While frozen, [`MonoAgc::process`] still scales samples by the
    /// held gain but skips the feedback update entirely.
    pub fn freeze_gain(&mut self, freeze: bool)
        ensures
            final(self)@ == (AgcModel { frozen: freeze, ..old(self)@ }),
    {
        self.frozen = freeze;
    }

    /// Whether gain adaptation is currently suspended.
    pub fn is_gain_frozen(&self) -> (r: bool)
        ensures
            r == self@.frozen,
    {
        self.frozen
    }

    /// The current gain, as a single-precision bit pattern.
    pub fn gain(&self) -> (r: u32)
        ensures
            r == self@.gain,
    {
        self.gain
    }

    /// Applies AGC to a frame, in place and in temporal order: each sample
    /// is overwritten with itself scaled by the gain in force when it is
    /// reached and, unless frozen, the gain is then advanced by the floored
    /// feedback step computed from that emitted sample. The whole effect is
    /// pinned down by [`model_after_frame`] and [`frame_output`]; an empty
    /// frame changes nothing.
    pub fn process(&mut self, samples: &mut Vec<u32>)
        ensures
            final(self)@ == model_after_frame(old(self)@, old(samples)@),
            final(samples)@ == frame_output(old(self)@, old(samples)@),
            final(samples)@.len() == old(samples)@.len(),
            final(self)@.target_rms == old(self)@.target_rms,
            final(self)@.distortion_factor == old(self)@.distortion_factor,
            final(self)@.frozen == old(self)@.frozen,
    {
        let ghost m0 = self@;
        let ghost s0 = samples@;
        let n = samples.len();
        let mut i: usize = 0;
        while i < n
            invariant
                i <= n,
                n == s0.len(),
                samples@.len() == s0.len(),
                self@ == model_after_frame(m0, s0.take(i as int)),
                samples@ == frame_output(m0, s0.take(i as int)) + s0.skip(i as int),
            decreases n - i,
        {
            proof {
                lemma_frame_output_len(m0, s0.take(i as int));
                assert(samples@[i as int] == s0.skip(i as int)[0]);
                assert(s0.skip(i as int)[0] == s0[i as int]);
            }
            let x = samples[i];
            let scaled = f32_mul(x, self.gain);
            samples.set(i, scaled);
            if !self.frozen {
                let power = f32_mul(scaled, scaled);
                let y = f32_div(power, self.target_rms);
                let correction = f32_mul(self.distortion_factor, f32_sub(F32_ONE_BITS, y));
                let z = f32_add(F32_ONE_BITS, correction);
                let step = floor_step(z);
                self.gain = f32_mul(self.gain, step);
            }
            proof {
                let ghost m_i = model_after_frame(m0, s0.take(i as int));
                lemma_frame_snoc(m0, s0.take(i as int), s0[i as int]);
                assert(s0.take(i as int).push(s0[i as int]) =~= s0.take(i as int + 1));
                assert(scaled == scaled_sample(m_i, s0[i as int]));
                assert(samples@ =~= frame_output(m0, s0.take(i as int + 1)) + s0.skip(
                    i as int + 1,
                ));
            }
            i = i + 1;
        }
        proof {
            assert(s0.take(n as int) =~= s0);
            assert(s0.skip(n as int) =~= Seq::<u32>::empty());
            assert(samples@ =~= frame_output(m0, s0));
            lemma_frame_preserves_settings(m0, s0);
        }
    }
}

} // verus!
