//! Mathematical model of the gain-adaptation loop.
//!
//! [`AgcModel`] mirrors the controller's fields; the spec functions here say,
//! sample by sample, what one processing pass does to the gain and to the
//! frame, and the lemmas state the laws the loop obeys: an empty frame is the
//! identity, a frozen controller only scales, and processing one frame after
//! another equals processing their concatenation.

use vstd::prelude::*;

verus! {

use crate::arith::{f32_mul_bits, f32_div_bits, f32_add_bits, f32_sub_bits};
use crate::bits::{
    f32_is_nan, f32_lt, valid_target_rms, valid_distortion_factor, F32_ONE_BITS, F32_TENTH_BITS,
};

/// Ghost image of a controller: the desired output level, the adaptation
/// step size, the running gain, and whether adaptation is suspended. All
/// numeric fields are IEEE 754 single-precision bit patterns.
pub struct AgcModel {
    pub target_rms: u32,
    pub distortion_factor: u32,
    pub gain: u32,
    pub frozen: bool,
}

impl AgcModel {
    /// The construction-time invariant: the target level is finite and
    /// strictly positive and the distortion factor lies between zero and
    /// one. The gain is deliberately unconstrained: no bound on it is
    /// maintained across processing.
    pub open spec fn wf(self) -> bool {
        valid_target_rms(self.target_rms) && valid_distortion_factor(self.distortion_factor)
    }
}

/// What a sample looks like on the way out: the input scaled by the gain in
/// force when it is reached.
pub open spec fn scaled_sample(m: AgcModel, x: u32) -> u32 {
    f32_mul_bits(x, m.gain)
}

/// The raw multiplicative step for one emitted sample `x`:
/// `1 + distortion_factor * (1 - x*x / target_rms)`, computed in
/// single precision. Below target power the step exceeds one and the gain
/// grows; above target it falls below one and the gain shrinks.
pub open spec fn feedback_step(m: AgcModel, x: u32) -> u32 {
    f32_add_bits(
        F32_ONE_BITS,
        f32_mul_bits(
            m.distortion_factor,
            f32_sub_bits(F32_ONE_BITS, f32_div_bits(f32_mul_bits(x, x), m.target_rms)),
        ),
    )
}

/// The stability floor on the step: a step below one tenth (or a NaN step)
/// is replaced by one tenth, so that an extreme power spike can neither
/// flip the gain's sign nor collapse it to zero in one sample.
pub open spec fn floored_step(z: u32) -> u32 {
    if f32_is_nan(z) || f32_lt(z, F32_TENTH_BITS) {
        F32_TENTH_BITS
    } else {
        z
    }
}

/// The gain after one sample: unchanged while frozen, otherwise multiplied
/// by the floored feedback step computed from the emitted sample.
pub open spec fn gain_after_sample(m: AgcModel, x: u32) -> u32 {
    if m.frozen {
        m.gain
    } else {
        f32_mul_bits(m.gain, floored_step(feedback_step(m, scaled_sample(m, x))))
    }
}

/// The whole controller after one sample: only the gain can move.
pub open spec fn model_after_sample(m: AgcModel, x: u32) -> AgcModel {
    AgcModel { gain: gain_after_sample(m, x), ..m }
}

/// The controller after a frame, the samples taken left to right.
pub open spec fn model_after_frame(m: AgcModel, frame: Seq<u32>) -> AgcModel
    decreases frame.len(),
{
    if frame.len() == 0 {
        m
    } else {
        model_after_frame(model_after_sample(m, frame[0]), frame.drop_first())
    }
}

/// The emitted frame: each sample scaled by the gain in force when it is
/// reached, the gain moving under it sample by sample.
pub open spec fn frame_output(m: AgcModel, frame: Seq<u32>) -> Seq<u32>
    decreases frame.len(),
{
    if frame.len() == 0 {
        Seq::empty()
    } else {
        seq![scaled_sample(m, frame[0])]
            + frame_output(model_after_sample(m, frame[0]), frame.drop_first())
    }
}

/// The output frame is as long as the input frame.
pub proof fn lemma_frame_output_len(m: AgcModel, frame: Seq<u32>)
    ensures
        frame_output(m, frame).len() == frame.len(),
    decreases frame.len(),
{
    if frame.len() > 0 {
        lemma_frame_output_len(model_after_sample(m, frame[0]), frame.drop_first());
    }
}

/// Extending a frame by one sample on the right extends the run by one step
/// on the right: the folds over a frame can be unrolled from either end.
pub proof fn lemma_frame_snoc(m: AgcModel, frame: Seq<u32>, x: u32)
    ensures
        model_after_frame(m, frame.push(x)) == model_after_sample(model_after_frame(m, frame), x),
        frame_output(m, frame.push(x)) == frame_output(m, frame).push(
            scaled_sample(model_after_frame(m, frame), x),
        ),
    decreases frame.len(),
{
    if frame.len() == 0 {
        assert(frame.push(x)[0] == x);
        assert(frame.push(x).drop_first() =~= Seq::<u32>::empty());
        assert(model_after_frame(model_after_sample(m, x), frame.push(x).drop_first())
            == model_after_sample(m, x));
        assert(frame_output(model_after_sample(m, x), frame.push(x).drop_first())
            =~= Seq::<u32>::empty());
        assert(frame_output(m, frame.push(x)) =~= frame_output(m, frame).push(
            scaled_sample(model_after_frame(m, frame), x),
        ));
    } else {
        assert(frame.push(x)[0] == frame[0]);
        assert(frame.push(x).drop_first() =~= frame.drop_first().push(x));
        lemma_frame_snoc(model_after_sample(m, frame[0]), frame.drop_first(), x);
        assert(frame_output(m, frame.push(x)) =~= frame_output(m, frame).push(
            scaled_sample(model_after_frame(m, frame), x),
        ));
    }
}

/// A run never touches the construction parameters or the freeze flag: only
/// the gain moves. In particular the construction-time invariant survives
/// every run.
pub proof fn lemma_frame_preserves_settings(m: AgcModel, frame: Seq<u32>)
    ensures
        model_after_frame(m, frame).target_rms == m.target_rms,
        model_after_frame(m, frame).distortion_factor == m.distortion_factor,
        model_after_frame(m, frame).frozen == m.frozen,
        model_after_frame(m, frame).wf() == m.wf(),
    decreases frame.len(),
{
    if frame.len() > 0 {
        lemma_frame_preserves_settings(model_after_sample(m, frame[0]), frame.drop_first());
    }
}

/// An empty frame is a no-op: the controller, the gain among its fields, is
/// exactly what it was, and nothing is emitted.
pub proof fn lemma_empty_frame(m: AgcModel)
    ensures
        model_after_frame(m, Seq::<u32>::empty()) == m,
        frame_output(m, Seq::<u32>::empty()) == Seq::<u32>::empty(),
{
}

/// While frozen, a run of any frame leaves the whole controller unchanged,
/// and each emitted sample is the input sample scaled by the gain held when
/// the run began.
pub proof fn lemma_frozen_frame(m: AgcModel, frame: Seq<u32>)
    requires
        m.frozen,
    ensures
        model_after_frame(m, frame) == m,
        frame_output(m, frame) == Seq::new(frame.len(), |i: int| f32_mul_bits(frame[i], m.gain)),
    decreases frame.len(),
{
    if frame.len() == 0 {
        assert(frame_output(m, frame) =~= Seq::new(
            frame.len(),
            |i: int| f32_mul_bits(frame[i], m.gain),
        ));
    } else {
        assert(model_after_sample(m, frame[0]) == m);
        lemma_frozen_frame(m, frame.drop_first());
        assert(frame_output(m, frame) =~= Seq::new(
            frame.len(),
            |i: int| f32_mul_bits(frame[i], m.gain),
        ));
    }
}

/// Feeding two frames one after the other is the same as feeding their
/// concatenation: gain state threads sequentially through calls, so a frame
/// boundary leaves no trace.
pub proof fn lemma_frame_concat(m: AgcModel, first: Seq<u32>, second: Seq<u32>)
    ensures
        model_after_frame(m, first + second) == model_after_frame(
            model_after_frame(m, first),
            second,
        ),
        frame_output(m, first + second) == frame_output(m, first) + frame_output(
            model_after_frame(m, first),
            second,
        ),
    decreases first.len(),
{
    if first.len() == 0 {
        assert(first + second =~= second);
        assert(frame_output(m, first) + frame_output(model_after_frame(m, first), second)
            =~= frame_output(m, second));
    } else {
        assert((first + second)[0] == first[0]);
        assert((first + second).drop_first() =~= first.drop_first() + second);
        lemma_frame_concat(model_after_sample(m, first[0]), first.drop_first(), second);
        assert(frame_output(m, first + second) =~= frame_output(m, first) + frame_output(
            model_after_frame(m, first),
            second,
        ));
    }
}

} // verus!
