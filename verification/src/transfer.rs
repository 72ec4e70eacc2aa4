//! The per-sample transfer function and the per-time-step channel loop.
//!
//! For one time step the stage receives the four freshly smoothed control
//! values. Each channel sample `x` is mapped with an effective offset
//! `off = offset - signed_skew`, where the skew sign starts positive on
//! channel 0 and flips after every channel:
//!
//! ```text
//! shifted  = clamp(x * pregain + off, -1, 1)
//! baseline = clamp(off, -1, 1)
//! y        = clamp((shifted - baseline) * postgain, -1, 1)
//! ```
//!
//! The subtraction of `baseline` re-centers the clipped waveform so that a
//! zero input yields a zero output whatever the offset and skew are.

use vstd::prelude::*;
use crate::fixed::{FX_ONE, clamp_i64, mul_fx, spec_clamp, spec_mul_fx};

verus! {

/// Largest input amplitude the stage accepts (one million times full scale);
/// keeps every intermediate product inside `i64`.
pub const MAX_INPUT_FX: i64 = 1_000_000 * FX_ONE;

/// Largest linear gain the stage accepts (4.0), above the +12 dB ceiling of
/// the gain parameters (a linear gain just under 3.99).
pub const MAX_GAIN_FX: i64 = 4 * FX_ONE;

/// Clamping to the nominal amplitude range [-1.0, 1.0].
pub open spec fn spec_unit_clamp(x: int) -> int {
    spec_clamp(x, -(FX_ONE as int), FX_ONE as int)
}

/// The transfer function for one channel sample, given the already signed
/// effective offset `off`.
pub open spec fn spec_transfer(x: int, pregain: int, off: int, postgain: int) -> int {
    let shifted = spec_unit_clamp(spec_mul_fx(x, pregain) + off);
    let baseline = spec_unit_clamp(off);
    spec_unit_clamp(spec_mul_fx(shifted - baseline, postgain))
}

/// The effective offset seen by a channel: the skew is subtracted on even
/// channel indices and added on odd ones (the running sign starts at `+skew`
/// and flips after each channel).
pub open spec fn spec_channel_offset(offset: int, skew: int, channel: int) -> int {
    if channel % 2 == 0 {
        offset - skew
    } else {
        offset + skew
    }
}

/// Applies the transfer function to one sample.
pub fn transfer_sample(x: i64, pregain: i64, off: i64, postgain: i64) -> (y: i64)
    requires
        -MAX_INPUT_FX <= x <= MAX_INPUT_FX,
        0 < pregain <= MAX_GAIN_FX,
        -2 * FX_ONE <= off <= 2 * FX_ONE,
        0 < postgain <= MAX_GAIN_FX,
    ensures
        y == spec_transfer(x as int, pregain as int, off as int, postgain as int),
        -FX_ONE <= y <= FX_ONE,
{
    proof {
        crate::fixed::lemma_mul_fx_bound(
            x as int,
            pregain as int,
            MAX_INPUT_FX as int,
            MAX_GAIN_FX as int,
        );
    }
    let scaled: i64 = mul_fx(x, pregain);
    let shifted: i64 = clamp_i64(scaled + off, -FX_ONE, FX_ONE);
    let baseline: i64 = clamp_i64(off, -FX_ONE, FX_ONE);
    proof {
        crate::fixed::lemma_mul_fx_bound(
            shifted - baseline,
            postgain as int,
            2 * FX_ONE as int,
            MAX_GAIN_FX as int,
        );
    }
    clamp_i64(mul_fx(shifted - baseline, postgain), -FX_ONE, FX_ONE)
}

/// Applies the transfer function in place to every channel of one time
/// step, with the skew sign alternating across channels. No allocation
/// happens: each sample is rewritten where it lies.
pub fn process_frame(frame: &mut Vec<i64>, pregain: i64, offset: i64, skew: i64, postgain: i64)
    requires
        forall|c: int|
            0 <= c < old(frame)@.len() ==> -MAX_INPUT_FX <= #[trigger] old(frame)@[c]
                <= MAX_INPUT_FX,
        0 < pregain <= MAX_GAIN_FX,
        -FX_ONE <= offset <= FX_ONE,
        -FX_ONE <= skew <= FX_ONE,
        0 < postgain <= MAX_GAIN_FX,
    ensures
        final(frame)@.len() == old(frame)@.len(),
        forall|c: int|
            0 <= c < old(frame)@.len() ==> #[trigger] final(frame)@[c] == spec_transfer(
                old(frame)@[c] as int,
                pregain as int,
                spec_channel_offset(offset as int, skew as int, c),
                postgain as int,
            ),
        forall|c: int| 0 <= c < final(frame)@.len() ==> -FX_ONE <= #[trigger] final(frame)@[c] <= FX_ONE,
{
    let len = frame.len();
    let mut signed_skew: i64 = skew;
    let mut c: usize = 0;
    while c < len
        invariant
            c <= len,
            len == old(frame)@.len(),
            frame@.len() == len,
            signed_skew == if c % 2 == 0 {
                skew as int
            } else {
                -(skew as int)
            },
            forall|i: int| c <= i < len ==> #[trigger] frame@[i] == old(frame)@[i],
            forall|i: int|
                0 <= i < len ==> -MAX_INPUT_FX <= #[trigger] old(frame)@[i] <= MAX_INPUT_FX,
            0 < pregain <= MAX_GAIN_FX,
            -FX_ONE <= offset <= FX_ONE,
            -FX_ONE <= skew <= FX_ONE,
            0 < postgain <= MAX_GAIN_FX,
            forall|i: int|
                0 <= i < c ==> #[trigger] frame@[i] == spec_transfer(
                    old(frame)@[i] as int,
                    pregain as int,
                    spec_channel_offset(offset as int, skew as int, i),
                    postgain as int,
                ),
            forall|i: int| 0 <= i < c ==> -FX_ONE <= #[trigger] frame@[i] <= FX_ONE,
        decreases len - c,
    {
        let x: i64 = frame[c];
        let off: i64 = offset - signed_skew;
        let y: i64 = transfer_sample(x, pregain, off, postgain);
        frame[c] = y;
        signed_skew = -signed_skew;
        c = c + 1;
    }
}

/// With a neutral offset and skew the effective offset of every channel is
/// zero, and the transfer function reduces to plain cascaded gain and
/// clipping: `clamp(clamp(x * pregain) * postgain)`.
pub proof fn lemma_neutral_reduces_to_gain(x: int, pregain: int, postgain: int)
    ensures
        forall|c: int| #[trigger] spec_channel_offset(0, 0, c) == 0,
        spec_transfer(x, pregain, 0, postgain) == spec_unit_clamp(
            spec_mul_fx(spec_unit_clamp(spec_mul_fx(x, pregain)), postgain),
        ),
{
}

/// With a neutral offset and a non-zero skew, consecutive channels see
/// mirrored effective offsets: the offset of every odd channel is the
/// negation of the offset of the even channel before it. With any offset,
/// the offsets of a stereo pair average to exactly the configured offset.
pub proof fn lemma_skew_mirrors_across_channels(offset: int, skew: int)
    ensures
        spec_channel_offset(0, skew, 0) == -skew,
        spec_channel_offset(0, skew, 1) == skew,
        forall|c: int|
            c % 2 == 0 ==> #[trigger] spec_channel_offset(0, skew, c + 1) == -spec_channel_offset(
                0,
                skew,
                c,
            ),
        spec_channel_offset(offset, skew, 0) + spec_channel_offset(offset, skew, 1) == 2 * offset,
{
}

/// A zero input comes out as exactly zero whatever the gains, offset and
/// skew are: the baseline subtraction removes the DC bias the shift would
/// otherwise leak into the output.
pub proof fn lemma_zero_in_zero_out(pregain: int, off: int, postgain: int)
    ensures
        spec_transfer(0, pregain, off, postgain) == 0,
{
    assert(spec_mul_fx(0, pregain) == 0) by {
        assert(0 * pregain == 0) by (nonlinear_arith);
    }
    assert(spec_mul_fx(0, postgain) == 0) by {
        assert(0 * postgain == 0) by (nonlinear_arith);
    }
}

/// With unity gains and neutral offset and skew, the transfer function is the
/// identity on every sample already inside the nominal range.
pub proof fn lemma_identity_on_in_range(x: int)
    requires
        -FX_ONE <= x <= FX_ONE,
    ensures
        spec_transfer(x, FX_ONE as int, 0, FX_ONE as int) == x,
{
    crate::fixed::lemma_mul_fx_one(x);
}

} // verus!
