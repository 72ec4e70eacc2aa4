//! Tests of the fixed-point helpers, the transfer stage and the block
//! processor.

use dcc::fixed::{clamp_i64, div_trunc_i64, mul_fx};
use dcc::params::{GAIN_MAX_FX, GAIN_MIN_FX};
use dcc::processor::{ProcessStatus, Processor};
use dcc::transfer::{process_frame, transfer_sample};
use dcc::FX_ONE;

/// The reference transfer function, written out over plain integers.
fn reference_transfer(x: i64, pregain: i64, off: i64, postgain: i64) -> i64 {
    let clamp = |v: i64| v.clamp(-FX_ONE, FX_ONE);
    let scale = |a: i64, b: i64| {
        let p = a * b;
        if p >= 0 {
            p / FX_ONE
        } else {
            -((-p) / FX_ONE)
        }
    };
    let shifted = clamp(scale(x, pregain) + off);
    let baseline = clamp(off);
    clamp(scale(shifted - baseline, postgain))
}

#[test]
fn clamp_uses_inclusive_bounds() {
    assert_eq!(clamp_i64(FX_ONE, -FX_ONE, FX_ONE), FX_ONE);
    assert_eq!(clamp_i64(-FX_ONE, -FX_ONE, FX_ONE), -FX_ONE);
    assert_eq!(clamp_i64(FX_ONE + 1, -FX_ONE, FX_ONE), FX_ONE);
    assert_eq!(clamp_i64(-FX_ONE - 1, -FX_ONE, FX_ONE), -FX_ONE);
    assert_eq!(clamp_i64(123, -FX_ONE, FX_ONE), 123);
}

#[test]
fn division_truncates_toward_zero() {
    assert_eq!(div_trunc_i64(7, 2), 3);
    assert_eq!(div_trunc_i64(-7, 2), -3);
    assert_eq!(div_trunc_i64(0, 5), 0);
}

#[test]
fn fixed_point_products() {
    // 3.0 * 2.0 == 6.0
    assert_eq!(mul_fx(3 * FX_ONE, 2 * FX_ONE), 6 * FX_ONE);
    // 0.5 * 0.5 == 0.25
    assert_eq!(mul_fx(FX_ONE / 2, FX_ONE / 2), FX_ONE / 4);
    // -0.5 * 0.5 == -0.25
    assert_eq!(mul_fx(-FX_ONE / 2, FX_ONE / 2), -FX_ONE / 4);
    // multiplying by 1.0 is exact
    assert_eq!(mul_fx(123_456, FX_ONE), 123_456);
}

#[test]
fn output_stays_in_nominal_range_at_extremes() {
    for &x in &[-FX_ONE, -1, 0, 1, FX_ONE] {
        for &g in &[GAIN_MIN_FX, FX_ONE, GAIN_MAX_FX] {
            for &off in &[-2 * FX_ONE, -FX_ONE, 0, FX_ONE, 2 * FX_ONE] {
                let y = transfer_sample(x, g, off, g);
                assert!(-FX_ONE <= y && y <= FX_ONE);
            }
        }
    }
}

#[test]
fn neutral_offset_and_skew_reduce_to_cascaded_gain() {
    let scale = |a: i64, b: i64| {
        let p = a * b;
        if p >= 0 {
            p / FX_ONE
        } else {
            -((-p) / FX_ONE)
        }
    };
    let clamp = |v: i64| v.clamp(-FX_ONE, FX_ONE);
    for &x in &[-FX_ONE, -250_000, 0, 250_000, FX_ONE] {
        let y = transfer_sample(x, GAIN_MAX_FX, 0, GAIN_MIN_FX);
        // with offset = skew = 0 the stage is just clamp(clamp(x * pre) * post)
        let expected = clamp(scale(clamp(scale(x, GAIN_MAX_FX)), GAIN_MIN_FX));
        assert_eq!(y, expected);
        assert_eq!(y, reference_transfer(x, GAIN_MAX_FX, 0, GAIN_MIN_FX));
    }
}

#[test]
fn identity_at_unity_settings() {
    for &x in &[-FX_ONE, -999_999, -1, 0, 1, 417, 999_999, FX_ONE] {
        assert_eq!(transfer_sample(x, FX_ONE, 0, FX_ONE), x);
    }
}

#[test]
fn zero_input_gives_zero_output_for_any_offset() {
    for &off in &[-2 * FX_ONE, -FX_ONE, -300_000, 0, 300_000, FX_ONE, 2 * FX_ONE] {
        assert_eq!(transfer_sample(0, FX_ONE, off, FX_ONE), 0);
    }
}

#[test]
fn loud_input_is_hard_clipped() {
    // an input above full scale comes out at exactly full scale under unity
    // settings
    let mut frame = vec![2 * FX_ONE, -3 * FX_ONE];
    process_frame(&mut frame, FX_ONE, 0, 0, FX_ONE);
    assert_eq!(frame, vec![FX_ONE, -FX_ONE]);
}

#[test]
fn skew_mirrors_between_channels() {
    let skew = 300_000; // 0.3
    let x = 750_000; // 0.75
    let mut frame = vec![x, x];
    process_frame(&mut frame, FX_ONE, 0, skew, FX_ONE);
    // channel 0 sees offset -skew, channel 1 sees offset +skew
    assert_eq!(frame[0], transfer_sample(x, FX_ONE, -skew, FX_ONE));
    assert_eq!(frame[1], transfer_sample(x, FX_ONE, skew, FX_ONE));
    // and the two effective offsets are exact negations of each other
    assert_eq!(
        transfer_sample(x, FX_ONE, -skew, FX_ONE),
        reference_transfer(x, FX_ONE, 0 - skew, FX_ONE)
    );
    assert_eq!(
        transfer_sample(x, FX_ONE, skew, FX_ONE),
        reference_transfer(x, FX_ONE, 0 + skew, FX_ONE)
    );
}

#[test]
fn four_channel_frame_keeps_alternating() {
    let skew = 100_000;
    let x = 500_000;
    let mut frame = vec![x, x, x, x];
    process_frame(&mut frame, FX_ONE, 0, skew, FX_ONE);
    assert_eq!(frame[0], frame[2]);
    assert_eq!(frame[1], frame[3]);
    assert_eq!(frame[0], transfer_sample(x, FX_ONE, -skew, FX_ONE));
    assert_eq!(frame[1], transfer_sample(x, FX_ONE, skew, FX_ONE));
}

#[test]
fn steady_block_scenario() {
    // 48 kHz, four stereo time steps of full-scale samples, unity gains,
    // offset 0.5 and skew 0.3, all pre-ramped:
    // channel 0: off = 0.2, output = clamp(clamp(1.2) - 0.2) = 0.8
    // channel 1: off = 0.8, output = clamp(clamp(1.8) - 0.8) = 0.2
    let mut p = Processor::with_values(48_000, FX_ONE, 500_000, 300_000, FX_ONE);
    let mut buffer = vec![vec![FX_ONE, FX_ONE]; 4];
    let st = p.process(&mut buffer);
    assert_eq!(st, ProcessStatus::Normal);
    for frame in &buffer {
        assert_eq!(frame[0], 800_000);
        assert_eq!(frame[1], 200_000);
    }
}

#[test]
fn empty_block_is_a_no_op() {
    let mut p = Processor::new(44_100);
    let mut buffer: Vec<Vec<i64>> = Vec::new();
    let st = p.process(&mut buffer);
    assert_eq!(st, ProcessStatus::Normal);
    assert!(buffer.is_empty());
}

#[test]
fn default_processor_passes_audio_through() {
    // defaults are unity gain and zero offset/skew, so in-range audio is
    // untouched
    let mut p = Processor::new(48_000);
    let mut buffer = vec![vec![123_456, -654_321], vec![-FX_ONE, FX_ONE]];
    let expected = buffer.clone();
    p.process(&mut buffer);
    assert_eq!(buffer, expected);
}
