//! Tests of the parameter smoothers and the parameter declarations.

use dcc::params::{
    GAIN_MAX_FX, GAIN_MIN_FX, GAIN_SKEW_FACTOR_FX, ParamDecl, ParamError, ParamId, RangeKind,
    STEP_HUNDREDTH_FX, offset_decl, postgain_decl, pregain_decl, skew_decl,
};
use dcc::processor::Processor;
use dcc::smoother::{Law, Smoother, ramp_steps};
use dcc::FX_ONE;

#[test]
fn ramp_length_is_the_ceiling_of_fifty_ms() {
    assert_eq!(ramp_steps(48_000), 2_400);
    assert_eq!(ramp_steps(44_100), 2_205);
    assert_eq!(ramp_steps(48_001), 2_401); // rounds up, never down
    assert_eq!(ramp_steps(1), 1);
}

#[test]
fn linear_ramp_is_monotone_and_lands_exactly() {
    let n = ramp_steps(48_000);
    let mut s = Smoother::new(0, Law::Linear, n);
    s.set_target(FX_ONE);
    let mut prev = 0i64;
    for _ in 0..n {
        let v = s.advance();
        assert!(v >= prev, "linear ramp went backwards");
        assert!(v <= FX_ONE, "linear ramp overshot its target");
        prev = v;
    }
    assert_eq!(prev, FX_ONE); // exactly the target after ceil(50ms * rate) calls
    assert_eq!(s.advance(), FX_ONE); // and it stays there
}

#[test]
fn linear_ramp_exact_early_values() {
    let mut s = Smoother::new(0, Law::Linear, 2_400);
    s.set_target(FX_ONE);
    // value after d steps is start + (target - start) * d / len, truncated
    assert_eq!(s.advance(), FX_ONE / 2_400);
    assert_eq!(s.advance(), FX_ONE * 2 / 2_400);
}

#[test]
fn falling_linear_ramp_never_undershoots() {
    let mut s = Smoother::new(FX_ONE, Law::Linear, 10);
    s.set_target(-FX_ONE);
    let mut prev = FX_ONE;
    for _ in 0..10 {
        let v = s.advance();
        assert!(v <= prev);
        assert!(v >= -FX_ONE);
        prev = v;
    }
    assert_eq!(prev, -FX_ONE);
}

#[test]
fn retargeting_restarts_from_the_current_value() {
    let mut s = Smoother::new(0, Law::Linear, 10);
    s.set_target(FX_ONE);
    for _ in 0..3 {
        s.advance();
    }
    assert_eq!(s.current, 300_000);
    s.set_target(0);
    // the new ramp starts at 0.3 and falls by 0.03 per sample
    assert_eq!(s.advance(), 270_000);
    assert_eq!(s.advance(), 240_000);
}

#[test]
fn logarithmic_ramp_has_equal_ratio_steps() {
    let mut s = Smoother::new(FX_ONE, Law::Logarithmic, 10);
    s.set_target(2 * FX_ONE);
    let ratio = s.ratio;
    assert!(ratio > FX_ONE);
    let mut prev = FX_ONE;
    for k in 0..10 {
        let v = s.advance();
        if k < 9 {
            // every mid-ramp step multiplies by the one per-ramp ratio
            assert_eq!(v, prev * ratio / FX_ONE);
        } else {
            assert_eq!(v, 2 * FX_ONE); // the last step snaps onto the target
        }
        assert!(v >= prev);
        prev = v;
    }
}

#[test]
fn falling_logarithmic_ramp_stays_between_endpoints() {
    let mut s = Smoother::new(GAIN_MAX_FX, Law::Logarithmic, 24);
    s.set_target(GAIN_MIN_FX);
    assert!(s.ratio <= FX_ONE && s.ratio >= 1);
    let mut prev = GAIN_MAX_FX;
    for _ in 0..24 {
        let v = s.advance();
        assert!(v <= prev);
        assert!(v >= GAIN_MIN_FX);
        prev = v;
    }
    assert_eq!(prev, GAIN_MIN_FX);
}

#[test]
fn logarithmic_law_degenerates_to_linear_on_non_positive_endpoints() {
    let mut s = Smoother::new(FX_ONE, Law::Logarithmic, 4);
    s.set_target(-FX_ONE);
    // with a non-positive target the values follow the linear formula
    assert_eq!(s.advance(), FX_ONE - 2 * FX_ONE / 4);
    assert_eq!(s.advance(), FX_ONE - 2 * FX_ONE * 2 / 4);
    assert_eq!(s.advance(), FX_ONE - 2 * FX_ONE * 3 / 4);
    assert_eq!(s.advance(), -FX_ONE);
}

#[test]
fn target_change_mid_block_is_picked_up() {
    let mut p = Processor::new(48_000);
    p.set_target(ParamId::Offset, FX_ONE);
    let mut buffer = vec![vec![0i64, 0i64]; 3];
    p.process(&mut buffer);
    // the offset smoother has advanced three steps of its 2400-sample ramp
    assert_eq!(p.offset.current, FX_ONE * 3 / 2_400);
    // zero input still comes out as zero whatever the offset does
    for frame in &buffer {
        assert_eq!(frame, &vec![0i64, 0i64]);
    }
}

#[test]
fn declarations_match_the_schema() {
    let pre = pregain_decl();
    assert_eq!(pre.id, ParamId::PreGain);
    assert_eq!(pre.range_kind, RangeKind::Skewed { factor: GAIN_SKEW_FACTOR_FX });
    assert_eq!(pre.min, GAIN_MIN_FX);
    assert_eq!(pre.max, GAIN_MAX_FX);
    assert_eq!(pre.default, FX_ONE);
    assert_eq!(pre.step, 0);
    assert_eq!(pre.law, Law::Logarithmic);

    let off = offset_decl();
    assert_eq!(off.id, ParamId::Offset);
    assert_eq!(off.range_kind, RangeKind::Linear);
    assert_eq!(off.min, -FX_ONE);
    assert_eq!(off.max, FX_ONE);
    assert_eq!(off.default, 0);
    assert_eq!(off.step, STEP_HUNDREDTH_FX);
    assert_eq!(off.law, Law::Linear);

    let sk = skew_decl();
    assert_eq!(sk.id, ParamId::Skew);
    assert_eq!(sk.min, -FX_ONE);
    assert_eq!(sk.max, FX_ONE);
    assert_eq!(sk.default, 0);

    let post = postgain_decl();
    assert_eq!(post.id, ParamId::PostGain);
    assert_eq!(post.law, Law::Logarithmic);
    assert_eq!(post.default, FX_ONE);
}

#[test]
fn declaration_validation_fails_fast() {
    // empty range
    let r = ParamDecl::new(ParamId::Offset, RangeKind::Linear, FX_ONE, FX_ONE, 0, 0, Law::Linear);
    assert_eq!(r.unwrap_err(), ParamError::EmptyRange);
    // default outside the range
    let r = ParamDecl::new(
        ParamId::Offset,
        RangeKind::Linear,
        0,
        FX_ONE,
        2 * FX_ONE,
        0,
        Law::Linear,
    );
    assert_eq!(r.unwrap_err(), ParamError::DefaultOutOfRange);
    // negative step
    let r = ParamDecl::new(ParamId::Offset, RangeKind::Linear, 0, FX_ONE, 0, -1, Law::Linear);
    assert_eq!(r.unwrap_err(), ParamError::NegativeStep);
    // a skewed range with a non-positive curve factor
    let r = ParamDecl::new(
        ParamId::PreGain,
        RangeKind::Skewed { factor: 0 },
        GAIN_MIN_FX,
        GAIN_MAX_FX,
        FX_ONE,
        0,
        Law::Logarithmic,
    );
    assert_eq!(r.unwrap_err(), ParamError::NonPositiveSkewFactor);
    // logarithmic smoothing over a range that reaches zero
    let r = ParamDecl::new(
        ParamId::PreGain,
        RangeKind::Skewed { factor: GAIN_SKEW_FACTOR_FX },
        0,
        FX_ONE,
        FX_ONE,
        0,
        Law::Logarithmic,
    );
    assert_eq!(r.unwrap_err(), ParamError::LogarithmicNeedsPositiveRange);
    // a good declaration passes
    let r = ParamDecl::new(
        ParamId::PreGain,
        RangeKind::Skewed { factor: GAIN_SKEW_FACTOR_FX },
        GAIN_MIN_FX,
        GAIN_MAX_FX,
        FX_ONE,
        0,
        Law::Logarithmic,
    );
    assert!(r.is_ok());
}

#[test]
fn smoothed_values_respect_declared_ranges_under_wild_automation() {
    // drive the offset smoother with a new extreme target every sample and
    // watch that no emitted value ever leaves [-1, 1]
    let mut s = Smoother::new(0, Law::Linear, 7);
    let targets = [FX_ONE, -FX_ONE, FX_ONE, FX_ONE, -FX_ONE, 0, -FX_ONE, FX_ONE];
    for (i, &t) in targets.iter().enumerate() {
        s.set_target(t);
        let v = s.advance();
        assert!(-FX_ONE <= v && v <= FX_ONE, "step {i} left the declared range");
    }
}
