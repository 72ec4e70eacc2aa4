//! Parameter declarations: identity, range, default, step size and
//! smoothing law of the four controls.
//!
//! Validation happens once, at declaration time, and rejects a bad
//! declaration outright instead of clamping it silently, so the audio path
//! never runs on a misconfigured parameter. The gain parameters span the
//! linear gains of -12 dB to +12 dB over a skewed (perceptual) range and
//! smooth logarithmically; offset and skew span [-1.0, 1.0] linearly with a
//! 0.01 step and smooth linearly.

use vstd::prelude::*;
use crate::fixed::FX_ONE;
use crate::smoother::{Law, SMOOTH_LIMIT_FX};

verus! {

/// Linear gain of -12 dB in fixed point (about 0.2512).
pub const GAIN_MIN_FX: i64 = 251_189;

/// Linear gain of +12 dB in fixed point (about 3.9811).
pub const GAIN_MAX_FX: i64 = 3_981_072;

/// The 0.01 step of the offset and skew controls in fixed point.
pub const STEP_HUNDREDTH_FX: i64 = 10_000;

/// Curve-shape factor of the skewed gain ranges, fixed point (about 0.4317):
/// the factor for which the normalized-to-plain warp
/// `min + (max - min) * n^(1/factor)` puts unity gain at the middle of the
/// slider, i.e. `0.5^(1/factor) == (FX_ONE - min) / (max - min)` for the
/// ±12 dB gain range.
pub const GAIN_SKEW_FACTOR_FX: i64 = 431_695;

/// Stable identity of a control.
#[derive(Clone, Copy, PartialEq, Eq, Structural, Debug)]
pub enum ParamId {
    PreGain,
    Offset,
    Skew,
    PostGain,
}

/// Shape of a control's range as the host maps it to a normalized slider:
/// straight, or warped toward a perceptually even sweep by the fixed-point
/// curve factor (the normalized position is raised to `1/factor` before the
/// range is applied; a factor below 1.0 widens the lower end).
#[derive(Clone, Copy, PartialEq, Eq, Structural, Debug)]
pub enum RangeKind {
    Linear,
    Skewed { factor: i64 },
}

/// Why a declaration was rejected.
#[derive(Clone, Copy, PartialEq, Eq, Structural, Debug)]
pub enum ParamError {
    /// The range holds no more than one value.
    EmptyRange,
    /// The default lies outside the range.
    DefaultOutOfRange,
    /// The step size is negative.
    NegativeStep,
    /// A skewed range carries a curve factor that is not positive.
    NonPositiveSkewFactor,
    /// The logarithmic law would take the logarithm of a non-positive gain.
    LogarithmicNeedsPositiveRange,
}

/// Immutable declaration record of one control.
#[derive(Clone, Copy, Debug)]
pub struct ParamDecl {
    pub id: ParamId,
    pub range_kind: RangeKind,
    /// Smallest value, fixed point.
    pub min: i64,
    /// Largest value, fixed point.
    pub max: i64,
    /// Default value, fixed point.
    pub default: i64,
    /// Minimum step, fixed point; 0 means continuous.
    pub step: i64,
    /// Smoothing law of the control.
    pub law: Law,
}

/// What declaration validation returns: the first failed check, in the
/// order the checks run, or the finished record.
pub open spec fn spec_validate(
    id: ParamId,
    range_kind: RangeKind,
    min: i64,
    max: i64,
    default: i64,
    step: i64,
    law: Law,
) -> Result<ParamDecl, ParamError> {
    if min >= max {
        Err(ParamError::EmptyRange)
    } else if !(min <= default && default <= max) {
        Err(ParamError::DefaultOutOfRange)
    } else if step < 0 {
        Err(ParamError::NegativeStep)
    } else if (range_kind matches RangeKind::Skewed { factor } && factor <= 0) {
        Err(ParamError::NonPositiveSkewFactor)
    } else if law is Logarithmic && min <= 0 {
        Err(ParamError::LogarithmicNeedsPositiveRange)
    } else {
        Ok(ParamDecl { id, range_kind, min, max, default, step, law })
    }
}

impl ParamDecl {
    /// A validated declaration: a non-empty range inside the fixed-point
    /// parameter limit, an in-range default, a non-negative step, a positive
    /// curve factor on a skewed range, and a positive range wherever the
    /// logarithmic law applies.
    pub open spec fn wf(self) -> bool {
        &&& -SMOOTH_LIMIT_FX <= self.min < self.max <= SMOOTH_LIMIT_FX
        &&& self.min <= self.default <= self.max
        &&& self.step >= 0
        &&& (self.range_kind matches RangeKind::Skewed { factor } ==> factor > 0)
        &&& (self.law is Logarithmic ==> self.min > 0)
    }

    /// Validates and builds a declaration, failing fast on the first bad
    /// field.
    pub fn new(
        id: ParamId,
        range_kind: RangeKind,
        min: i64,
        max: i64,
        default: i64,
        step: i64,
        law: Law,
    ) -> (r: Result<ParamDecl, ParamError>)
        requires
            -SMOOTH_LIMIT_FX <= min <= SMOOTH_LIMIT_FX,
            -SMOOTH_LIMIT_FX <= max <= SMOOTH_LIMIT_FX,
        ensures
            r == spec_validate(id, range_kind, min, max, default, step, law),
            r matches Ok(d) ==> d.wf(),
    {
        if min >= max {
            Err(ParamError::EmptyRange)
        } else if !(min <= default && default <= max) {
            Err(ParamError::DefaultOutOfRange)
        } else if step < 0 {
            Err(ParamError::NegativeStep)
        } else if (match range_kind {
            RangeKind::Skewed { factor } => factor <= 0,
            RangeKind::Linear => false,
        }) {
            Err(ParamError::NonPositiveSkewFactor)
        } else if matches!(law, Law::Logarithmic) && min <= 0 {
            Err(ParamError::LogarithmicNeedsPositiveRange)
        } else {
            Ok(ParamDecl { id, range_kind, min, max, default, step, law })
        }
    }
}

/// The pre-gain declaration: a skewed ±12 dB gain range with unity default,
/// smoothed logarithmically.
pub fn pregain_decl() -> (d: ParamDecl)
    ensures
        d.wf(),
        d.id == ParamId::PreGain,
        d.range_kind == (RangeKind::Skewed { factor: GAIN_SKEW_FACTOR_FX }),
        d.min == GAIN_MIN_FX,
        d.max == GAIN_MAX_FX,
        d.default == FX_ONE,
        d.step == 0,
        d.law == Law::Logarithmic,
{
    let r = ParamDecl::new(
        ParamId::PreGain,
        RangeKind::Skewed { factor: GAIN_SKEW_FACTOR_FX },
        GAIN_MIN_FX,
        GAIN_MAX_FX,
        FX_ONE,
        0,
        Law::Logarithmic,
    );
    r.unwrap()
}

/// The offset declaration: a linear [-1.0, 1.0] range with a 0.01 step and
/// zero default, smoothed linearly.
pub fn offset_decl() -> (d: ParamDecl)
    ensures
        d.wf(),
        d.id == ParamId::Offset,
        d.range_kind == RangeKind::Linear,
        d.min == -FX_ONE,
        d.max == FX_ONE,
        d.default == 0,
        d.step == STEP_HUNDREDTH_FX,
        d.law == Law::Linear,
{
    let r = ParamDecl::new(
        ParamId::Offset,
        RangeKind::Linear,
        -FX_ONE,
        FX_ONE,
        0,
        STEP_HUNDREDTH_FX,
        Law::Linear,
    );
    r.unwrap()
}

/// The skew declaration: a linear [-1.0, 1.0] range with a 0.01 step and
/// zero default, smoothed linearly.
pub fn skew_decl() -> (d: ParamDecl)
    ensures
        d.wf(),
        d.id == ParamId::Skew,
        d.range_kind == RangeKind::Linear,
        d.min == -FX_ONE,
        d.max == FX_ONE,
        d.default == 0,
        d.step == STEP_HUNDREDTH_FX,
        d.law == Law::Linear,
{
    let r = ParamDecl::new(
        ParamId::Skew,
        RangeKind::Linear,
        -FX_ONE,
        FX_ONE,
        0,
        STEP_HUNDREDTH_FX,
        Law::Linear,
    );
    r.unwrap()
}

/// The post-gain declaration: a skewed ±12 dB gain range with unity default,
/// smoothed logarithmically.
pub fn postgain_decl() -> (d: ParamDecl)
    ensures
        d.wf(),
        d.id == ParamId::PostGain,
        d.range_kind == (RangeKind::Skewed { factor: GAIN_SKEW_FACTOR_FX }),
        d.min == GAIN_MIN_FX,
        d.max == GAIN_MAX_FX,
        d.default == FX_ONE,
        d.step == 0,
        d.law == Law::Logarithmic,
{
    let r = ParamDecl::new(
        ParamId::PostGain,
        RangeKind::Skewed { factor: GAIN_SKEW_FACTOR_FX },
        GAIN_MIN_FX,
        GAIN_MAX_FX,
        FX_ONE,
        0,
        Law::Logarithmic,
    );
    r.unwrap()
}

/// The display name of a control, as the host shows it.
pub fn display_name(id: ParamId) -> (r: &'static str)
    ensures
        id == ParamId::PreGain ==> r@ == "Pre-Gain"@,
        id == ParamId::Offset ==> r@ == "Offset"@,
        id == ParamId::Skew ==> r@ == "Skew"@,
        id == ParamId::PostGain ==> r@ == "Post-Gain"@,
{
    match id {
        ParamId::PreGain => "Pre-Gain",
        ParamId::Offset => "Offset",
        ParamId::Skew => "Skew",
        ParamId::PostGain => "Post-Gain",
    }
}

/// The unit label of a control: the gains are shown in decibels, the
/// offset and skew controls are plain numbers.
pub fn unit_label(id: ParamId) -> (r: &'static str)
    ensures
        id == ParamId::PreGain || id == ParamId::PostGain ==> r@ == "dB"@,
        id == ParamId::Offset || id == ParamId::Skew ==> r@ == ""@,
{
    match id {
        ParamId::PreGain => "dB",
        ParamId::Offset => "",
        ParamId::Skew => "",
        ParamId::PostGain => "dB",
    }
}

} // verus!
