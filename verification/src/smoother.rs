//! Parameter smoothing: turning stepwise target changes into per-sample
//! trajectories.
//!
//! A smoother ramps from the value it held when the target was last set to
//! that target over a fixed number of samples (the 50 ms time constant times
//! the sample rate, rounded up). Two laws are available:
//!
//! - **Linear**: the value moves by equal absolute amounts per sample and
//!   lands exactly on the target at the end of the ramp.
//! - **Logarithmic**: the value moves by equal ratios per sample — the
//!   per-ramp ratio is a fixed-point root of the target-to-start quotient —
//!   and snaps exactly onto the target at the end of the ramp. When either
//!   endpoint is non-positive the law degenerates to the linear one, so no
//!   logarithm of a non-positive gain is ever implied.
//!
//! Retargeting mid-ramp restarts the ramp from the value the smoother
//! currently holds, never from the original start, so no discontinuity larger
//! than the new target change itself can occur.

use vstd::prelude::*;
use crate::fixed::{
    FX_ONE, div_trunc_i64, mul_fx, spec_div_trunc, spec_mul_fx, lemma_mul_fx_bound,
    lemma_mul_fx_nonneg, lemma_mul_fx_one, lemma_mul_fx_ratio_direction, lemma_scale_within,
};

verus! {

/// Largest magnitude a smoothed parameter may have (4.0), above every
/// declared parameter range of this effect.
pub const SMOOTH_LIMIT_FX: i64 = 4 * FX_ONE;

/// Largest per-step ratio the logarithmic law may use (16.0).
pub const RATIO_MAX_FX: i64 = 16 * FX_ONE;

/// Saturation bound for the capped fixed-point power used to pick the
/// per-step ratio (8.0, above every reachable target).
pub const POW_CAP_FX: i64 = 8 * FX_ONE;

/// Smoothing time constant in milliseconds.
pub const SMOOTHING_MS: u32 = 50;

/// Largest sample rate accepted, in Hz.
pub const MAX_SAMPLE_RATE: u32 = 10_000_000;

/// Largest ramp length in samples.
pub const MAX_RAMP: u32 = 1_000_000_000;

/// The smoothing law of a parameter.
#[derive(Clone, Copy, PartialEq, Eq, Structural, Debug)]
pub enum Law {
    /// Equal absolute steps per sample.
    Linear,
    /// Equal ratio steps per sample, for gain-like quantities.
    Logarithmic,
}

/// Per-parameter smoothing state.
#[derive(Clone, Copy)]
pub struct Smoother {
    /// The smoothing law.
    pub law: Law,
    /// The value most recently emitted (or the initial value).
    pub current: i64,
    /// The value the running ramp started from.
    pub start: i64,
    /// The value the ramp is heading to.
    pub target: i64,
    /// Full ramp length in samples.
    pub ramp_len: u32,
    /// Samples of the running ramp already emitted.
    pub done: u32,
    /// Fixed-point per-step ratio of the running ramp (logarithmic law).
    pub ratio: i64,
}

/// `v` lies in the closed interval spanned by `a` and `b`, whichever order
/// they come in.
pub open spec fn spec_between(v: int, a: int, b: int) -> bool {
    (a <= b ==> a <= v <= b) && (b <= a ==> b <= v <= a)
}

/// The running ramp is rising (or flat).
pub open spec fn spec_rising(s: Smoother) -> bool {
    s.target >= s.start
}

/// The logarithmic law actually applies: it was requested and both ramp
/// endpoints are positive; otherwise the smoother falls back to the linear
/// law.
pub open spec fn spec_uses_log(s: Smoother) -> bool {
    s.law is Logarithmic && s.start > 0 && s.target > 0
}

/// The linear-law value after `d` of `ramp_len` steps.
pub open spec fn spec_linear_value(s: Smoother, d: int) -> int {
    s.start + spec_div_trunc((s.target - s.start) * d, s.ramp_len as int)
}

/// One logarithmic step: the current value times the per-ramp ratio, clipped
/// at the target so the ramp can never overshoot.
pub open spec fn spec_log_step(s: Smoother) -> int {
    let v = spec_mul_fx(s.current as int, s.ratio as int);
    if spec_rising(s) {
        if v > s.target {
            s.target as int
        } else {
            v
        }
    } else {
        if v < s.target {
            s.target as int
        } else {
            v
        }
    }
}

/// The state transition of one `advance` call.
pub open spec fn spec_advance(s: Smoother) -> Smoother {
    if s.done + 1 >= s.ramp_len {
        Smoother { current: s.target, done: s.ramp_len, ..s }
    } else if spec_uses_log(s) {
        Smoother { current: spec_log_step(s) as i64, done: (s.done + 1) as u32, ..s }
    } else {
        Smoother { current: spec_linear_value(s, s.done + 1) as i64, done: (s.done + 1) as u32, ..s }
    }
}

/// The smoother state after `k` calls of `advance`.
pub open spec fn spec_nth(s: Smoother, k: nat) -> Smoother
    decreases k,
{
    if k == 0 {
        s
    } else {
        spec_advance(spec_nth(s, (k - 1) as nat))
    }
}

impl Smoother {
    /// Well-formed smoother state: the ramp has a positive bounded length,
    /// the bookkeeping counter never passes it, every value lies within the
    /// global parameter limit, the current value lies between the ramp
    /// endpoints, and the stored ratio points in the direction of the ramp.
    pub open spec fn wf(self) -> bool {
        &&& 1 <= self.ramp_len <= MAX_RAMP
        &&& self.done <= self.ramp_len
        &&& -SMOOTH_LIMIT_FX <= self.start <= SMOOTH_LIMIT_FX
        &&& -SMOOTH_LIMIT_FX <= self.target <= SMOOTH_LIMIT_FX
        &&& spec_between(self.current as int, self.start as int, self.target as int)
        &&& 0 < self.ratio <= RATIO_MAX_FX
        &&& (spec_uses_log(self) && spec_rising(self) ==> self.ratio >= FX_ONE)
        &&& (spec_uses_log(self) && !spec_rising(self) ==> self.ratio <= FX_ONE)
    }

    /// A new smoother resting on `initial`: no ramp is running, and every
    /// `advance` emits `initial` until a target is set.
    pub fn new(initial: i64, law: Law, ramp_len: u32) -> (s: Smoother)
        requires
            -SMOOTH_LIMIT_FX <= initial <= SMOOTH_LIMIT_FX,
            1 <= ramp_len <= MAX_RAMP,
        ensures
            s.wf(),
            s.law == law,
            s.current == initial,
            s.start == initial,
            s.target == initial,
            s.ramp_len == ramp_len,
            s.done == ramp_len,
            s.ratio == FX_ONE,
    {
        Smoother {
            law,
            current: initial,
            start: initial,
            target: initial,
            ramp_len,
            done: ramp_len,
            ratio: FX_ONE,
        }
    }

    /// Emits the next value of the trajectory and updates the state, exactly
    /// as `spec_advance` describes.
    pub fn advance(&mut self) -> (v: i64)
        requires
            old(self).wf(),
        ensures
            *final(self) == spec_advance(*old(self)),
            v == final(self).current,
            final(self).wf(),
            spec_between(v as int, old(self).start as int, old(self).target as int),
    {
        proof {
            lemma_advance_wf(*old(self));
        }
        if self.done + 1 >= self.ramp_len {
            self.current = self.target;
            self.done = self.ramp_len;
        } else {
            let use_log = match self.law {
                Law::Logarithmic => self.start > 0 && self.target > 0,
                Law::Linear => false,
            };
            if use_log {
                proof {
                    lemma_mul_fx_bound(
                        self.current as int,
                        self.ratio as int,
                        SMOOTH_LIMIT_FX as int,
                        RATIO_MAX_FX as int,
                    );
                }
                let raw = mul_fx(self.current, self.ratio);
                let stepped = if self.target >= self.start {
                    if raw > self.target {
                        self.target
                    } else {
                        raw
                    }
                } else {
                    if raw < self.target {
                        self.target
                    } else {
                        raw
                    }
                };
                self.current = stepped;
                self.done = self.done + 1;
            } else {
                let delta: i64 = self.target - self.start;
                let dd: i64 = (self.done + 1) as i64;
                let tt: i64 = self.ramp_len as i64;
                proof {
                    assert(-8_000_000_000_000_000 <= delta * dd <= 8_000_000_000_000_000)
                        by (nonlinear_arith)
                        requires
                            -8_000_000 <= delta <= 8_000_000,
                            0 <= dd <= 1_000_000_000,
                    ;
                    lemma_scale_within(delta as int, dd as int, tt as int);
                }
                let stepv = div_trunc_i64(delta * dd, tt);
                self.current = self.start + stepv;
                self.done = self.done + 1;
            }
        }
        self.current
    }
}

/// One multiply of the capped fixed-point power: the accumulator times the
/// ratio, saturated at `POW_CAP_FX`.
pub open spec fn spec_cap_step(acc: int, r: int) -> int {
    let v = spec_mul_fx(acc, r);
    if v > POW_CAP_FX {
        POW_CAP_FX as int
    } else {
        v
    }
}

/// `acc` multiplied `n` times by the fixed-point ratio `r`, saturating at
/// `POW_CAP_FX`: the value a logarithmic ramp of `n` steps would reach from
/// `acc` if it were never clipped at the target.
pub open spec fn spec_pow_cap(acc: int, r: int, n: nat) -> int
    decreases n,
{
    if n == 0 {
        acc
    } else {
        spec_pow_cap(spec_cap_step(acc, r), r, (n - 1) as nat)
    }
}

/// The capped power can also be peeled from the back: one more step is one
/// more multiply of the result.
pub proof fn lemma_pow_cap_snoc(acc: int, r: int, n: nat)
    ensures
        spec_pow_cap(acc, r, n + 1) == spec_cap_step(spec_pow_cap(acc, r, n), r),
    decreases n,
{
    if n == 0 {
        assert(spec_pow_cap(acc, r, 1) == spec_pow_cap(spec_cap_step(acc, r), r, 0));
    } else {
        lemma_pow_cap_snoc(spec_cap_step(acc, r), r, (n - 1) as nat);
        assert(spec_pow_cap(acc, r, n + 1) == spec_pow_cap(spec_cap_step(acc, r), r, n));
        assert(spec_pow_cap(acc, r, n) == spec_pow_cap(spec_cap_step(acc, r), r, (n - 1) as nat));
    }
}

/// A ratio of exactly 1.0 leaves the accumulator unchanged by any number of
/// steps.
pub proof fn lemma_pow_cap_one(acc: int, n: nat)
    requires
        0 <= acc <= POW_CAP_FX,
    ensures
        spec_pow_cap(acc, FX_ONE as int, n) == acc,
    decreases n,
{
    if n > 0 {
        lemma_mul_fx_one(acc);
        lemma_pow_cap_one(acc, (n - 1) as nat);
    }
}

/// A ratio of zero collapses the accumulator to zero after one step.
pub proof fn lemma_pow_cap_zero(acc: int, n: nat)
    requires
        n >= 1,
        acc >= 0,
    ensures
        spec_pow_cap(acc, 0, n) == 0,
    decreases n,
{
    assert(spec_mul_fx(acc, 0) == 0) by {
        assert(acc * 0 == 0) by (nonlinear_arith);
    }
    assert(spec_cap_step(acc, 0) == 0);
    if n == 1 {
        assert(spec_pow_cap(acc, 0, 1) == spec_pow_cap(spec_cap_step(acc, 0), 0, 0));
    } else {
        lemma_pow_cap_zero(spec_cap_step(acc, 0), (n - 1) as nat);
        assert(spec_pow_cap(acc, 0, n) == spec_pow_cap(spec_cap_step(acc, 0), 0, (n - 1) as nat));
    }
}

/// Computes the capped fixed-point power.
fn pow_cap_exec(acc0: i64, r: i64, n: u32) -> (p: i64)
    requires
        0 <= acc0 <= POW_CAP_FX,
        0 <= r <= RATIO_MAX_FX,
    ensures
        p == spec_pow_cap(acc0 as int, r as int, n as nat),
        0 <= p <= POW_CAP_FX,
{
    let mut acc: i64 = acc0;
    let mut k: u32 = 0;
    while k < n
        invariant
            k <= n,
            0 <= acc <= POW_CAP_FX,
            acc == spec_pow_cap(acc0 as int, r as int, k as nat),
            0 <= acc0 <= POW_CAP_FX,
            0 <= r <= RATIO_MAX_FX,
        decreases n - k,
    {
        proof {
            lemma_mul_fx_bound(acc as int, r as int, POW_CAP_FX as int, RATIO_MAX_FX as int);
            lemma_mul_fx_nonneg(acc as int, r as int);
            lemma_pow_cap_snoc(acc0 as int, r as int, k as nat);
        }
        let m = mul_fx(acc, r);
        acc = if m > POW_CAP_FX {
            POW_CAP_FX
        } else {
            m
        };
        k = k + 1;
    }
    acc
}

/// `r` is the per-step ratio chosen for a logarithmic ramp from `start` to
/// `target` over `n` steps: the fixed-point value whose `n`-th capped power
/// from `start` brackets the target as tightly as one fixed-point unit
/// allows, pointing in the direction of the ramp.
pub open spec fn spec_ratio_bracket(start: int, target: int, n: nat, r: int) -> bool {
    if target >= start {
        &&& FX_ONE <= r <= RATIO_MAX_FX
        &&& spec_pow_cap(start, r, n) <= target
        &&& (r == RATIO_MAX_FX || spec_pow_cap(start, r + 1, n) > target)
    } else {
        &&& 1 <= r <= FX_ONE
        &&& spec_pow_cap(start, r, n) >= target
        &&& (r == 1 || spec_pow_cap(start, r - 1, n) < target)
    }
}

/// Picks the per-step ratio for a logarithmic ramp by binary search on the
/// capped fixed-point power.
fn step_ratio(start: i64, target: i64, n: u32) -> (r: i64)
    requires
        0 < start <= SMOOTH_LIMIT_FX,
        0 < target <= SMOOTH_LIMIT_FX,
        1 <= n,
    ensures
        spec_ratio_bracket(start as int, target as int, n as nat, r as int),
{
    if target >= start {
        let top = pow_cap_exec(start, RATIO_MAX_FX, n);
        if top <= target {
            return RATIO_MAX_FX;
        }
        proof {
            lemma_pow_cap_one(start as int, n as nat);
        }
        let mut lo: i64 = FX_ONE;
        let mut hi: i64 = RATIO_MAX_FX;
        while lo + 1 < hi
            invariant
                FX_ONE <= lo < hi <= RATIO_MAX_FX,
                0 < start <= SMOOTH_LIMIT_FX,
                0 < target <= SMOOTH_LIMIT_FX,
                1 <= n,
                start <= target,
                spec_pow_cap(start as int, lo as int, n as nat) <= target,
                spec_pow_cap(start as int, hi as int, n as nat) > target,
            decreases hi - lo,
        {
            let mid = lo + div_trunc_i64(hi - lo, 2);
            proof {
                vstd::arithmetic::div_mod::lemma_div_is_strictly_smaller(hi - lo, 2);
                vstd::arithmetic::div_mod::lemma_div_pos_is_pos(hi - lo, 2);
                vstd::arithmetic::div_mod::lemma_div_is_ordered(2, hi - lo, 2);
            }
            let p = pow_cap_exec(start, mid, n);
            if p <= target {
                lo = mid;
            } else {
                hi = mid;
            }
        }
        lo
    } else {
        proof {
            lemma_pow_cap_zero(start as int, n as nat);
            lemma_pow_cap_one(start as int, n as nat);
        }
        let mut lo: i64 = 0;
        let mut hi: i64 = FX_ONE;
        while lo + 1 < hi
            invariant
                0 <= lo < hi <= FX_ONE,
                0 < start <= SMOOTH_LIMIT_FX,
                0 < target < start,
                1 <= n,
                spec_pow_cap(start as int, lo as int, n as nat) < target,
                spec_pow_cap(start as int, hi as int, n as nat) >= target,
            decreases hi - lo,
        {
            let mid = lo + div_trunc_i64(hi - lo, 2);
            proof {
                vstd::arithmetic::div_mod::lemma_div_is_strictly_smaller(hi - lo, 2);
                vstd::arithmetic::div_mod::lemma_div_pos_is_pos(hi - lo, 2);
                vstd::arithmetic::div_mod::lemma_div_is_ordered(2, hi - lo, 2);
            }
            let p = pow_cap_exec(start, mid, n);
            if p < target {
                lo = mid;
            } else {
                hi = mid;
            }
        }
        hi
    }
}

/// How a retargeted smoother `b` relates to its old state `a`: the
/// configuration stays, the new ramp starts from the value the smoother held
/// and runs from scratch toward `t`, and the per-step ratio is the
/// bracketing fixed-point root under the effective logarithmic law or 1.0
/// otherwise.
pub open spec fn spec_retargeted(a: Smoother, b: Smoother, t: i64) -> bool {
    &&& b.law == a.law
    &&& b.ramp_len == a.ramp_len
    &&& b.current == a.current
    &&& b.start == a.current
    &&& b.target == t
    &&& b.done == 0
    &&& (spec_uses_log(b) ==> spec_ratio_bracket(
        a.current as int,
        t as int,
        a.ramp_len as nat,
        b.ratio as int,
    ))
    &&& (!spec_uses_log(b) ==> b.ratio == FX_ONE)
}

impl Smoother {
    /// Starts a new ramp toward `t` from the value the smoother currently
    /// holds. Under the effective logarithmic law the per-step ratio is the
    /// bracketing fixed-point root picked by `spec_ratio_bracket`; otherwise
    /// it is reset to 1.0.
    pub fn set_target(&mut self, t: i64)
        requires
            old(self).wf(),
            -SMOOTH_LIMIT_FX <= t <= SMOOTH_LIMIT_FX,
        ensures
            final(self).wf(),
            spec_retargeted(*old(self), *final(self), t),
    {
        self.start = self.current;
        self.target = t;
        self.done = 0;
        let use_log = match self.law {
            Law::Logarithmic => self.start > 0 && self.target > 0,
            Law::Linear => false,
        };
        self.ratio = if use_log {
            step_ratio(self.start, self.target, self.ramp_len)
        } else {
            FX_ONE
        };
    }
}

/// `spec_advance` preserves well-formedness, keeps every field but the value
/// and the counter, and emits a value between the ramp endpoints.
pub proof fn lemma_advance_wf(s: Smoother)
    requires
        s.wf(),
    ensures
        spec_advance(s).wf(),
        spec_advance(s).law == s.law,
        spec_advance(s).start == s.start,
        spec_advance(s).target == s.target,
        spec_advance(s).ramp_len == s.ramp_len,
        spec_advance(s).ratio == s.ratio,
        spec_between(spec_advance(s).current as int, s.start as int, s.target as int),
{
    if s.done + 1 >= s.ramp_len {
    } else if spec_uses_log(s) {
        lemma_mul_fx_nonneg(s.current as int, s.ratio as int);
        lemma_mul_fx_ratio_direction(s.current as int, s.ratio as int);
        lemma_mul_fx_bound(
            s.current as int,
            s.ratio as int,
            SMOOTH_LIMIT_FX as int,
            RATIO_MAX_FX as int,
        );
    } else {
        lemma_scale_within(s.target - s.start, s.done + 1, s.ramp_len as int);
    }
}

/// Ramp length in samples for a sample rate: the 50 ms time constant times
/// the sample rate, rounded up to a whole sample.
pub open spec fn spec_ramp_steps(sample_rate: int) -> int {
    (sample_rate * SMOOTHING_MS + 999) / 1000
}

/// Computes the ramp length for a sample rate; the result is the exact
/// ceiling of `SMOOTHING_MS / 1000 * sample_rate`.
pub fn ramp_steps(sample_rate: u32) -> (n: u32)
    requires
        1 <= sample_rate <= MAX_SAMPLE_RATE,
    ensures
        n == spec_ramp_steps(sample_rate as int),
        1 <= n <= MAX_RAMP,
        1000 * n >= SMOOTHING_MS * sample_rate,
        1000 * (n - 1) < SMOOTHING_MS * sample_rate,
{
    (sample_rate * SMOOTHING_MS + 999) / 1000
}

/// What holds after any number of `advance` calls on a freshly retargeted
/// smoother: the configuration fields never change, the step counter counts
/// the calls, the ramp lands exactly on the target after `ramp_len` calls,
/// and under the linear law every intermediate value follows the closed
/// formula.
pub proof fn lemma_nth_invariant(s: Smoother, k: nat)
    requires
        s.wf(),
        s.done == 0,
        s.current == s.start,
        k <= s.ramp_len,
    ensures
        spec_nth(s, k).wf(),
        spec_nth(s, k).law == s.law,
        spec_nth(s, k).start == s.start,
        spec_nth(s, k).target == s.target,
        spec_nth(s, k).ramp_len == s.ramp_len,
        spec_nth(s, k).ratio == s.ratio,
        spec_nth(s, k).done == k,
        k == s.ramp_len ==> spec_nth(s, k).current == s.target,
        !spec_uses_log(s) && k < s.ramp_len ==> spec_nth(s, k).current as int == spec_linear_value(
            s,
            k as int,
        ),
    decreases k,
{
    if k == 0 {
        assert((s.target - s.start) * 0 == 0) by (nonlinear_arith);
        if s.ramp_len >= 1 {
            vstd::arithmetic::div_mod::lemma_div_of0(s.ramp_len as int);
        }
    } else {
        lemma_nth_invariant(s, (k - 1) as nat);
        let p = spec_nth(s, (k - 1) as nat);
        lemma_advance_wf(p);
        assert(spec_nth(s, k) == spec_advance(p));
        if k < s.ramp_len && !spec_uses_log(s) {
            lemma_scale_within(s.target - s.start, k as int, s.ramp_len as int);
        }
    }
}

/// Convergence: a freshly retargeted smoother emits exactly its target on
/// the `ramp_len`-th call of `advance`, under either law.
pub proof fn lemma_converges_at_ramp_end(s: Smoother)
    requires
        s.wf(),
        s.done == 0,
        s.current == s.start,
    ensures
        spec_nth(s, s.ramp_len as nat).current == s.target,
{
    lemma_nth_invariant(s, s.ramp_len as nat);
}

/// Monotone approach of the linear law: on a rising ramp every advanced
/// value is at least its predecessor and never exceeds the target.
pub proof fn lemma_linear_monotone(s: Smoother, k: nat)
    requires
        s.wf(),
        !spec_uses_log(s),
        s.done == 0,
        s.current == s.start,
        s.start <= s.target,
        k + 1 <= s.ramp_len,
    ensures
        spec_nth(s, k).current <= spec_nth(s, (k + 1) as nat).current,
        spec_nth(s, (k + 1) as nat).current <= s.target,
{
    lemma_nth_invariant(s, k);
    lemma_nth_invariant(s, (k + 1) as nat);
    let delta = s.target - s.start;
    let t = s.ramp_len as int;
    if k + 1 == s.ramp_len {
        // the last call snaps onto the target, and the predecessor is below
        // it by well-formedness
    } else {
        assert(delta * (k as int) <= delta * (k + 1)) by (nonlinear_arith)
            requires
                delta >= 0,
        ;
        assert(delta * (k as int) >= 0) by (nonlinear_arith)
            requires
                delta >= 0,
        ;
        vstd::arithmetic::div_mod::lemma_div_is_ordered(
            delta * (k as int),
            delta * (k + 1),
            t,
        );
        vstd::arithmetic::div_mod::lemma_div_pos_is_pos(delta * (k as int), t);
        vstd::arithmetic::div_mod::lemma_div_pos_is_pos(delta * (k + 1), t);
        lemma_scale_within(delta, k as int + 1, t);
    }
}

/// Equal-ratio steps of the logarithmic law: away from the final snap, every
/// advanced value is the previous value times the one per-ramp ratio (clipped
/// at the target), with the same ratio at every step of the ramp.
pub proof fn lemma_log_equal_ratio(s: Smoother, k: nat)
    requires
        s.wf(),
        spec_uses_log(s),
        s.done == 0,
        s.current == s.start,
        k + 1 < s.ramp_len,
    ensures
        spec_nth(s, k).ratio == s.ratio,
        spec_nth(s, (k + 1) as nat).ratio == s.ratio,
        spec_nth(s, (k + 1) as nat).current as int == spec_log_step(spec_nth(s, k)),
{
    lemma_nth_invariant(s, k);
    let p = spec_nth(s, k);
    lemma_advance_wf(p);
    lemma_mul_fx_bound(
        p.current as int,
        p.ratio as int,
        SMOOTH_LIMIT_FX as int,
        RATIO_MAX_FX as int,
    );
    assert(spec_nth(s, (k + 1) as nat) == spec_advance(p));
}

/// Range invariant: whatever the step size or target discontinuity, an
/// `advance` of a smoother whose ramp endpoints lie in a declared range
/// emits a value inside that range.
pub proof fn lemma_smoothed_value_in_declared_range(s: Smoother, lo: int, hi: int)
    requires
        s.wf(),
        lo <= s.start as int <= hi,
        lo <= s.target as int <= hi,
    ensures
        spec_advance(s).wf(),
        lo <= spec_advance(s).current as int <= hi,
{
    lemma_advance_wf(s);
}

} // verus!
