//! The processing core: four smoothers and the per-block loop.
//!
//! For each time step of a block the processor advances all four smoothers
//! exactly once, then applies the transfer function to every channel sample
//! of that time step with the skew sign alternating across channels. The
//! host owns the buffer; the core rewrites it in place and keeps no
//! reference to it.

use vstd::prelude::*;
use crate::fixed::FX_ONE;
use crate::params::{
    GAIN_MIN_FX, GAIN_MAX_FX, ParamId, offset_decl, postgain_decl, pregain_decl, skew_decl,
};
use crate::smoother::{
    Law, MAX_SAMPLE_RATE, Smoother, ramp_steps, spec_advance, spec_nth, spec_ramp_steps,
    spec_retargeted,
};
use crate::transfer::{
    MAX_GAIN_FX, MAX_INPUT_FX, process_frame, spec_channel_offset, spec_transfer,
};

verus! {

/// What a processing call reports to the host. This effect holds no tail
/// state, so it always reports `Normal`.
#[derive(Clone, Copy, PartialEq, Eq, Structural, Debug)]
pub enum ProcessStatus {
    /// Processing went through; keep the effect running.
    Normal,
    /// The effect asks to be suspended.
    Suspend,
}

/// The smoothed value a parameter's smoother emits at time step `t` of a
/// block (time steps count from 0; each step advances the smoother once).
pub open spec fn spec_value_at(s: Smoother, t: int) -> int {
    spec_nth(s, (t + 1) as nat).current as int
}

/// A smoother resting on `value` with no ramp running: it was built for
/// `law` and a ramp of `ramp_len` samples, and every `advance` emits `value`
/// until a new target arrives.
pub open spec fn spec_at_rest(s: Smoother, law: Law, value: int, ramp_len: int) -> bool {
    &&& s.law == law
    &&& s.current == value
    &&& s.start == value
    &&& s.target == value
    &&& s.ramp_len == ramp_len
    &&& s.done == s.ramp_len
    &&& s.ratio == FX_ONE
}

/// The run-time state of the effect: one smoother per control.
pub struct Processor {
    pub pregain: Smoother,
    pub offset: Smoother,
    pub skew: Smoother,
    pub postgain: Smoother,
}

/// `v` lies in the declared range of the control `id`.
pub open spec fn spec_in_declared_range(id: ParamId, v: int) -> bool {
    match id {
        ParamId::PreGain => GAIN_MIN_FX <= v <= GAIN_MAX_FX,
        ParamId::Offset => -FX_ONE <= v <= FX_ONE,
        ParamId::Skew => -FX_ONE <= v <= FX_ONE,
        ParamId::PostGain => GAIN_MIN_FX <= v <= GAIN_MAX_FX,
    }
}

impl Processor {
    /// Every smoother is well formed, carries the law its declaration
    /// prescribes, and ramps strictly inside its declared range.
    pub open spec fn wf(self) -> bool {
        &&& self.pregain.wf()
        &&& self.pregain.law is Logarithmic
        &&& GAIN_MIN_FX <= self.pregain.start <= GAIN_MAX_FX
        &&& GAIN_MIN_FX <= self.pregain.target <= GAIN_MAX_FX
        &&& self.offset.wf()
        &&& self.offset.law is Linear
        &&& -FX_ONE <= self.offset.start <= FX_ONE
        &&& -FX_ONE <= self.offset.target <= FX_ONE
        &&& self.skew.wf()
        &&& self.skew.law is Linear
        &&& -FX_ONE <= self.skew.start <= FX_ONE
        &&& -FX_ONE <= self.skew.target <= FX_ONE
        &&& self.postgain.wf()
        &&& self.postgain.law is Logarithmic
        &&& GAIN_MIN_FX <= self.postgain.start <= GAIN_MAX_FX
        &&& GAIN_MIN_FX <= self.postgain.target <= GAIN_MAX_FX
    }

    /// A processor at the declared defaults: unity gains, zero offset and
    /// skew, every ramp as long as 50 ms at the given sample rate, and no
    /// ramp running (each smoother rests on its default until a target
    /// arrives).
    pub fn new(sample_rate: u32) -> (p: Processor)
        requires
            1 <= sample_rate <= MAX_SAMPLE_RATE,
        ensures
            p.wf(),
            spec_at_rest(p.pregain, Law::Logarithmic, FX_ONE as int, spec_ramp_steps(
                sample_rate as int,
            )),
            spec_at_rest(p.offset, Law::Linear, 0, spec_ramp_steps(sample_rate as int)),
            spec_at_rest(p.skew, Law::Linear, 0, spec_ramp_steps(sample_rate as int)),
            spec_at_rest(p.postgain, Law::Logarithmic, FX_ONE as int, spec_ramp_steps(
                sample_rate as int,
            )),
    {
        let n = ramp_steps(sample_rate);
        let pre = pregain_decl();
        let off = offset_decl();
        let sk = skew_decl();
        let post = postgain_decl();
        Processor {
            pregain: Smoother::new(pre.default, pre.law, n),
            offset: Smoother::new(off.default, off.law, n),
            skew: Smoother::new(sk.default, sk.law, n),
            postgain: Smoother::new(post.default, post.law, n),
        }
    }

    /// A processor resting on the given control values, each inside its
    /// declared range: the state reached after any earlier ramps have run
    /// out.
    pub fn with_values(
        sample_rate: u32,
        pregain: i64,
        offset: i64,
        skew: i64,
        postgain: i64,
    ) -> (p: Processor)
        requires
            1 <= sample_rate <= MAX_SAMPLE_RATE,
            spec_in_declared_range(ParamId::PreGain, pregain as int),
            spec_in_declared_range(ParamId::Offset, offset as int),
            spec_in_declared_range(ParamId::Skew, skew as int),
            spec_in_declared_range(ParamId::PostGain, postgain as int),
        ensures
            p.wf(),
            spec_at_rest(p.pregain, Law::Logarithmic, pregain as int, spec_ramp_steps(
                sample_rate as int,
            )),
            spec_at_rest(p.offset, Law::Linear, offset as int, spec_ramp_steps(
                sample_rate as int,
            )),
            spec_at_rest(p.skew, Law::Linear, skew as int, spec_ramp_steps(sample_rate as int)),
            spec_at_rest(p.postgain, Law::Logarithmic, postgain as int, spec_ramp_steps(
                sample_rate as int,
            )),
    {
        let n = ramp_steps(sample_rate);
        Processor {
            pregain: Smoother::new(pregain, Law::Logarithmic, n),
            offset: Smoother::new(offset, Law::Linear, n),
            skew: Smoother::new(skew, Law::Linear, n),
            postgain: Smoother::new(postgain, Law::Logarithmic, n),
        }
    }

    /// Delivers a new automation target for one control; the addressed
    /// smoother restarts its ramp from the value it currently holds, the
    /// other three are untouched.
    pub fn set_target(&mut self, id: ParamId, v: i64)
        requires
            old(self).wf(),
            spec_in_declared_range(id, v as int),
        ensures
            final(self).wf(),
            id == ParamId::PreGain ==> spec_retargeted(old(self).pregain, final(self).pregain, v)
                && final(self).offset == old(self).offset && final(self).skew == old(self).skew
                && final(self).postgain == old(self).postgain,
            id == ParamId::Offset ==> spec_retargeted(old(self).offset, final(self).offset, v)
                && final(self).pregain == old(self).pregain && final(self).skew == old(self).skew
                && final(self).postgain == old(self).postgain,
            id == ParamId::Skew ==> spec_retargeted(old(self).skew, final(self).skew, v)
                && final(self).pregain == old(self).pregain && final(self).offset == old(
                self,
            ).offset && final(self).postgain == old(self).postgain,
            id == ParamId::PostGain ==> spec_retargeted(
                old(self).postgain,
                final(self).postgain,
                v,
            ) && final(self).pregain == old(self).pregain && final(self).offset == old(
                self,
            ).offset && final(self).skew == old(self).skew,
    {
        match id {
            ParamId::PreGain => self.pregain.set_target(v),
            ParamId::Offset => self.offset.set_target(v),
            ParamId::Skew => self.skew.set_target(v),
            ParamId::PostGain => self.postgain.set_target(v),
        }
    }

    /// Processes one block in place. `buffer` holds one inner vector of
    /// channel samples per time step. For every time step the four smoothers
    /// advance exactly once, and every channel sample is rewritten where it
    /// lies by the transfer function with the alternating skew sign — no
    /// allocation happens on the per-sample path; every output sample lies
    /// in the nominal range.
    pub fn process(&mut self, buffer: &mut Vec<Vec<i64>>) -> (st: ProcessStatus)
        requires
            old(self).wf(),
            forall|t: int, c: int|
                0 <= t < old(buffer)@.len() && 0 <= c < old(buffer)@[t]@.len()
                    ==> -MAX_INPUT_FX <= #[trigger] old(buffer)@[t]@[c] <= MAX_INPUT_FX,
        ensures
            st == ProcessStatus::Normal,
            final(self).wf(),
            final(self).pregain == spec_nth(old(self).pregain, old(buffer)@.len() as nat),
            final(self).offset == spec_nth(old(self).offset, old(buffer)@.len() as nat),
            final(self).skew == spec_nth(old(self).skew, old(buffer)@.len() as nat),
            final(self).postgain == spec_nth(old(self).postgain, old(buffer)@.len() as nat),
            final(buffer)@.len() == old(buffer)@.len(),
            forall|t: int|
                0 <= t < old(buffer)@.len() ==> #[trigger] final(buffer)@[t]@.len() == old(
                    buffer,
                )@[t]@.len(),
            forall|t: int, c: int|
                0 <= t < old(buffer)@.len() && 0 <= c < old(buffer)@[t]@.len()
                    ==> #[trigger] final(buffer)@[t]@[c] == spec_transfer(
                    old(buffer)@[t]@[c] as int,
                    spec_value_at(old(self).pregain, t),
                    spec_channel_offset(
                        spec_value_at(old(self).offset, t),
                        spec_value_at(old(self).skew, t),
                        c,
                    ),
                    spec_value_at(old(self).postgain, t),
                ),
            forall|t: int, c: int|
                0 <= t < old(buffer)@.len() && 0 <= c < old(buffer)@[t]@.len() ==> -FX_ONE
                    <= #[trigger] final(buffer)@[t]@[c] <= FX_ONE,
    {
        let len = buffer.len();
        let mut t: usize = 0;
        while t < len
            invariant
                t <= len,
                len == old(buffer)@.len(),
                buffer@.len() == len,
                self.wf(),
                self.pregain == spec_nth(old(self).pregain, t as nat),
                self.offset == spec_nth(old(self).offset, t as nat),
                self.skew == spec_nth(old(self).skew, t as nat),
                self.postgain == spec_nth(old(self).postgain, t as nat),
                forall|j: int| t <= j < len ==> #[trigger] buffer@[j] == old(buffer)@[j],
                forall|j: int, c: int|
                    0 <= j < len && 0 <= c < old(buffer)@[j]@.len()
                        ==> -MAX_INPUT_FX <= #[trigger] old(buffer)@[j]@[c] <= MAX_INPUT_FX,
                forall|j: int|
                    0 <= j < t ==> #[trigger] buffer@[j]@.len() == old(buffer)@[j]@.len(),
                forall|j: int, c: int|
                    0 <= j < t && 0 <= c < old(buffer)@[j]@.len()
                        ==> #[trigger] buffer@[j]@[c] == spec_transfer(
                        old(buffer)@[j]@[c] as int,
                        spec_value_at(old(self).pregain, j),
                        spec_channel_offset(
                            spec_value_at(old(self).offset, j),
                            spec_value_at(old(self).skew, j),
                            c,
                        ),
                        spec_value_at(old(self).postgain, j),
                    ),
                forall|j: int, c: int|
                    0 <= j < t && 0 <= c < old(buffer)@[j]@.len() ==> -FX_ONE
                        <= #[trigger] buffer@[j]@[c] <= FX_ONE,
            decreases len - t,
        {
            proof {
                assert(spec_nth(old(self).pregain, (t + 1) as nat) == spec_advance(
                    spec_nth(old(self).pregain, t as nat),
                ));
                assert(spec_nth(old(self).offset, (t + 1) as nat) == spec_advance(
                    spec_nth(old(self).offset, t as nat),
                ));
                assert(spec_nth(old(self).skew, (t + 1) as nat) == spec_advance(
                    spec_nth(old(self).skew, t as nat),
                ));
                assert(spec_nth(old(self).postgain, (t + 1) as nat) == spec_advance(
                    spec_nth(old(self).postgain, t as nat),
                ));
            }
            let pregain = self.pregain.advance();
            let offset = self.offset.advance();
            let skew = self.skew.advance();
            let postgain = self.postgain.advance();
            process_frame(&mut buffer[t], pregain, offset, skew, postgain);
            t = t + 1;
        }
        ProcessStatus::Normal
    }
}

} // verus!
