//! Sample-rate conversion over interleaved PCM frames.
//!
//! The resampler maps each output frame at the target rate to the source
//! frame at the same instant, rounding down (a zero-order index map).  When
//! the source and target rates coincide the stage is bypassed entirely.

use vstd::prelude::*;

verus! {

#[derive(Debug, Clone)]
pub enum AudioResamplerError {
    InitializationFailed(i32),
    InvalidChannels(u32),
    InvalidSampleRate(u32),
    InvalidOperation(i32),
    ProcessFailed(i32),
    BufferSizeMismatch(u64, u64),
}

/// A rate-conversion stage between `sample_rate` (the source) and
/// `target_sample_rate`.
#[derive(Clone)]
pub struct AudioResampler {
    pub channels: u32,
    pub sample_rate: u32,
    pub target_sample_rate: u32,
}

/// How many source frames are consumed to produce `out` target frames:
/// `out * src / dst`, rounded up.
pub open spec fn spec_required_input(out: int, src: int, dst: int) -> int {
    (out * src + dst - 1) / dst
}

/// How many target frames `inn` source frames yield: `inn * dst / src`,
/// rounded down.
pub open spec fn spec_expected_output(inn: int, src: int, dst: int) -> int {
    inn * dst / src
}

/// The source frame that output frame `j` reads from.
pub open spec fn spec_source_frame(j: int, src: int, dst: int) -> int {
    j * src / dst
}

/// Every output frame below the expected output count reads from a source
/// frame that was actually provided.
proof fn lemma_source_frame_in_range(j: int, inn: int, src: int, dst: int)
    requires
        src >= 1,
        dst >= 1,
        inn >= 0,
        0 <= j < spec_expected_output(inn, src, dst),
    ensures
        0 <= spec_source_frame(j, src, dst) < inn,
{
    vstd::arithmetic::div_mod::lemma_div_pos_is_pos(j * src, dst);
    assert(j * src >= 0) by (nonlinear_arith)
        requires
            j >= 0,
            src >= 1,
    ;
    let e = inn * dst / src;
    vstd::arithmetic::div_mod::lemma_fundamental_div_mod(inn * dst, src);
    vstd::arithmetic::div_mod::lemma_mod_bound(inn * dst, src);
    assert(e * src <= inn * dst) by (nonlinear_arith)
        requires
            inn * dst == src * e + (inn * dst) % src,
            (inn * dst) % src >= 0,
    ;
    assert((j + 1) * src <= e * src) by (nonlinear_arith)
        requires
            j + 1 <= e,
            src >= 1,
    ;
    assert(j * src <= inn * dst - src) by (nonlinear_arith)
        requires
            (j + 1) * src <= inn * dst,
    ;
    vstd::arithmetic::div_mod::lemma_div_is_ordered(j * src, inn * dst - src, dst);
    assert((inn * dst - src) / dst == inn + (-src) / dst) by {
        vstd::arithmetic::div_mod::lemma_hoist_over_denominator(-src, inn, dst as nat);
        assert(inn * dst == dst * inn);
    }
    assert((-src) / dst <= -1) by {
        vstd::arithmetic::div_mod::lemma_fundamental_div_mod(-src, dst);
        vstd::arithmetic::div_mod::lemma_mod_bound(-src, dst);
        let q = (-src) / dst;
        assert(dst * q == -src - ((-src) % dst));
        assert(dst * q <= -1);
        assert(q <= -1) by (nonlinear_arith)
            requires
                dst * q <= -1,
                dst >= 1,
        ;
    }
}

/// The input requirement tracks the rate ratio to within one target-rate
/// frame: `required * dst` lands in `[out * src, out * src + dst)`, and when
/// the two rates coincide the requirement is exactly the output count.
pub proof fn lemma_required_input_ratio(out: int, src: int, dst: int)
    requires
        src >= 1,
        dst >= 1,
        out >= 0,
    ensures
        spec_required_input(out, src, dst) * dst >= out * src,
        spec_required_input(out, src, dst) * dst < out * src + dst,
        src == dst ==> spec_required_input(out, src, dst) == out,
{
    let req = spec_required_input(out, src, dst);
    vstd::arithmetic::div_mod::lemma_fundamental_div_mod(out * src + dst - 1, dst);
    vstd::arithmetic::div_mod::lemma_mod_bound(out * src + dst - 1, dst);
    let r = (out * src + dst - 1) % dst;
    assert(req * dst == out * src + dst - 1 - r) by (nonlinear_arith)
        requires
            out * src + dst - 1 == dst * req + r,
    ;
    if src == dst {
        assert((out * dst + dst - 1) / dst == out + (dst - 1) / dst) by {
            vstd::arithmetic::div_mod::lemma_hoist_over_denominator(dst - 1, out, dst as nat);
            assert(out * dst == dst * out);
        }
        vstd::arithmetic::div_mod::lemma_basic_div(dst - 1, dst);
    }
}

impl AudioResampler {
    pub open spec fn wf(&self) -> bool {
        &&& 1 <= self.channels <= 8
        &&& 8000 <= self.sample_rate <= 192000
        &&& self.target_sample_rate >= 1
    }

    /// A resampler for `channels`-channel frames, initially bypassed
    /// (target rate equal to the source rate).
    pub fn new(channels: u32, sample_rate: u32) -> (r: Result<
        AudioResampler,
        AudioResamplerError,
    >)
        ensures
            !(1 <= channels <= 8) ==> r == Err::<AudioResampler, AudioResamplerError>(
                AudioResamplerError::InvalidChannels(channels),
            ),
            1 <= channels <= 8 && !(8000 <= sample_rate <= 192000) ==> r == Err::<
                AudioResampler,
                AudioResamplerError,
            >(AudioResamplerError::InvalidSampleRate(sample_rate)),
            1 <= channels <= 8 && 8000 <= sample_rate <= 192000 ==> r == Ok::<
                AudioResampler,
                AudioResamplerError,
            >(AudioResampler { channels, sample_rate, target_sample_rate: sample_rate }),
    {
        if channels < 1 || channels > 8 {
            return Err(AudioResamplerError::InvalidChannels(channels));
        }
        if sample_rate < 8000 || sample_rate > 192000 {
            return Err(AudioResamplerError::InvalidSampleRate(sample_rate));
        }
        Ok(AudioResampler { channels, sample_rate, target_sample_rate: sample_rate })
    }

    /// The stage is a no-op exactly when the two rates coincide.
    pub fn bypass_mode(&self) -> (r: bool)
        ensures
            r == (self.sample_rate == self.target_sample_rate),
    {
        self.sample_rate == self.target_sample_rate
    }

    /// Retargets the output rate.  A zero rate is ignored, so the stage
    /// always has a positive target rate.
    pub fn set_target_sample_rate(&mut self, target_sample_rate: u32)
        ensures
            final(self).channels == old(self).channels,
            final(self).sample_rate == old(self).sample_rate,
            target_sample_rate >= 1 ==> final(self).target_sample_rate == target_sample_rate,
            target_sample_rate == 0 ==> final(self).target_sample_rate == old(
                self,
            ).target_sample_rate,
    {
        if target_sample_rate >= 1 {
            self.target_sample_rate = target_sample_rate;
        }
    }

    /// Retargets the output rate to `ratio` (in thousandths) times the
    /// source rate; a ratio that rounds to zero is ignored.
    pub fn set_ratio(&mut self, ratio: u32)
        requires
            old(self).wf(),
        ensures
            final(self).channels == old(self).channels,
            final(self).sample_rate == old(self).sample_rate,
            ({
                let t = old(self).sample_rate * ratio / 1000;
                if 1 <= t <= u32::MAX {
                    final(self).target_sample_rate == t
                } else {
                    final(self).target_sample_rate == old(self).target_sample_rate
                }
            }),
    {
        let sr = self.sample_rate;
        proof {
            assert(sr * ratio <= u32::MAX * u32::MAX) by (nonlinear_arith)
                requires
                    0 <= sr <= u32::MAX,
                    0 <= ratio <= u32::MAX,
            ;
        }
        let wide: u64 = (sr as u64) * (ratio as u64) / 1000;
        if wide >= 1 && wide <= u32::MAX as u64 {
            self.target_sample_rate = wide as u32;
        }
    }

    /// The number of source frames needed to produce `output_frame_count`
    /// target frames; the identity in bypass mode.  Fails only when the
    /// count does not fit in 64 bits.
    pub fn get_required_input(&self, output_frame_count: u64) -> (r: Result<
        u64,
        AudioResamplerError,
    >)
        requires
            self.wf(),
        ensures
            self.sample_rate == self.target_sample_rate ==> r == Ok::<u64, AudioResamplerError>(
                output_frame_count,
            ),
            ({
                let need = spec_required_input(
                    output_frame_count as int,
                    self.sample_rate as int,
                    self.target_sample_rate as int,
                );
                self.sample_rate != self.target_sample_rate ==> if need <= u64::MAX {
                    r == Ok::<u64, AudioResamplerError>(need as u64)
                } else {
                    r == Err::<u64, AudioResamplerError>(AudioResamplerError::InvalidOperation(0))
                }
            }),
    {
        if self.sample_rate == self.target_sample_rate {
            return Ok(output_frame_count);
        }
        proof {
            crate::fixed::lemma_sample_count_bounds(
                output_frame_count as int,
                self.sample_rate as int,
            );
            vstd::arithmetic::div_mod::lemma_div_pos_is_pos(
                output_frame_count * self.sample_rate + self.target_sample_rate - 1,
                self.target_sample_rate as int,
            );
        }
        let wide: u128 = ((output_frame_count as u128) * (self.sample_rate as u128)
            + (self.target_sample_rate as u128) - 1) / (self.target_sample_rate as u128);
        if wide > u64::MAX as u128 {
            Err(AudioResamplerError::InvalidOperation(0))
        } else {
            Ok(wide as u64)
        }
    }

    /// The number of target frames that `input_frame_count` source frames
    /// yield; the identity in bypass mode.  Fails only when the count does
    /// not fit in 64 bits.
    pub fn get_expected_output(&self, input_frame_count: u64) -> (r: Result<
        u64,
        AudioResamplerError,
    >)
        requires
            self.wf(),
        ensures
            self.sample_rate == self.target_sample_rate ==> r == Ok::<u64, AudioResamplerError>(
                input_frame_count,
            ),
            ({
                let out = spec_expected_output(
                    input_frame_count as int,
                    self.sample_rate as int,
                    self.target_sample_rate as int,
                );
                self.sample_rate != self.target_sample_rate ==> if out <= u64::MAX {
                    r == Ok::<u64, AudioResamplerError>(out as u64)
                } else {
                    r == Err::<u64, AudioResamplerError>(AudioResamplerError::InvalidOperation(0))
                }
            }),
    {
        if self.sample_rate == self.target_sample_rate {
            return Ok(input_frame_count);
        }
        proof {
            crate::fixed::lemma_sample_count_bounds(
                input_frame_count as int,
                self.target_sample_rate as int,
            );
            vstd::arithmetic::div_mod::lemma_div_pos_is_pos(
                input_frame_count * self.target_sample_rate,
                self.sample_rate as int,
            );
        }
        let wide: u128 = ((input_frame_count as u128) * (self.target_sample_rate as u128)) / (
        self.sample_rate as u128);
        if wide > u64::MAX as u128 {
            Err(AudioResamplerError::InvalidOperation(0))
        } else {
            Ok(wide as u64)
        }
    }

    /// The index map keeps no history, so the stage has no input latency.
    pub fn get_input_latency(&self) -> (r: Result<u64, AudioResamplerError>)
        ensures
            r == Ok::<u64, AudioResamplerError>(0u64),
    {
        Ok(0)
    }

    /// The index map keeps no history, so the stage has no output latency.
    pub fn get_output_latency(&self) -> (r: Result<u64, AudioResamplerError>)
        ensures
            r == Ok::<u64, AudioResamplerError>(0u64),
    {
        Ok(0)
    }

    /// Converts `input_frame_count` source frames into at most
    /// `output_frame_count` target frames at the front of `output`, each
    /// output frame reading the source frame at the same instant; returns
    /// the number of frames produced.  In bypass mode nothing is moved and
    /// the full request is reported.  Fails when a buffer is shorter than
    /// its frame count requires.
    #[verifier::loop_isolation(false)]
    pub fn process(
        &mut self,
        input: &Vec<i16>,
        input_frame_count: u64,
        output: &mut Vec<i16>,
        output_frame_count: u64,
    ) -> (r: Result<u64, AudioResamplerError>)
        requires
            old(self).wf(),
        ensures
            *final(self) == *old(self),
            final(output).len() == old(output).len(),
            old(self).sample_rate == old(self).target_sample_rate ==> r == Ok::<
                u64,
                AudioResamplerError,
            >(output_frame_count) && *final(output) == *old(output),
            ({
                let src = old(self).sample_rate as int;
                let dst = old(self).target_sample_rate as int;
                let ch = old(self).channels as int;
                let expected = spec_expected_output(input_frame_count as int, src, dst);
                let produced = if expected <= output_frame_count {
                    expected
                } else {
                    output_frame_count as int
                };
                src != dst ==> if input.len() >= input_frame_count * ch && old(output).len()
                    >= output_frame_count * ch {
                    &&& r == Ok::<u64, AudioResamplerError>(produced as u64)
                    &&& forall|j: int, c: int|
                        0 <= j < produced && 0 <= c < ch ==> final(output)@[#[trigger] (j * ch + c)]
                            == input@[spec_source_frame(j, src, dst) * ch + c]
                    &&& forall|i: int|
                        produced * ch <= i < old(output).len() ==> final(output)@[i] == old(
                            output,
                        )@[i]
                } else {
                    r is Err && *final(output) == *old(output)
                }
            }),
    {
        if self.sample_rate == self.target_sample_rate {
            return Ok(output_frame_count);
        }
        proof {
            crate::fixed::lemma_sample_count_bounds(input_frame_count as int, self.channels as int);
            crate::fixed::lemma_sample_count_bounds(
                output_frame_count as int,
                self.channels as int,
            );
        }
        let needed_in: u128 = (input_frame_count as u128) * (self.channels as u128);
        if (input.len() as u128) < needed_in {
            return Err(
                AudioResamplerError::BufferSizeMismatch(
                    input.len() as u64,
                    if needed_in > u64::MAX as u128 {
                        u64::MAX
                    } else {
                        needed_in as u64
                    },
                ),
            );
        }
        let needed_out: u128 = (output_frame_count as u128) * (self.channels as u128);
        if (output.len() as u128) < needed_out {
            return Err(
                AudioResamplerError::BufferSizeMismatch(
                    output.len() as u64,
                    if needed_out > u64::MAX as u128 {
                        u64::MAX
                    } else {
                        needed_out as u64
                    },
                ),
            );
        }
        let ghost src = self.sample_rate as int;
        let ghost dst = self.target_sample_rate as int;
        let ghost ch = self.channels as int;
        let expected: u64 = match self.get_expected_output(input_frame_count) {
            Ok(e) => e,
            Err(_) => u64::MAX,
        };
        proof {
            if spec_expected_output(input_frame_count as int, src, dst) > u64::MAX {
                vstd::arithmetic::div_mod::lemma_div_pos_is_pos(
                    input_frame_count * self.target_sample_rate,
                    src,
                );
            }
        }
        let produced: u64 = if expected <= output_frame_count {
            expected
        } else {
            output_frame_count
        };
        assert(produced == if spec_expected_output(input_frame_count as int, src, dst)
            <= output_frame_count {
            spec_expected_output(input_frame_count as int, src, dst)
        } else {
            output_frame_count as int
        });
        let chans: usize = self.channels as usize;
        let mut j: usize = 0;
        while j < produced as usize
            invariant
                j <= produced,
                output.len() == old(output).len(),
                forall|j2: int, c: int|
                    0 <= j2 < j && 0 <= c < ch ==> output@[#[trigger] (j2 * ch + c)]
                        == input@[spec_source_frame(j2, src, dst) * ch + c],
                forall|i: int| j * ch <= i < old(output).len() ==> output@[i] == old(output)@[i],
            decreases produced - j,
        {
            proof {
                lemma_source_frame_in_range(j as int, input_frame_count as int, src, dst);
                crate::fixed::lemma_sample_count_bounds(j as int, self.sample_rate as int);
                vstd::arithmetic::div_mod::lemma_div_pos_is_pos(j * self.sample_rate, dst);
            }
            let sf128: u128 = (j as u128) * (self.sample_rate as u128) / (self.target_sample_rate
                as u128);
            let sf: usize = sf128 as usize;
            let mut c: usize = 0;
            while c < chans
                invariant
                    c <= chans,
                    j < produced,
                    sf == spec_source_frame(j as int, src, dst),
                    0 <= sf < input_frame_count,
                    output.len() == old(output).len(),
                    forall|j2: int, c2: int|
                        0 <= j2 < j && 0 <= c2 < ch ==> output@[#[trigger] (j2 * ch + c2)]
                            == input@[spec_source_frame(j2, src, dst) * ch + c2],
                    forall|c2: int|
                        0 <= c2 < c ==> output@[#[trigger] (j * ch + c2)] == input@[(
                        spec_source_frame(j as int, src, dst) * ch + c2)],
                    forall|i: int|
                        j * ch + c <= i < old(output).len() ==> output@[i] == old(output)@[i],
                decreases chans - c,
            {
                proof {
                    assert(j * ch + c < produced * ch) by (nonlinear_arith)
                        requires
                            0 <= j < produced,
                            0 <= c < ch,
                    ;
                    assert(produced * ch <= output_frame_count * ch) by (nonlinear_arith)
                        requires
                            produced <= output_frame_count,
                            ch >= 0,
                    ;
                    assert(sf * ch + c < input_frame_count * ch) by (nonlinear_arith)
                        requires
                            0 <= sf < input_frame_count,
                            0 <= c < ch,
                    ;
                    assert forall|j2: int, c2: int|
                        0 <= j2 < j && 0 <= c2 < ch implies #[trigger] (j2 * ch + c2) < j * ch
                        + c by {
                        assert(j2 * ch + c2 < j * ch) by (nonlinear_arith)
                            requires
                                0 <= j2 < j,
                                0 <= c2 < ch,
                        ;
                    }
                }
                let oi: usize = j * chans + c;
                let ii: usize = sf * chans + c;
                output[oi] = input[ii];
                c = c + 1;
            }
            proof {
                assert((j + 1) * ch == j * ch + ch) by (nonlinear_arith);
            }
            j = j + 1;
        }
        Ok(produced)
    }
}

} // verus!
