//! Stereo panorama over interleaved PCM frames.
//!
//! The pan parameter is carried in thousandths of full deflection.  For
//! stereo frames the stage applies an equal-power law: each side's gain is
//! the square root of its share of the power, so the two squared gains
//! always sum to the full power and a centred pan sits three decibels
//! down on both sides.  For any other channel count the stage passes
//! frames through unchanged.

use vstd::prelude::*;

use crate::fixed::MILLI_ONE;
use crate::fixed::clamp_pan_milli;
use crate::fixed::lemma_scale_milli_unity;
use crate::fixed::scale_milli;
use crate::fixed::spec_clamp_pan_milli;
use crate::fixed::spec_scale_milli;

verus! {

#[derive(Debug, Clone)]
pub enum AudioPannerError {
    InitializationFailed(i32),
    InvalidChannels(u32),
    ProcessFailed(i32),
    BufferSizeMismatch(u64, u64),
}

/// A panorama stage.  `pan` lies in `[-1000, 1000]`.
#[derive(Clone)]
pub struct AudioPanner {
    pub channels: u32,
    pub pan: i32,
}

/// The gain (in thousandths) that a pan setting applies to the left
/// channel: the square root of the left share `(1000 - pan) / 2000` of
/// the power, in fixed point.
pub open spec fn spec_pan_left_milli(pan: int) -> int {
    crate::fixed::spec_isqrt(500 * (MILLI_ONE - pan))
}

/// The gain (in thousandths) that a pan setting applies to the right
/// channel: the square root of the right share `(1000 + pan) / 2000`.
pub open spec fn spec_pan_right_milli(pan: int) -> int {
    crate::fixed::spec_isqrt(500 * (MILLI_ONE + pan))
}

/// The gain applied to interleaved sample `i` of a stereo stream.
pub open spec fn spec_pan_factor(pan: int, i: int) -> int {
    if i % 2 == 0 {
        spec_pan_left_milli(pan)
    } else {
        spec_pan_right_milli(pan)
    }
}

impl AudioPanner {
    pub open spec fn wf(&self) -> bool {
        &&& 1 <= self.channels <= 8
        &&& -(MILLI_ONE as int) <= self.pan <= MILLI_ONE
    }

    /// A panorama stage for `channels`-channel frames, centred.
    pub fn new(channels: u32) -> (r: Result<AudioPanner, AudioPannerError>)
        ensures
            1 <= channels <= 8 ==> r == Ok::<AudioPanner, AudioPannerError>(
                AudioPanner { channels, pan: 0 },
            ),
            !(1 <= channels <= 8) ==> r == Err::<AudioPanner, AudioPannerError>(
                AudioPannerError::InvalidChannels(channels),
            ),
    {
        if channels < 1 || channels > 8 {
            return Err(AudioPannerError::InvalidChannels(channels));
        }
        Ok(AudioPanner { channels, pan: 0 })
    }

    /// Stores `pan` (in thousandths), clamped to `[-1000, 1000]`.
    /// Out-of-range values are clamped, never rejected.
    pub fn set_pan(&mut self, pan: i64)
        ensures
            final(self).channels == old(self).channels,
            final(self).pan == spec_clamp_pan_milli(pan as int),
    {
        self.pan = clamp_pan_milli(pan);
    }

    /// Applies the panorama to `frame_count` frames of `input`, writing the
    /// result to the front of `output`; the rest of `output` is untouched.
    /// Stereo frames are attenuated by the pan law; frames of any other
    /// width pass through unchanged.  Fails when either buffer is shorter
    /// than `frame_count * channels` samples.
    #[verifier::loop_isolation(false)]
    pub fn process(&self, input: &Vec<i16>, output: &mut Vec<i16>, frame_count: u64) -> (r: Result<
        (),
        AudioPannerError,
    >)
        requires
            self.wf(),
        ensures
            final(output).len() == old(output).len(),
            ({
                let n = frame_count * self.channels;
                if input.len() >= n && old(output).len() >= n {
                    &&& r is Ok
                    &&& self.channels == 2 ==> forall|i: int|
                        0 <= i < n ==> final(output)@[i] == spec_scale_milli(
                            input@[i] as int,
                            spec_pan_factor(self.pan as int, i),
                        )
                    &&& self.channels != 2 ==> forall|i: int|
                        0 <= i < n ==> final(output)@[i] == input@[i]
                    &&& forall|i: int|
                        n <= i < old(output).len() ==> final(output)@[i] == old(output)@[i]
                } else {
                    &&& r is Err
                    &&& *final(output) == *old(output)
                }
            }),
    {
        proof {
            crate::fixed::lemma_sample_count_bounds(frame_count as int, self.channels as int);
        }
        let needed: u128 = (frame_count as u128) * (self.channels as u128);
        if (input.len() as u128) < needed {
            return Err(
                AudioPannerError::BufferSizeMismatch(
                    if needed > u64::MAX as u128 {
                        u64::MAX
                    } else {
                        needed as u64
                    },
                    input.len() as u64,
                ),
            );
        }
        if (output.len() as u128) < needed {
            return Err(
                AudioPannerError::BufferSizeMismatch(
                    if needed > u64::MAX as u128 {
                        u64::MAX
                    } else {
                        needed as u64
                    },
                    output.len() as u64,
                ),
            );
        }
        proof {
            assert(frame_count * self.channels <= usize::MAX);
        }
        let n: usize = (frame_count as usize) * (self.channels as usize);
        let left_radicand: u32 = 500 * ((MILLI_ONE as i32 - self.pan) as u32);
        let right_radicand: u32 = 500 * ((MILLI_ONE as i32 + self.pan) as u32);
        let left: u32 = crate::fixed::isqrt_small(left_radicand);
        let right: u32 = crate::fixed::isqrt_small(right_radicand);
        proof {
            crate::fixed::lemma_isqrt_bounds(left_radicand as int);
            crate::fixed::lemma_isqrt_bounds(right_radicand as int);
            assert(left * left <= 1_000_000);
            assert(right * right <= 1_000_000);
            assert(left <= 1000) by (nonlinear_arith)
                requires
                    left * left <= 1_000_000,
                    left >= 0,
            ;
            assert(right <= 1000) by (nonlinear_arith)
                requires
                    right * right <= 1_000_000,
                    right >= 0,
            ;
        }
        for i in 0..n
            invariant
                output.len() == old(output).len(),
                self.channels == 2 ==> forall|j: int|
                    0 <= j < i ==> output@[j] == spec_scale_milli(
                        input@[j] as int,
                        spec_pan_factor(self.pan as int, j),
                    ),
                self.channels != 2 ==> forall|j: int| 0 <= j < i ==> output@[j] == input@[j],
                forall|j: int| i <= j < old(output).len() ==> output@[j] == old(output)@[j],
        {
            if self.channels == 2 {
                let factor: u32 = if i % 2 == 0 {
                    left
                } else {
                    right
                };
                let s = scale_milli(input[i], factor);
                output[i] = s;
            } else {
                proof {
                    lemma_scale_milli_unity(input@[i as int] as int);
                }
                output[i] = input[i];
            }
        }
        Ok(())
    }
}

} // verus!
