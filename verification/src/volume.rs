//! Linear gain over interleaved PCM frames.

use vstd::prelude::*;

use crate::fixed::MILLI_ONE;
use crate::fixed::clamp_unit_milli;
use crate::fixed::scale_milli;
use crate::fixed::spec_clamp_unit_milli;
use crate::fixed::spec_scale_milli;

verus! {

#[derive(Debug, Clone)]
pub enum AudioVolumeError {
    InitializationFailed(i32),
    InvalidChannels(u32),
    ProcessFailed(i32),
    BufferSizeMismatch(u64, u64),
}

/// A master-volume stage.  The gain is linear, carried in thousandths, and
/// always within the unit interval.
#[derive(Clone)]
pub struct AudioVolume {
    pub channels: u32,
    pub volume: u32,
}

impl AudioVolume {
    pub open spec fn wf(&self) -> bool {
        &&& 1 <= self.channels <= 8
        &&& self.volume <= MILLI_ONE
    }

    /// A gain stage for `channels`-channel frames, at unity volume.
    pub fn new(channels: u32) -> (r: Result<AudioVolume, AudioVolumeError>)
        ensures
            1 <= channels <= 8 ==> r == Ok::<AudioVolume, AudioVolumeError>(
                AudioVolume { channels, volume: MILLI_ONE },
            ),
            !(1 <= channels <= 8) ==> r == Err::<AudioVolume, AudioVolumeError>(
                AudioVolumeError::InvalidChannels(channels),
            ),
    {
        if channels < 1 || channels > 8 {
            return Err(AudioVolumeError::InvalidChannels(channels));
        }
        Ok(AudioVolume { channels, volume: MILLI_ONE })
    }

    /// Stores `volume` (in thousandths), clamped to the unit interval.
    /// Out-of-range values are clamped, never rejected.
    pub fn set_volume(&mut self, volume: i64)
        ensures
            final(self).channels == old(self).channels,
            final(self).volume == spec_clamp_unit_milli(volume as int),
    {
        self.volume = clamp_unit_milli(volume);
    }

    /// Applies the gain to `frame_count` frames of `input`, writing the
    /// scaled samples to the front of `output`; the rest of `output` is
    /// untouched.  Fails when either buffer is shorter than
    /// `frame_count * channels` samples.
    #[verifier::loop_isolation(false)]
    pub fn process(&self, input: &Vec<i16>, output: &mut Vec<i16>, frame_count: u64) -> (r: Result<
        (),
        AudioVolumeError,
    >)
        requires
            self.wf(),
        ensures
            final(output).len() == old(output).len(),
            ({
                let n = frame_count * self.channels;
                if input.len() >= n && old(output).len() >= n {
                    &&& r is Ok
                    &&& forall|i: int|
                        0 <= i < n ==> final(output)@[i] == spec_scale_milli(
                            input@[i] as int,
                            self.volume as int,
                        )
                    &&& forall|i: int|
                        n <= i < old(output).len() ==> final(output)@[i] == old(output)@[i]
                } else {
                    &&& r is Err
                    &&& *final(output) == *old(output)
                }
            }),
    {
        proof {
            crate::fixed::lemma_sample_count_bounds(frame_count as int, self.channels as int);
        }
        let needed: u128 = (frame_count as u128) * (self.channels as u128);
        if (input.len() as u128) < needed {
            return Err(
                AudioVolumeError::BufferSizeMismatch(
                    if needed > u64::MAX as u128 {
                        u64::MAX
                    } else {
                        needed as u64
                    },
                    input.len() as u64,
                ),
            );
        }
        if (output.len() as u128) < needed {
            return Err(
                AudioVolumeError::BufferSizeMismatch(
                    if needed > u64::MAX as u128 {
                        u64::MAX
                    } else {
                        needed as u64
                    },
                    output.len() as u64,
                ),
            );
        }
        proof {
            assert(frame_count * self.channels <= usize::MAX);
            assert(frame_count <= frame_count * self.channels) by (nonlinear_arith)
                requires
                    self.channels >= 1,
                    frame_count >= 0,
            ;
        }
        let n: usize = (frame_count as usize) * (self.channels as usize);
        for i in 0..n
            invariant
                output.len() == old(output).len(),
                forall|j: int|
                    0 <= j < i ==> output@[j] == spec_scale_milli(
                        input@[j] as int,
                        self.volume as int,
                    ),
                forall|j: int| i <= j < old(output).len() ==> output@[j] == old(output)@[j],
        {
            let s = scale_milli(input[i], self.volume);
            output[i] = s;
        }
        Ok(())
    }
}

} // verus!
