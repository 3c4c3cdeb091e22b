//! The root node: the device that the hardware callback pulls.
//!
//! The device owns the top-level channels and mixers, a device-wide
//! effect chain, and the optional listener.  One `process` call serves
//! one hardware period: it mixes every top-level node, runs the device
//! chain, divides by the number of contributing sources, writes the
//! period to the caller's buffer, and sweeps out nodes marked deleted.

use vstd::prelude::*;

use crate::attributes::AudioAttributes;
use crate::attributes::AudioPropertyError;
use crate::channel::AudioChannel;
use crate::channel::AudioChannelError;
use crate::fx::AudioFX;
use crate::fx::AudioFXError;
use crate::mixer::AudioMixer;
use crate::mixer::AudioMixerError;
use crate::panner::AudioPanner;
use crate::panner::AudioPannerError;
use crate::resampler::AudioResampler;
use crate::resampler::AudioResamplerError;
use crate::spatial::AudioSpatializationListener;
use crate::spatial::AudioSpatializationListenerError;
use crate::volume::AudioVolume;
use crate::volume::AudioVolumeError;

verus! {

/// The frame capacity of each scratch buffer the device owns; the
/// largest period one callback may request.
pub const DEVICE_BUFFER_FRAMES: u64 = 4096;

#[derive(Debug, Clone)]
pub enum AudioDeviceError {
    InitializationError(i32),
    InvalidChannels,
    InvalidSampleRate,
    InvalidOperation(i32),
    ChannelNotFound(u64),
    MixerNotFound(u64),
    ChannelAlreadyExists(u64),
    MixerAlreadyExists(u64),
    AudioChannelError(AudioChannelError),
    AudioSpatializationListenerError(AudioSpatializationListenerError),
    AudioFXError(AudioFXError),
    AudioVolumeError(AudioVolumeError),
    AudioPannerError(AudioPannerError),
    AudioResamplerError(AudioResamplerError),
    AudioMixerError(AudioMixerError),
    AudioPropertyError(AudioPropertyError),
}

/// The root of the graph.  The backend that pulls `process` lives outside
/// the library; the device models everything the callback computes.
pub struct AudioDevice {
    pub channel_count: u32,
    pub sample_rate: u32,
    pub channels: Vec<AudioChannel>,
    pub mixers: Vec<AudioMixer>,
    pub volume: AudioVolume,
    pub panner: AudioPanner,
    pub resampler: AudioResampler,
    pub fx: Option<AudioFX>,
    pub spatialization: Option<AudioSpatializationListener>,
    pub buffer: Vec<i16>,
    pub acc: Vec<i32>,
    pub intermediate: Vec<i16>,
    pub temp_buffer: Vec<i16>,
}

impl AudioDevice {
    pub open spec fn wf(&self) -> bool {
        &&& (self.channel_count == 1 || self.channel_count == 2 || self.channel_count == 4)
        &&& (self.sample_rate == 44100 || self.sample_rate == 48000)
        &&& self.volume.wf()
        &&& self.volume.channels == self.channel_count
        &&& self.panner.wf()
        &&& self.panner.channels == self.channel_count
        &&& self.resampler.wf()
        &&& self.resampler.channels == self.channel_count
        &&& self.resampler.sample_rate == self.sample_rate
        &&& (self.fx matches Some(f) ==> f.wf() && f.channels == self.channel_count)
        &&& (self.spatialization matches Some(l) ==> l.wf() && l.channels_out
            == self.channel_count)
        &&& self.buffer.len() == DEVICE_BUFFER_FRAMES * self.channel_count
        &&& self.acc.len() == DEVICE_BUFFER_FRAMES * self.channel_count
        &&& self.intermediate.len() == DEVICE_BUFFER_FRAMES * self.channel_count
        &&& self.temp_buffer.len() == DEVICE_BUFFER_FRAMES * self.channel_count
        &&& (forall|i: int|
            0 <= i < self.channels.len() ==> (#[trigger] self.channels[i]).wf()
                && self.channels[i].reader.channels == self.channel_count)
        &&& (forall|i: int|
            0 <= i < self.mixers.len() ==> (#[trigger] self.mixers[i]).wf()
                && self.mixers[i].channel_count == self.channel_count)
    }

    /// The source frames one period of `frame_count` output frames asks of
    /// the device resampler, with an unrepresentable requirement degraded
    /// to zero.
    pub open spec fn spec_required_frames(&self, frame_count: int) -> int {
        if self.resampler.sample_rate == self.resampler.target_sample_rate {
            frame_count
        } else {
            let need = crate::resampler::spec_required_input(
                frame_count,
                self.resampler.sample_rate as int,
                self.resampler.target_sample_rate as int,
            );
            if need <= u64::MAX {
                need
            } else {
                0
            }
        }
    }

    /// The frames the same period mixes from the top-level nodes once the
    /// device stretch stage's tempo factor is applied.
    pub open spec fn spec_target_frames(&self, frame_count: int) -> int {
        let req = self.spec_required_frames(frame_count);
        match self.fx {
            Option::None => req,
            Option::Some(f) => {
                if req == 0 {
                    0
                } else if f.tempo == crate::fixed::MILLI_ONE {
                    req
                } else {
                    let t = req * f.tempo / 1000;
                    if t <= u64::MAX {
                        t
                    } else {
                        0
                    }
                }
            },
        }
    }

    /// The frame capacity one period needs of the device's scratch.
    pub open spec fn spec_needed_frames(&self, frame_count: int) -> int {
        let req = self.spec_required_frames(frame_count);
        let tgt = self.spec_target_frames(frame_count);
        let m = if req >= tgt {
            req
        } else {
            tgt
        };
        if frame_count >= m {
            frame_count
        } else {
            m
        }
    }

    /// A device over `channels`-channel frames at `sample_rate`, with no
    /// children, no stretch stage and no listener.  Channel counts other
    /// than one, two or four, and sample rates other than the two
    /// hardware rates, are rejected.
    pub fn new(channels: u32, sample_rate: u32) -> (r: Result<AudioDevice, AudioDeviceError>)
        ensures
            !(channels == 1 || channels == 2 || channels == 4) ==> r == Err::<
                AudioDevice,
                AudioDeviceError,
            >(AudioDeviceError::InvalidChannels),
            (channels == 1 || channels == 2 || channels == 4) && !(sample_rate == 44100
                || sample_rate == 48000) ==> r == Err::<AudioDevice, AudioDeviceError>(
                AudioDeviceError::InvalidSampleRate,
            ),
            (channels == 1 || channels == 2 || channels == 4) && (sample_rate == 44100
                || sample_rate == 48000) ==> (r matches Ok(d) && d.wf() && d.channel_count
                == channels && d.sample_rate == sample_rate && d.channels.len() == 0
                && d.mixers.len() == 0 && d.fx is None && d.spatialization is None),
    {
        if !(channels == 1 || channels == 2 || channels == 4) {
            return Err(AudioDeviceError::InvalidChannels);
        }
        if !(sample_rate == 44100 || sample_rate == 48000) {
            return Err(AudioDeviceError::InvalidSampleRate);
        }
        let volume = match AudioVolume::new(channels) {
            Ok(v) => v,
            Err(e) => {
                proof {
                    assert(false);
                }
                return Err(AudioDeviceError::AudioVolumeError(e));
            },
        };
        let panner = match AudioPanner::new(channels) {
            Ok(p) => p,
            Err(e) => {
                proof {
                    assert(false);
                }
                return Err(AudioDeviceError::AudioPannerError(e));
            },
        };
        let resampler = match AudioResampler::new(channels, sample_rate) {
            Ok(rs) => rs,
            Err(e) => {
                proof {
                    assert(false);
                }
                return Err(AudioDeviceError::AudioResamplerError(e));
            },
        };
        proof {
            assert(DEVICE_BUFFER_FRAMES * channels <= 16384) by (nonlinear_arith)
                requires
                    channels <= 4,
                    DEVICE_BUFFER_FRAMES == 4096,
            ;
        }
        let samples: usize = (DEVICE_BUFFER_FRAMES as usize) * (channels as usize);
        let buffer = crate::fixed::zero_buffer(samples);
        let intermediate = crate::fixed::zero_buffer(samples);
        let temp_buffer = crate::fixed::zero_buffer(samples);
        let mut acc: Vec<i32> = Vec::new();
        let mut i: usize = 0;
        while i < samples
            invariant
                acc.len() == i,
                i <= samples,
            decreases samples - i,
        {
            acc.push(0i32);
            i = i + 1;
        }
        Ok(
            AudioDevice {
                channel_count: channels,
                sample_rate,
                channels: Vec::new(),
                mixers: Vec::new(),
                volume,
                panner,
                resampler,
                fx: None,
                spatialization: None,
                buffer,
                acc,
                intermediate,
                temp_buffer,
            },
        )
    }

    /// Attaches a channel.  A channel whose frame width differs from the
    /// device's is rejected, as is a second channel with a reference id
    /// already attached.
    #[verifier::loop_isolation(false)]
    pub fn add_channel(&mut self, channel: AudioChannel) -> (r: Result<(), AudioDeviceError>)
        requires
            old(self).wf(),
            channel.wf(),
        ensures
            final(self).wf(),
            final(self).channel_count == old(self).channel_count,
            final(self).sample_rate == old(self).sample_rate,
            channel.reader.channels != old(self).channel_count ==> r == Err::<
                (),
                AudioDeviceError,
            >(AudioDeviceError::InvalidChannels) && *final(self) == *old(self),
            channel.reader.channels == old(self).channel_count && (exists|i: int|
                0 <= i < old(self).channels.len() && (#[trigger] old(self).channels[i]).ref_id
                    == channel.ref_id) ==> r == Err::<(), AudioDeviceError>(
                AudioDeviceError::ChannelAlreadyExists(channel.ref_id),
            ) && *final(self) == *old(self),
            channel.reader.channels == old(self).channel_count && !(exists|i: int|
                0 <= i < old(self).channels.len() && (#[trigger] old(self).channels[i]).ref_id
                    == channel.ref_id) ==> r is Ok && final(self).channels@ == old(self).channels@.push(channel) && final(self).mixers == old(self).mixers,
    {
        if channel.reader.channels != self.channel_count {
            return Err(AudioDeviceError::InvalidChannels);
        }
        let n = self.channels.len();
        let mut i: usize = 0;
        while i < n
            invariant
                i <= n,
                forall|j: int| 0 <= j < i ==> (#[trigger] self.channels[j]).ref_id != channel.ref_id,
            decreases n - i,
        {
            if self.channels[i].ref_id() == channel.ref_id {
                return Err(AudioDeviceError::ChannelAlreadyExists(channel.ref_id));
            }
            i = i + 1;
        }
        self.channels.push(channel);
        Ok(())
    }

    /// Attaches a mixer, with the same width and duplicate rules.
    #[verifier::loop_isolation(false)]
    pub fn add_mixer(&mut self, mixer: AudioMixer) -> (r: Result<(), AudioDeviceError>)
        requires
            old(self).wf(),
            mixer.wf(),
        ensures
            final(self).wf(),
            final(self).channel_count == old(self).channel_count,
            final(self).sample_rate == old(self).sample_rate,
            mixer.channel_count != old(self).channel_count ==> r == Err::<(), AudioDeviceError>(
                AudioDeviceError::InvalidChannels,
            ) && *final(self) == *old(self),
            mixer.channel_count == old(self).channel_count && (exists|i: int|
                0 <= i < old(self).mixers.len() && (#[trigger] old(self).mixers[i]).ref_id
                    == mixer.ref_id) ==> r == Err::<(), AudioDeviceError>(
                AudioDeviceError::MixerAlreadyExists(mixer.ref_id),
            ) && *final(self) == *old(self),
            mixer.channel_count == old(self).channel_count && !(exists|i: int|
                0 <= i < old(self).mixers.len() && (#[trigger] old(self).mixers[i]).ref_id
                    == mixer.ref_id) ==> r is Ok && final(self).mixers@ == old(self).mixers@.push(
                mixer,
            ) && final(self).channels == old(self).channels,
    {
        if mixer.channel_count != self.channel_count {
            return Err(AudioDeviceError::InvalidChannels);
        }
        let n = self.mixers.len();
        let mut i: usize = 0;
        while i < n
            invariant
                i <= n,
                forall|j: int| 0 <= j < i ==> (#[trigger] self.mixers[j]).ref_id != mixer.ref_id,
            decreases n - i,
        {
            if self.mixers[i].ref_id() == mixer.ref_id {
                return Err(AudioDeviceError::MixerAlreadyExists(mixer.ref_id));
            }
            i = i + 1;
        }
        self.mixers.push(mixer);
        Ok(())
    }

    /// Detaches the channel carrying `ref_id`; an id nobody carries is
    /// not found.
    #[verifier::loop_isolation(false)]
    pub fn remove_channel_by_ref(&mut self, ref_id: u64) -> (r: Result<(), AudioDeviceError>)
        requires
            old(self).wf(),
        ensures
            final(self).wf(),
            !(exists|i: int|
                0 <= i < old(self).channels.len() && (#[trigger] old(self).channels[i]).ref_id
                    == ref_id) ==> r == Err::<(), AudioDeviceError>(
                AudioDeviceError::ChannelNotFound(ref_id),
            ) && *final(self) == *old(self),
            (exists|i: int|
                0 <= i < old(self).channels.len() && (#[trigger] old(self).channels[i]).ref_id
                    == ref_id) ==> r is Ok && (exists|i: int|
                0 <= i < old(self).channels.len() && (#[trigger] old(self).channels[i]).ref_id
                    == ref_id && (forall|j: int|
                    0 <= j < i ==> (#[trigger] old(self).channels[j]).ref_id != ref_id)
                    && final(self).channels@ == old(self).channels@.remove(i)) && final(self).mixers == old(self).mixers,
    {
        let n = self.channels.len();
        let mut i: usize = 0;
        while i < n
            invariant
                i <= n,
                *self == *old(self),
                forall|j: int| 0 <= j < i ==> (#[trigger] self.channels[j]).ref_id != ref_id,
            decreases n - i,
        {
            if self.channels[i].ref_id() == ref_id {
                let _ = self.channels.remove(i);
                proof {
                    assert forall|j: int|
                        0 <= j < self.channels.len() implies (#[trigger] self.channels[j]).wf()
                        && self.channels[j].reader.channels == self.channel_count by {
                        if j < i {
                            assert(self.channels[j] == old(self).channels[j]);
                        } else {
                            assert(self.channels[j] == old(self).channels[j + 1]);
                        }
                    }
                }
                return Ok(());
            }
            i = i + 1;
        }
        Err(AudioDeviceError::ChannelNotFound(ref_id))
    }

    /// Detaches the mixer carrying `ref_id`; an id nobody carries is not
    /// found.
    #[verifier::loop_isolation(false)]
    pub fn remove_mixer_by_ref(&mut self, ref_id: u64) -> (r: Result<(), AudioDeviceError>)
        requires
            old(self).wf(),
        ensures
            final(self).wf(),
            !(exists|i: int|
                0 <= i < old(self).mixers.len() && (#[trigger] old(self).mixers[i]).ref_id
                    == ref_id) ==> r == Err::<(), AudioDeviceError>(
                AudioDeviceError::MixerNotFound(ref_id),
            ) && *final(self) == *old(self),
            (exists|i: int|
                0 <= i < old(self).mixers.len() && (#[trigger] old(self).mixers[i]).ref_id
                    == ref_id) ==> r is Ok && (exists|i: int|
                0 <= i < old(self).mixers.len() && (#[trigger] old(self).mixers[i]).ref_id
                    == ref_id && (forall|j: int|
                    0 <= j < i ==> (#[trigger] old(self).mixers[j]).ref_id != ref_id) && final(self).mixers@ == old(self).mixers@.remove(i)) && final(self).channels == old(self).channels,
    {
        let n = self.mixers.len();
        let mut i: usize = 0;
        while i < n
            invariant
                i <= n,
                *self == *old(self),
                forall|j: int| 0 <= j < i ==> (#[trigger] self.mixers[j]).ref_id != ref_id,
            decreases n - i,
        {
            if self.mixers[i].ref_id() == ref_id {
                let _ = self.mixers.remove(i);
                proof {
                    assert forall|j: int|
                        0 <= j < self.mixers.len() implies (#[trigger] self.mixers[j]).wf()
                        && self.mixers[j].channel_count == self.channel_count by {
                        if j < i {
                            assert(self.mixers[j] == old(self).mixers[j]);
                        } else {
                            assert(self.mixers[j] == old(self).mixers[j + 1]);
                        }
                    }
                }
                return Ok(());
            }
            i = i + 1;
        }
        Err(AudioDeviceError::MixerNotFound(ref_id))
    }

    /// The staging half of one period: mixes every top-level node into
    /// the accumulator — channels see the listener when one is installed —
    /// maintains the stretch stage's account, and leaves the staged frames
    /// packed at the front of the device's buffer.  A node whose pull
    /// fails is skipped for the period.  Returns the number of
    /// contributing sources.
    #[verifier::loop_isolation(false)]
    fn stage_period(
        &mut self,
        required: u64,
        target: u64,
        needed: u64,
    ) -> (mixed: u32)
        requires
            old(self).wf(),
            required <= needed,
            target <= needed,
            needed <= DEVICE_BUFFER_FRAMES,
        ensures
            final(self).wf(),
            final(self).channel_count == old(self).channel_count,
            final(self).sample_rate == old(self).sample_rate,
            final(self).resampler == old(self).resampler,
            final(self).panner == old(self).panner,
            final(self).volume == old(self).volume,
            final(self).fx is Some <==> old(self).fx is Some,
            final(self).buffer.len() == old(self).buffer.len(),
            final(self).temp_buffer.len() == old(self).temp_buffer.len(),
            final(self).channels.len() == old(self).channels.len(),
            final(self).mixers.len() == old(self).mixers.len(),
    {
        let ghost cc = self.channel_count as int;
        let chans: usize = self.channel_count as usize;
        proof {
            crate::fixed::lemma_sample_count_bounds(needed as int, self.channel_count as int);
            assert(needed * self.channel_count <= DEVICE_BUFFER_FRAMES * self.channel_count)
                by (nonlinear_arith)
                requires
                    needed <= DEVICE_BUFFER_FRAMES,
                    self.channel_count >= 0,
            ;
            crate::fixed::lemma_mul_le_mono(required as int, needed as int, cc);
            crate::fixed::lemma_mul_le_mono(target as int, needed as int, cc);
        }
        let n: usize = (target as usize) * chans;
        crate::fixed::acc_zero_prefix(&mut self.acc, n);
        let mut mixed: u32 = 0;
        let mut kids: Vec<AudioChannel> = Vec::new();
        core::mem::swap(&mut kids, &mut self.channels);
        let cn = kids.len();
        let mut i: usize = 0;
        while i < cn
            invariant
                i <= cn,
                kids.len() == cn,
                cn == old(self).channels.len(),
                forall|j: int| i <= j < cn ==> #[trigger] kids[j] == old(self).channels[j],
                forall|j: int|
                    0 <= j < i ==> (#[trigger] kids[j]).wf() && kids[j].reader.channels == cc,
                self.acc.len() == old(self).acc.len(),
                self.intermediate.len() == old(self).intermediate.len(),
                self.temp_buffer.len() == old(self).temp_buffer.len(),
                *self == (AudioDevice {
                    channels: self.channels,
                    acc: self.acc,
                    intermediate: self.intermediate,
                    temp_buffer: self.temp_buffer,
                    ..*old(self)
                }),
            decreases cn - i,
        {
            let listener: Option<&AudioSpatializationListener> = match &self.spatialization {
                Some(l) => Some(l),
                None => None,
            };
            match kids[i].read_pcm_frames_with_listener(
                listener,
                &mut self.intermediate,
                &mut self.temp_buffer,
                target,
            ) {
                Ok(got) => {
                    if got > 0 {
                        proof {
                            crate::fixed::lemma_mul_le_mono(got as int, target as int, cc);
                            crate::fixed::lemma_sample_count_bounds(got as int, cc);
                            crate::fixed::lemma_mul_le_mono(target as int, needed as int, cc);
                        }
                        let gn: usize = (got as usize) * chans;
                        crate::fixed::acc_add_samples(&mut self.acc, &self.intermediate, gn);
                        if mixed < u32::MAX {
                            mixed = mixed + 1;
                        }
                    }
                },
                Err(_) => (),
            }
            i = i + 1;
        }
        core::mem::swap(&mut kids, &mut self.channels);
        let mut mkids: Vec<AudioMixer> = Vec::new();
        core::mem::swap(&mut mkids, &mut self.mixers);
        let mn = mkids.len();
        let mut k: usize = 0;
        while k < mn
            invariant
                k <= mn,
                mkids.len() == mn,
                mn == old(self).mixers.len(),
                forall|j: int| k <= j < mn ==> #[trigger] mkids[j] == old(self).mixers[j],
                forall|j: int|
                    0 <= j < k ==> (#[trigger] mkids[j]).wf() && mkids[j].channel_count == cc,
                self.acc.len() == old(self).acc.len(),
                self.intermediate.len() == old(self).intermediate.len(),
                self.temp_buffer.len() == old(self).temp_buffer.len(),
                self.channels.len() == cn,
                forall|j: int|
                    0 <= j < cn ==> (#[trigger] self.channels[j]).wf()
                        && self.channels[j].reader.channels == cc,
                *self == (AudioDevice {
                    channels: self.channels,
                    mixers: self.mixers,
                    acc: self.acc,
                    intermediate: self.intermediate,
                    temp_buffer: self.temp_buffer,
                    ..*old(self)
                }),
                self.mixers.len() == 0,
            decreases mn - k,
        {
            match mkids[k].read_pcm_frames(&mut self.intermediate, &mut self.temp_buffer, target) {
                Ok(got) => {
                    if got > 0 {
                        proof {
                            crate::fixed::lemma_mul_le_mono(got as int, target as int, cc);
                            crate::fixed::lemma_sample_count_bounds(got as int, cc);
                            crate::fixed::lemma_mul_le_mono(target as int, needed as int, cc);
                        }
                        let gn: usize = (got as usize) * chans;
                        crate::fixed::acc_add_samples(&mut self.acc, &self.intermediate, gn);
                        if mixed < u32::MAX {
                            mixed = mixed + 1;
                        }
                    }
                },
                Err(_) => (),
            }
            k = k + 1;
        }
        core::mem::swap(&mut mkids, &mut self.mixers);
        if self.fx.is_some() {
            let tn: usize = (target as usize) * chans;
            crate::fixed::pack_acc_clamped(&self.acc, &mut self.buffer, tn);
            let fa_positive: bool = match &mut self.fx {
                Some(f) => {
                    let add: i64 = if target > i64::MAX as u64 {
                        i64::MAX
                    } else {
                        target as i64
                    };
                    f.frame_available = crate::fixed::sat_add_i64(f.frame_available, add);
                    f.frame_available > 0
                },
                None => false,
            };
            if fa_positive {
                match &mut self.fx {
                    Some(f) => {
                        match f.process(&self.buffer, target, &mut self.temp_buffer, required) {
                            Ok(()) => (),
                            Err(_) => {
                                proof {
                                    assert(false);
                                }
                            },
                        }
                        let sub: i64 = if required > i64::MAX as u64 {
                            i64::MAX
                        } else {
                            required as i64
                        };
                        f.frame_available = crate::fixed::sat_add_i64(f.frame_available, -sub);
                        if f.frame_available < 0 {
                            f.frame_available = 0;
                        }
                    },
                    None => (),
                }
                let rn: usize = (required as usize) * chans;
                let staged = self.temp_buffer.clone();
                crate::fixed::copy_into(&staged, &mut self.buffer, rn);
            }
        } else {
            let rn: usize = (required as usize) * chans;
            crate::fixed::pack_acc_clamped(&self.acc, &mut self.buffer, rn);
        }
        mixed
    }

    /// Computes one hardware period of `frame_count` frames into the
    /// front of `output`.  The top-level nodes are mixed — silence when
    /// none contributes — run through the device chain, divided by the
    /// number of contributing sources when more than one, and written
    /// out.  Afterwards every node marked deleted is swept from the
    /// device.  A period beyond the device's capacity, or a buffer too
    /// short for it, is rejected.
    #[verifier::loop_isolation(false)]
    pub fn process(&mut self, output: &mut Vec<i16>, frame_count: u64) -> (r: Result<
        (),
        AudioDeviceError,
    >)
        requires
            old(self).wf(),
        ensures
            final(self).wf(),
            final(self).channel_count == old(self).channel_count,
            final(self).sample_rate == old(self).sample_rate,
            final(output).len() == old(output).len(),
            frame_count > DEVICE_BUFFER_FRAMES ==> r is Err && *final(self) == *old(self),
            r is Err ==> *final(self) == *old(self) && *final(output) == *old(output),
            ({
                let ch = old(self).channel_count as int;
                let needed = old(self).spec_needed_frames(frame_count as int);
                frame_count <= DEVICE_BUFFER_FRAMES && needed <= DEVICE_BUFFER_FRAMES && old(output).len() >= frame_count * ch ==> r is Ok
            }),
            ({
                let ch = old(self).channel_count as int;
                old(self).channels.len() == 0 && old(self).mixers.len() == 0 ==> (r is Ok
                    ==> forall|i: int|
                    0 <= i < frame_count * ch ==> final(output)@[i] == 0i16)
            }),
            final(self).channels.len() <= old(self).channels.len(),
            final(self).mixers.len() <= old(self).mixers.len(),
            r is Ok ==> forall|i: int|
                0 <= i < final(self).channels.len() ==> !(#[trigger] final(self).channels[i]).marked_as_deleted,
            r is Ok ==> forall|i: int|
                0 <= i < final(self).mixers.len() ==> !(#[trigger] final(self).mixers[i]).marked_as_deleted,
    {
        if frame_count > DEVICE_BUFFER_FRAMES {
            return Err(AudioDeviceError::InvalidOperation(0));
        }
        let ghost cc = self.channel_count as int;
        let chans: usize = self.channel_count as usize;
        proof {
            crate::fixed::lemma_sample_count_bounds(frame_count as int, self.channel_count as int);
            assert(frame_count * self.channel_count <= DEVICE_BUFFER_FRAMES * self.channel_count)
                by (nonlinear_arith)
                requires
                    frame_count <= DEVICE_BUFFER_FRAMES,
                    self.channel_count >= 0,
            ;
        }
        if (output.len() as u128) < (frame_count as u128) * (self.channel_count as u128) {
            return Err(AudioDeviceError::InvalidOperation(0));
        }
        let required: u64 = match self.resampler.get_required_input(frame_count) {
            Ok(v) => v,
            Err(_) => 0,
        };
        let target: u64 = match &self.fx {
            Some(f) => {
                if f.tempo == crate::fixed::MILLI_ONE {
                    required
                } else {
                    match f.get_required_input(required) {
                        Ok(v) => v,
                        Err(_) => 0,
                    }
                }
            },
            None => required,
        };
        proof {
            assert(required == old(self).spec_required_frames(frame_count as int));
            assert(target == old(self).spec_target_frames(frame_count as int));
        }
        let m0: u64 = if required >= target {
            required
        } else {
            target
        };
        let needed: u64 = if frame_count >= m0 {
            frame_count
        } else {
            m0
        };
        proof {
            assert(needed == old(self).spec_needed_frames(frame_count as int));
        }
        if needed > DEVICE_BUFFER_FRAMES {
            return Err(AudioDeviceError::InvalidOperation(0));
        }
        let out_n: usize = (frame_count as usize) * chans;
        crate::fixed::zero_prefix(output, out_n);
        if self.channels.len() == 0 && self.mixers.len() == 0 {
            return Ok(());
        }
        let mixed: u32 = self.stage_period(required, target, needed);
        proof {
            crate::fixed::lemma_sample_count_bounds(needed as int, self.channel_count as int);
            assert(needed * self.channel_count <= DEVICE_BUFFER_FRAMES * self.channel_count)
                by (nonlinear_arith)
                requires
                    needed <= DEVICE_BUFFER_FRAMES,
                    self.channel_count >= 0,
            ;
            crate::fixed::lemma_mul_le_mono(frame_count as int, needed as int, cc);
            crate::fixed::lemma_mul_le_mono(required as int, needed as int, cc);
        }
        if mixed > 0 {
            if !self.resampler.bypass_mode() {
                let src = self.buffer.clone();
                match self.resampler.process(&src, required, &mut self.temp_buffer, frame_count) {
                    Ok(_) => (),
                    Err(_) => {
                        proof {
                            assert(false);
                        }
                    },
                }
                let staged = self.temp_buffer.clone();
                crate::fixed::copy_into(&staged, &mut self.buffer, out_n);
            }
            let panned_src = self.buffer.clone();
            match self.panner.process(&panned_src, &mut self.temp_buffer, frame_count) {
                Ok(()) => (),
                Err(_) => {
                    proof {
                        assert(false);
                    }
                },
            }
            let gained_src = self.temp_buffer.clone();
            match self.volume.process(&gained_src, &mut self.buffer, frame_count) {
                Ok(()) => (),
                Err(_) => {
                    proof {
                        assert(false);
                    }
                },
            }
            if mixed > 1 {
                crate::fixed::divide_samples(&mut self.buffer, out_n, mixed);
            }
            crate::fixed::copy_into(&self.buffer.clone(), output, out_n);
        }
        self.sweep_deleted();
        Ok(())
    }

    /// Sweeps out every node marked deleted.
    #[verifier::loop_isolation(false)]
    fn sweep_deleted(&mut self)
        requires
            old(self).wf(),
        ensures
            final(self).wf(),
            final(self).channel_count == old(self).channel_count,
            final(self).sample_rate == old(self).sample_rate,
            final(self).resampler == old(self).resampler,
            final(self).panner == old(self).panner,
            final(self).volume == old(self).volume,
            final(self).fx == old(self).fx,
            final(self).spatialization == old(self).spatialization,
            final(self).buffer == old(self).buffer,
            final(self).channels.len() <= old(self).channels.len(),
            final(self).mixers.len() <= old(self).mixers.len(),
            forall|i: int|
                0 <= i < final(self).channels.len() ==> !(#[trigger] final(self).channels[i]).marked_as_deleted,
            forall|i: int|
                0 <= i < final(self).mixers.len() ==> !(#[trigger] final(self).mixers[i]).marked_as_deleted,
    {
        let ghost cc = self.channel_count as int;
        let mut kids: Vec<AudioChannel> = Vec::new();
        core::mem::swap(&mut kids, &mut self.channels);
        let ghost cn = kids.len() as int;
        let mut keep: Vec<AudioChannel> = Vec::new();
        while kids.len() > 0
            invariant
                kids.len() <= cn,
                cn == old(self).channels.len(),
                keep.len() + kids.len() <= cn,
                forall|j: int|
                    0 <= j < kids.len() ==> #[trigger] kids[j] == old(self).channels[(cn
                        - kids.len() + j)],
                forall|j: int|
                    0 <= j < keep.len() ==> !(#[trigger] keep[j]).marked_as_deleted && keep[j].wf()
                        && keep[j].reader.channels == cc,
            decreases kids.len(),
        {
            let ghost prev = kids@;
            let c = kids.remove(0);
            proof {
                assert(kids@ =~= prev.subrange(1, prev.len() as int));
            }
            if !c.marked_as_deleted {
                keep.push(c);
            }
        }
        core::mem::swap(&mut keep, &mut self.channels);
        let mut mkids: Vec<AudioMixer> = Vec::new();
        core::mem::swap(&mut mkids, &mut self.mixers);
        let ghost mn = mkids.len() as int;
        let mut mkeep: Vec<AudioMixer> = Vec::new();
        while mkids.len() > 0
            invariant
                mkids.len() <= mn,
                mn == old(self).mixers.len(),
                mkeep.len() + mkids.len() <= mn,
                forall|j: int|
                    0 <= j < mkids.len() ==> #[trigger] mkids[j] == old(self).mixers[(mn
                        - mkids.len() + j)],
                forall|j: int|
                    0 <= j < mkeep.len() ==> !(#[trigger] mkeep[j]).marked_as_deleted
                        && mkeep[j].wf() && mkeep[j].channel_count == cc,
                self.channels.len() <= cn,
                forall|j: int|
                    0 <= j < self.channels.len() ==> !(#[trigger] self.channels[j]).marked_as_deleted
                        && self.channels[j].wf() && self.channels[j].reader.channels == cc,
            decreases mkids.len(),
        {
            let ghost prev = mkids@;
            let m = mkids.remove(0);
            proof {
                assert(mkids@ =~= prev.subrange(1, prev.len() as int));
            }
            if !m.marked_as_deleted {
                mkeep.push(m);
            }
        }
        core::mem::swap(&mut mkeep, &mut self.mixers);
    }

    /// Reads a value attribute of the device chain; the sample rate is
    /// the device's own rate in hertz, gains come back in thousandths.
    pub fn get_attribute(&self, attribute: AudioAttributes) -> (r: Result<i64, AudioPropertyError>)
        ensures
            attribute == AudioAttributes::SampleRate ==> r == Ok::<i64, AudioPropertyError>(
                self.resampler.target_sample_rate as i64,
            ),
            attribute == AudioAttributes::Volume ==> r == Ok::<i64, AudioPropertyError>(
                self.volume.volume as i64,
            ),
            attribute == AudioAttributes::Pan ==> r == Ok::<i64, AudioPropertyError>(
                self.panner.pan as i64,
            ),
            attribute == AudioAttributes::FXTempo && self.fx is None ==> r == Err::<
                i64,
                AudioPropertyError,
            >(AudioPropertyError::AudioFXError(AudioFXError::NotEnabled)),
            self.fx matches Some(f) ==> attribute == AudioAttributes::FXTempo ==> r == Ok::<
                i64,
                AudioPropertyError,
            >(f.tempo as i64),
            attribute == AudioAttributes::FXPitch && self.fx is None ==> r == Err::<
                i64,
                AudioPropertyError,
            >(AudioPropertyError::AudioFXError(AudioFXError::NotEnabled)),
            self.fx matches Some(f) ==> attribute == AudioAttributes::FXPitch ==> r == Ok::<
                i64,
                AudioPropertyError,
            >(f.octave as i64),
    {
        match attribute {
            AudioAttributes::SampleRate => Ok(self.resampler.target_sample_rate as i64),
            AudioAttributes::Volume => Ok(self.volume.volume as i64),
            AudioAttributes::Pan => Ok(self.panner.pan as i64),
            AudioAttributes::FXPitch => {
                match &self.fx {
                    Some(f) => Ok(f.octave as i64),
                    None => Err(AudioPropertyError::AudioFXError(AudioFXError::NotEnabled)),
                }
            },
            AudioAttributes::FXTempo => {
                match &self.fx {
                    Some(f) => Ok(f.tempo as i64),
                    None => Err(AudioPropertyError::AudioFXError(AudioFXError::NotEnabled)),
                }
            },
            _ => Err(AudioPropertyError::UnsupportedAttribute("not a value attribute")),
        }
    }

    /// Writes a value attribute of the device chain.
    pub fn set_attribute(&mut self, attribute: AudioAttributes, value: i64) -> (r: Result<
        (),
        AudioPropertyError,
    >)
        requires
            old(self).wf(),
        ensures
            final(self).wf(),
            final(self).channel_count == old(self).channel_count,
            final(self).sample_rate == old(self).sample_rate,
            final(self).channels == old(self).channels,
            final(self).mixers == old(self).mixers,
            attribute == AudioAttributes::Volume ==> r is Ok && final(self).volume.volume
                == crate::fixed::spec_clamp_unit_milli(value as int),
            attribute == AudioAttributes::Pan ==> r is Ok && final(self).panner.pan
                == crate::fixed::spec_clamp_pan_milli(value as int),
            attribute == AudioAttributes::SampleRate ==> if 1 <= value <= u32::MAX {
                r is Ok && final(self).resampler.target_sample_rate == value
            } else {
                r is Err && *final(self) == *old(self)
            },
            attribute == AudioAttributes::FXTempo && old(self).fx is None ==> r == Err::<
                (),
                AudioPropertyError,
            >(AudioPropertyError::AudioFXError(AudioFXError::NotEnabled)) && *final(self) == *old(self),
            attribute == AudioAttributes::FXTempo && old(self).fx is Some && 1 <= value
                <= u32::MAX ==> r is Ok && (final(self).fx matches Some(g) && g.tempo == value),
            attribute == AudioAttributes::FXPitch && old(self).fx is None ==> r == Err::<
                (),
                AudioPropertyError,
            >(AudioPropertyError::AudioFXError(AudioFXError::NotEnabled)) && *final(self) == *old(self),
            attribute == AudioAttributes::FXPitch && old(self).fx is Some && 1 <= value
                <= u32::MAX ==> r is Ok && (final(self).fx matches Some(g) && g.octave == value),
    {
        match attribute {
            AudioAttributes::Volume => {
                self.volume.set_volume(value);
                Ok(())
            },
            AudioAttributes::Pan => {
                self.panner.set_pan(value);
                Ok(())
            },
            AudioAttributes::SampleRate => {
                if value < 1 || value > u32::MAX as i64 {
                    return Err(
                        AudioPropertyError::UnsupportedAttribute("sample rate out of range"),
                    );
                }
                self.resampler.set_target_sample_rate(value as u32);
                Ok(())
            },
            AudioAttributes::FXTempo => {
                match &mut self.fx {
                    Some(f) => {
                        if value < 1 || value > u32::MAX as i64 {
                            return Err(
                                AudioPropertyError::AudioFXError(AudioFXError::InvalidTempo),
                            );
                        }
                        match f.set_tempo(value as u32) {
                            Ok(()) => Ok(()),
                            Err(e) => {
                                proof {
                                    assert(false);
                                }
                                Err(AudioPropertyError::AudioFXError(e))
                            },
                        }
                    },
                    None => Err(AudioPropertyError::AudioFXError(AudioFXError::NotEnabled)),
                }
            },
            AudioAttributes::FXPitch => {
                match &mut self.fx {
                    Some(f) => {
                        if value < 1 || value > u32::MAX as i64 {
                            return Err(
                                AudioPropertyError::AudioFXError(AudioFXError::InvalidOctave),
                            );
                        }
                        match f.set_octave(value as u32) {
                            Ok(()) => Ok(()),
                            Err(e) => {
                                proof {
                                    assert(false);
                                }
                                Err(AudioPropertyError::AudioFXError(e))
                            },
                        }
                    },
                    None => Err(AudioPropertyError::AudioFXError(AudioFXError::NotEnabled)),
                }
            },
            _ => Err(AudioPropertyError::UnsupportedAttribute("not a value attribute")),
        }
    }

    /// Reads a toggle: whether the device stretch stage or the listener
    /// is installed.
    pub fn get_attribute_bool(&self, attribute: AudioAttributes) -> (r: Result<
        bool,
        AudioPropertyError,
    >)
        ensures
            attribute == AudioAttributes::AudioFX ==> r == Ok::<bool, AudioPropertyError>(
                self.fx is Some,
            ),
            attribute == AudioAttributes::AudioSpatialization ==> r == Ok::<
                bool,
                AudioPropertyError,
            >(self.spatialization is Some),
    {
        match attribute {
            AudioAttributes::AudioFX => Ok(self.fx.is_some()),
            AudioAttributes::AudioSpatialization => Ok(self.spatialization.is_some()),
            _ => Err(AudioPropertyError::UnsupportedAttribute("not a toggle attribute")),
        }
    }

    /// Writes a toggle: `AudioFX` installs or drops the device stretch
    /// stage; `AudioSpatialization` installs or drops the listener.
    pub fn set_attribute_bool(&mut self, attribute: AudioAttributes, value: bool) -> (r: Result<
        (),
        AudioPropertyError,
    >)
        requires
            old(self).wf(),
        ensures
            final(self).wf(),
            final(self).channel_count == old(self).channel_count,
            final(self).sample_rate == old(self).sample_rate,
            final(self).channels == old(self).channels,
            final(self).mixers == old(self).mixers,
            attribute == AudioAttributes::AudioFX ==> r is Ok && (final(self).fx is Some
                <==> value) && final(self).spatialization == old(self).spatialization,
            attribute == AudioAttributes::AudioSpatialization ==> r is Ok && (final(self).spatialization is Some <==> value) && final(self).fx == old(self).fx,
    {
        match attribute {
            AudioAttributes::AudioFX => {
                if value {
                    if self.fx.is_none() {
                        let fx = match AudioFX::new(self.channel_count, self.resampler.sample_rate) {
                            Ok(f) => f,
                            Err(e) => {
                                proof {
                                    assert(false);
                                }
                                return Err(AudioPropertyError::AudioFXError(e));
                            },
                        };
                        self.fx = Some(fx);
                    }
                } else {
                    self.fx = None;
                }
                Ok(())
            },
            AudioAttributes::AudioSpatialization => {
                if value {
                    if self.spatialization.is_none() {
                        let l = match AudioSpatializationListener::new(self.channel_count) {
                            Ok(l) => l,
                            Err(e) => {
                                proof {
                                    assert(false);
                                }
                                return Err(
                                    AudioPropertyError::SpatializationListenerError(e),
                                );
                            },
                        };
                        self.spatialization = Some(l);
                    }
                } else {
                    self.spatialization = None;
                }
                Ok(())
            },
            _ => Err(AudioPropertyError::UnsupportedAttribute("not a toggle attribute")),
        }
    }

    /// Moves the listener; fails when no listener is installed.
    pub fn set_listener_position(&mut self, x: i64, y: i64, z: i64) -> (r: Result<
        (),
        AudioSpatializationListenerError,
    >)
        requires
            old(self).wf(),
        ensures
            final(self).wf(),
            old(self).spatialization is None ==> r == Err::<(), AudioSpatializationListenerError>(
                AudioSpatializationListenerError::NotInitialized,
            ) && *final(self) == *old(self),
            old(self).spatialization is Some ==> r is Ok && (final(self).spatialization matches
                Some(l) && l.position == (crate::spatial::Vec3Milli { x, y, z })),
    {
        match &mut self.spatialization {
            Some(l) => {
                l.set_position(x, y, z);
                Ok(())
            },
            None => Err(AudioSpatializationListenerError::NotInitialized),
        }
    }

    /// The listener's position; fails when no listener is installed.
    pub fn get_listener_position(&self) -> (r: Result<
        (i64, i64, i64),
        AudioSpatializationListenerError,
    >)
        ensures
            self.spatialization is None ==> r == Err::<
                (i64, i64, i64),
                AudioSpatializationListenerError,
            >(AudioSpatializationListenerError::NotInitialized),
            self.spatialization matches Some(l) ==> r == Ok::<
                (i64, i64, i64),
                AudioSpatializationListenerError,
            >((l.position.x, l.position.y, l.position.z)),
    {
        match &self.spatialization {
            Some(l) => Ok(l.get_position()),
            None => Err(AudioSpatializationListenerError::NotInitialized),
        }
    }

    /// Turns the listener; fails when no listener is installed.
    pub fn set_listener_direction(&mut self, x: i64, y: i64, z: i64) -> (r: Result<
        (),
        AudioSpatializationListenerError,
    >)
        requires
            old(self).wf(),
        ensures
            final(self).wf(),
            old(self).spatialization is None ==> r == Err::<(), AudioSpatializationListenerError>(
                AudioSpatializationListenerError::NotInitialized,
            ) && *final(self) == *old(self),
            old(self).spatialization is Some ==> r is Ok && (final(self).spatialization matches
                Some(l) && l.direction == (crate::spatial::Vec3Milli { x, y, z })),
    {
        match &mut self.spatialization {
            Some(l) => {
                l.set_direction(x, y, z);
                Ok(())
            },
            None => Err(AudioSpatializationListenerError::NotInitialized),
        }
    }

    /// Whether the attached channel carrying `ref_id` is playing.
    #[verifier::loop_isolation(false)]
    pub fn channel_is_playing(&self, ref_id: u64) -> (r: Result<bool, AudioDeviceError>)
        ensures
            r matches Ok(p) ==> exists|i: int|
                0 <= i < self.channels.len() && (#[trigger] self.channels[i]).ref_id == ref_id
                    && self.channels[i].playing == p,
            r is Err ==> !(exists|i: int|
                0 <= i < self.channels.len() && (#[trigger] self.channels[i]).ref_id == ref_id),
    {
        let n = self.channels.len();
        let mut i: usize = 0;
        while i < n
            invariant
                i <= n,
                forall|j: int| 0 <= j < i ==> (#[trigger] self.channels[j]).ref_id != ref_id,
            decreases n - i,
        {
            if self.channels[i].ref_id() == ref_id {
                return Ok(self.channels[i].is_playing());
            }
            i = i + 1;
        }
        Err(AudioDeviceError::ChannelNotFound(ref_id))
    }

    /// The attached channel's position on its own timeline.
    #[verifier::loop_isolation(false)]
    pub fn channel_position(&self, ref_id: u64) -> (r: Result<u64, AudioDeviceError>)
        ensures
            r matches Ok(p) ==> exists|i: int|
                0 <= i < self.channels.len() && (#[trigger] self.channels[i]).ref_id == ref_id
                    && self.channels[i].position == p,
            r is Err ==> !(exists|i: int|
                0 <= i < self.channels.len() && (#[trigger] self.channels[i]).ref_id == ref_id),
    {
        let n = self.channels.len();
        let mut i: usize = 0;
        while i < n
            invariant
                i <= n,
                forall|j: int| 0 <= j < i ==> (#[trigger] self.channels[j]).ref_id != ref_id,
            decreases n - i,
        {
            if self.channels[i].ref_id() == ref_id {
                return Ok(self.channels[i].get_position());
            }
            i = i + 1;
        }
        Err(AudioDeviceError::ChannelNotFound(ref_id))
    }
}

} // verus!
