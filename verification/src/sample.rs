//! An immutable decoded buffer that manufactures independent channels.

use vstd::prelude::*;

use crate::attributes::AudioAttributes;
use crate::attributes::AudioPropertyError;
use crate::channel::AudioChannel;
use crate::channel::AudioChannelError;
use crate::device::AudioDevice;
use crate::device::AudioDeviceError;
use crate::fixed::MILLI_ONE;
use crate::ids::RefIdSource;
use crate::panner::AudioPannerError;
use crate::reader::AudioReader;
use crate::reader::AudioReaderError;

verus! {

#[derive(Debug, Clone)]
pub enum AudioSampleError {
    FileNotFound(String),
    InvalidChannels(u32),
    InvalidSampleRate(u32),
    AudioReaderError(AudioReaderError),
    AudioPannerError(AudioPannerError),
    AudioChannelError(AudioChannelError),
    AudioPropertyError(AudioPropertyError),
    AudioDeviceError(AudioDeviceError),
}

/// The default attributes a manufactured channel starts with.  Values
/// follow the attribute conventions: gains in thousandths, the sample
/// rate in hertz.
#[derive(Clone)]
pub struct AudioSampleAttributes {
    pub enable_fx: bool,
    pub enable_spatialization: bool,
    pub volume: i64,
    pub sample_rate: i64,
    pub pan: i64,
    pub fx_tempo: i64,
    pub fx_pitch: i64,
}

impl Default for AudioSampleAttributes {
    /// Unity gain and factors, centred pan, the stereo hardware rate,
    /// both capabilities off.
    fn default() -> (r: Self)
        ensures
            !r.enable_fx && !r.enable_spatialization && r.volume == MILLI_ONE && r.sample_rate
                == 44100 && r.pan == 0 && r.fx_tempo == MILLI_ONE && r.fx_pitch == MILLI_ONE,
    {
        AudioSampleAttributes {
            enable_fx: false,
            enable_spatialization: false,
            volume: MILLI_ONE as i64,
            sample_rate: 44100,
            pan: 0,
            fx_tempo: MILLI_ONE as i64,
            fx_pitch: MILLI_ONE as i64,
        }
    }
}

/// An immutable PCM buffer plus default attributes; a factory for
/// independent channels over the same data.
#[derive(Clone)]
pub struct AudioSample {
    pub buffer: Vec<i16>,
    pub pcm_length: u64,
    pub sample_rate: u32,
    pub channels: u32,
    pub attributes: AudioSampleAttributes,
}

impl AudioSample {
    pub open spec fn wf(&self) -> bool {
        &&& 1 <= self.channels <= 8
        &&& 8000 <= self.sample_rate <= 192000
        &&& self.buffer.len() == self.pcm_length * self.channels
    }

    /// The stored attributes can be applied to a channel: the sample rate
    /// is a positive rate, and — when the stretch stage is on — the tempo
    /// and pitch factors are positive and representable.
    pub open spec fn spec_attributes_ok(&self) -> bool {
        &&& 1 <= self.attributes.sample_rate <= u32::MAX
        &&& (self.attributes.enable_fx ==> 1 <= self.attributes.fx_tempo <= u32::MAX && 1
            <= self.attributes.fx_pitch <= u32::MAX)
    }

    /// The channel `c` carries this sample's attributes: clamped gain and
    /// pan, the target rate, the capability toggles, and the stretch
    /// factors when the stage is on.
    pub open spec fn spec_attributes_applied(&self, c: AudioChannel) -> bool {
        &&& c.gainer.volume == crate::fixed::spec_clamp_unit_milli(self.attributes.volume as int)
        &&& c.panner.pan == crate::fixed::spec_clamp_pan_milli(self.attributes.pan as int)
        &&& c.resampler.target_sample_rate == self.attributes.sample_rate
        &&& (c.fx is Some <==> self.attributes.enable_fx)
        &&& (c.spatializer is Some <==> self.attributes.enable_spatialization)
        &&& (self.attributes.enable_fx ==> (c.fx matches Some(f) && f.tempo
            == self.attributes.fx_tempo && f.octave == self.attributes.fx_pitch))
    }

    /// Wraps raw interleaved PCM, validating the channel count and the
    /// sample rate, and keeping exactly `pcm_length` frames.
    pub fn load_audio_buffer(buffer: &Vec<i16>, pcm_length: u64, sample_rate: u32, channels: u32)
        -> (r: Result<AudioSample, AudioSampleError>)
        ensures
            !(1 <= channels <= 8) ==> r == Err::<AudioSample, AudioSampleError>(
                AudioSampleError::InvalidChannels(channels),
            ),
            1 <= channels <= 8 && !(8000 <= sample_rate <= 192000) ==> r == Err::<
                AudioSample,
                AudioSampleError,
            >(AudioSampleError::InvalidSampleRate(sample_rate)),
            1 <= channels <= 8 && 8000 <= sample_rate <= 192000 && buffer.len() < pcm_length
                * channels ==> (r matches Err(e) && (e matches
            AudioSampleError::AudioReaderError(_))),
            1 <= channels <= 8 && 8000 <= sample_rate <= 192000 && buffer.len() >= pcm_length
                * channels ==> (r matches Ok(s) && s.wf() && s.pcm_length == pcm_length
                && s.sample_rate == sample_rate && s.channels == channels
                && s.attributes.sample_rate == sample_rate && !s.attributes.enable_fx),
    {
        if channels < 1 || channels > 8 {
            return Err(AudioSampleError::InvalidChannels(channels));
        }
        if sample_rate < 8000 || sample_rate > 192000 {
            return Err(AudioSampleError::InvalidSampleRate(sample_rate));
        }
        proof {
            crate::fixed::lemma_sample_count_bounds(pcm_length as int, channels as int);
        }
        let needed: u128 = (pcm_length as u128) * (channels as u128);
        if (buffer.len() as u128) < needed {
            return Err(AudioSampleError::AudioReaderError(AudioReaderError::InvalidPCMLength));
        }
        let n: usize = (pcm_length as usize) * (channels as usize);
        let data = crate::fixed::copy_prefix(buffer, n);
        let mut attributes = AudioSampleAttributes::default();
        attributes.sample_rate = sample_rate as i64;
        Ok(AudioSample { buffer: data, pcm_length, sample_rate, channels, attributes })
    }

    /// Decodes an in-memory audio file into a sample.
    pub fn load_file_buffer(buffer: &Vec<u8>) -> (r: Result<AudioSample, AudioSampleError>)
        ensures
            r matches Ok(s) ==> s.pcm_length * s.channels == s.buffer.len(),
    {
        let reader = match AudioReader::load_file_buffer(buffer) {
            Ok(rd) => rd,
            Err(e) => {
                return Err(AudioSampleError::AudioReaderError(e));
            },
        };
        let mut attributes = AudioSampleAttributes::default();
        attributes.sample_rate = reader.sample_rate as i64;
        Ok(
            AudioSample {
                buffer: reader.data,
                pcm_length: reader.pcm_length,
                sample_rate: reader.sample_rate,
                channels: reader.channels,
                attributes,
            },
        )
    }

    /// Writes a default attribute for the channels manufactured later;
    /// values are stored as given and validated when applied.
    pub fn set_attribute(&mut self, attribute: AudioAttributes, value: i64) -> (r: Result<
        (),
        AudioPropertyError,
    >)
        ensures
            final(self).buffer == old(self).buffer,
            final(self).pcm_length == old(self).pcm_length,
            final(self).sample_rate == old(self).sample_rate,
            final(self).channels == old(self).channels,
            attribute == AudioAttributes::Volume ==> r is Ok && final(self).attributes.volume
                == value,
            attribute == AudioAttributes::Pan ==> r is Ok && final(self).attributes.pan == value,
            attribute == AudioAttributes::SampleRate ==> r is Ok && final(self).attributes.sample_rate == value,
            attribute == AudioAttributes::FXTempo ==> if old(self).attributes.enable_fx {
                r is Ok && final(self).attributes.fx_tempo == value
            } else {
                r is Err && *final(self) == *old(self)
            },
            attribute == AudioAttributes::FXPitch ==> if old(self).attributes.enable_fx {
                r is Ok && final(self).attributes.fx_pitch == value
            } else {
                r is Err && *final(self) == *old(self)
            },
    {
        match attribute {
            AudioAttributes::Volume => {
                self.attributes.volume = value;
                Ok(())
            },
            AudioAttributes::Pan => {
                self.attributes.pan = value;
                Ok(())
            },
            AudioAttributes::SampleRate => {
                self.attributes.sample_rate = value;
                Ok(())
            },
            AudioAttributes::FXTempo => {
                if !self.attributes.enable_fx {
                    return Err(
                        crate::attributes::AudioPropertyError::AudioFXError(
                            crate::fx::AudioFXError::NotEnabled,
                        ),
                    );
                }
                self.attributes.fx_tempo = value;
                Ok(())
            },
            AudioAttributes::FXPitch => {
                if !self.attributes.enable_fx {
                    return Err(
                        crate::attributes::AudioPropertyError::AudioFXError(
                            crate::fx::AudioFXError::NotEnabled,
                        ),
                    );
                }
                self.attributes.fx_pitch = value;
                Ok(())
            },
            _ => Err(
                crate::attributes::AudioPropertyError::UnsupportedAttribute(
                    "not a value attribute",
                ),
            ),
        }
    }

    /// Writes a default toggle for the channels manufactured later.
    pub fn set_attribute_bool(&mut self, attribute: AudioAttributes, value: bool) -> (r: Result<
        (),
        AudioPropertyError,
    >)
        ensures
            final(self).buffer == old(self).buffer,
            final(self).pcm_length == old(self).pcm_length,
            final(self).sample_rate == old(self).sample_rate,
            final(self).channels == old(self).channels,
            attribute == AudioAttributes::AudioFX ==> r is Ok && final(self).attributes.enable_fx
                == value && final(self).attributes.enable_spatialization == old(self).attributes.enable_spatialization,
            attribute == AudioAttributes::AudioSpatialization ==> r is Ok && final(self).attributes.enable_spatialization == value
                && final(self).attributes.enable_fx == old(self).attributes.enable_fx,
    {
        match attribute {
            AudioAttributes::AudioFX => {
                self.attributes.enable_fx = value;
                Ok(())
            },
            AudioAttributes::AudioSpatialization => {
                self.attributes.enable_spatialization = value;
                Ok(())
            },
            _ => Err(
                crate::attributes::AudioPropertyError::UnsupportedAttribute(
                    "not a toggle attribute",
                ),
            ),
        }
    }

    /// Manufactures one detached channel over this sample's data, with
    /// the sample's attributes applied.  The channel always carries the
    /// sample's rate, width and length.
    pub fn make_channel(&self, ids: &mut RefIdSource) -> (r: Result<AudioChannel, AudioSampleError>)
        requires
            self.wf(),
        ensures
            self.spec_attributes_ok() ==> r is Ok,
            r matches Ok(c) ==> c.wf() && c.reader.sample_rate == self.sample_rate
                && c.reader.channels == self.channels && c.reader.pcm_length == self.pcm_length
                && c.reader.data@ == self.buffer@ && c.ref_id == old(ids).next_channel_id
                && !c.playing,
            self.spec_attributes_ok() ==> (r matches Ok(c) ==> self.spec_attributes_applied(c)),
            final(ids).next_mixer_id == old(ids).next_mixer_id,
            final(ids).next_channel_id == (if old(ids).next_channel_id == u64::MAX {
                0int
            } else {
                old(ids).next_channel_id + 1
            }),
    {
        proof {
            assert(self.buffer@.subrange(0, (self.pcm_length * self.channels) as int)
                =~= self.buffer@);
        }
        let mut channel = match AudioChannel::new_audio_buffer(
            ids,
            &self.buffer,
            self.pcm_length,
            self.sample_rate,
            self.channels,
        ) {
            Ok(c) => c,
            Err(e) => {
                proof {
                    assert(false);
                }
                return Err(AudioSampleError::AudioChannelError(e));
            },
        };
        match self.apply_attributes(&mut channel) {
            Ok(()) => (),
            Err(e) => {
                return Err(AudioSampleError::AudioPropertyError(e));
            },
        }
        Ok(channel)
    }

    /// Applies the sample's stored attributes to one channel; invalid
    /// stored values surface here.
    fn apply_attributes(&self, channel: &mut AudioChannel) -> (r: Result<(), AudioPropertyError>)
        requires
            old(channel).wf(),
        ensures
            final(channel).wf(),
            final(channel).reader.sample_rate == old(channel).reader.sample_rate,
            final(channel).reader.channels == old(channel).reader.channels,
            final(channel).reader.pcm_length == old(channel).reader.pcm_length,
            final(channel).reader.data == old(channel).reader.data,
            final(channel).ref_id == old(channel).ref_id,
            final(channel).playing == old(channel).playing,
            self.spec_attributes_ok() ==> r is Ok && self.spec_attributes_applied(*final(channel)),
    {
        channel.set_attribute(AudioAttributes::Volume, self.attributes.volume)?;
        channel.set_attribute(AudioAttributes::Pan, self.attributes.pan)?;
        channel.set_attribute(AudioAttributes::SampleRate, self.attributes.sample_rate)?;
        channel.set_attribute_bool(AudioAttributes::AudioFX, self.attributes.enable_fx)?;
        channel.set_attribute_bool(
            AudioAttributes::AudioSpatialization,
            self.attributes.enable_spatialization,
        )?;
        if self.attributes.enable_fx {
            channel.set_attribute(AudioAttributes::FXPitch, self.attributes.fx_pitch)?;
            channel.set_attribute(AudioAttributes::FXTempo, self.attributes.fx_tempo)?;
        }
        Ok(())
    }

    /// Manufactures `size` channels, attaches each to the device, and
    /// hands back their reference ids.
    #[verifier::loop_isolation(false)]
    pub fn get_channels(&self, device: &mut AudioDevice, ids: &mut RefIdSource, size: u32) -> (r:
        Result<Vec<u64>, AudioSampleError>)
        requires
            self.wf(),
            old(device).wf(),
            self.channels == old(device).channel_count,
        ensures
            final(device).wf(),
            final(device).channel_count == old(device).channel_count,
            r matches Ok(v) ==> v.len() == size && final(device).channels.len() == old(device).channels.len() + size && (forall|j: int|
                0 <= j < old(device).channels.len() ==> #[trigger] final(device).channels[j]
                    == old(device).channels[j]) && (forall|k: int|
                0 <= k < size ==> ((#[trigger] final(device).channels[old(device).channels.len()
                    + k]).reader.sample_rate == self.sample_rate && final(device).channels[old(device).channels.len() + k].reader.channels == self.channels && final(device).channels[old(device).channels.len() + k].reader.pcm_length == self.pcm_length
                    && final(device).channels[old(device).channels.len() + k].reader.data@
                    == self.buffer@ && final(device).channels[old(device).channels.len()
                    + k].ref_id == v@[k] && (self.spec_attributes_ok()
                    ==> self.spec_attributes_applied(
                    final(device).channels[old(device).channels.len() + k],
                )))),
            self.spec_attributes_ok() && old(ids).next_channel_id + size <= u64::MAX && (forall|i: int|
                0 <= i < old(device).channels.len() ==> (#[trigger] old(device).channels[i]).ref_id < old(ids).next_channel_id) ==> r is Ok,
    {
        let ghost fresh_ok = old(ids).next_channel_id + size <= u64::MAX && (forall|i: int|
            0 <= i < old(device).channels.len() ==> (#[trigger] old(device).channels[i]).ref_id
                < old(ids).next_channel_id);
        let mut out: Vec<u64> = Vec::new();
        let mut i: u32 = 0;
        while i < size
            invariant
                i <= size,
                out.len() == i,
                device.wf(),
                device.channel_count == old(device).channel_count,
                self.channels == device.channel_count,
                device.channels.len() == old(device).channels.len() + i,
                forall|j: int|
                    0 <= j < old(device).channels.len() ==> #[trigger] device.channels[j] == old(device).channels[j],
                forall|k: int|
                    0 <= k < i ==> ((#[trigger] device.channels[old(device).channels.len()
                        + k]).reader.sample_rate == self.sample_rate && device.channels[old(device).channels.len() + k].reader.channels == self.channels && device.channels[old(device).channels.len() + k].reader.pcm_length == self.pcm_length
                        && device.channels[old(device).channels.len() + k].reader.data@
                        == self.buffer@ && device.channels[old(device).channels.len() + k].ref_id
                        == out@[k] && (self.spec_attributes_ok() ==> self.spec_attributes_applied(
                        device.channels[old(device).channels.len() + k],
                    ))),
                fresh_ok ==> ids.next_channel_id == old(ids).next_channel_id + i && (forall|j: int|
                    0 <= j < device.channels.len() ==> (#[trigger] device.channels[j]).ref_id
                        < ids.next_channel_id),
            decreases size - i,
        {
            let channel = match self.make_channel(ids) {
                Ok(c) => c,
                Err(e) => {
                    proof {
                        if self.spec_attributes_ok() {
                            assert(false);
                        }
                    }
                    return Err(e);
                },
            };
            let ref_id = channel.ref_id();
            match device.add_channel(channel) {
                Ok(()) => (),
                Err(e) => {
                    proof {
                        if fresh_ok && self.spec_attributes_ok() {
                            assert(false);
                        }
                    }
                    return Err(AudioSampleError::AudioDeviceError(e));
                },
            }
            out.push(ref_id);
            i = i + 1;
        }
        Ok(out)
    }

    /// Manufactures one channel, starts it, attaches it to the device and
    /// hands back its reference id.
    pub fn play(&self, device: &mut AudioDevice, ids: &mut RefIdSource) -> (r: Result<
        u64,
        AudioSampleError,
    >)
        requires
            self.wf(),
            old(device).wf(),
            self.channels == old(device).channel_count,
        ensures
            final(device).wf(),
            final(device).channel_count == old(device).channel_count,
            self.spec_attributes_ok() && self.pcm_length > 0 && (forall|i: int|
                0 <= i < old(device).channels.len() ==> (#[trigger] old(device).channels[i]).ref_id
                    != old(ids).next_channel_id) ==> r is Ok,
            r matches Ok(id) ==> id == old(ids).next_channel_id && final(device).channels.len()
                == old(device).channels.len() + 1 && (forall|j: int|
                0 <= j < old(device).channels.len() ==> #[trigger] final(device).channels[j]
                    == old(device).channels[j]) && ({
                let c = final(device).channels[old(device).channels.len() as int];
                c.ref_id == id && c.playing && c.reader.sample_rate == self.sample_rate
                    && c.reader.channels == self.channels && c.reader.pcm_length
                    == self.pcm_length
            }),
    {
        let mut channel = match self.make_channel(ids) {
            Ok(c) => c,
            Err(e) => {
                return Err(e);
            },
        };
        match channel.play() {
            Ok(()) => (),
            Err(e) => {
                return Err(AudioSampleError::AudioChannelError(e));
            },
        }
        let ref_id = channel.ref_id();
        match device.add_channel(channel) {
            Ok(()) => (),
            Err(e) => {
                return Err(AudioSampleError::AudioDeviceError(e));
            },
        }
        Ok(ref_id)
    }
}

} // verus!
