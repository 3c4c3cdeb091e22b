//! Builder façades for devices, channels, mixers and samples.

use vstd::prelude::*;

use crate::attributes::AudioAttributes;
use crate::attributes::AudioPropertyError;
use crate::channel::AudioChannel;
use crate::channel::AudioChannelError;
use crate::device::AudioDevice;
use crate::device::AudioDeviceError;
use crate::ids::RefIdSource;
use crate::mixer::AudioMixer;
use crate::mixer::AudioMixerError;
use crate::sample::AudioSample;
use crate::sample::AudioSampleError;

verus! {

/// Raw interleaved PCM with its metadata, for building channels and
/// samples without a container.
pub struct AudioBufferDesc {
    pub buffer: Vec<i16>,
    pub pcm_length: u64,
    pub sample_rate: u32,
    pub channels: u32,
}

#[derive(Debug, Clone)]
pub enum AudioDeviceBuilderError {
    InvalidChannelCount(u32),
    InvalidSampleRate(u32),
    AudioDeviceError(AudioDeviceError),
    AudioPropertyError(AudioPropertyError),
}

/// Configures and constructs a device.
pub struct AudioDeviceBuilder {
    pub channel: u32,
    pub sample_rate: u32,
    pub enable_spatialization: bool,
    pub enable_fx: bool,
}

impl AudioDeviceBuilder {
    /// A stereo device at the lower hardware rate, with everything off.
    pub fn new() -> (r: AudioDeviceBuilder)
        ensures
            r.channel == 2 && r.sample_rate == 44100 && !r.enable_spatialization && !r.enable_fx,
    {
        AudioDeviceBuilder { channel: 2, sample_rate: 44100, enable_spatialization: false, enable_fx: false }
    }

    /// The frame width: mono, stereo or quad.
    pub fn channel(self, channel: u32) -> (r: Self)
        ensures
            r == (AudioDeviceBuilder { channel, ..self }),
    {
        AudioDeviceBuilder { channel, ..self }
    }

    /// The hardware sample rate.
    pub fn sample_rate(self, sample_rate: u32) -> (r: Self)
        ensures
            r == (AudioDeviceBuilder { sample_rate, ..self }),
    {
        AudioDeviceBuilder { sample_rate, ..self }
    }

    /// Whether the device starts with a listener installed.
    pub fn enable_spatialization(self, enable: bool) -> (r: Self)
        ensures
            r == (AudioDeviceBuilder { enable_spatialization: enable, ..self }),
    {
        AudioDeviceBuilder { enable_spatialization: enable, ..self }
    }

    /// Whether the device starts with its stretch stage installed.
    pub fn enable_fx(self, enable: bool) -> (r: Self)
        ensures
            r == (AudioDeviceBuilder { enable_fx: enable, ..self }),
    {
        AudioDeviceBuilder { enable_fx: enable, ..self }
    }

    /// Constructs the device; the device's own validation applies.
    pub fn build(self) -> (r: Result<AudioDevice, AudioDeviceBuilderError>)
        ensures
            !(self.channel == 1 || self.channel == 2 || self.channel == 4) ==> r == Err::<
                AudioDevice,
                AudioDeviceBuilderError,
            >(AudioDeviceBuilderError::InvalidChannelCount(self.channel)),
            (self.channel == 1 || self.channel == 2 || self.channel == 4) && !(self.sample_rate
                == 44100 || self.sample_rate == 48000) ==> r == Err::<
                AudioDevice,
                AudioDeviceBuilderError,
            >(AudioDeviceBuilderError::InvalidSampleRate(self.sample_rate)),
            (self.channel == 1 || self.channel == 2 || self.channel == 4) && (self.sample_rate
                == 44100 || self.sample_rate == 48000) ==> (r matches Ok(d) && d.wf()
                && d.channel_count == self.channel && d.sample_rate == self.sample_rate && (
            d.spatialization is Some <==> self.enable_spatialization) && (d.fx is Some
                <==> self.enable_fx)),
    {
        if !(self.channel == 1 || self.channel == 2 || self.channel == 4) {
            return Err(AudioDeviceBuilderError::InvalidChannelCount(self.channel));
        }
        if !(self.sample_rate == 44100 || self.sample_rate == 48000) {
            return Err(AudioDeviceBuilderError::InvalidSampleRate(self.sample_rate));
        }
        let mut device = match AudioDevice::new(self.channel, self.sample_rate) {
            Ok(d) => d,
            Err(e) => {
                proof {
                    assert(false);
                }
                return Err(AudioDeviceBuilderError::AudioDeviceError(e));
            },
        };
        match device.set_attribute_bool(
            AudioAttributes::AudioSpatialization,
            self.enable_spatialization,
        ) {
            Ok(()) => (),
            Err(e) => {
                proof {
                    assert(false);
                }
                return Err(AudioDeviceBuilderError::AudioPropertyError(e));
            },
        }
        match device.set_attribute_bool(AudioAttributes::AudioFX, self.enable_fx) {
            Ok(()) => (),
            Err(e) => {
                proof {
                    assert(false);
                }
                return Err(AudioDeviceBuilderError::AudioPropertyError(e));
            },
        }
        Ok(device)
    }
}

#[derive(Debug, Clone)]
pub enum AudioMixerBuilderError {
    InvalidChannelCount,
    InvalidSampleRate,
    AudioDeviceError(AudioDeviceError),
    AudioMixerError(AudioMixerError),
    AudioPropertyError(AudioPropertyError),
}

/// Configures and constructs a mixer.
pub struct AudioMixerBuilder {
    pub channel: u32,
    pub sample_rate: u32,
    pub enable_spatialization: bool,
    pub enable_fx: bool,
}

impl AudioMixerBuilder {
    /// A stereo mixer at the lower hardware rate, with everything off.
    pub fn new() -> (r: AudioMixerBuilder)
        ensures
            r.channel == 2 && r.sample_rate == 44100 && !r.enable_spatialization && !r.enable_fx,
    {
        AudioMixerBuilder { channel: 2, sample_rate: 44100, enable_spatialization: false, enable_fx: false }
    }

    /// The frame width, between one and eight channels.
    pub fn channel(self, channel: u32) -> (r: Self)
        ensures
            r == (AudioMixerBuilder { channel, ..self }),
    {
        AudioMixerBuilder { channel, ..self }
    }

    /// The mixer's own sample rate.
    pub fn sample_rate(self, sample_rate: u32) -> (r: Self)
        ensures
            r == (AudioMixerBuilder { sample_rate, ..self }),
    {
        AudioMixerBuilder { sample_rate, ..self }
    }

    /// Accepted for parity; a mixer carries no spatializer.
    pub fn enable_spatialization(self, enable: bool) -> (r: Self)
        ensures
            r == (AudioMixerBuilder { enable_spatialization: enable, ..self }),
    {
        AudioMixerBuilder { enable_spatialization: enable, ..self }
    }

    /// Whether the mixer starts with its stretch stage installed.
    pub fn enable_fx(self, enable: bool) -> (r: Self)
        ensures
            r == (AudioMixerBuilder { enable_fx: enable, ..self }),
    {
        AudioMixerBuilder { enable_fx: enable, ..self }
    }

    /// Constructs the mixer; the mixer's own validation applies.
    pub fn build(self, ids: &mut RefIdSource) -> (r: Result<AudioMixer, AudioMixerBuilderError>)
        ensures
            !(1 <= self.channel <= 8) ==> r == Err::<AudioMixer, AudioMixerBuilderError>(
                AudioMixerBuilderError::InvalidChannelCount,
            ),
            1 <= self.channel <= 8 && !(8000 <= self.sample_rate <= 192000) ==> r == Err::<
                AudioMixer,
                AudioMixerBuilderError,
            >(AudioMixerBuilderError::InvalidSampleRate),
            1 <= self.channel <= 8 && 8000 <= self.sample_rate <= 192000 ==> (r matches Ok(m)
                && m.wf() && m.channel_count == self.channel && m.sample_rate == self.sample_rate
                && (m.fx is Some <==> self.enable_fx) && !m.is_playing && m.mixer_position == 0),
    {
        if self.channel < 1 || self.channel > 8 {
            return Err(AudioMixerBuilderError::InvalidChannelCount);
        }
        if self.sample_rate < 8000 || self.sample_rate > 192000 {
            return Err(AudioMixerBuilderError::InvalidSampleRate);
        }
        let mut mixer = match AudioMixer::new(ids, self.channel, self.sample_rate) {
            Ok(m) => m,
            Err(e) => {
                proof {
                    assert(false);
                }
                return Err(AudioMixerBuilderError::AudioMixerError(e));
            },
        };
        match mixer.set_attribute_bool(
            AudioAttributes::AudioSpatialization,
            self.enable_spatialization,
        ) {
            Ok(()) => (),
            Err(e) => {
                proof {
                    assert(false);
                }
                return Err(AudioMixerBuilderError::AudioPropertyError(e));
            },
        }
        match mixer.set_attribute_bool(AudioAttributes::AudioFX, self.enable_fx) {
            Ok(()) => (),
            Err(e) => {
                proof {
                    assert(false);
                }
                return Err(AudioMixerBuilderError::AudioPropertyError(e));
            },
        }
        Ok(mixer)
    }
}

#[derive(Debug, Clone)]
pub enum AudioChannelBuilderError {
    NoFileOrBufferProvided,
    AudioDeviceError(AudioDeviceError),
    AudioChannelError(AudioChannelError),
    AudioPropertyError(AudioPropertyError),
}

/// Configures and constructs a channel from an in-memory audio file or
/// raw PCM.
pub struct AudioChannelBuilder {
    pub file_buffer: Option<Vec<u8>>,
    pub audio_buffer: Option<AudioBufferDesc>,
    pub enable_fx: bool,
    pub enable_spatialization: bool,
}

impl AudioChannelBuilder {
    /// An empty builder: a source must be supplied before building.
    pub fn new() -> (r: AudioChannelBuilder)
        ensures
            r.file_buffer is None && r.audio_buffer is None && !r.enable_fx
                && r.enable_spatialization,
    {
        AudioChannelBuilder {
            file_buffer: None,
            audio_buffer: None,
            enable_fx: false,
            enable_spatialization: true,
        }
    }

    /// Sources the channel from an in-memory audio file.
    pub fn file_buffer(self, buffer: Vec<u8>) -> (r: Self)
        ensures
            r.file_buffer == Some(buffer),
            r.audio_buffer is None,
            r.enable_fx == self.enable_fx,
            r.enable_spatialization == self.enable_spatialization,
    {
        AudioChannelBuilder { file_buffer: Some(buffer), audio_buffer: None, ..self }
    }

    /// Sources the channel from raw interleaved PCM.
    pub fn audio_buffer(self, buffer: AudioBufferDesc) -> (r: Self)
        ensures
            r.audio_buffer is Some,
            r.file_buffer is None,
            r.enable_fx == self.enable_fx,
            r.enable_spatialization == self.enable_spatialization,
    {
        AudioChannelBuilder { audio_buffer: Some(buffer), file_buffer: None, ..self }
    }

    /// Whether the channel starts with its stretch stage installed.
    pub fn enable_fx(self, enable: bool) -> (r: Self)
        ensures
            r == (AudioChannelBuilder { enable_fx: enable, ..self }),
    {
        AudioChannelBuilder { enable_fx: enable, ..self }
    }

    /// Whether the channel keeps its source-side spatializer.
    pub fn enable_spatialization(self, enable: bool) -> (r: Self)
        ensures
            r == (AudioChannelBuilder { enable_spatialization: enable, ..self }),
    {
        AudioChannelBuilder { enable_spatialization: enable, ..self }
    }

    /// Constructs the channel.  A builder without a source is refused.
    pub fn build(self, ids: &mut RefIdSource) -> (r: Result<AudioChannel, AudioChannelBuilderError>)
        ensures
            self.file_buffer is None && self.audio_buffer is None ==> r == Err::<
                AudioChannel,
                AudioChannelBuilderError,
            >(AudioChannelBuilderError::NoFileOrBufferProvided),
            r matches Ok(c) ==> c.wf() && !c.playing && c.position == 0,
    {
        let channel_result = if let Some(buffer) = &self.file_buffer {
            AudioChannel::new_file_buffer(ids, buffer)
        } else if let Some(desc) = &self.audio_buffer {
            AudioChannel::new_audio_buffer(
                ids,
                &desc.buffer,
                desc.pcm_length,
                desc.sample_rate,
                desc.channels,
            )
        } else {
            return Err(AudioChannelBuilderError::NoFileOrBufferProvided);
        };
        let mut channel = match channel_result {
            Ok(c) => c,
            Err(e) => {
                return Err(AudioChannelBuilderError::AudioChannelError(e));
            },
        };
        match channel.set_attribute_bool(
            AudioAttributes::AudioSpatialization,
            self.enable_spatialization,
        ) {
            Ok(()) => (),
            Err(e) => {
                return Err(AudioChannelBuilderError::AudioPropertyError(e));
            },
        }
        match channel.set_attribute_bool(AudioAttributes::AudioFX, self.enable_fx) {
            Ok(()) => (),
            Err(e) => {
                return Err(AudioChannelBuilderError::AudioPropertyError(e));
            },
        }
        Ok(channel)
    }
}

#[derive(Debug, Clone)]
pub enum AudioSampleBuilderError {
    NoFileOrBufferProvided,
    AudioSampleError(AudioSampleError),
    AudioPropertyError(AudioPropertyError),
}

/// Configures and constructs a sample.
pub struct AudioSampleBuilder {
    pub enable_fx: bool,
    pub enable_spatialization: bool,
    pub buffer: Option<Vec<u8>>,
    pub audio_buffer_desc: Option<AudioBufferDesc>,
}

impl AudioSampleBuilder {
    /// An empty builder: a source must be supplied before building.
    pub fn new() -> (r: AudioSampleBuilder)
        ensures
            r.buffer is None && r.audio_buffer_desc is None && !r.enable_fx
                && !r.enable_spatialization,
    {
        AudioSampleBuilder {
            enable_fx: false,
            enable_spatialization: false,
            buffer: None,
            audio_buffer_desc: None,
        }
    }

    /// Sources the sample from an in-memory audio file.
    pub fn buffer(self, buffer: Vec<u8>) -> (r: Self)
        ensures
            r.buffer == Some(buffer),
            r.audio_buffer_desc is None,
            r.enable_fx == self.enable_fx,
            r.enable_spatialization == self.enable_spatialization,
    {
        AudioSampleBuilder { buffer: Some(buffer), audio_buffer_desc: None, ..self }
    }

    /// Sources the sample from raw interleaved PCM.
    pub fn audio_buffer_desc(self, audio_buffer_desc: AudioBufferDesc) -> (r: Self)
        ensures
            r.audio_buffer_desc is Some,
            r.buffer is None,
            r.enable_fx == self.enable_fx,
            r.enable_spatialization == self.enable_spatialization,
    {
        AudioSampleBuilder { audio_buffer_desc: Some(audio_buffer_desc), buffer: None, ..self }
    }

    /// Whether manufactured channels start with the stretch stage.
    pub fn enable_fx(self, enable: bool) -> (r: Self)
        ensures
            r == (AudioSampleBuilder { enable_fx: enable, ..self }),
    {
        AudioSampleBuilder { enable_fx: enable, ..self }
    }

    /// Whether manufactured channels keep their spatializer.
    pub fn enable_spatialization(self, enable: bool) -> (r: Self)
        ensures
            r == (AudioSampleBuilder { enable_spatialization: enable, ..self }),
    {
        AudioSampleBuilder { enable_spatialization: enable, ..self }
    }

    /// Constructs the sample.  A builder without a source is refused.
    pub fn build(self) -> (r: Result<AudioSample, AudioSampleBuilderError>)
        ensures
            self.buffer is None && self.audio_buffer_desc is None ==> r == Err::<
                AudioSample,
                AudioSampleBuilderError,
            >(AudioSampleBuilderError::NoFileOrBufferProvided),
            r matches Ok(s) ==> s.attributes.enable_fx == self.enable_fx
                && s.attributes.enable_spatialization == self.enable_spatialization,
    {
        let sample_result = if let Some(buffer) = &self.buffer {
            AudioSample::load_file_buffer(buffer)
        } else if let Some(desc) = &self.audio_buffer_desc {
            AudioSample::load_audio_buffer(
                &desc.buffer,
                desc.pcm_length,
                desc.sample_rate,
                desc.channels,
            )
        } else {
            return Err(AudioSampleBuilderError::NoFileOrBufferProvided);
        };
        let mut sample = match sample_result {
            Ok(s) => s,
            Err(e) => {
                return Err(AudioSampleBuilderError::AudioSampleError(e));
            },
        };
        match sample.set_attribute_bool(AudioAttributes::AudioFX, self.enable_fx) {
            Ok(()) => (),
            Err(e) => {
                proof {
                    assert(false);
                }
                return Err(AudioSampleBuilderError::AudioPropertyError(e));
            },
        }
        match sample.set_attribute_bool(
            AudioAttributes::AudioSpatialization,
            self.enable_spatialization,
        ) {
            Ok(()) => (),
            Err(e) => {
                proof {
                    assert(false);
                }
                return Err(AudioSampleBuilderError::AudioPropertyError(e));
            },
        }
        Ok(sample)
    }
}

} // verus!
