//! A pull-based audio mixing engine.
//!
//! The engine is organised as a graph: an [`device::AudioDevice`] at the
//! root pulls interleaved PCM frames from [`channel::AudioChannel`] leaves
//! and from composite [`mixer::AudioMixer`] nodes, each of which carries a
//! uniform effect chain (resampling, gain, pan, optional tempo/pitch
//! stretch, optional spatialization parameters).  All frame accounting —
//! positions, lengths, child scheduling windows, stretch and resample
//! budgets — is done in integer arithmetic and is verified; sample
//! amplitudes are 16-bit integer PCM, and parameters that are
//! conventionally unit floats (volume, pan, tempo, pitch) are fixed-point
//! values in thousandths.

use vstd::prelude::*;

pub mod attributes;
pub mod builders;
pub mod channel;
pub mod device;
pub mod fixed;
pub mod fx;
pub mod ids;
pub mod mixer;
pub mod ogg;
pub mod panner;
pub mod pcm;
pub mod reader;
pub mod resampler;
pub mod sample;
pub mod spatial;
pub mod volume;

verus! {

/// Starts configuring an audio device.
pub fn create_device() -> (r: builders::AudioDeviceBuilder)
    ensures
        r.channel == 2 && r.sample_rate == 44100 && !r.enable_spatialization && !r.enable_fx,
{
    builders::AudioDeviceBuilder::new()
}

/// Starts configuring an audio channel.
pub fn create_channel() -> (r: builders::AudioChannelBuilder)
    ensures
        r.file_buffer is None && r.audio_buffer is None,
{
    builders::AudioChannelBuilder::new()
}

/// Starts configuring an audio mixer.
pub fn create_mixer() -> (r: builders::AudioMixerBuilder)
    ensures
        r.channel == 2 && r.sample_rate == 44100 && !r.enable_spatialization && !r.enable_fx,
{
    builders::AudioMixerBuilder::new()
}

/// Starts configuring an audio sample.
pub fn create_sample() -> (r: builders::AudioSampleBuilder)
    ensures
        r.buffer is None && r.audio_buffer_desc is None,
{
    builders::AudioSampleBuilder::new()
}

} // verus!
