//! Tests for the mixing graph: channels, mixers, the device and samples.

use est_audio::attributes::AudioAttributes;
use est_audio::builders::AudioBufferDesc;
use est_audio::builders::AudioChannelBuilder;
use est_audio::builders::AudioDeviceBuilder;
use est_audio::builders::AudioMixerBuilder;
use est_audio::channel::AudioChannel;
use est_audio::channel::AudioChannelError;
use est_audio::device::AudioDevice;
use est_audio::device::AudioDeviceError;
use est_audio::ids::RefIdSource;
use est_audio::mixer::AudioMixer;
use est_audio::mixer::AudioMixerError;
use est_audio::reader::AudioReaderError;
use est_audio::sample::AudioSample;

fn stereo_channel(ids: &mut RefIdSource, frames: u64) -> AudioChannel {
    let data: Vec<i16> = (0..frames * 2).map(|i| (i % 1000) as i16).collect();
    AudioChannel::new_audio_buffer(ids, &data, frames, 44100, 2).unwrap()
}

#[test]
fn channel_starts_stopped_at_zero() {
    let mut ids = RefIdSource::new();
    let c = stereo_channel(&mut ids, 100);
    assert!(!c.is_playing());
    assert_eq!(c.get_position(), 0);
    assert!(!c.is_looping());
    assert_eq!(c.reader.sample_rate, 44100);
    assert_eq!(c.reader.channels, 2);
    assert_eq!(c.reader.pcm_length, 100);
}

#[test]
fn channel_ids_are_distinct() {
    let mut ids = RefIdSource::new();
    let a = stereo_channel(&mut ids, 4);
    let b = stereo_channel(&mut ids, 4);
    assert_ne!(a.ref_id(), b.ref_id());
}

#[test]
fn channel_rejects_bad_buffers() {
    let mut ids = RefIdSource::new();
    let data: Vec<i16> = vec![0; 4];
    assert!(matches!(
        AudioChannel::new_audio_buffer(&mut ids, &data, 4, 44100, 2),
        Err(AudioChannelError::AudioReaderError(_))
    ));
    let wide: Vec<i16> = vec![0; 9];
    assert!(matches!(
        AudioChannel::new_audio_buffer(&mut ids, &wide, 1, 44100, 9),
        Err(AudioChannelError::AudioPannerError(_))
    ));
    assert!(matches!(
        AudioChannel::new_audio_buffer(&mut ids, &data, 1, 7000, 2),
        Err(AudioChannelError::AudioResamplerError(_))
    ));
}

#[test]
fn stop_twice_is_the_same_as_once() {
    let mut ids = RefIdSource::new();
    let mut c = stereo_channel(&mut ids, 100);
    c.play().unwrap();
    c.stop().unwrap();
    let pos_after_one = c.get_position();
    let playing_after_one = c.is_playing();
    c.stop().unwrap();
    assert_eq!(c.get_position(), pos_after_one);
    assert_eq!(c.is_playing(), playing_after_one);
    assert!(!c.is_playing());
}

#[test]
fn play_twice_is_the_same_as_once() {
    let mut ids = RefIdSource::new();
    let mut c = stereo_channel(&mut ids, 100);
    c.play().unwrap();
    let pos_after_one = c.get_position();
    let reader_pos_after_one = c.reader.position;
    c.play().unwrap();
    assert!(c.is_playing());
    assert_eq!(c.get_position(), pos_after_one);
    assert_eq!(c.reader.position, reader_pos_after_one);
}

#[test]
fn seek_is_visible_immediately() {
    let mut ids = RefIdSource::new();
    let mut c = stereo_channel(&mut ids, 100);
    c.seek(42).unwrap();
    assert_eq!(c.get_position(), 42);
    assert!(matches!(c.seek(100), Err(AudioChannelError::SeekOutOfBounds)));
    assert_eq!(c.get_position(), 42);
}

#[test]
fn seek_ms_converts_through_the_sample_rate() {
    let mut ids = RefIdSource::new();
    let data: Vec<i16> = vec![0; 44100 * 2];
    let mut c = AudioChannel::new_audio_buffer(&mut ids, &data, 44100, 44100, 2).unwrap();
    c.seek_ms(500).unwrap();
    assert_eq!(c.get_position(), 22050);
    assert!(c.seek_ms(1000).is_err());
}

#[test]
fn channel_plays_to_completion() {
    let mut ids = RefIdSource::new();
    let mut c = stereo_channel(&mut ids, 1000);
    c.play().unwrap();
    let mut output: Vec<i16> = vec![0; 1024];
    let mut temp: Vec<i16> = vec![0; 1024];
    let mut rounds = 0;
    while c.is_playing() && rounds < 100 {
        let got = c.read_pcm_frames(&mut output, &mut temp, 512).unwrap();
        assert!(got <= 512);
        assert!(c.get_position() <= c.reader.pcm_length);
        rounds += 1;
    }
    assert!(!c.is_playing());
    assert_eq!(c.get_position(), 1000);
}

#[test]
fn channel_read_passes_samples_through_at_unity() {
    // A mono channel has no pan law, so unity volume means the samples
    // come through untouched.
    let mut ids = RefIdSource::new();
    let data: Vec<i16> = vec![10, -10, 20, -20, 30, -30, 40, -40];
    let mut c = AudioChannel::new_audio_buffer(&mut ids, &data, 8, 44100, 1).unwrap();
    c.play().unwrap();
    let mut output: Vec<i16> = vec![0; 8];
    let mut temp: Vec<i16> = vec![0; 8];
    let got = c.read_pcm_frames(&mut output, &mut temp, 8).unwrap();
    assert_eq!(got, 8);
    assert_eq!(output, data);
}

#[test]
fn stereo_channel_sits_at_the_centre_pan_gain() {
    // A centred equal-power pan holds both sides at sqrt(1/2).
    let mut ids = RefIdSource::new();
    let data: Vec<i16> = vec![1000, 1000, -1000, -1000];
    let mut c = AudioChannel::new_audio_buffer(&mut ids, &data, 2, 44100, 2).unwrap();
    c.play().unwrap();
    let mut output: Vec<i16> = vec![0; 4];
    let mut temp: Vec<i16> = vec![0; 4];
    let got = c.read_pcm_frames(&mut output, &mut temp, 2).unwrap();
    assert_eq!(got, 2);
    assert_eq!(output, vec![707, 707, -707, -707]);
}

#[test]
fn channel_read_applies_gain_and_pan() {
    let mut ids = RefIdSource::new();
    let data: Vec<i16> = vec![1000, 1000, -1000, -1000];
    let mut c = AudioChannel::new_audio_buffer(&mut ids, &data, 2, 44100, 2).unwrap();
    c.set_attribute(AudioAttributes::Volume, 500).unwrap();
    c.set_attribute(AudioAttributes::Pan, 500).unwrap();
    c.play().unwrap();
    let mut output: Vec<i16> = vec![0; 4];
    let mut temp: Vec<i16> = vec![0; 4];
    let got = c.read_pcm_frames(&mut output, &mut temp, 2).unwrap();
    assert_eq!(got, 2);
    // Gain halves every sample; the equal-power pan then leaves the left
    // side a quarter of the power and the right three quarters.
    assert_eq!(output, vec![250, 433, -250, -433]);
}

#[test]
fn looping_channel_rewinds_instead_of_stopping() {
    let mut ids = RefIdSource::new();
    let mut c = stereo_channel(&mut ids, 100);
    c.set_looping(true);
    c.play().unwrap();
    let mut output: Vec<i16> = vec![0; 512];
    let mut temp: Vec<i16> = vec![0; 512];
    for _ in 0..5 {
        c.read_pcm_frames(&mut output, &mut temp, 64).unwrap();
        assert!(c.is_playing());
    }
}

#[test]
fn read_simple_enforces_the_frame_cap() {
    let mut ids = RefIdSource::new();
    let mut c = stereo_channel(&mut ids, 100);
    assert!(matches!(
        c.read_simple(4097),
        Err(AudioChannelError::AudioReaderError(AudioReaderError::PCMLengthTooLarge))
    ));
    c.play().unwrap();
    let samples = c.read_simple(4096).unwrap();
    assert_eq!(samples.len(), 200);
}

#[test]
fn channel_attribute_setters_clamp_and_validate() {
    let mut ids = RefIdSource::new();
    let mut c = stereo_channel(&mut ids, 100);
    c.set_attribute(AudioAttributes::Pan, 2000).unwrap();
    assert_eq!(c.get_attribute(AudioAttributes::Pan).unwrap(), 1000);
    c.set_attribute(AudioAttributes::Volume, 1500).unwrap();
    assert_eq!(c.get_attribute(AudioAttributes::Volume).unwrap(), 1000);
    c.set_attribute(AudioAttributes::Volume, -1).unwrap();
    assert_eq!(c.get_attribute(AudioAttributes::Volume).unwrap(), 0);
    assert!(c.set_attribute(AudioAttributes::FXTempo, 2000).is_err());
    c.set_attribute_bool(AudioAttributes::AudioFX, true).unwrap();
    c.set_attribute(AudioAttributes::FXTempo, 2000).unwrap();
    assert_eq!(c.get_attribute(AudioAttributes::FXTempo).unwrap(), 2000);
    assert!(c.get_attribute_bool(AudioAttributes::AudioFX).unwrap());
    c.set_attribute_bool(AudioAttributes::AudioFX, false).unwrap();
    assert!(!c.get_attribute_bool(AudioAttributes::AudioFX).unwrap());
}

#[test]
fn pitch_shift_keeps_the_input_budget() {
    let mut ids = RefIdSource::new();
    let mut c = stereo_channel(&mut ids, 4000);
    c.set_attribute_bool(AudioAttributes::AudioFX, true).unwrap();
    c.set_attribute(AudioAttributes::FXPitch, 1250).unwrap();
    assert_eq!(c.get_attribute(AudioAttributes::FXPitch).unwrap(), 1250);
    c.play().unwrap();
    let mut output: Vec<i16> = vec![0; 4096];
    let mut temp: Vec<i16> = vec![0; 4096];
    let mut produced: u64 = 0;
    let mut rounds = 0;
    while c.is_playing() && rounds < 64 {
        let got = c.read_pcm_frames(&mut output, &mut temp, 1024).unwrap();
        assert!(got <= 1024);
        produced += got;
        rounds += 1;
    }
    assert!(!c.is_playing());
    assert!(produced >= 4000);
}

#[test]
fn tempo_stretch_consumes_input_twice_as_fast() {
    let mut ids = RefIdSource::new();
    let mut c = stereo_channel(&mut ids, 4000);
    c.set_attribute_bool(AudioAttributes::AudioFX, true).unwrap();
    c.set_attribute(AudioAttributes::FXTempo, 2000).unwrap();
    c.play().unwrap();
    let mut output: Vec<i16> = vec![0; 8192];
    let mut temp: Vec<i16> = vec![0; 8192];
    let mut produced: u64 = 0;
    let mut rounds = 0;
    while c.is_playing() && rounds < 64 {
        let got = c.read_pcm_frames(&mut output, &mut temp, 1024).unwrap();
        produced += got;
        rounds += 1;
    }
    assert!(!c.is_playing());
    assert!(produced <= 4000 / 2 + 2048);
}

#[test]
fn mixer_construction_validates_its_ranges() {
    let mut ids = RefIdSource::new();
    assert!(matches!(
        AudioMixer::new(&mut ids, 0, 44100),
        Err(AudioMixerError::InvalidChannelCount)
    ));
    assert!(matches!(
        AudioMixer::new(&mut ids, 9, 44100),
        Err(AudioMixerError::InvalidChannelCount)
    ));
    assert!(matches!(
        AudioMixer::new(&mut ids, 2, 7999),
        Err(AudioMixerError::InvalidSampleRate)
    ));
    assert!(matches!(
        AudioMixer::new(&mut ids, 2, 192001),
        Err(AudioMixerError::InvalidSampleRate)
    ));
    assert!(AudioMixer::new(&mut ids, 8, 192000).is_ok());
    assert!(AudioMixer::new(&mut ids, 1, 8000).is_ok());
}

#[test]
fn mixer_with_staggered_children_plays_out_exactly() {
    let mut ids = RefIdSource::new();
    let mut mixer = AudioMixer::new(&mut ids, 2, 44100).unwrap();
    let a = stereo_channel(&mut ids, 44100);
    let b = stereo_channel(&mut ids, 44100);
    mixer
        .add_channel_ex(a, est_audio::pcm::PCMIndex::new(0), est_audio::pcm::PCMIndex::new(44100))
        .unwrap();
    mixer
        .add_channel_ex(
            b,
            est_audio::pcm::PCMIndex::new(22050),
            est_audio::pcm::PCMIndex::new(44100),
        )
        .unwrap();
    assert_eq!(mixer.get_length().unwrap(), 66150);
    assert!(!mixer.is_infinite);
    mixer.play().unwrap();
    let mut output: Vec<i16> = vec![0; 8192];
    let mut temp: Vec<i16> = vec![0; 8192];
    let mut rounds = 0;
    while mixer.is_playing() && rounds < 64 {
        let got = mixer.read_pcm_frames(&mut output, &mut temp, 4096).unwrap();
        assert_eq!(got, 4096);
        rounds += 1;
    }
    assert!(!mixer.is_playing());
    assert_eq!(mixer.mixer_position, 66150);
}

#[test]
fn looping_child_makes_a_mixer_infinite() {
    let mut ids = RefIdSource::new();
    let mut mixer = AudioMixer::new(&mut ids, 2, 44100).unwrap();
    let mut c = stereo_channel(&mut ids, 100);
    c.set_looping(true);
    mixer.add_channel(c).unwrap();
    assert!(mixer.is_infinite);
    assert_eq!(mixer.get_length().unwrap(), u64::MAX);
    mixer.play().unwrap();
    let mut output: Vec<i16> = vec![0; 8192];
    let mut temp: Vec<i16> = vec![0; 8192];
    for _ in 0..8 {
        mixer.read_pcm_frames(&mut output, &mut temp, 4096).unwrap();
        assert!(mixer.is_playing());
    }
}

#[test]
fn nested_mixer_passes_infinity_upward() {
    let mut ids = RefIdSource::new();
    let mut inner = AudioMixer::new(&mut ids, 2, 44100).unwrap();
    let mut c = stereo_channel(&mut ids, 100);
    c.set_looping(true);
    inner.add_channel(c).unwrap();
    let mut outer = AudioMixer::new(&mut ids, 2, 44100).unwrap();
    assert!(!outer.is_infinite);
    outer.add_mixer(inner).unwrap();
    assert!(outer.is_infinite);
}

#[test]
fn mixer_sums_its_children() {
    let mut ids = RefIdSource::new();
    let mut mixer = AudioMixer::new(&mut ids, 1, 44100).unwrap();
    let data_a: Vec<i16> = vec![100; 64];
    let data_b: Vec<i16> = vec![40; 64];
    let a = AudioChannel::new_audio_buffer(&mut ids, &data_a, 64, 44100, 1).unwrap();
    let b = AudioChannel::new_audio_buffer(&mut ids, &data_b, 64, 44100, 1).unwrap();
    mixer.add_channel(a).unwrap();
    mixer.add_channel(b).unwrap();
    mixer.play().unwrap();
    let mut output: Vec<i16> = vec![0; 64];
    let mut temp: Vec<i16> = vec![0; 64];
    let got = mixer.read_pcm_frames(&mut output, &mut temp, 32).unwrap();
    assert_eq!(got, 32);
    // (100 + 40) summed, then divided by the two contributing sources.
    assert_eq!(output[0], 70);
    assert_eq!(output[31], 70);
}

#[test]
fn mixer_seek_restarts_its_clock() {
    let mut ids = RefIdSource::new();
    let mut mixer = AudioMixer::new(&mut ids, 2, 44100).unwrap();
    let c = stereo_channel(&mut ids, 1000);
    mixer.add_channel(c).unwrap();
    mixer.play().unwrap();
    let mut output: Vec<i16> = vec![0; 8192];
    let mut temp: Vec<i16> = vec![0; 8192];
    mixer.read_pcm_frames(&mut output, &mut temp, 512).unwrap();
    assert_eq!(mixer.mixer_position, 512);
    mixer.seek(None).unwrap();
    assert_eq!(mixer.mixer_position, 0);
}

#[test]
fn mixer_rejects_children_of_another_width() {
    let mut ids = RefIdSource::new();
    let mut mixer = AudioMixer::new(&mut ids, 2, 44100).unwrap();
    let data: Vec<i16> = vec![0; 64];
    let mono = AudioChannel::new_audio_buffer(&mut ids, &data, 64, 44100, 1).unwrap();
    assert!(matches!(
        mixer.add_channel(mono),
        Err(AudioMixerError::InvalidChannelCount)
    ));
}

#[test]
fn mixer_rejects_a_duplicate_child() {
    let mut ids = RefIdSource::new();
    let mut mixer = AudioMixer::new(&mut ids, 2, 44100).unwrap();
    let c = stereo_channel(&mut ids, 10);
    let id = c.ref_id();
    let twin = c.clone();
    mixer.add_channel(c).unwrap();
    match mixer.add_channel(twin) {
        Err(AudioMixerError::ChannelAlreadyExists(found)) => assert_eq!(found, id),
        _ => panic!("expected the duplicate child to be rejected"),
    }
}

#[test]
fn mixer_seek_places_every_child_in_its_window() {
    let mut ids = RefIdSource::new();
    let mut mixer = AudioMixer::new(&mut ids, 2, 44100).unwrap();
    let early = stereo_channel(&mut ids, 100);
    let late = stereo_channel(&mut ids, 100);
    mixer.add_channel(early).unwrap();
    mixer
        .add_channel_ex(late, est_audio::pcm::PCMIndex::new(50), None)
        .unwrap();
    let furthest = mixer.seek_frames(10).unwrap();
    // The early child lands ten frames in; the late child's window has
    // not begun, so it waits at its start and its spot is its delay.
    assert_eq!(mixer.channels[0].channel.get_position(), 10);
    assert_eq!(mixer.channels[1].channel.get_position(), 0);
    assert_eq!(furthest, 50);
}

#[test]
fn sample_rate_attribute_reports_the_target_rate() {
    let mut ids = RefIdSource::new();
    let mut mixer = AudioMixer::new(&mut ids, 2, 44100).unwrap();
    mixer.set_attribute(AudioAttributes::SampleRate, 48000).unwrap();
    assert_eq!(mixer.get_attribute(AudioAttributes::SampleRate).unwrap(), 48000);
    let mut device = AudioDevice::new(2, 44100).unwrap();
    device.set_attribute(AudioAttributes::SampleRate, 48000).unwrap();
    assert_eq!(device.get_attribute(AudioAttributes::SampleRate).unwrap(), 48000);
}

#[test]
fn mixer_remove_checks_bounds() {
    let mut ids = RefIdSource::new();
    let mut mixer = AudioMixer::new(&mut ids, 2, 44100).unwrap();
    let c = stereo_channel(&mut ids, 10);
    mixer.add_channel(c).unwrap();
    assert!(matches!(
        mixer.remove_channel(1),
        Err(AudioMixerError::IndexOutOfBounds(1))
    ));
    mixer.remove_channel(0).unwrap();
    assert_eq!(mixer.get_length().unwrap(), 0);
}

#[test]
fn mixer_read_simple_allocates_its_own_scratch() {
    let mut ids = RefIdSource::new();
    let mut mixer = AudioMixer::new(&mut ids, 2, 44100).unwrap();
    let c = stereo_channel(&mut ids, 1000);
    mixer.add_channel(c).unwrap();
    assert!(matches!(
        mixer.read_simple(4097),
        Err(AudioChannelError::AudioReaderError(AudioReaderError::PCMLengthTooLarge))
    ));
    let silent = mixer.read_simple(64).unwrap();
    assert_eq!(silent.len(), 0);
    mixer.play().unwrap();
    let samples = mixer.read_simple(64).unwrap();
    assert_eq!(samples.len(), 128);
}

#[test]
fn mixer_attributes_clamp_like_a_channel() {
    let mut ids = RefIdSource::new();
    let mut mixer = AudioMixer::new(&mut ids, 2, 44100).unwrap();
    mixer.set_attribute(AudioAttributes::Pan, -9999).unwrap();
    assert_eq!(mixer.get_attribute(AudioAttributes::Pan).unwrap(), -1000);
    mixer.set_attribute(AudioAttributes::Volume, 9999).unwrap();
    assert_eq!(mixer.get_attribute(AudioAttributes::Volume).unwrap(), 1000);
    assert!(mixer.set_attribute(AudioAttributes::FXTempo, 1500).is_err());
    mixer.set_attribute_bool(AudioAttributes::AudioFX, true).unwrap();
    mixer.set_attribute(AudioAttributes::FXTempo, 1500).unwrap();
    assert_eq!(mixer.get_attribute(AudioAttributes::FXTempo).unwrap(), 1500);
}

#[test]
fn device_construction_rejects_odd_shapes() {
    assert!(matches!(AudioDevice::new(3, 44100), Err(AudioDeviceError::InvalidChannels)));
    assert!(matches!(AudioDevice::new(0, 44100), Err(AudioDeviceError::InvalidChannels)));
    assert!(matches!(AudioDevice::new(2, 22050), Err(AudioDeviceError::InvalidSampleRate)));
    assert!(AudioDevice::new(1, 48000).is_ok());
    assert!(AudioDevice::new(4, 44100).is_ok());
}

#[test]
fn duplicate_attach_is_rejected() {
    let mut ids = RefIdSource::new();
    let mut device = AudioDevice::new(2, 44100).unwrap();
    let c = stereo_channel(&mut ids, 100);
    let id = c.ref_id();
    let twin = c.clone();
    device.add_channel(c).unwrap();
    match device.add_channel(twin) {
        Err(AudioDeviceError::ChannelAlreadyExists(found)) => assert_eq!(found, id),
        _ => panic!("expected the duplicate to be rejected"),
    }
}

#[test]
fn device_plays_a_channel_to_completion() {
    let mut ids = RefIdSource::new();
    let mut device = AudioDevice::new(2, 44100).unwrap();
    let mut c = stereo_channel(&mut ids, 1000);
    c.play().unwrap();
    let id = c.ref_id();
    device.add_channel(c).unwrap();
    let mut output: Vec<i16> = vec![0; 1024];
    let mut rounds = 0;
    while device.channel_is_playing(id).unwrap() && rounds < 100 {
        device.process(&mut output, 512).unwrap();
        rounds += 1;
    }
    assert!(!device.channel_is_playing(id).unwrap());
    assert_eq!(device.channel_position(id).unwrap(), 1000);
}

#[test]
fn device_sweeps_deleted_nodes() {
    let mut ids = RefIdSource::new();
    let mut device = AudioDevice::new(2, 44100).unwrap();
    let mut c = stereo_channel(&mut ids, 100);
    c.mark_deleted();
    device.add_channel(c).unwrap();
    assert_eq!(device.channels.len(), 1);
    let mut output: Vec<i16> = vec![0; 1024];
    device.process(&mut output, 256).unwrap();
    assert_eq!(device.channels.len(), 0);
}

#[test]
fn device_remove_by_ref_reports_missing_ids() {
    let mut ids = RefIdSource::new();
    let mut device = AudioDevice::new(2, 44100).unwrap();
    let c = stereo_channel(&mut ids, 100);
    let id = c.ref_id();
    device.add_channel(c).unwrap();
    assert!(matches!(
        device.remove_channel_by_ref(id + 1),
        Err(AudioDeviceError::ChannelNotFound(_))
    ));
    device.remove_channel_by_ref(id).unwrap();
    assert_eq!(device.channels.len(), 0);
}

#[test]
fn sample_preserves_shape_through_manufacture() {
    let mut ids = RefIdSource::new();
    let data: Vec<i16> = (0..200).map(|i| i as i16).collect();
    let sample = AudioSample::load_audio_buffer(&data, 100, 44100, 2).unwrap();
    let channel = sample.make_channel(&mut ids).unwrap();
    assert_eq!(channel.reader.sample_rate, 44100);
    assert_eq!(channel.reader.channels, 2);
    assert_eq!(channel.reader.pcm_length, 100);
}

#[test]
fn sample_validates_its_metadata() {
    let data: Vec<i16> = vec![0; 8];
    assert!(AudioSample::load_audio_buffer(&data, 4, 44100, 0).is_err());
    assert!(AudioSample::load_audio_buffer(&data, 4, 44100, 9).is_err());
    assert!(AudioSample::load_audio_buffer(&data, 4, 7999, 2).is_err());
    assert!(AudioSample::load_audio_buffer(&data, 8, 44100, 2).is_err());
}

#[test]
fn sample_attributes_reach_manufactured_channels() {
    let mut ids = RefIdSource::new();
    let data: Vec<i16> = vec![0; 200];
    let mut sample = AudioSample::load_audio_buffer(&data, 100, 44100, 2).unwrap();
    sample.set_attribute(AudioAttributes::Volume, 500).unwrap();
    sample.set_attribute(AudioAttributes::Pan, -250).unwrap();
    sample.set_attribute_bool(AudioAttributes::AudioFX, true).unwrap();
    sample.set_attribute(AudioAttributes::FXTempo, 2000).unwrap();
    let channel = sample.make_channel(&mut ids).unwrap();
    assert_eq!(channel.get_attribute(AudioAttributes::Volume).unwrap(), 500);
    assert_eq!(channel.get_attribute(AudioAttributes::Pan).unwrap(), -250);
    assert!(channel.get_attribute_bool(AudioAttributes::AudioFX).unwrap());
    assert_eq!(channel.get_attribute(AudioAttributes::FXTempo).unwrap(), 2000);
}

#[test]
fn sample_play_attaches_a_running_channel() {
    let mut ids = RefIdSource::new();
    let mut device = AudioDevice::new(2, 44100).unwrap();
    let data: Vec<i16> = vec![0; 200];
    let sample = AudioSample::load_audio_buffer(&data, 100, 44100, 2).unwrap();
    let id = sample.play(&mut device, &mut ids).unwrap();
    assert!(device.channel_is_playing(id).unwrap());
}

#[test]
fn builders_validate_like_the_constructors() {
    let mut ids = RefIdSource::new();
    assert!(AudioDeviceBuilder::new().channel(3).build().is_err());
    assert!(AudioDeviceBuilder::new().sample_rate(22050).build().is_err());
    let device = AudioDeviceBuilder::new().channel(2).sample_rate(48000).build().unwrap();
    assert_eq!(device.sample_rate, 48000);
    assert!(AudioMixerBuilder::new().channel(0).build(&mut ids).is_err());
    let mixer = AudioMixerBuilder::new().channel(4).sample_rate(96000).enable_fx(true).build(
        &mut ids,
    ).unwrap();
    assert!(mixer.fx.is_some());
    assert!(AudioChannelBuilder::new().build(&mut ids).is_err());
    let desc = AudioBufferDesc { buffer: vec![0; 200], pcm_length: 100, sample_rate: 44100, channels: 2 };
    let channel = AudioChannelBuilder::new().audio_buffer(desc).enable_fx(true).build(&mut ids)
        .unwrap();
    assert!(channel.fx.is_some());
    assert!(channel.spatializer.is_some());
}

#[test]
fn device_listener_follows_the_toggle() {
    let mut device = AudioDevice::new(2, 44100).unwrap();
    assert!(device.set_listener_position(1, 2, 3).is_err());
    device.set_attribute_bool(AudioAttributes::AudioSpatialization, true).unwrap();
    device.set_listener_position(1000, 0, -2000).unwrap();
    assert_eq!(device.get_listener_position().unwrap(), (1000, 0, -2000));
    device.set_attribute_bool(AudioAttributes::AudioSpatialization, false).unwrap();
    assert!(device.get_listener_position().is_err());
}
