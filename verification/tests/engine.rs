//! Tests for the effect primitives, the reader and the frame-index
//! conversions.

use est_audio::attributes::AudioAttributes;
use est_audio::fx::AudioFX;
use est_audio::fx::AudioFXError;
use est_audio::fx::FX_LATENCY_FRAMES;
use est_audio::ogg::OggType;
use est_audio::ogg::get_ogg_type;
use est_audio::ogg::is_ogg_buffer;
use est_audio::panner::AudioPanner;
use est_audio::pcm::PCMIndex;
use est_audio::reader::AudioReader;
use est_audio::reader::AudioReaderError;
use est_audio::resampler::AudioResampler;
use est_audio::volume::AudioVolume;

#[test]
fn pcm_index_rejects_zero() {
    assert!(PCMIndex::new(0).is_none());
    assert_eq!(PCMIndex::new(7).unwrap().index, 7);
}

#[test]
fn pcm_index_from_millis() {
    let idx = PCMIndex::from_millis(1000, 44100).unwrap();
    assert_eq!(idx.index, 44100);
    let idx = PCMIndex::from_millis(500, 48000).unwrap();
    assert_eq!(idx.index, 24000);
    assert!(PCMIndex::from_millis(0, 44100).is_none());
}

#[test]
fn pcm_index_millis_round_trip() {
    let idx = PCMIndex::new(44100).unwrap();
    let ms = idx.to_millis(44100);
    assert_eq!(ms, 1000);
    let back = PCMIndex::from_millis(ms, 44100).unwrap();
    assert_eq!(back.index, 44100);
}

#[test]
fn pcm_index_seconds() {
    let idx = PCMIndex::from_secs(2, 48000).unwrap();
    assert_eq!(idx.index, 96000);
    assert_eq!(idx.to_secs(48000), 2);
}

#[test]
fn volume_clamps_to_unit_range() {
    let mut v = AudioVolume::new(2).unwrap();
    assert_eq!(v.volume, 1000);
    v.set_volume(1500);
    assert_eq!(v.volume, 1000);
    v.set_volume(-5);
    assert_eq!(v.volume, 0);
    v.set_volume(250);
    assert_eq!(v.volume, 250);
}

#[test]
fn volume_rejects_bad_channel_counts() {
    assert!(AudioVolume::new(0).is_err());
    assert!(AudioVolume::new(9).is_err());
    assert!(AudioVolume::new(8).is_ok());
}

#[test]
fn volume_scales_samples() {
    let v = {
        let mut v = AudioVolume::new(1).unwrap();
        v.set_volume(500);
        v
    };
    let input: Vec<i16> = vec![1000, -1000, 3, -3];
    let mut output: Vec<i16> = vec![0; 4];
    v.process(&input, &mut output, 4).unwrap();
    assert_eq!(output, vec![500, -500, 1, -1]);
}

#[test]
fn panner_clamps_inputs() {
    let mut p = AudioPanner::new(2).unwrap();
    p.set_pan(2000);
    assert_eq!(p.pan, 1000);
    p.set_pan(-2000);
    assert_eq!(p.pan, -1000);
    p.set_pan(300);
    assert_eq!(p.pan, 300);
}

#[test]
fn panner_splits_power_between_the_sides() {
    let mut p = AudioPanner::new(2).unwrap();
    p.set_pan(500);
    let input: Vec<i16> = vec![1000, 1000, -1000, -1000];
    let mut output: Vec<i16> = vec![0; 4];
    p.process(&input, &mut output, 2).unwrap();
    // Left carries a quarter of the power (gain 500/1000), right three
    // quarters (gain 866/1000).
    assert_eq!(output, vec![500, 866, -500, -866]);
}

#[test]
fn panner_equal_power_at_the_extremes_and_centre() {
    let mut p = AudioPanner::new(2).unwrap();
    let input: Vec<i16> = vec![1000, 1000];
    let mut output: Vec<i16> = vec![0; 2];
    p.process(&input, &mut output, 1).unwrap();
    // Centred: both sides sit at sqrt(1/2), three decibels down.
    assert_eq!(output, vec![707, 707]);
    p.set_pan(1000);
    p.process(&input, &mut output, 1).unwrap();
    assert_eq!(output, vec![0, 1000]);
    p.set_pan(-1000);
    p.process(&input, &mut output, 1).unwrap();
    assert_eq!(output, vec![1000, 0]);
}

#[test]
fn panner_passes_non_stereo_through() {
    let mut p = AudioPanner::new(1).unwrap();
    p.set_pan(1000);
    let input: Vec<i16> = vec![7, -7, 9];
    let mut output: Vec<i16> = vec![0; 3];
    p.process(&input, &mut output, 3).unwrap();
    assert_eq!(output, input);
}

#[test]
fn resampler_bypass_is_identity() {
    let r = AudioResampler::new(2, 44100).unwrap();
    assert!(r.bypass_mode());
    assert_eq!(r.get_required_input(1024).unwrap(), 1024);
    assert_eq!(r.get_expected_output(1024).unwrap(), 1024);
    assert_eq!(r.get_input_latency().unwrap(), 0);
    assert_eq!(r.get_output_latency().unwrap(), 0);
}

#[test]
fn resampler_tracks_rate_ratio() {
    let mut r = AudioResampler::new(2, 44100).unwrap();
    r.set_target_sample_rate(22050);
    assert!(!r.bypass_mode());
    assert_eq!(r.get_required_input(1024).unwrap(), 2048);
    assert_eq!(r.get_expected_output(2048).unwrap(), 1024);
    r.set_target_sample_rate(88200);
    assert_eq!(r.get_required_input(1024).unwrap(), 512);
}

#[test]
fn resampler_rejects_bad_configs() {
    assert!(AudioResampler::new(0, 44100).is_err());
    assert!(AudioResampler::new(2, 7999).is_err());
    assert!(AudioResampler::new(2, 192001).is_err());
}

#[test]
fn resampler_halves_frames_when_downsampling() {
    let mut r = AudioResampler::new(1, 16000).unwrap();
    r.set_target_sample_rate(8000);
    let input: Vec<i16> = vec![10, 11, 12, 13, 14, 15, 16, 17];
    let mut output: Vec<i16> = vec![0; 8];
    let produced = r.process(&input, 8, &mut output, 8).unwrap();
    assert_eq!(produced, 4);
    assert_eq!(&output[..4], &[10, 12, 14, 16]);
}

#[test]
fn stretch_tempo_doubles_required_input() {
    let mut fx = AudioFX::new(2, 44100).unwrap();
    assert!(fx.tempo_bypass());
    assert_eq!(fx.get_required_input(1024).unwrap(), 1024);
    fx.set_tempo(2000).unwrap();
    assert!(!fx.tempo_bypass());
    assert_eq!(fx.get_required_input(1024).unwrap(), 2048);
    assert_eq!(fx.get_expected_output(2048).unwrap(), 1024);
}

#[test]
fn stretch_pitch_leaves_required_input_alone() {
    let mut fx = AudioFX::new(2, 44100).unwrap();
    fx.set_octave(1250).unwrap();
    assert_eq!(fx.get_required_input(1024).unwrap(), 1024);
    assert_eq!(fx.octave, 1250);
}

#[test]
fn stretch_rejects_zero_factors_and_counts() {
    let mut fx = AudioFX::new(2, 44100).unwrap();
    assert!(matches!(fx.set_tempo(0), Err(AudioFXError::InvalidTempo)));
    assert!(matches!(fx.set_octave(0), Err(AudioFXError::InvalidOctave)));
    assert!(matches!(fx.get_required_input(0), Err(AudioFXError::InvalidFrameCount)));
    assert!(AudioFX::new(0, 44100).is_err());
    assert!(AudioFX::new(2, 7999).is_err());
}

#[test]
fn stretch_buffers_first_in_first_out() {
    let mut fx = AudioFX::new(1, 44100).unwrap();
    let input: Vec<i16> = vec![1, 2, 3, 4];
    let mut output: Vec<i16> = vec![0; 4];
    fx.process(&input, 4, &mut output, 2).unwrap();
    assert_eq!(&output[..2], &[1, 2]);
    let more: Vec<i16> = vec![5, 6];
    fx.process(&more, 2, &mut output, 4).unwrap();
    assert_eq!(output, vec![3, 4, 5, 6]);
}

#[test]
fn stretch_prewarm_seeds_buffer() {
    let mut fx = AudioFX::new(1, 44100).unwrap();
    let lat = FX_LATENCY_FRAMES as usize;
    let seed: Vec<i16> = vec![9; lat];
    fx.pre_process(&seed, FX_LATENCY_FRAMES as u64).unwrap();
    assert_eq!(fx.frame_available, FX_LATENCY_FRAMES as i64);
    assert_eq!(fx.queue.len(), lat);
}

#[test]
fn reader_reads_exactly_what_is_available() {
    let data: Vec<i16> = vec![1, 2, 3, 4, 5, 6, 7, 8];
    let mut reader = AudioReader::load_audio_buffer(&data, 44100, 2, 4).unwrap();
    assert_eq!(reader.available_frames(), 4);
    let mut buffer: Vec<i16> = vec![0; 16];
    let got = reader.read(&mut buffer, 2).unwrap();
    assert_eq!(got, 2);
    assert_eq!(reader.position, 2);
    assert_eq!(&buffer[..4], &[1, 2, 3, 4]);
    let got = reader.read(&mut buffer, 5).unwrap();
    assert_eq!(got, 2);
    assert_eq!(reader.position, 4);
    assert_eq!(&buffer[..4], &[5, 6, 7, 8]);
    assert!(reader.position <= reader.pcm_length);
}

#[test]
fn reader_rejects_zero_and_short_buffers() {
    let data: Vec<i16> = vec![0; 8];
    let mut reader = AudioReader::load_audio_buffer(&data, 44100, 2, 4).unwrap();
    let mut buffer: Vec<i16> = vec![0; 2];
    assert!(matches!(
        reader.read(&mut buffer, 0),
        Err(AudioReaderError::InvalidPCMLength)
    ));
    assert!(matches!(
        reader.read(&mut buffer, 4),
        Err(AudioReaderError::BufferTooSmall { .. })
    ));
}

#[test]
fn reader_seek_stays_in_bounds() {
    let data: Vec<i16> = vec![0; 8];
    let mut reader = AudioReader::load_audio_buffer(&data, 44100, 2, 4).unwrap();
    reader.seek(3).unwrap();
    assert_eq!(reader.position, 3);
    reader.seek(4).unwrap();
    assert_eq!(reader.position, 4);
    assert!(reader.seek(5).is_err());
    assert_eq!(reader.position, 4);
}

#[test]
fn reader_refuses_unknown_containers() {
    let bytes: Vec<u8> = vec![0, 1, 2, 3, 4, 5];
    assert!(matches!(
        AudioReader::load_file_buffer(&bytes),
        Err(AudioReaderError::InvalidFileFormat)
    ));
}

#[test]
fn ogg_capture_pattern_is_detected() {
    let mut bytes: Vec<u8> = vec![0u8; 0x30];
    assert!(!is_ogg_buffer(&bytes));
    bytes[0] = 0x4f;
    bytes[1] = 0x67;
    bytes[2] = 0x67;
    bytes[3] = 0x53;
    assert!(is_ogg_buffer(&bytes));
}

#[test]
fn ogg_codec_tags_are_told_apart() {
    let mut bytes: Vec<u8> = vec![0u8; 0x30];
    bytes[0] = 0x4f;
    bytes[1] = 0x67;
    bytes[2] = 0x67;
    bytes[3] = 0x53;
    assert!(matches!(get_ogg_type(&bytes), Ok(OggType::Unknown)));
    let opus = [0x4fu8, 0x70, 0x75, 0x73, 0x48, 0x65, 0x61, 0x64];
    for (i, b) in opus.iter().enumerate() {
        bytes[0x1c + i] = *b;
    }
    assert!(matches!(get_ogg_type(&bytes), Ok(OggType::Opus)));
    let vorbis = [0x01u8, 0x76, 0x6f, 0x72, 0x62, 0x69, 0x73];
    for (i, b) in vorbis.iter().enumerate() {
        bytes[0x1c + i] = *b;
    }
    assert!(matches!(get_ogg_type(&bytes), Ok(OggType::Vorbis)));
    let not_ogg: Vec<u8> = vec![0u8; 0x30];
    assert!(get_ogg_type(&not_ogg).is_err());
}

#[test]
fn attribute_names_round_trip() {
    assert!(matches!(AudioAttributes::from("SampleRate"), AudioAttributes::SampleRate));
    assert!(matches!(AudioAttributes::from("Volume"), AudioAttributes::Volume));
    assert!(matches!(AudioAttributes::from("Pan"), AudioAttributes::Pan));
    assert!(matches!(AudioAttributes::from("FXPitch"), AudioAttributes::FXPitch));
    assert!(matches!(AudioAttributes::from("FXTempo"), AudioAttributes::FXTempo));
    assert!(matches!(AudioAttributes::from("anything else"), AudioAttributes::Unknown));
    assert_eq!(AudioAttributes::Volume.to_string(), "Volume");
    assert_eq!(AudioAttributes::AudioFX.to_string(), "AudioFX");
    assert_eq!(
        AudioAttributes::from(&AudioAttributes::Pan.to_string()).to_string(),
        "Pan"
    );
}
