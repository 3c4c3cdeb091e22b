//! A playable channel: one reader behind a per-node effect chain.
//!
//! The pull path runs read → tempo/pitch stage → resample → gain → pan →
//! spatial, with the stretch stage's `frame_available` account maintained
//! here, by the node, exactly as the stage's contract expects.

use vstd::prelude::*;

use crate::attributes::AudioAttributes;
use crate::attributes::AudioPropertyError;
use crate::fixed::MILLI_ONE;
use crate::fixed::copy_into;
use crate::fixed::sat_add_i64;
use crate::fx::AudioFX;
use crate::fx::AudioFXError;
use crate::fx::FX_LATENCY_FRAMES;
use crate::ids::RefIdSource;
use crate::panner::AudioPanner;
use crate::panner::AudioPannerError;
use crate::pcm::PCMIndex;
use crate::reader::AudioReader;
use crate::reader::AudioReaderError;
use crate::resampler::AudioResampler;
use crate::resampler::AudioResamplerError;
use crate::spatial::AudioSpatialization;
use crate::spatial::AudioSpatializationError;
use crate::spatial::AudioSpatializationListener;
use crate::volume::AudioVolume;
use crate::volume::AudioVolumeError;

verus! {

/// The most frames `read_simple` serves per call.
pub const READ_SIMPLE_MAX_FRAMES: u64 = 4096;

/// The size, in samples, of each scratch buffer `read_simple` allocates.
pub const READ_SIMPLE_BUFFER_SAMPLES: usize = 8192;

#[derive(Debug, Clone)]
pub enum AudioChannelError {
    ReadError,
    SeekOutOfBounds,
    SeekFailed,
    AudioFXError(AudioFXError),
    AudioReaderError(AudioReaderError),
    AudioPannerError(AudioPannerError),
    AudioVolumeError(AudioVolumeError),
    AudioResamplerError(AudioResamplerError),
    AudioSpatializationError(AudioSpatializationError),
}

/// A playable channel.  `position` counts the frames the channel has
/// produced on its own timeline and never passes the reader's length.
#[derive(Clone)]
pub struct AudioChannel {
    pub ref_id: u64,
    pub marked_as_deleted: bool,
    pub reader: AudioReader,
    pub gainer: AudioVolume,
    pub panner: AudioPanner,
    pub resampler: AudioResampler,
    pub fx: Option<AudioFX>,
    pub spatializer: Option<AudioSpatialization>,
    pub playing: bool,
    pub is_looping: bool,
    pub position: u64,
    pub start: Option<u64>,
    pub end: Option<u64>,
}

/// What the stretch stage's buffer holds right after a pre-warm that read
/// from `pos`: the frames the reader had there, zero-padded to the stage
/// latency.
pub open spec fn spec_prewarm_queue(reader: AudioReader, pos: int) -> Seq<i16> {
    let ch = reader.channels as int;
    let lat = FX_LATENCY_FRAMES as int;
    let got = if reader.pcm_length - pos <= lat {
        reader.pcm_length - pos
    } else {
        lat
    };
    reader.data@.subrange(pos * ch, (pos + got) * ch) + Seq::new(
        ((lat - got) * ch) as nat,
        |i: int| 0i16,
    )
}

/// The channel state a successful `seek` to `pos` leaves behind: the
/// node's position and the reader moved, and — when the stretch stage is
/// present — its buffer pre-warmed from `pos` with the latency recorded as
/// available.  Everything else stands.
pub open spec fn spec_seek_post(c: AudioChannel, pos: int, d: AudioChannel) -> bool {
    let lat = FX_LATENCY_FRAMES as int;
    let got = if c.reader.pcm_length - pos <= lat {
        c.reader.pcm_length - pos
    } else {
        lat
    };
    &&& d.position == pos
    &&& d.reader.data == c.reader.data
    &&& d.reader.sample_rate == c.reader.sample_rate
    &&& d.reader.channels == c.reader.channels
    &&& d.reader.pcm_length == c.reader.pcm_length
    &&& d.gainer == c.gainer
    &&& d.panner == c.panner
    &&& d.resampler == c.resampler
    &&& d.spatializer == c.spatializer
    &&& d.playing == c.playing
    &&& d.is_looping == c.is_looping
    &&& d.ref_id == c.ref_id
    &&& d.marked_as_deleted == c.marked_as_deleted
    &&& d.start == c.start
    &&& d.end == c.end
    &&& (c.fx is None ==> d.fx is None && d.reader.position == pos)
    &&& (c.fx matches Some(f) ==> d.reader.position == pos + got && (d.fx matches Some(g)
        && g.channels == f.channels && g.sample_rate == f.sample_rate && g.tempo == f.tempo
        && g.octave == f.octave && g.frame_available == lat && g.queue@ == spec_prewarm_queue(
        c.reader,
        pos,
    )))
}

/// The channel state a successful `play` leaves behind: the playing flag
/// raised and, when the channel stood at its start, a fresh seek to the
/// start to pre-warm the stretch stage.
pub open spec fn spec_play_post(c: AudioChannel, d: AudioChannel) -> bool {
    if c.position == 0 {
        spec_seek_post(AudioChannel { playing: true, ..c }, 0, d)
    } else {
        d == (AudioChannel { playing: true, ..c })
    }
}

/// The frames the stretch stage pays out in one pull, as the
/// `frame_available` account determines it: the account is credited with
/// the drain latency once the reader is exhausted this period (the read
/// itself otherwise), then debited by the frames taken out; a debit the
/// account cannot cover shrinks the payout, and an empty account pays
/// nothing.
pub open spec fn spec_fx_staged_count(f: AudioFX, avail: int, required: int, target: int) -> int {
    let clamped = if required > i64::MAX {
        i64::MAX as int
    } else {
        required
    };
    let credited = if avail > 0 {
        let add = if target >= avail {
            FX_LATENCY_FRAMES as int
        } else {
            clamped
        };
        crate::fixed::spec_sat_i64(f.frame_available + add)
    } else {
        f.frame_available as int
    };
    if credited > 0 {
        let debited = crate::fixed::spec_sat_i64(credited - clamped);
        if debited < 0 {
            if required + debited < 0 {
                0
            } else {
                required + debited
            }
        } else {
            required
        }
    } else {
        0
    }
}

/// What the gain and pan stages make of one staged sample at interleaved
/// index `i`: the gain applies everywhere, the pan law only to stereo
/// frames.
pub open spec fn spec_chain_sample(c: AudioChannel, i: int, s: int) -> int {
    let gained = crate::fixed::spec_scale_milli(s, c.gainer.volume as int);
    if c.reader.channels == 2 {
        crate::fixed::spec_scale_milli(
            gained,
            crate::panner::spec_pan_factor(c.panner.pan as int, i),
        )
    } else {
        gained
    }
}

/// The channel state `stop` leaves behind.
pub open spec fn spec_stop(c: AudioChannel) -> AudioChannel {
    AudioChannel { playing: false, ..c }
}

impl AudioChannel {
    pub open spec fn wf(&self) -> bool {
        &&& self.reader.wf()
        &&& self.gainer.wf()
        &&& self.gainer.channels == self.reader.channels
        &&& self.panner.wf()
        &&& self.panner.channels == self.reader.channels
        &&& self.resampler.wf()
        &&& self.resampler.channels == self.reader.channels
        &&& self.resampler.sample_rate == self.reader.sample_rate
        &&& (self.fx matches Some(f) ==> f.wf() && f.channels == self.reader.channels)
        &&& (self.spatializer matches Some(s) ==> s.wf() && s.channels_in == self.reader.channels)
        &&& self.position <= self.reader.pcm_length
    }

    /// The source frames one pull of `frame_count` output frames asks of
    /// the resampler, with an unrepresentable requirement degraded to
    /// zero.
    pub open spec fn spec_required_frames(&self, frame_count: int) -> int {
        if self.resampler.sample_rate == self.resampler.target_sample_rate {
            frame_count
        } else {
            let need = crate::resampler::spec_required_input(
                frame_count,
                self.resampler.sample_rate as int,
                self.resampler.target_sample_rate as int,
            );
            if need <= u64::MAX {
                need
            } else {
                0
            }
        }
    }

    /// The frames the same pull asks of the reader once the stretch
    /// stage's tempo factor is applied.
    pub open spec fn spec_target_frames(&self, frame_count: int) -> int {
        let req = self.spec_required_frames(frame_count);
        match self.fx {
            Option::None => req,
            Option::Some(f) => {
                if req == 0 {
                    0
                } else if f.tempo == MILLI_ONE {
                    req
                } else {
                    let t = req * f.tempo / 1000;
                    if t <= u64::MAX {
                        t
                    } else {
                        0
                    }
                }
            },
        }
    }

    /// The frame capacity each scratch buffer must hold for one pull.
    pub open spec fn spec_needed_frames(&self, frame_count: int) -> int {
        let req = self.spec_required_frames(frame_count);
        let tgt = self.spec_target_frames(frame_count);
        let m = if req >= tgt {
            req
        } else {
            tgt
        };
        if frame_count >= m {
            frame_count
        } else {
            m
        }
    }

    /// The frames left between the reader's position and its end.
    pub open spec fn spec_avail_frames(&self) -> int {
        self.reader.pcm_length - self.reader.position
    }

    /// The frames the source stage hands onward in one pull: without the
    /// stretch stage, as many of the required frames as the reader still
    /// has; with it, whatever the `frame_available` account pays out.
    pub open spec fn spec_staged_count(&self, frame_count: int) -> int {
        let required = self.spec_required_frames(frame_count);
        match self.fx {
            Option::None => if required <= self.spec_avail_frames() {
                required
            } else {
                self.spec_avail_frames()
            },
            Option::Some(f) => spec_fx_staged_count(
                f,
                self.spec_avail_frames(),
                required,
                self.spec_target_frames(frame_count),
            ),
        }
    }

    /// The frames one pull produces: the staged count through a bypassed
    /// resampler, the resampler's expected output — capped at the request
    /// — otherwise.
    pub open spec fn spec_pull_count(&self, frame_count: int) -> int {
        if self.resampler.sample_rate == self.resampler.target_sample_rate {
            self.spec_staged_count(frame_count)
        } else {
            let e = crate::resampler::spec_expected_output(
                self.spec_required_frames(frame_count),
                self.resampler.sample_rate as int,
                self.resampler.target_sample_rate as int,
            );
            if e <= frame_count {
                e
            } else {
                frame_count
            }
        }
    }

    /// A channel over raw interleaved PCM, with the effect chain at the
    /// reader's native rate and channel count: unity volume, centred pan,
    /// bypassed resampler, no stretch stage, a spatializer on the source
    /// side, stopped at the start of the stream.
    pub fn new_audio_buffer(
        ids: &mut RefIdSource,
        data: &Vec<i16>,
        pcm_length: u64,
        sample_rate: u32,
        channels: u32,
    ) -> (r: Result<AudioChannel, AudioChannelError>)
        ensures
            final(ids).next_mixer_id == old(ids).next_mixer_id,
            ({
                let len_ok = channels >= 1 && sample_rate >= 1 && data.len() >= pcm_length
                    * channels;
                if !len_ok {
                    r matches Err(e) && (e matches AudioChannelError::AudioReaderError(_))
                        && *final(ids) == *old(ids)
                } else if !(channels <= 8) {
                    r matches Err(e) && (e matches AudioChannelError::AudioPannerError(_))
                        && *final(ids) == *old(ids)
                } else if !(8000 <= sample_rate <= 192000) {
                    r matches Err(e) && (e matches AudioChannelError::AudioResamplerError(_))
                        && *final(ids) == *old(ids)
                } else {
                    r matches Ok(c) && c.wf() && c.ref_id == old(ids).next_channel_id
                        && c.reader.sample_rate == sample_rate && c.reader.channels == channels
                        && c.reader.pcm_length == pcm_length && c.reader.data@ == data@.subrange(
                        0,
                        (pcm_length * channels) as int,
                    ) && c.position == 0 && !c.playing
                        && !c.is_looping && c.gainer.volume == MILLI_ONE && c.panner.pan == 0
                        && c.resampler.target_sample_rate == sample_rate && c.fx is None
                        && c.spatializer is Some && !c.marked_as_deleted && c.start is None
                        && c.end is None && final(ids).next_channel_id == (if old(ids).next_channel_id == u64::MAX {
                        0int
                    } else {
                        old(ids).next_channel_id + 1
                    })
                }
            }),
    {
        let reader = match AudioReader::load_audio_buffer(data, sample_rate, channels, pcm_length) {
            Ok(rd) => rd,
            Err(e) => {
                return Err(AudioChannelError::AudioReaderError(e));
            },
        };
        Self::from_reader(ids, reader)
    }

    /// A channel over an in-memory audio file, decoded by the reader.
    pub fn new_file_buffer(ids: &mut RefIdSource, buffer: &Vec<u8>) -> (r: Result<
        AudioChannel,
        AudioChannelError,
    >)
        ensures
            final(ids).next_mixer_id == old(ids).next_mixer_id,
            r matches Ok(c) ==> c.wf() && c.ref_id == old(ids).next_channel_id && c.position == 0
                && !c.playing && !c.is_looping && c.fx is None && c.spatializer is Some,
    {
        let reader = match AudioReader::load_file_buffer(buffer) {
            Ok(rd) => rd,
            Err(e) => {
                return Err(AudioChannelError::AudioReaderError(e));
            },
        };
        Self::from_reader(ids, reader)
    }

    /// Builds the effect chain around a reader.
    fn from_reader(ids: &mut RefIdSource, reader: AudioReader) -> (r: Result<
        AudioChannel,
        AudioChannelError,
    >)
        requires
            reader.wf(),
            reader.position == 0,
        ensures
            final(ids).next_mixer_id == old(ids).next_mixer_id,
            ({
                if !(reader.channels <= 8) {
                    r matches Err(e) && (e matches AudioChannelError::AudioPannerError(_))
                        && *final(ids) == *old(ids)
                } else if !(8000 <= reader.sample_rate <= 192000) {
                    r matches Err(e) && (e matches AudioChannelError::AudioResamplerError(_))
                        && *final(ids) == *old(ids)
                } else {
                    r matches Ok(c) && c.wf() && c.ref_id == old(ids).next_channel_id && c.reader
                        == reader && c.position == 0 && !c.playing && !c.is_looping
                        && c.gainer.volume == MILLI_ONE && c.panner.pan == 0
                        && c.resampler.target_sample_rate == reader.sample_rate && c.fx is None
                        && c.spatializer is Some && !c.marked_as_deleted && c.start is None
                        && c.end is None && final(ids).next_channel_id == (if old(ids).next_channel_id == u64::MAX {
                        0int
                    } else {
                        old(ids).next_channel_id + 1
                    })
                }
            }),
    {
        let panner = match AudioPanner::new(reader.channels) {
            Ok(p) => p,
            Err(e) => {
                return Err(AudioChannelError::AudioPannerError(e));
            },
        };
        let gainer = match AudioVolume::new(reader.channels) {
            Ok(g) => g,
            Err(e) => {
                return Err(AudioChannelError::AudioVolumeError(e));
            },
        };
        let resampler = match AudioResampler::new(reader.channels, reader.sample_rate) {
            Ok(rs) => rs,
            Err(e) => {
                return Err(AudioChannelError::AudioResamplerError(e));
            },
        };
        let spatializer = match AudioSpatialization::new(reader.channels, reader.channels) {
            Ok(s) => s,
            Err(e) => {
                return Err(AudioChannelError::AudioSpatializationError(e));
            },
        };
        let ref_id = ids.fresh_channel_id();
        Ok(
            AudioChannel {
                ref_id,
                marked_as_deleted: false,
                reader,
                gainer,
                panner,
                resampler,
                fx: None,
                spatializer: Some(spatializer),
                playing: false,
                is_looping: false,
                position: 0,
                start: None,
                end: None,
            },
        )
    }

    pub fn is_playing(&self) -> (r: bool)
        ensures
            r == self.playing,
    {
        self.playing
    }

    pub fn get_position(&self) -> (r: u64)
        ensures
            r == self.position,
    {
        self.position
    }

    pub fn set_looping(&mut self, looping: bool)
        ensures
            *final(self) == (AudioChannel { is_looping: looping, ..*old(self) }),
    {
        self.is_looping = looping;
    }

    pub fn is_looping(&self) -> (r: bool)
        ensures
            r == self.is_looping,
    {
        self.is_looping
    }

    pub fn ref_id(&self) -> (r: u64)
        ensures
            r == self.ref_id,
    {
        self.ref_id
    }

    /// Marks the channel for removal at the next device period; the mark
    /// is never taken back.
    pub fn mark_deleted(&mut self)
        ensures
            *final(self) == (AudioChannel {
                marked_as_deleted: true,
                playing: false,
                ..*old(self)
            }),
    {
        self.marked_as_deleted = true;
        self.playing = false;
    }

    pub fn set_start(&mut self, start: Option<PCMIndex>)
        ensures
            final(self).start == match start {
                Option::Some(i) => Option::Some(i.index),
                Option::None => Option::None::<u64>,
            },
            *final(self) == (AudioChannel { start: final(self).start, ..*old(self) }),
    {
        self.start = match start {
            Some(i) => Some(i.index),
            None => None,
        };
    }

    pub fn set_end(&mut self, end: Option<PCMIndex>)
        ensures
            final(self).end == match end {
                Option::Some(i) => Option::Some(i.index),
                Option::None => Option::None::<u64>,
            },
            *final(self) == (AudioChannel { end: final(self).end, ..*old(self) }),
    {
        self.end = match end {
            Some(i) => Some(i.index),
            None => None,
        };
    }

    /// Stops playback; the position is retained, and stopping twice is the
    /// same as stopping once.
    pub fn stop(&mut self) -> (r: Result<(), AudioChannelError>)
        ensures
            r is Ok,
            *final(self) == spec_stop(*old(self)),
    {
        self.playing = false;
        Ok(())
    }

    /// Starts playback.  A channel standing at the start of its stream is
    /// first sought to frame zero, pre-warming the stretch stage; a
    /// channel in flight just resumes.  Fails only for an empty stream at
    /// the start.
    pub fn play(&mut self) -> (r: Result<(), AudioChannelError>)
        requires
            old(self).wf(),
        ensures
            final(self).wf(),
            old(self).position != 0 || old(self).reader.pcm_length > 0 ==> r is Ok,
            r is Ok ==> spec_play_post(*old(self), *final(self)),
            r is Err ==> *final(self) == (AudioChannel { playing: true, ..*old(self) }),
    {
        self.playing = true;
        if self.position == 0 {
            self.seek_to(0)?;
        }
        Ok(())
    }

    /// Moves the channel to `position` on its own timeline and pre-warms
    /// the stretch stage from there.  A position at or past the end of the
    /// stream is out of bounds.
    pub fn seek(&mut self, position: u64) -> (r: Result<(), AudioChannelError>)
        requires
            old(self).wf(),
        ensures
            final(self).wf(),
            position < old(self).reader.pcm_length ==> r is Ok && spec_seek_post(
                *old(self),
                position as int,
                *final(self),
            ),
            position >= old(self).reader.pcm_length ==> r == Err::<(), AudioChannelError>(
                AudioChannelError::SeekOutOfBounds,
            ) && *final(self) == *old(self),
    {
        if position >= self.reader.pcm_length {
            return Err(AudioChannelError::SeekOutOfBounds);
        }
        self.seek_to(position)
    }

    /// Moves the channel to the frame nearest `position` milliseconds.
    pub fn seek_ms(&mut self, position: u64) -> (r: Result<(), AudioChannelError>)
        requires
            old(self).wf(),
        ensures
            final(self).wf(),
            ({
                let frames = position * old(self).reader.sample_rate / 1000;
                if frames < old(self).reader.pcm_length {
                    r is Ok && spec_seek_post(*old(self), frames, *final(self))
                } else {
                    r == Err::<(), AudioChannelError>(AudioChannelError::SeekOutOfBounds)
                        && *final(self) == *old(self)
                }
            }),
    {
        proof {
            crate::fixed::lemma_sample_count_bounds(position as int, self.reader.sample_rate as int);
            vstd::arithmetic::div_mod::lemma_div_pos_is_pos(
                position * self.reader.sample_rate,
                1000,
            );
        }
        let wide: u128 = (position as u128) * (self.reader.sample_rate as u128) / 1000;
        if wide >= self.reader.pcm_length as u128 {
            return Err(AudioChannelError::SeekOutOfBounds);
        }
        let frames: u64 = wide as u64;
        let r = self.seek_to(frames);
        proof {
            assert(r is Ok);
        }
        r
    }

    /// The seek path shared by `play` and the public seeks: moves the
    /// position and the reader, and pre-warms the stretch stage.
    pub(crate) fn seek_to(&mut self, position: u64) -> (r: Result<(), AudioChannelError>)
        requires
            old(self).wf(),
            position <= old(self).reader.pcm_length,
        ensures
            final(self).wf(),
            r is Ok,
            spec_seek_post(*old(self), position as int, *final(self)),
    {
        self.position = position;
        match self.reader.seek(position) {
            Ok(()) => (),
            Err(_) => {
                proof {
                    assert(false);
                }
            },
        }
        if self.fx.is_some() {
            let ghost gch = old(self).reader.channels as int;
            let ghost lat = FX_LATENCY_FRAMES as int;
            let ghost gotg: int = if old(self).reader.pcm_length - position <= lat {
                old(self).reader.pcm_length - position
            } else {
                lat
            };
            let latency: u64 = FX_LATENCY_FRAMES as u64;
            let ch: usize = self.reader.channels as usize;
            let warm_len: usize = (FX_LATENCY_FRAMES as usize) * ch;
            let mut warm: Vec<i16> = crate::fixed::zero_buffer(warm_len);
            let got: u64 = match self.reader.read(&mut warm, latency) {
                Ok(g) => g,
                Err(_) => {
                    proof {
                        assert(false);
                    }
                    0
                },
            };
            proof {
                assert(got == gotg);
                assert(forall|i: int|
                    0 <= i < gotg * gch ==> warm@[i] == old(self).reader.data@[(position * gch
                        + i)]);
                assert(forall|i: int| gotg * gch <= i < warm_len ==> warm@[i] == 0i16);
            }
            match &mut self.fx {
                Some(f) => {
                    match f.pre_process(&warm, latency) {
                        Ok(()) => (),
                        Err(_) => {
                            proof {
                                assert(false);
                            }
                        },
                    }
                },
                None => (),
            }
            proof {
                let q = spec_prewarm_queue(old(self).reader, position as int);
                assert((position + gotg) * gch == position * gch + gotg * gch) by (nonlinear_arith);
                assert((lat - gotg) * gch == lat * gch - gotg * gch) by (nonlinear_arith);
                assert((lat - gotg) * gch >= 0 && gotg * gch >= 0 && position * gch >= 0)
                    by (nonlinear_arith)
                    requires
                        lat >= gotg,
                        gotg >= 0,
                        position >= 0,
                        gch >= 1,
                ;
                let pcm = old(self).reader.pcm_length as int;
                assert((position + gotg) * gch <= pcm * gch) by (nonlinear_arith)
                    requires
                        position + gotg <= pcm,
                        gch >= 0,
                ;
                assert(q.len() == lat * gch);
                match &self.fx {
                    Some(g) => {
                        assert(g.queue@ == warm@.subrange(0, (lat * gch) as int));
                        assert(g.queue@.len() == lat * gch);
                        assert forall|i: int| 0 <= i < lat * gch implies g.queue@[i] == q[i] by {
                            assert(g.queue@[i] == warm@[i]);
                            if i < gotg * gch {
                                assert(warm@[i] == old(self).reader.data@[(position * gch + i)]);
                            } else {
                                assert(warm@[i] == 0i16);
                            }
                        }
                        assert(g.queue@ =~= q);
                    },
                    None => {
                        assert(false);
                    },
                }
                vstd::arithmetic::div_mod::lemma_mod_multiples_basic(lat, gch);
            }
        }
        Ok(())
    }
}

impl AudioChannel {
    /// Pulls up to `frame_count` frames through the node's chain: read,
    /// tempo/pitch stage, resample, gain, pan, and — when both a
    /// spatializer and a listener are present — the spatial stage.  The
    /// produced frames land at the front of `output`; `temp` is scratch.
    /// Returns the frames produced, advances the node's position by that
    /// many (never past the stream length), and at a short read either
    /// rewinds the reader (when looping) or stops the channel.
    #[verifier::rlimit(100)]
    pub fn read_pcm_frames_with_listener(
        &mut self,
        listener: Option<&AudioSpatializationListener>,
        output: &mut Vec<i16>,
        temp: &mut Vec<i16>,
        frame_count: u64,
    ) -> (r: Result<u64, AudioChannelError>)
        requires
            old(self).wf(),
        ensures
            final(self).wf(),
            final(self).reader.data == old(self).reader.data,
            final(self).reader.sample_rate == old(self).reader.sample_rate,
            final(self).reader.channels == old(self).reader.channels,
            final(self).reader.pcm_length == old(self).reader.pcm_length,
            final(self).gainer == old(self).gainer,
            final(self).panner == old(self).panner,
            final(self).resampler == old(self).resampler,
            final(self).spatializer == old(self).spatializer,
            final(self).is_looping == old(self).is_looping,
            final(self).ref_id == old(self).ref_id,
            final(self).marked_as_deleted == old(self).marked_as_deleted,
            final(self).start == old(self).start,
            final(self).end == old(self).end,
            final(self).playing ==> old(self).playing,
            final(self).fx is Some <==> old(self).fx is Some,
            final(self).fx matches Some(g) ==> (old(self).fx matches Some(f) && g.tempo
                == f.tempo && g.octave == f.octave && g.channels == f.channels && g.sample_rate
                == f.sample_rate),
            final(output).len() == old(output).len(),
            final(temp).len() == old(temp).len(),
            !old(self).playing ==> r == Ok::<u64, AudioChannelError>(0u64) && *final(self) == *old(self) && *final(output) == *old(output) && *final(temp) == *old(temp),
            r is Err ==> *final(self) == *old(self) && *final(output) == *old(output)
                && *final(temp) == *old(temp),
            ({
                let ch = old(self).reader.channels as int;
                let needed = old(self).spec_needed_frames(frame_count as int);
                old(self).playing && (old(output).len() < needed * ch || old(temp).len() < needed
                    * ch) ==> r is Err
            }),
            ({
                let ch = old(self).reader.channels as int;
                let req = old(self).spec_required_frames(frame_count as int);
                let tgt = old(self).spec_target_frames(frame_count as int);
                let needed = old(self).spec_needed_frames(frame_count as int);
                let avail = old(self).reader.pcm_length - old(self).reader.position;
                old(self).playing && old(output).len() >= needed * ch && old(temp).len() >= needed
                    * ch && ((old(self).fx is None && req > 0) || (old(self).fx is Some && (avail
                    == 0 || tgt > 0))) ==> r is Ok
            }),
            r matches Ok(n) ==> old(self).playing ==> {
                &&& n <= frame_count
                &&& final(self).position == if old(self).position + n <= old(self).reader.pcm_length {
                    old(self).position + n
                } else {
                    old(self).reader.pcm_length as int
                }
                &&& n < frame_count ==> (old(self).is_looping ==> final(self).reader.position == 0
                    && final(self).playing == old(self).playing) && (!old(self).is_looping
                    ==> !final(self).playing)
                &&& n == frame_count ==> final(self).playing == old(self).playing
            },
            r matches Ok(n) ==> old(self).playing ==> n == old(self).spec_pull_count(
                frame_count as int,
            ),
            old(self).playing && old(self).fx is None && old(self).resampler.sample_rate == old(self).resampler.target_sample_rate ==> (r matches Ok(n) ==> ((n == frame_count || !old(self).is_looping) ==> final(self).reader.position == old(self).reader.position + n)),
            ({
                let ch = old(self).reader.channels as int;
                old(self).playing && old(self).fx is None && old(self).resampler.sample_rate
                    == old(self).resampler.target_sample_rate && (old(self).spatializer is None
                    || listener is None) ==> (r matches Ok(n) ==> forall|i: int|
                    0 <= i < n * ch ==> #[trigger] final(output)@[i] == spec_chain_sample(
                        *old(self),
                        i,
                        old(self).reader.data@[(old(self).reader.position * ch + i)] as int,
                    ))
            }),
    {
        if !self.playing {
            return Ok(0);
        }
        let ghost ch = self.reader.channels as int;
        let required: u64 = match self.resampler.get_required_input(frame_count) {
            Ok(v) => v,
            Err(_) => 0,
        };
        proof {
            assert(required == old(self).spec_required_frames(frame_count as int));
        }
        let target: u64 = match &self.fx {
            Some(f) => {
                if f.tempo == MILLI_ONE {
                    required
                } else {
                    match f.get_required_input(required) {
                        Ok(v) => v,
                        Err(_) => 0,
                    }
                }
            },
            None => required,
        };
        proof {
            assert(target == old(self).spec_target_frames(frame_count as int));
        }
        let m0: u64 = if required >= target {
            required
        } else {
            target
        };
        let needed: u64 = if frame_count >= m0 {
            frame_count
        } else {
            m0
        };
        proof {
            assert(needed == old(self).spec_needed_frames(frame_count as int));
            crate::fixed::lemma_sample_count_bounds(needed as int, self.reader.channels as int);
        }
        let needed_samples: u128 = (needed as u128) * (self.reader.channels as u128);
        if (output.len() as u128) < needed_samples || (temp.len() as u128) < needed_samples {
            let shorter: u64 = if output.len() <= temp.len() {
                output.len() as u64
            } else {
                temp.len() as u64
            };
            return Err(
                AudioChannelError::AudioReaderError(
                    AudioReaderError::BufferTooSmall {
                        expected: if needed_samples > u64::MAX as u128 {
                            u64::MAX
                        } else {
                            needed_samples as u64
                        },
                        actual: shorter,
                    },
                ),
            );
        }
        proof {
            crate::fixed::lemma_mul_le_mono(frame_count as int, needed as int, ch);
            crate::fixed::lemma_mul_le_mono(required as int, needed as int, ch);
            crate::fixed::lemma_mul_le_mono(target as int, needed as int, ch);
        }
        let frames_readed: u64;
        if self.fx.is_some() {
            frames_readed = match self.pull_with_fx(output, temp, required, target, needed) {
                Ok(n) => n,
                Err(e) => {
                    return Err(e);
                },
            };
        } else {
            frames_readed = match self.reader.read(output, required) {
                Ok(g) => g,
                Err(e) => {
                    return Err(AudioChannelError::AudioReaderError(e));
                },
            };
        }
        self.finish_chain(listener, output, temp, frame_count, required, needed, frames_readed)
    }

    /// The source half of a pull when the stretch stage is present: reads
    /// from the reader, maintains the stage's `frame_available` account —
    /// crediting the read, or the stage's drain latency at end of stream —
    /// and, when the account is positive, runs the stage and settles the
    /// account against the frames taken out.
    fn pull_with_fx(
        &mut self,
        output: &mut Vec<i16>,
        temp: &mut Vec<i16>,
        required: u64,
        target: u64,
        needed: u64,
    ) -> (r: Result<u64, AudioChannelError>)
        requires
            old(self).wf(),
            old(self).fx is Some,
            required <= needed,
            target <= needed,
            old(output).len() >= needed * old(self).reader.channels,
            old(temp).len() >= needed * old(self).reader.channels,
        ensures
            final(self).wf(),
            final(self).reader.data == old(self).reader.data,
            final(self).reader.sample_rate == old(self).reader.sample_rate,
            final(self).reader.channels == old(self).reader.channels,
            final(self).reader.pcm_length == old(self).reader.pcm_length,
            final(self).gainer == old(self).gainer,
            final(self).panner == old(self).panner,
            final(self).resampler == old(self).resampler,
            final(self).spatializer == old(self).spatializer,
            final(self).playing == old(self).playing,
            final(self).is_looping == old(self).is_looping,
            final(self).position == old(self).position,
            final(self).ref_id == old(self).ref_id,
            final(self).marked_as_deleted == old(self).marked_as_deleted,
            final(self).start == old(self).start,
            final(self).end == old(self).end,
            final(self).fx is Some,
            final(self).fx matches Some(g) ==> (old(self).fx matches Some(f) && g.tempo
                == f.tempo && g.octave == f.octave && g.channels == f.channels && g.sample_rate
                == f.sample_rate),
            final(output).len() == old(output).len(),
            final(temp).len() == old(temp).len(),
            r is Err ==> *final(self) == *old(self) && *final(output) == *old(output)
                && *final(temp) == *old(temp),
            old(self).reader.position == old(self).reader.pcm_length || target > 0 ==> r is Ok,
            r matches Ok(n) ==> n <= required,
            old(self).fx matches Some(f) ==> (r matches Ok(n) ==> n == spec_fx_staged_count(
                f,
                old(self).spec_avail_frames(),
                required as int,
                target as int,
            )),
    {
        let ghost ch = self.reader.channels as int;
        proof {
            crate::fixed::lemma_mul_le_mono(required as int, needed as int, ch);
            crate::fixed::lemma_mul_le_mono(target as int, needed as int, ch);
        }
        let chans: usize = self.reader.channels as usize;
        let mut readed_frame_count: u64 = required;
        let available: u64 = self.reader.available_frames();
        let mut actual_target: u64 = target;
        if available > 0 {
            actual_target = match self.reader.read(output, target) {
                Ok(g) => g,
                Err(e) => {
                    return Err(AudioChannelError::AudioReaderError(e));
                },
            };
            let drained: bool = actual_target >= available;
            match &mut self.fx {
                Some(f) => {
                    if drained {
                        f.frame_available = sat_add_i64(f.frame_available, FX_LATENCY_FRAMES as i64);
                    } else {
                        let add: i64 = if readed_frame_count > i64::MAX as u64 {
                            i64::MAX
                        } else {
                            readed_frame_count as i64
                        };
                        f.frame_available = sat_add_i64(f.frame_available, add);
                    }
                },
                None => (),
            }
        }
        let fa_positive: bool = match &self.fx {
            Some(f) => f.frame_available > 0,
            None => false,
        };
        if fa_positive {
            proof {
                crate::fixed::lemma_mul_le_mono(actual_target as int, needed as int, ch);
            }
            match &mut self.fx {
                Some(f) => {
                    match f.process(output, actual_target, temp, readed_frame_count) {
                        Ok(()) => (),
                        Err(e) => {
                            proof {
                                assert(false);
                            }
                            return Err(AudioChannelError::AudioFXError(e));
                        },
                    }
                    let sub: i64 = if readed_frame_count > i64::MAX as u64 {
                        i64::MAX
                    } else {
                        readed_frame_count as i64
                    };
                    f.frame_available = sat_add_i64(f.frame_available, -sub);
                    if f.frame_available < 0 {
                        let adjusted: i128 = (readed_frame_count as i128) + (f.frame_available
                            as i128);
                        readed_frame_count = if adjusted < 0 {
                            0
                        } else {
                            adjusted as u64
                        };
                        f.frame_available = 0;
                    }
                },
                None => (),
            }
        } else {
            readed_frame_count = 0;
        }
        proof {
            crate::fixed::lemma_mul_le_mono(readed_frame_count as int, needed as int, ch);
            crate::fixed::lemma_sample_count_bounds(readed_frame_count as int, ch);
        }
        let copy_n: usize = (readed_frame_count as usize) * chans;
        copy_into(temp, output, copy_n);
        Ok(readed_frame_count)
    }

    /// The output half of a pull: resamples what the source half left in
    /// `output`, applies gain then pan, advances the node's position — never
    /// past the stream length — and at a short period either rewinds the
    /// reader (when looping) or stops the channel; last, when a spatializer
    /// and a listener are both present, runs the spatial stage.
    fn finish_chain(
        &mut self,
        listener: Option<&AudioSpatializationListener>,
        output: &mut Vec<i16>,
        temp: &mut Vec<i16>,
        frame_count: u64,
        required: u64,
        needed: u64,
        frames_in: u64,
    ) -> (r: Result<u64, AudioChannelError>)
        requires
            old(self).wf(),
            frames_in <= needed,
            frame_count <= needed,
            required <= needed,
            old(output).len() >= needed * old(self).reader.channels,
            old(temp).len() >= needed * old(self).reader.channels,
        ensures
            final(self).wf(),
            final(self).reader.data == old(self).reader.data,
            final(self).reader.sample_rate == old(self).reader.sample_rate,
            final(self).reader.channels == old(self).reader.channels,
            final(self).reader.pcm_length == old(self).reader.pcm_length,
            final(self).gainer == old(self).gainer,
            final(self).panner == old(self).panner,
            final(self).resampler == old(self).resampler,
            final(self).spatializer == old(self).spatializer,
            final(self).is_looping == old(self).is_looping,
            final(self).ref_id == old(self).ref_id,
            final(self).marked_as_deleted == old(self).marked_as_deleted,
            final(self).start == old(self).start,
            final(self).end == old(self).end,
            final(self).fx == old(self).fx,
            final(self).playing ==> old(self).playing,
            final(output).len() == old(output).len(),
            final(temp).len() == old(temp).len(),
            r is Ok,
            ({
                let ch = old(self).reader.channels as int;
                old(self).resampler.sample_rate == old(self).resampler.target_sample_rate && (old(self).spatializer is None || listener is None) ==> (r matches Ok(n) ==> forall|i: int|
                    0 <= i < n * ch ==> #[trigger] final(output)@[i] == spec_chain_sample(
                        *old(self),
                        i,
                        old(output)@[i] as int,
                    ))
            }),
            r matches Ok(n) ==> {
                &&& n == if old(self).resampler.sample_rate == old(self).resampler.target_sample_rate {
                    frames_in as int
                } else {
                    let expected = crate::resampler::spec_expected_output(
                        required as int,
                        old(self).resampler.sample_rate as int,
                        old(self).resampler.target_sample_rate as int,
                    );
                    if expected <= frame_count {
                        expected
                    } else {
                        frame_count as int
                    }
                }
                &&& final(self).position == if old(self).position + n <= old(self).reader.pcm_length {
                    old(self).position + n
                } else {
                    old(self).reader.pcm_length as int
                }
                &&& n < frame_count ==> (old(self).is_looping ==> final(self).reader.position == 0
                    && final(self).playing == old(self).playing) && (!old(self).is_looping
                    ==> !final(self).playing && final(self).reader.position == old(self).reader.position)
                &&& n >= frame_count ==> final(self).playing == old(self).playing
                    && final(self).reader.position == old(self).reader.position
            },
    {
        let ghost ch = self.reader.channels as int;
        proof {
            crate::fixed::lemma_mul_le_mono(frames_in as int, needed as int, ch);
            crate::fixed::lemma_mul_le_mono(frame_count as int, needed as int, ch);
            crate::fixed::lemma_mul_le_mono(required as int, needed as int, ch);
        }
        let chans: usize = self.reader.channels as usize;
        let mut frames_readed: u64 = frames_in;
        if !self.resampler.bypass_mode() {
            let produced: u64 = match self.resampler.process(output, required, temp, frame_count) {
                Ok(p) => p,
                Err(e) => {
                    proof {
                        assert(false);
                    }
                    return Err(AudioChannelError::AudioResamplerError(e));
                },
            };
            proof {
                crate::fixed::lemma_mul_le_mono(produced as int, needed as int, ch);
                crate::fixed::lemma_sample_count_bounds(produced as int, ch);
            }
            let copy_n: usize = (produced as usize) * chans;
            copy_into(temp, output, copy_n);
            frames_readed = produced;
        }
        proof {
            crate::fixed::lemma_mul_le_mono(frames_readed as int, needed as int, ch);
        }
        match self.gainer.process(output, temp, frames_readed) {
            Ok(()) => (),
            Err(e) => {
                proof {
                    assert(false);
                }
                return Err(AudioChannelError::AudioVolumeError(e));
            },
        }
        match self.panner.process(temp, output, frames_readed) {
            Ok(()) => (),
            Err(e) => {
                proof {
                    assert(false);
                }
                return Err(AudioChannelError::AudioPannerError(e));
            },
        }
        let room: u64 = self.reader.pcm_length - self.position;
        self.position = if frames_readed <= room {
            self.position + frames_readed
        } else {
            self.reader.pcm_length
        };
        if frames_readed < frame_count {
            if self.is_looping {
                match self.reader.seek(0) {
                    Ok(()) => (),
                    Err(_) => {
                        proof {
                            assert(false);
                        }
                    },
                }
            } else {
                self.playing = false;
            }
        }
        proof {
            let c0 = *old(self);
            let gch = c0.reader.channels as int;
            if c0.resampler.sample_rate == c0.resampler.target_sample_rate && (
            c0.spatializer is None || listener is None) {
                assert forall|i: int|
                    0 <= i < frames_readed * gch implies #[trigger] output@[i]
                    == spec_chain_sample(c0, i, old(output)@[i] as int) by {
                    assert(temp@[i] == crate::fixed::spec_scale_milli(
                        old(output)@[i] as int,
                        c0.gainer.volume as int,
                    ));
                    if c0.reader.channels == 2 {
                        assert(output@[i] == crate::fixed::spec_scale_milli(
                            temp@[i] as int,
                            crate::panner::spec_pan_factor(c0.panner.pan as int, i),
                        ));
                    } else {
                        assert(output@[i] == temp@[i]);
                    }
                }
            }
        }
        if self.spatializer.is_some() && listener.is_some() {
            let l = match listener {
                Some(l) => l,
                None => {
                    proof {
                        assert(false);
                    }
                    return Err(AudioChannelError::ReadError);
                },
            };
            match &mut self.spatializer {
                Some(s) => {
                    match s.process(l, output, temp, frames_readed) {
                        Ok(()) => (),
                        Err(e) => {
                            proof {
                                assert(false);
                            }
                            return Err(AudioChannelError::AudioSpatializationError(e));
                        },
                    }
                },
                None => (),
            }
            proof {
                crate::fixed::lemma_mul_le_mono(frames_readed as int, needed as int, ch);
                crate::fixed::lemma_sample_count_bounds(frames_readed as int, ch);
            }
            let copy_n: usize = (frames_readed as usize) * chans;
            copy_into(temp, output, copy_n);
        }
        Ok(frames_readed)
    }

    /// The pull entry for detached use: no listener is consulted.
    pub fn read_pcm_frames(
        &mut self,
        output: &mut Vec<i16>,
        temp: &mut Vec<i16>,
        frame_count: u64,
    ) -> (r: Result<u64, AudioChannelError>)
        requires
            old(self).wf(),
        ensures
            final(self).wf(),
            final(self).reader.data == old(self).reader.data,
            final(self).reader.sample_rate == old(self).reader.sample_rate,
            final(self).reader.channels == old(self).reader.channels,
            final(self).reader.pcm_length == old(self).reader.pcm_length,
            final(self).gainer == old(self).gainer,
            final(self).panner == old(self).panner,
            final(self).resampler == old(self).resampler,
            final(self).is_looping == old(self).is_looping,
            final(self).ref_id == old(self).ref_id,
            final(self).playing ==> old(self).playing,
            !old(self).playing ==> r == Ok::<u64, AudioChannelError>(0u64) && *final(self) == *old(self) && *final(output) == *old(output) && *final(temp) == *old(temp),
            final(output).len() == old(output).len(),
            final(temp).len() == old(temp).len(),
            r matches Ok(n) ==> old(self).playing ==> n <= frame_count && final(self).position
                <= final(self).reader.pcm_length,
            r matches Ok(n) ==> old(self).playing ==> n == old(self).spec_pull_count(
                frame_count as int,
            ),
            r matches Ok(n) ==> old(self).playing ==> final(self).position == if old(self).position
                + n <= old(self).reader.pcm_length {
                old(self).position + n
            } else {
                old(self).reader.pcm_length as int
            },
            r matches Ok(n) ==> old(self).playing ==> (n < frame_count ==> (old(self).is_looping
                ==> final(self).reader.position == 0) && (!old(self).is_looping ==> !final(self).playing)) && (n == frame_count ==> final(self).playing == old(self).playing),
            old(self).playing && old(self).fx is None && old(self).resampler.sample_rate == old(self).resampler.target_sample_rate ==> (r matches Ok(n) ==> ((n == frame_count || !old(self).is_looping) ==> final(self).reader.position == old(self).reader.position + n)),
            ({
                let ch = old(self).reader.channels as int;
                let req = old(self).spec_required_frames(frame_count as int);
                let tgt = old(self).spec_target_frames(frame_count as int);
                let needed = old(self).spec_needed_frames(frame_count as int);
                old(self).playing && old(output).len() >= needed * ch && old(temp).len() >= needed
                    * ch && ((old(self).fx is None && req > 0) || (old(self).fx is Some && (old(self).spec_avail_frames() == 0 || tgt > 0))) ==> r is Ok
            }),
            ({
                let ch = old(self).reader.channels as int;
                old(self).playing && old(self).fx is None && old(self).resampler.sample_rate
                    == old(self).resampler.target_sample_rate ==> (r matches Ok(n) ==> forall|i: int|
                    0 <= i < n * ch ==> #[trigger] final(output)@[i] == spec_chain_sample(
                        *old(self),
                        i,
                        old(self).reader.data@[(old(self).reader.position * ch + i)] as int,
                    ))
            }),
    {
        self.read_pcm_frames_with_listener(None, output, temp, frame_count)
    }

    /// Pulls up to `frame_count` frames into a fresh buffer, allocating
    /// the scratch itself; for control-path use, not the realtime path.
    /// Requests beyond [`READ_SIMPLE_MAX_FRAMES`] are refused outright.
    pub fn read_simple(&mut self, frame_count: u64) -> (r: Result<Vec<i16>, AudioChannelError>)
        requires
            old(self).wf(),
        ensures
            final(self).wf(),
            frame_count > READ_SIMPLE_MAX_FRAMES ==> (r matches Err(e) && e
                == AudioChannelError::AudioReaderError(AudioReaderError::PCMLengthTooLarge)
                && *final(self) == *old(self)),
            r matches Ok(v) ==> v.len() as int % (old(self).reader.channels as int) == 0
                && v.len() as int / (old(self).reader.channels as int) <= frame_count,
            ({
                let ch = old(self).reader.channels as int;
                let req = old(self).spec_required_frames(frame_count as int);
                let tgt = old(self).spec_target_frames(frame_count as int);
                let needed = old(self).spec_needed_frames(frame_count as int);
                old(self).playing && frame_count <= READ_SIMPLE_MAX_FRAMES && needed * ch
                    <= READ_SIMPLE_BUFFER_SAMPLES && ((old(self).fx is None && req > 0) || (old(self).fx is Some && (old(self).spec_avail_frames() == 0 || tgt > 0))) ==> r is Ok
            }),
            old(self).playing ==> (r matches Ok(v) ==> v.len() == old(self).spec_pull_count(
                frame_count as int,
            ) * old(self).reader.channels),
    {
        if frame_count > READ_SIMPLE_MAX_FRAMES {
            return Err(AudioChannelError::AudioReaderError(AudioReaderError::PCMLengthTooLarge));
        }
        let mut data = crate::fixed::zero_buffer(READ_SIMPLE_BUFFER_SAMPLES);
        let mut temp = crate::fixed::zero_buffer(READ_SIMPLE_BUFFER_SAMPLES);
        let ghost ch = self.reader.channels as int;
        let frames_readed: u64 = match self.read_pcm_frames(&mut data, &mut temp, frame_count) {
            Ok(n) => n,
            Err(e) => {
                return Err(e);
            },
        };
        if frames_readed == 0 {
            let empty: Vec<i16> = Vec::new();
            proof {
                vstd::arithmetic::div_mod::lemma_small_mod(0nat, ch as nat);
                vstd::arithmetic::div_mod::lemma_basic_div(0, ch);
            }
            proof {
                if old(self).playing {
                    let pc = old(self).spec_pull_count(frame_count as int);
                    let gch = old(self).reader.channels as int;
                    assert(pc == 0);
                    assert(pc * gch == 0) by (nonlinear_arith)
                        requires
                            pc == 0,
                    ;
                }
            }
            return Ok(empty);
        }
        proof {
            crate::fixed::lemma_sample_count_bounds(frames_readed as int, ch);
        }
        let wanted: u128 = (frames_readed as u128) * (self.reader.channels as u128);
        if (data.len() as u128) < wanted {
            proof {
                let needed = old(self).spec_needed_frames(frame_count as int);
                if old(self).playing && frame_count <= READ_SIMPLE_MAX_FRAMES && needed * ch
                    <= READ_SIMPLE_BUFFER_SAMPLES {
                    crate::fixed::lemma_mul_le_mono(frames_readed as int, needed, ch);
                    assert(false);
                }
            }
            return Err(AudioChannelError::ReadError);
        }
        let n: usize = (frames_readed as usize) * (self.reader.channels as usize);
        let out = crate::fixed::copy_prefix(&data, n);
        proof {
            vstd::arithmetic::div_mod::lemma_mod_multiples_basic(frames_readed as int, ch);
            assert(out.len() as int == frames_readed * ch);
            assert(frames_readed * ch == ch * frames_readed);
            assert(out.len() as int / ch == frames_readed) by {
                vstd::arithmetic::div_mod::lemma_div_multiples_vanish(frames_readed as int, ch);
            }
        }
        Ok(out)
    }
}

impl AudioChannel {
    /// Reads a value attribute.  Gain-like values come back in
    /// thousandths; the sample rate is the resampler's target rate in
    /// hertz.  The tempo and pitch need the stretch stage enabled, and the
    /// toggles are not value attributes.
    pub fn get_attribute(&self, attribute: AudioAttributes) -> (r: Result<i64, AudioPropertyError>)
        ensures
            attribute == AudioAttributes::Volume ==> r == Ok::<i64, AudioPropertyError>(
                self.gainer.volume as i64,
            ),
            attribute == AudioAttributes::Pan ==> r == Ok::<i64, AudioPropertyError>(
                self.panner.pan as i64,
            ),
            attribute == AudioAttributes::SampleRate ==> r == Ok::<i64, AudioPropertyError>(
                self.resampler.target_sample_rate as i64,
            ),
            attribute == AudioAttributes::FXTempo && self.fx is None ==> r == Err::<
                i64,
                AudioPropertyError,
            >(AudioPropertyError::AudioFXError(AudioFXError::NotEnabled)),
            self.fx matches Some(f) ==> attribute == AudioAttributes::FXTempo ==> r == Ok::<
                i64,
                AudioPropertyError,
            >(f.tempo as i64),
            attribute == AudioAttributes::FXPitch && self.fx is None ==> r == Err::<
                i64,
                AudioPropertyError,
            >(AudioPropertyError::AudioFXError(AudioFXError::NotEnabled)),
            self.fx matches Some(f) ==> attribute == AudioAttributes::FXPitch ==> r == Ok::<
                i64,
                AudioPropertyError,
            >(f.octave as i64),
            attribute == AudioAttributes::AudioFX || attribute == AudioAttributes::AudioSpatialization
                || attribute == AudioAttributes::Unknown ==> (r matches Err(e) && e matches
                AudioPropertyError::UnsupportedAttribute(_)),
    {
        match attribute {
            AudioAttributes::Volume => Ok(self.gainer.volume as i64),
            AudioAttributes::Pan => Ok(self.panner.pan as i64),
            AudioAttributes::SampleRate => Ok(self.resampler.target_sample_rate as i64),
            AudioAttributes::FXTempo => {
                match &self.fx {
                    Some(f) => Ok(f.tempo as i64),
                    None => Err(AudioPropertyError::AudioFXError(AudioFXError::NotEnabled)),
                }
            },
            AudioAttributes::FXPitch => {
                match &self.fx {
                    Some(f) => Ok(f.octave as i64),
                    None => Err(AudioPropertyError::AudioFXError(AudioFXError::NotEnabled)),
                }
            },
            _ => Err(AudioPropertyError::UnsupportedAttribute("not a value attribute")),
        }
    }

    /// Writes a value attribute.  Volume and pan clamp silently; the
    /// sample rate, tempo and pitch validate; the toggles are not value
    /// attributes.
    pub fn set_attribute(&mut self, attribute: AudioAttributes, value: i64) -> (r: Result<
        (),
        AudioPropertyError,
    >)
        requires
            old(self).wf(),
        ensures
            final(self).wf(),
            final(self).position == old(self).position,
            final(self).playing == old(self).playing,
            final(self).reader == old(self).reader,
            final(self).ref_id == old(self).ref_id,
            final(self).is_looping == old(self).is_looping,
            final(self).spatializer == old(self).spatializer,
            attribute == AudioAttributes::Volume ==> r is Ok && final(self).gainer.volume
                == crate::fixed::spec_clamp_unit_milli(value as int) && final(self).panner == old(self).panner && final(self).resampler == old(self).resampler && final(self).fx == old(self).fx,
            attribute == AudioAttributes::Pan ==> r is Ok && final(self).panner.pan
                == crate::fixed::spec_clamp_pan_milli(value as int) && final(self).gainer == old(self).gainer && final(self).resampler == old(self).resampler && final(self).fx == old(self).fx,
            attribute == AudioAttributes::SampleRate ==> if 1 <= value <= u32::MAX {
                r is Ok && final(self).resampler.target_sample_rate == value && final(self).gainer
                    == old(self).gainer && final(self).panner == old(self).panner && final(self).fx
                    == old(self).fx
            } else {
                r is Err && *final(self) == *old(self)
            },
            attribute == AudioAttributes::FXTempo ==> if old(self).fx is None {
                r == Err::<(), AudioPropertyError>(
                    AudioPropertyError::AudioFXError(AudioFXError::NotEnabled),
                ) && *final(self) == *old(self)
            } else if 1 <= value <= u32::MAX {
                r is Ok && (final(self).fx matches Some(g) && g.tempo == value) && final(self).gainer == old(self).gainer && final(self).panner == old(self).panner && final(self).resampler == old(self).resampler
            } else {
                r is Err && *final(self) == *old(self)
            },
            attribute == AudioAttributes::FXPitch ==> if old(self).fx is None {
                r == Err::<(), AudioPropertyError>(
                    AudioPropertyError::AudioFXError(AudioFXError::NotEnabled),
                ) && *final(self) == *old(self)
            } else if 1 <= value <= u32::MAX {
                r is Ok && (final(self).fx matches Some(g) && g.octave == value) && final(self).gainer == old(self).gainer && final(self).panner == old(self).panner && final(self).resampler == old(self).resampler
            } else {
                r is Err && *final(self) == *old(self)
            },
            attribute == AudioAttributes::AudioFX || attribute == AudioAttributes::AudioSpatialization
                || attribute == AudioAttributes::Unknown ==> (r matches Err(e) && e matches
                AudioPropertyError::UnsupportedAttribute(_)) && *final(self) == *old(self),
            old(self).fx matches Some(f0) ==> (attribute == AudioAttributes::FXTempo && 1 <= value
                <= u32::MAX ==> (final(self).fx matches Some(g) && g.octave == f0.octave
                && g.channels == f0.channels && g.sample_rate == f0.sample_rate)),
            old(self).fx matches Some(f0) ==> (attribute == AudioAttributes::FXPitch && 1 <= value
                <= u32::MAX ==> (final(self).fx matches Some(g) && g.tempo == f0.tempo
                && g.channels == f0.channels && g.sample_rate == f0.sample_rate)),
    {
        match attribute {
            AudioAttributes::Volume => {
                self.gainer.set_volume(value);
                Ok(())
            },
            AudioAttributes::Pan => {
                self.panner.set_pan(value);
                Ok(())
            },
            AudioAttributes::SampleRate => {
                if value < 1 || value > u32::MAX as i64 {
                    return Err(
                        AudioPropertyError::UnsupportedAttribute("sample rate out of range"),
                    );
                }
                self.resampler.set_target_sample_rate(value as u32);
                Ok(())
            },
            AudioAttributes::FXTempo => {
                match &mut self.fx {
                    Some(f) => {
                        if value < 1 || value > u32::MAX as i64 {
                            return Err(
                                AudioPropertyError::AudioFXError(AudioFXError::InvalidTempo),
                            );
                        }
                        match f.set_tempo(value as u32) {
                            Ok(()) => Ok(()),
                            Err(e) => {
                                proof {
                                    assert(false);
                                }
                                Err(AudioPropertyError::AudioFXError(e))
                            },
                        }
                    },
                    None => Err(AudioPropertyError::AudioFXError(AudioFXError::NotEnabled)),
                }
            },
            AudioAttributes::FXPitch => {
                match &mut self.fx {
                    Some(f) => {
                        if value < 1 || value > u32::MAX as i64 {
                            return Err(
                                AudioPropertyError::AudioFXError(AudioFXError::InvalidOctave),
                            );
                        }
                        match f.set_octave(value as u32) {
                            Ok(()) => Ok(()),
                            Err(e) => {
                                proof {
                                    assert(false);
                                }
                                Err(AudioPropertyError::AudioFXError(e))
                            },
                        }
                    },
                    None => Err(AudioPropertyError::AudioFXError(AudioFXError::NotEnabled)),
                }
            },
            _ => Err(AudioPropertyError::UnsupportedAttribute("not a value attribute")),
        }
    }

    /// Reads a toggle: whether the stretch stage or the spatializer is
    /// installed.
    pub fn get_attribute_bool(&self, attribute: AudioAttributes) -> (r: Result<
        bool,
        AudioPropertyError,
    >)
        ensures
            attribute == AudioAttributes::AudioFX ==> r == Ok::<bool, AudioPropertyError>(
                self.fx is Some,
            ),
            attribute == AudioAttributes::AudioSpatialization ==> r == Ok::<
                bool,
                AudioPropertyError,
            >(self.spatializer is Some),
            !(attribute == AudioAttributes::AudioFX || attribute
                == AudioAttributes::AudioSpatialization) ==> (r matches Err(e) && e matches
                AudioPropertyError::UnsupportedAttribute(_)),
    {
        match attribute {
            AudioAttributes::AudioFX => Ok(self.fx.is_some()),
            AudioAttributes::AudioSpatialization => Ok(self.spatializer.is_some()),
            _ => Err(AudioPropertyError::UnsupportedAttribute("not a toggle attribute")),
        }
    }

    /// Writes a toggle.  Raising `AudioFX` installs the stretch stage (if
    /// absent) and re-seeks to the current position so the stage starts
    /// warm; lowering it drops the stage the same way.  The spatialization
    /// toggle installs or drops the source-side spatializer.
    pub fn set_attribute_bool(&mut self, attribute: AudioAttributes, value: bool) -> (r: Result<
        (),
        AudioPropertyError,
    >)
        requires
            old(self).wf(),
        ensures
            final(self).wf(),
            final(self).reader.data == old(self).reader.data,
            final(self).reader.sample_rate == old(self).reader.sample_rate,
            final(self).reader.channels == old(self).reader.channels,
            final(self).reader.pcm_length == old(self).reader.pcm_length,
            final(self).gainer == old(self).gainer,
            final(self).panner == old(self).panner,
            final(self).resampler == old(self).resampler,
            final(self).ref_id == old(self).ref_id,
            final(self).playing == old(self).playing,
            final(self).is_looping == old(self).is_looping,
            final(self).position == old(self).position,
            attribute == AudioAttributes::AudioFX ==> r is Ok && (final(self).fx is Some <==> value)
                && final(self).position == old(self).position && final(self).playing == old(self).playing && final(self).is_looping == old(self).is_looping,
            attribute == AudioAttributes::AudioSpatialization ==> r is Ok && (final(self).spatializer is Some <==> value) && final(self).position == old(self).position
                && final(self).reader == old(self).reader && final(self).fx == old(self).fx,
            !(attribute == AudioAttributes::AudioFX || attribute
                == AudioAttributes::AudioSpatialization) ==> (r matches Err(e) && e matches
                AudioPropertyError::UnsupportedAttribute(_)) && *final(self) == *old(self),
    {
        match attribute {
            AudioAttributes::AudioFX => {
                if value {
                    if self.fx.is_none() {
                        let fx = match AudioFX::new(self.reader.channels, self.reader.sample_rate) {
                            Ok(f) => f,
                            Err(e) => {
                                proof {
                                    assert(false);
                                }
                                return Err(AudioPropertyError::AudioFXError(e));
                            },
                        };
                        self.fx = Some(fx);
                    }
                } else {
                    self.fx = None;
                }
                let seek_pos = self.position;
                match self.seek_to(seek_pos) {
                    Ok(()) => (),
                    Err(_) => {
                        proof {
                            assert(false);
                        }
                    },
                }
                Ok(())
            },
            AudioAttributes::AudioSpatialization => {
                if value {
                    if self.spatializer.is_none() {
                        let s = match AudioSpatialization::new(
                            self.reader.channels,
                            self.reader.channels,
                        ) {
                            Ok(s) => s,
                            Err(e) => {
                                proof {
                                    assert(false);
                                }
                                return Err(AudioPropertyError::AudioSpatializationError(e));
                            },
                        };
                        self.spatializer = Some(s);
                    }
                } else {
                    self.spatializer = None;
                }
                Ok(())
            },
            _ => Err(AudioPropertyError::UnsupportedAttribute("not a toggle attribute")),
        }
    }
}

/// A well-formed channel's position never passes its stream's length.
pub proof fn lemma_channel_position_in_bounds(channel: &AudioChannel)
    requires
        channel.wf(),
    ensures
        0 <= channel.position <= channel.reader.pcm_length,
{
}

/// Stopping is idempotent: a second stop leaves the state the first one
/// made.
pub proof fn lemma_stop_idempotent(c: AudioChannel)
    ensures
        spec_stop(spec_stop(c)) == spec_stop(c),
{
}

/// Starting is idempotent: any state that one successful `play` can leave
/// behind, a second successful `play` leaves exactly as it found it,
/// except that the stretch stage's buffer is rebuilt with the same
/// content.
pub proof fn lemma_play_idempotent(c: AudioChannel, d: AudioChannel, e: AudioChannel)
    requires
        spec_play_post(c, d),
        spec_play_post(d, e),
    ensures
        e.position == d.position,
        e.playing == d.playing,
        e.reader.data == d.reader.data,
        e.reader.position == d.reader.position,
        e.gainer == d.gainer,
        e.panner == d.panner,
        e.resampler == d.resampler,
        e.spatializer == d.spatializer,
        e.is_looping == d.is_looping,
        e.ref_id == d.ref_id,
        e.fx is Some <==> d.fx is Some,
        e.fx matches Some(g) ==> (d.fx matches Some(f) && g.queue@ == f.queue@
            && g.frame_available == f.frame_available && g.tempo == f.tempo && g.octave
            == f.octave),
{
    if c.position == 0 {
        assert(d.position == 0);
        if c.fx is Some {
            assert(spec_prewarm_queue(d.reader, 0) =~= spec_prewarm_queue(c.reader, 0));
        }
    }
}

} // verus!
