//! A composite node: children mixed additively behind an effect chain.
//!
//! Each child — a channel or a nested mixer — carries an optional delay
//! and duration, in frames on the mixer's own timeline; a child sounds
//! exactly inside its `[delay, delay + duration)` window.  The mixer's
//! length is the furthest window end, and the mixer is infinite whenever
//! some descendant channel loops or some descendant mixer is itself
//! infinite.

use vstd::prelude::*;

use crate::attributes::AudioAttributes;
use crate::attributes::AudioPropertyError;
use crate::channel::AudioChannel;
use crate::channel::AudioChannelError;
use crate::channel::spec_seek_post;
use crate::fx::AudioFX;
use crate::fx::AudioFXError;
use crate::ids::RefIdSource;
use crate::panner::AudioPanner;
use crate::panner::AudioPannerError;
use crate::pcm::PCMIndex;
use crate::reader::AudioReaderError;
use crate::resampler::AudioResampler;
use crate::resampler::AudioResamplerError;
use crate::volume::AudioVolume;
use crate::volume::AudioVolumeError;

verus! {

broadcast use vstd::std_specs::vec::axiom_vec_index_decreases;

/// The frame capacity of each scratch buffer a mixer owns.
pub const MIXER_BUFFER_FRAMES: u64 = 4096;

#[derive(Debug, Clone)]
pub enum AudioMixerError {
    InvalidChannelCount,
    InvalidSampleRate,
    IndexOutOfBounds(usize),
    ChannelAlreadyExists(u64),
    MixerAlreadyExists(u64),
    AudioChannelError(AudioChannelError),
    AudioFXError(AudioFXError),
    AudioPannerError(AudioPannerError),
    AudioVolumeError(AudioVolumeError),
    AudioResamplerError(AudioResamplerError),
}

/// A channel child with its scheduling window.
pub struct ChannelEntry {
    pub channel: AudioChannel,
    pub delay: Option<u64>,
    pub duration: Option<u64>,
}

/// A nested-mixer child with its scheduling window.
pub struct MixerEntry {
    pub mixer: AudioMixer,
    pub delay: Option<u64>,
    pub duration: Option<u64>,
}

/// A composite pull-node.  `mixer_position` advances on the mixer's own
/// clock; `max_length` and `is_infinite` always agree with the children.
pub struct AudioMixer {
    pub ref_id: u64,
    pub marked_as_deleted: bool,
    pub channels: Vec<ChannelEntry>,
    pub mixers: Vec<MixerEntry>,
    pub is_playing: bool,
    pub max_length: u64,
    pub mixer_position: u64,
    pub is_infinite: bool,
    pub channel_count: u32,
    pub sample_rate: u32,
    pub resampler: AudioResampler,
    pub panner: AudioPanner,
    pub volume: AudioVolume,
    pub fx: Option<AudioFX>,
    pub buffer: Vec<i16>,
    pub acc: Vec<i32>,
    pub intermediate: Vec<i16>,
}

/// A sum saturating at the top of the 64-bit range.
pub open spec fn spec_sat_add_u64(a: int, b: int) -> int {
    if a + b > u64::MAX {
        u64::MAX as int
    } else {
        a + b
    }
}

/// Where a channel child's window ends on the parent's timeline.
pub open spec fn spec_channel_entry_end(e: ChannelEntry) -> int {
    let delay = match e.delay {
        Option::Some(d) => d as int,
        Option::None => 0,
    };
    let duration = match e.duration {
        Option::Some(d) => d as int,
        Option::None => e.channel.reader.pcm_length as int,
    };
    spec_sat_add_u64(delay, duration)
}

/// Where a nested mixer child's window ends on the parent's timeline.
pub open spec fn spec_mixer_entry_end(e: MixerEntry) -> int
    decreases e, 1int,
{
    let delay = match e.delay {
        Option::Some(d) => d as int,
        Option::None => 0,
    };
    let duration = match e.duration {
        Option::Some(d) => d as int,
        Option::None => spec_mixer_length(e.mixer),
    };
    spec_sat_add_u64(delay, duration)
}

/// The furthest window end among the first `n` channel children.
pub open spec fn spec_channels_max_end(v: Vec<ChannelEntry>, n: int) -> int
    decreases n,
{
    if n <= 0 {
        0
    } else {
        let e = spec_channel_entry_end(v[n - 1]);
        let rest = spec_channels_max_end(v, n - 1);
        if e >= rest {
            e
        } else {
            rest
        }
    }
}

/// The furthest window end among the first `n` nested-mixer children.
pub open spec fn spec_mixers_max_end(v: Vec<MixerEntry>, n: int) -> int
    decreases v, 2int, n,
{
    if n <= 0 || v.len() < n {
        0
    } else {
        let e = spec_mixer_entry_end(v[n - 1]);
        let rest = spec_mixers_max_end(v, n - 1);
        if e >= rest {
            e
        } else {
            rest
        }
    }
}

/// The mixer's natural length: the furthest window end of any child.
pub open spec fn spec_mixer_length(m: AudioMixer) -> int
    decreases m, 3int,
{
    let c = spec_channels_max_end(m.channels, m.channels.len() as int);
    let x = spec_mixers_max_end(m.mixers, m.mixers.len() as int);
    if c >= x {
        c
    } else {
        x
    }
}

/// Whether some of the first `n` nested mixers is infinite.
pub open spec fn spec_mixers_any_infinite(v: Vec<MixerEntry>, n: int) -> bool
    decreases v, 2int, n,
{
    if n <= 0 || v.len() < n {
        false
    } else {
        spec_mixers_any_infinite(v, n - 1) || spec_mixer_infinite(v[n - 1].mixer)
    }
}

/// A mixer is infinite exactly when some descendant channel loops or some
/// descendant mixer is itself infinite.
pub open spec fn spec_mixer_infinite(m: AudioMixer) -> bool
    decreases m, 3int,
{
    (exists|i: int|
        0 <= i < m.channels.len() && #[trigger] m.channels[i].channel.is_looping)
        || spec_mixers_any_infinite(m.mixers, m.mixers.len() as int)
}

/// Well-formedness of the first `n` nested-mixer children.
pub open spec fn spec_mixers_wf(v: Vec<MixerEntry>, n: int, channel_count: int) -> bool
    decreases v, 2int, n,
{
    if n <= 0 || v.len() < n {
        true
    } else {
        spec_mixers_wf(v, n - 1, channel_count) && spec_mixer_wf(v[n - 1].mixer) && v[n
            - 1].mixer.channel_count == channel_count
    }
}

/// Well-formedness of a whole mixer: a sound effect chain, sound children
/// with matching channel counts, correctly sized scratch, and length and
/// infinity marks that agree with the children.
pub open spec fn spec_mixer_wf(m: AudioMixer) -> bool
    decreases m, 4int,
{
    &&& 1 <= m.channel_count <= 8
    &&& 8000 <= m.sample_rate <= 192000
    &&& m.resampler.wf()
    &&& m.resampler.channels == m.channel_count
    &&& m.resampler.sample_rate == m.sample_rate
    &&& m.panner.wf()
    &&& m.panner.channels == m.channel_count
    &&& m.volume.wf()
    &&& m.volume.channels == m.channel_count
    &&& (m.fx matches Some(f) ==> f.wf() && f.channels == m.channel_count)
    &&& m.buffer.len() == MIXER_BUFFER_FRAMES * m.channel_count
    &&& m.acc.len() == MIXER_BUFFER_FRAMES * m.channel_count
    &&& m.intermediate.len() == MIXER_BUFFER_FRAMES * m.channel_count
    &&& (forall|i: int|
        0 <= i < m.channels.len() ==> (#[trigger] m.channels[i].channel).wf()
            && m.channels[i].channel.reader.channels == m.channel_count)
    &&& spec_mixers_wf(m.mixers, m.mixers.len() as int, m.channel_count as int)
    &&& m.max_length == spec_mixer_length(m)
    &&& m.is_infinite == spec_mixer_infinite(m)
}

impl AudioMixer {
    pub open spec fn wf(&self) -> bool {
        spec_mixer_wf(*self)
    }

    /// The source frames one pull of `frame_count` output frames asks of
    /// the resampler, with an unrepresentable requirement degraded to
    /// zero.
    pub open spec fn spec_required_frames(&self, frame_count: int) -> int {
        if self.resampler.sample_rate == self.resampler.target_sample_rate {
            frame_count
        } else {
            let need = crate::resampler::spec_required_input(
                frame_count,
                self.resampler.sample_rate as int,
                self.resampler.target_sample_rate as int,
            );
            if need <= u64::MAX {
                need
            } else {
                0
            }
        }
    }

    /// The frames the same pull mixes from the children once the stretch
    /// stage's tempo factor is applied.
    pub open spec fn spec_target_frames(&self, frame_count: int) -> int {
        let req = self.spec_required_frames(frame_count);
        match self.fx {
            Option::None => req,
            Option::Some(f) => {
                if req == 0 {
                    0
                } else if f.tempo == crate::fixed::MILLI_ONE {
                    req
                } else {
                    let t = req * f.tempo / 1000;
                    if t <= u64::MAX {
                        t
                    } else {
                        0
                    }
                }
            },
        }
    }

    /// The frame capacity one pull needs of the mixer's scratch.
    pub open spec fn spec_needed_frames(&self, frame_count: int) -> int {
        let req = self.spec_required_frames(frame_count);
        let tgt = self.spec_target_frames(frame_count);
        let m = if req >= tgt {
            req
        } else {
            tgt
        };
        if frame_count >= m {
            frame_count
        } else {
            m
        }
    }

    /// A mixer over `channels`-channel frames at `sample_rate`, empty,
    /// stopped, at unity effects.  Channel counts outside `[1, 8]` and
    /// sample rates outside `[8000, 192000]` are rejected.
    pub fn new(ids: &mut RefIdSource, channels: u32, sample_rate: u32) -> (r: Result<
        AudioMixer,
        AudioMixerError,
    >)
        ensures
            final(ids).next_channel_id == old(ids).next_channel_id,
            !(1 <= channels <= 8) ==> r == Err::<AudioMixer, AudioMixerError>(
                AudioMixerError::InvalidChannelCount,
            ) && *final(ids) == *old(ids),
            1 <= channels <= 8 && !(8000 <= sample_rate <= 192000) ==> r == Err::<
                AudioMixer,
                AudioMixerError,
            >(AudioMixerError::InvalidSampleRate) && *final(ids) == *old(ids),
            1 <= channels <= 8 && 8000 <= sample_rate <= 192000 ==> (r matches Ok(m) && m.wf()
                && m.ref_id == old(ids).next_mixer_id && m.channel_count == channels
                && m.sample_rate == sample_rate && !m.is_playing && m.mixer_position == 0
                && m.max_length == 0 && !m.is_infinite && m.channels.len() == 0 && m.mixers.len()
                == 0 && m.fx is None && !m.marked_as_deleted),
    {
        if channels < 1 || channels > 8 {
            return Err(AudioMixerError::InvalidChannelCount);
        }
        if sample_rate < 8000 || sample_rate > 192000 {
            return Err(AudioMixerError::InvalidSampleRate);
        }
        let resampler = match AudioResampler::new(channels, sample_rate) {
            Ok(rs) => rs,
            Err(e) => {
                proof {
                    assert(false);
                }
                return Err(AudioMixerError::AudioResamplerError(e));
            },
        };
        let panner = match AudioPanner::new(channels) {
            Ok(p) => p,
            Err(e) => {
                proof {
                    assert(false);
                }
                return Err(AudioMixerError::AudioPannerError(e));
            },
        };
        let volume = match AudioVolume::new(channels) {
            Ok(v) => v,
            Err(e) => {
                proof {
                    assert(false);
                }
                return Err(AudioMixerError::AudioVolumeError(e));
            },
        };
        proof {
            assert(MIXER_BUFFER_FRAMES * channels <= 32768) by (nonlinear_arith)
                requires
                    channels <= 8,
                    MIXER_BUFFER_FRAMES == 4096,
            ;
        }
        let samples: usize = (MIXER_BUFFER_FRAMES as usize) * (channels as usize);
        let buffer = crate::fixed::zero_buffer(samples);
        let intermediate = crate::fixed::zero_buffer(samples);
        let mut acc: Vec<i32> = Vec::new();
        let mut i: usize = 0;
        while i < samples
            invariant
                acc.len() == i,
                i <= samples,
            decreases samples - i,
        {
            acc.push(0i32);
            i = i + 1;
        }
        let ref_id = ids.fresh_mixer_id();
        Ok(
            AudioMixer {
                ref_id,
                marked_as_deleted: false,
                channels: Vec::new(),
                mixers: Vec::new(),
                is_playing: false,
                max_length: 0,
                mixer_position: 0,
                is_infinite: false,
                channel_count: channels,
                sample_rate,
                resampler,
                panner,
                volume,
                fx: None,
                buffer,
                acc,
                intermediate,
            },
        )
    }

    pub fn is_playing(&self) -> (r: bool)
        ensures
            r == self.is_playing,
    {
        self.is_playing
    }

    pub fn ref_id(&self) -> (r: u64)
        ensures
            r == self.ref_id,
    {
        self.ref_id
    }

    /// The mixer's length in frames: unbounded when some descendant loops,
    /// otherwise the furthest child window end.
    pub fn get_length(&self) -> (r: Result<u64, AudioMixerError>)
        requires
            self.wf(),
        ensures
            self.is_infinite ==> r == Ok::<u64, AudioMixerError>(u64::MAX),
            !self.is_infinite ==> r == Ok::<u64, AudioMixerError>(self.max_length),
    {
        if self.is_infinite {
            return Ok(u64::MAX);
        }
        Ok(self.max_length)
    }

    /// Marks the mixer for removal at the next device period; the mark is
    /// never taken back.
    pub fn mark_deleted(&mut self)
        ensures
            *final(self) == (AudioMixer {
                marked_as_deleted: true,
                is_playing: false,
                ..*old(self)
            }),
    {
        self.marked_as_deleted = true;
        self.is_playing = false;
    }

    /// Recomputes the length and the infinity mark from the children.  The
    /// nested mixers' own marks are sound by well-formedness, so one pass
    /// over the direct children suffices.
    #[verifier::loop_isolation(false)]
    fn recompute_length(&mut self)
        requires
            1 <= old(self).channel_count <= 8,
            forall|i: int|
                0 <= i < old(self).channels.len() ==> (#[trigger] old(self).channels[i].channel).wf(),
            spec_mixers_wf(
                old(self).mixers,
                old(self).mixers.len() as int,
                old(self).channel_count as int,
            ),
        ensures
            *final(self) == (AudioMixer {
                max_length: final(self).max_length,
                is_infinite: final(self).is_infinite,
                ..*old(self)
            }),
            final(self).max_length == spec_mixer_length(*final(self)),
            final(self).is_infinite == spec_mixer_infinite(*final(self)),
    {
        let mut max_len: u64 = 0;
        let mut infinite: bool = false;
        let cn = self.channels.len();
        let mut i: usize = 0;
        while i < cn
            invariant
                i <= cn,
                max_len == spec_channels_max_end(self.channels, i as int),
                infinite == (exists|j: int|
                    0 <= j < i && #[trigger] self.channels[j].channel.is_looping),
            decreases cn - i,
        {
            let e = &self.channels[i];
            let delay: u64 = match e.delay {
                Some(d) => d,
                None => 0,
            };
            let duration: u64 = match e.duration {
                Some(d) => d,
                None => e.channel.reader.pcm_length,
            };
            let end: u64 = if delay > u64::MAX - duration {
                u64::MAX
            } else {
                delay + duration
            };
            if end > max_len {
                max_len = end;
            }
            if e.channel.is_looping {
                infinite = true;
            }
            i = i + 1;
        }
        let mn = self.mixers.len();
        let mut k: usize = 0;
        while k < mn
            invariant
                k <= mn,
                max_len == if spec_channels_max_end(self.channels, cn as int) >= spec_mixers_max_end(
                    self.mixers,
                    k as int,
                ) {
                    spec_channels_max_end(self.channels, cn as int)
                } else {
                    spec_mixers_max_end(self.mixers, k as int)
                },
                infinite == ((exists|j: int|
                    0 <= j < cn && #[trigger] self.channels[j].channel.is_looping)
                    || spec_mixers_any_infinite(self.mixers, k as int)),
            decreases mn - k,
        {
            let e = &self.mixers[k];
            let delay: u64 = match e.delay {
                Some(d) => d,
                None => 0,
            };
            let duration: u64 = match e.duration {
                Some(d) => d,
                None => e.mixer.max_length,
            };
            proof {
                lemma_mixers_wf_element(self.mixers, mn as int, self.channel_count as int, k as int);
                lemma_mixers_max_end_nonneg(self.mixers, k as int);
                lemma_channels_max_end_nonneg(self.channels, cn as int);
                assert(spec_mixers_max_end(self.mixers, k + 1) == ({
                    let e2 = spec_mixer_entry_end(self.mixers[k as int]);
                    let rest = spec_mixers_max_end(self.mixers, k as int);
                    if e2 >= rest {
                        e2
                    } else {
                        rest
                    }
                }));
            }
            let end: u64 = if delay > u64::MAX - duration {
                u64::MAX
            } else {
                delay + duration
            };
            if end > max_len {
                max_len = end;
            }
            if e.mixer.is_infinite {
                infinite = true;
            }
            k = k + 1;
        }
        self.max_length = max_len;
        self.is_infinite = infinite;
        proof {
            lemma_children_specs_ignore_marks(*old(self), *self);
        }
    }

    /// Appends a channel child playing from the start of the mixer's
    /// timeline for its natural length.
    pub fn add_channel(&mut self, channel: AudioChannel) -> (r: Result<(), AudioMixerError>)
        requires
            old(self).wf(),
            channel.wf(),
        ensures
            channel.reader.channels != old(self).channel_count ==> r == Err::<
                (),
                AudioMixerError,
            >(AudioMixerError::InvalidChannelCount) && *final(self) == *old(self),
            channel.reader.channels == old(self).channel_count && (exists|i: int|
                0 <= i < old(self).channels.len() && (#[trigger] old(self).channels[i]).channel.ref_id
                    == channel.ref_id) ==> r == Err::<(), AudioMixerError>(
                AudioMixerError::ChannelAlreadyExists(channel.ref_id),
            ) && *final(self) == *old(self),
            channel.reader.channels == old(self).channel_count && !(exists|i: int|
                0 <= i < old(self).channels.len() && (#[trigger] old(self).channels[i]).channel.ref_id
                    == channel.ref_id) ==> r is Ok && final(self).wf() && final(self).channels@
                == old(self).channels@.push(
                ChannelEntry { channel, delay: Option::None, duration: Option::None },
            ) && final(self).mixers == old(self).mixers && final(self).is_playing == old(self).is_playing
                && final(self).mixer_position == old(self).mixer_position,
    {
        self.add_channel_ex(channel, None, None)
    }

    /// Appends a channel child with an explicit window: it starts at
    /// `delay` frames on the mixer's timeline and sounds for `duration`
    /// frames (its natural length when absent).  A child whose channel
    /// count differs from the mixer's is rejected.
    #[verifier::loop_isolation(false)]
    pub fn add_channel_ex(
        &mut self,
        channel: AudioChannel,
        delay: Option<PCMIndex>,
        duration: Option<PCMIndex>,
    ) -> (r: Result<(), AudioMixerError>)
        requires
            old(self).wf(),
            channel.wf(),
        ensures
            channel.reader.channels != old(self).channel_count ==> r == Err::<
                (),
                AudioMixerError,
            >(AudioMixerError::InvalidChannelCount) && *final(self) == *old(self),
            channel.reader.channels == old(self).channel_count && (exists|i: int|
                0 <= i < old(self).channels.len() && (#[trigger] old(self).channels[i]).channel.ref_id == channel.ref_id) ==> r == Err::<
                (),
                AudioMixerError,
            >(AudioMixerError::ChannelAlreadyExists(channel.ref_id)) && *final(self) == *old(self),
            channel.reader.channels == old(self).channel_count && !(exists|i: int|
                0 <= i < old(self).channels.len() && (#[trigger] old(self).channels[i]).channel.ref_id == channel.ref_id) ==> r is Ok && final(self).wf()
                && final(self).channels@ == old(self).channels@.push(
                ChannelEntry {
                    channel,
                    delay: match delay {
                        Option::Some(i) => Option::Some(i.index),
                        Option::None => Option::None,
                    },
                    duration: match duration {
                        Option::Some(i) => Option::Some(i.index),
                        Option::None => Option::None,
                    },
                },
            ) && final(self).mixers == old(self).mixers && final(self).is_playing == old(self).is_playing && final(self).mixer_position == old(self).mixer_position
                && final(self).max_length == spec_mixer_length(*final(self)) && final(self).is_infinite == spec_mixer_infinite(*final(self)),
    {
        if channel.reader.channels != self.channel_count {
            return Err(AudioMixerError::InvalidChannelCount);
        }
        let cn = self.channels.len();
        let mut di: usize = 0;
        while di < cn
            invariant
                di <= cn,
                *self == *old(self),
                forall|j: int|
                    0 <= j < di ==> (#[trigger] self.channels[j]).channel.ref_id != channel.ref_id,
            decreases cn - di,
        {
            if self.channels[di].channel.ref_id() == channel.ref_id {
                return Err(AudioMixerError::ChannelAlreadyExists(channel.ref_id));
            }
            di = di + 1;
        }
        let entry = ChannelEntry {
            channel,
            delay: match delay {
                Some(i) => Some(i.index),
                None => None,
            },
            duration: match duration {
                Some(i) => Some(i.index),
                None => None,
            },
        };
        self.channels.push(entry);
        self.recompute_length();
        Ok(())
    }

    /// Appends a nested mixer playing from the start of the timeline for
    /// its natural length.
    pub fn add_mixer(&mut self, mixer: AudioMixer) -> (r: Result<(), AudioMixerError>)
        requires
            old(self).wf(),
            mixer.wf(),
        ensures
            mixer.channel_count != old(self).channel_count ==> r == Err::<(), AudioMixerError>(
                AudioMixerError::InvalidChannelCount,
            ) && *final(self) == *old(self),
            mixer.channel_count == old(self).channel_count && (exists|i: int|
                0 <= i < old(self).mixers.len() && (#[trigger] old(self).mixers[i]).mixer.ref_id
                    == mixer.ref_id) ==> r == Err::<(), AudioMixerError>(
                AudioMixerError::MixerAlreadyExists(mixer.ref_id),
            ) && *final(self) == *old(self),
            mixer.channel_count == old(self).channel_count && !(exists|i: int|
                0 <= i < old(self).mixers.len() && (#[trigger] old(self).mixers[i]).mixer.ref_id
                    == mixer.ref_id) ==> r is Ok && final(self).wf() && final(self).mixers@ == old(self).mixers@.push(MixerEntry { mixer, delay: Option::None, duration: Option::None })
                && final(self).channels == old(self).channels && final(self).is_playing == old(self).is_playing && final(self).mixer_position == old(self).mixer_position,
    {
        self.add_mixer_ex(mixer, None, None)
    }

    /// Appends a nested mixer with an explicit window, as
    /// [`AudioMixer::add_channel_ex`] does for channels.
    #[verifier::loop_isolation(false)]
    pub fn add_mixer_ex(
        &mut self,
        mixer: AudioMixer,
        delay: Option<PCMIndex>,
        duration: Option<PCMIndex>,
    ) -> (r: Result<(), AudioMixerError>)
        requires
            old(self).wf(),
            mixer.wf(),
        ensures
            mixer.channel_count != old(self).channel_count ==> r == Err::<(), AudioMixerError>(
                AudioMixerError::InvalidChannelCount,
            ) && *final(self) == *old(self),
            mixer.channel_count == old(self).channel_count && (exists|i: int|
                0 <= i < old(self).mixers.len() && (#[trigger] old(self).mixers[i]).mixer.ref_id
                    == mixer.ref_id) ==> r == Err::<(), AudioMixerError>(
                AudioMixerError::MixerAlreadyExists(mixer.ref_id),
            ) && *final(self) == *old(self),
            mixer.channel_count == old(self).channel_count && !(exists|i: int|
                0 <= i < old(self).mixers.len() && (#[trigger] old(self).mixers[i]).mixer.ref_id
                    == mixer.ref_id) ==> r is Ok && final(self).wf() && final(self).mixers@ == old(self).mixers@.push(
                MixerEntry {
                    mixer,
                    delay: match delay {
                        Option::Some(i) => Option::Some(i.index),
                        Option::None => Option::None,
                    },
                    duration: match duration {
                        Option::Some(i) => Option::Some(i.index),
                        Option::None => Option::None,
                    },
                },
            ) && final(self).channels == old(self).channels && final(self).is_playing == old(self).is_playing && final(self).mixer_position == old(self).mixer_position
                && final(self).max_length == spec_mixer_length(*final(self)) && final(self).is_infinite == spec_mixer_infinite(*final(self)),
    {
        if mixer.channel_count != self.channel_count {
            return Err(AudioMixerError::InvalidChannelCount);
        }
        let mn0 = self.mixers.len();
        let mut di: usize = 0;
        while di < mn0
            invariant
                di <= mn0,
                *self == *old(self),
                forall|j: int|
                    0 <= j < di ==> (#[trigger] self.mixers[j]).mixer.ref_id != mixer.ref_id,
            decreases mn0 - di,
        {
            if self.mixers[di].mixer.ref_id() == mixer.ref_id {
                return Err(AudioMixerError::MixerAlreadyExists(mixer.ref_id));
            }
            di = di + 1;
        }
        let entry = MixerEntry {
            mixer,
            delay: match delay {
                Some(i) => Some(i.index),
                None => None,
            },
            duration: match duration {
                Some(i) => Some(i.index),
                None => None,
            },
        };
        let ghost oldmixers = self.mixers;
        let ghost gentry = entry;
        self.mixers.push(entry);
        proof {
            let cc = self.channel_count as int;
            let v2 = self.mixers;
            assert forall|i: int|
                0 <= i < v2.len() implies spec_mixer_wf(#[trigger] v2[i].mixer)
                && v2[i].mixer.channel_count == cc by {
                if i < oldmixers.len() {
                    lemma_mixers_wf_element(oldmixers, oldmixers.len() as int, cc, i);
                    assert(v2[i] == oldmixers[i]);
                } else {
                    assert(v2[i] == gentry);
                }
            }
            lemma_mixers_wf_all_from_elements(v2, v2.len() as int, cc);
        }
        self.recompute_length();
        Ok(())
    }

    /// Removes the channel child at `index`; an index past the end is out
    /// of bounds.
    pub fn remove_channel(&mut self, index: usize) -> (r: Result<(), AudioMixerError>)
        requires
            old(self).wf(),
        ensures
            index < old(self).channels.len() ==> r is Ok && final(self).wf()
                && final(self).channels@ == old(self).channels@.remove(index as int)
                && final(self).mixers == old(self).mixers,
            index >= old(self).channels.len() ==> r == Err::<(), AudioMixerError>(
                AudioMixerError::IndexOutOfBounds(index),
            ) && *final(self) == *old(self),
    {
        if index >= self.channels.len() {
            return Err(AudioMixerError::IndexOutOfBounds(index));
        }
        let _ = self.channels.remove(index);
        self.recompute_length();
        Ok(())
    }

    /// Removes the nested mixer at `index`; an index past the end is out
    /// of bounds.
    pub fn remove_mixer(&mut self, index: usize) -> (r: Result<(), AudioMixerError>)
        requires
            old(self).wf(),
        ensures
            index < old(self).mixers.len() ==> r is Ok && final(self).wf() && final(self).mixers.len() == old(self).mixers.len() - 1,
            index >= old(self).mixers.len() ==> r == Err::<(), AudioMixerError>(
                AudioMixerError::IndexOutOfBounds(index),
            ) && *final(self) == *old(self),
    {
        if index >= self.mixers.len() {
            return Err(AudioMixerError::IndexOutOfBounds(index));
        }
        let ghost oldmixers = self.mixers;
        let _ = self.mixers.remove(index);
        proof {
            let cc = self.channel_count as int;
            let v2 = self.mixers;
            assert forall|i: int|
                0 <= i < v2.len() implies spec_mixer_wf(#[trigger] v2[i].mixer)
                && v2[i].mixer.channel_count == cc by {
                if i < index {
                    lemma_mixers_wf_element(oldmixers, oldmixers.len() as int, cc, i);
                    assert(v2[i] == oldmixers[i]);
                } else {
                    lemma_mixers_wf_element(oldmixers, oldmixers.len() as int, cc, i + 1);
                    assert(v2[i] == oldmixers[i + 1]);
                }
            }
            lemma_mixers_wf_all_from_elements(v2, v2.len() as int, cc);
        }
        self.recompute_length();
        Ok(())
    }
}

impl AudioMixer {
    /// Sets the playing flag on this mixer and every descendant: channel
    /// children get their flag written directly — no pre-warm — and
    /// nested mixers recurse.
    #[verifier::loop_isolation(false)]
    fn set_playing_recursive(&mut self, value: bool)
        requires
            old(self).wf(),
        ensures
            final(self).wf(),
            spec_same_schedule(*old(self), *final(self)),
            final(self).is_playing == value,
            final(self).mixer_position == old(self).mixer_position,
            final(self).max_length == old(self).max_length,
            final(self).is_infinite == old(self).is_infinite,
            final(self).ref_id == old(self).ref_id,
            final(self).marked_as_deleted == old(self).marked_as_deleted,
            final(self).channel_count == old(self).channel_count,
            final(self).sample_rate == old(self).sample_rate,
            final(self).resampler == old(self).resampler,
            final(self).panner == old(self).panner,
            final(self).volume == old(self).volume,
            final(self).fx == old(self).fx,
            final(self).buffer == old(self).buffer,
            final(self).acc == old(self).acc,
            final(self).intermediate == old(self).intermediate,
            final(self).channels.len() == old(self).channels.len(),
            final(self).mixers.len() == old(self).mixers.len(),
            forall|i: int|
                0 <= i < old(self).channels.len() ==> #[trigger] final(self).channels[i]
                    == (ChannelEntry {
                    channel: AudioChannel {
                        playing: value,
                        ..old(self).channels[i].channel
                    },
                    ..old(self).channels[i]
                }),
            spec_all_playing(*final(self), value),
            spec_no_fx(*old(self)) ==> spec_no_fx(*final(self)),
        decreases *old(self), 1int,
    {
        self.is_playing = value;
        let ghost cc = self.channel_count as int;
        let cn = self.channels.len();
        let mut i: usize = 0;
        while i < cn
            invariant
                i <= cn,
                self.channels.len() == cn,
                forall|j: int|
                    0 <= j < i ==> #[trigger] self.channels[j] == (ChannelEntry {
                        channel: AudioChannel {
                            playing: value,
                            ..old(self).channels[j].channel
                        },
                        ..old(self).channels[j]
                    }),
                forall|j: int|
                    i <= j < cn ==> #[trigger] self.channels[j] == old(self).channels[j],
                *self == (AudioMixer { is_playing: value, channels: self.channels, ..*old(self) }),
            decreases cn - i,
        {
            self.channels[i].channel.playing = value;
            i = i + 1;
        }
        let mut kids: Vec<MixerEntry> = Vec::new();
        core::mem::swap(&mut kids, &mut self.mixers);
        let mn = kids.len();
        let mut k: usize = 0;
        while k < mn
            invariant
                k <= mn,
                kids.len() == mn,
                mn == old(self).mixers.len(),
                forall|j: int| k <= j < mn ==> #[trigger] kids[j] == old(self).mixers[j],
                forall|j: int|
                    0 <= j < k ==> (#[trigger] kids[j]).delay == old(self).mixers[j].delay
                        && kids[j].duration == old(self).mixers[j].duration && spec_mixer_wf(
                        kids[j].mixer,
                    ) && kids[j].mixer.channel_count == cc && spec_same_schedule(
                        old(self).mixers[j].mixer,
                        kids[j].mixer,
                    ) && kids[j].mixer.is_playing == value && spec_all_playing(
                        kids[j].mixer,
                        value,
                    ) && (spec_no_fx(old(self).mixers[j].mixer) ==> spec_no_fx(kids[j].mixer)),
            decreases mn - k,
        {
            proof {
                lemma_mixers_wf_element(
                    old(self).mixers,
                    old(self).mixers.len() as int,
                    cc,
                    k as int,
                );
            }
            kids[k].mixer.set_playing_recursive(value);
            k = k + 1;
        }
        core::mem::swap(&mut kids, &mut self.mixers);
        proof {
            let m = *self;
            assert forall|j: int|
                0 <= j < m.mixers.len() implies spec_mixer_wf(#[trigger] m.mixers[j].mixer)
                && m.mixers[j].mixer.channel_count == cc by {}
            lemma_mixers_wf_all_from_elements(m.mixers, m.mixers.len() as int, cc);
            assert forall|j: int|
                0 <= j < m.mixers.len() implies (#[trigger] old(self).mixers[j]).delay
                == m.mixers[j].delay && old(self).mixers[j].duration == m.mixers[j].duration
                && spec_same_schedule(old(self).mixers[j].mixer, m.mixers[j].mixer) by {}
            lemma_mixers_same_schedule_from_elements(
                old(self).mixers,
                m.mixers,
                m.mixers.len() as int,
            );
            assert(spec_same_schedule(*old(self), m));
            lemma_same_schedule_length(*old(self), m);
            assert forall|j: int|
                0 <= j < m.mixers.len() implies spec_all_playing(
                (#[trigger] m.mixers[j]).mixer,
                value,
            ) by {}
            lemma_mixers_all_playing_from_elements(m.mixers, m.mixers.len() as int, value);
            assert(spec_all_playing(m, value));
            if spec_no_fx(*old(self)) {
                assert forall|j: int|
                    0 <= j < m.mixers.len() implies spec_no_fx((#[trigger] m.mixers[j]).mixer) by {
                    lemma_mixers_no_fx_element(
                        old(self).mixers,
                        old(self).mixers.len() as int,
                        j,
                    );
                }
                lemma_mixers_no_fx_from_elements(m.mixers, m.mixers.len() as int);
            }
        }
    }

    /// Stops this mixer and all its descendants; positions are retained.
    pub fn stop(&mut self) -> (r: Result<(), AudioMixerError>)
        requires
            old(self).wf(),
        ensures
            r is Ok,
            final(self).wf(),
            spec_same_schedule(*old(self), *final(self)),
            !final(self).is_playing,
            spec_all_playing(*final(self), false),
            final(self).mixer_position == old(self).mixer_position,
            final(self).max_length == old(self).max_length,
            final(self).is_infinite == old(self).is_infinite,
    {
        self.set_playing_recursive(false);
        Ok(())
    }

    /// Starts this mixer and all its descendants.  A mixer standing at
    /// the start of its timeline is first sought to frame zero, which
    /// pre-warms the stretch stage.
    pub fn play(&mut self) -> (r: Result<(), AudioMixerError>)
        requires
            old(self).wf(),
        ensures
            r is Ok,
            final(self).wf(),
            spec_same_schedule(*old(self), *final(self)),
            final(self).is_playing,
            final(self).max_length == old(self).max_length,
            final(self).is_infinite == old(self).is_infinite,
            old(self).mixer_position == 0 ==> final(self).mixer_position == 0,
            old(self).mixer_position != 0 ==> final(self).mixer_position == old(self).mixer_position,
            old(self).mixer_position != 0 ==> spec_all_playing(*final(self), true),
            spec_no_fx(*old(self)) ==> spec_all_playing(*final(self), true),
        decreases *old(self), 3int,
    {
        self.set_playing_recursive(true);
        let ghost started = *self;
        if self.mixer_position == 0 {
            let _ = self.seek_frames(0);
            proof {
                lemma_same_schedule_trans(*old(self), started, *self);
                if spec_no_fx(*old(self)) {
                    assert(spec_no_fx(started));
                    assert(spec_all_playing(started, true));
                    assert(spec_all_playing(*self, true));
                }
            }
        }
        Ok(())
    }

    /// Moves the mixer's timeline.  The mixer's own clock restarts at
    /// zero, and every child is sought: one whose window has begun by
    /// `position` lands at its spot inside the window — clamped to the
    /// window's duration and the child's length — and one whose window has
    /// not begun yet lands at its start.  When the stretch stage is
    /// present it is then pre-warmed by mixing one latency's worth of
    /// frames.  Returns the furthest `delay + sought` spot over the
    /// children.
    #[verifier::loop_isolation(false)]
    pub fn seek_frames(&mut self, position: u64) -> (r: Result<u64, AudioMixerError>)
        requires
            old(self).wf(),
        ensures
            r is Ok,
            final(self).wf(),
            spec_same_schedule(*old(self), *final(self)),
            final(self).mixer_position == 0,
            final(self).is_playing == old(self).is_playing,
            final(self).max_length == old(self).max_length,
            final(self).is_infinite == old(self).is_infinite,
            final(self).ref_id == old(self).ref_id,
            final(self).channel_count == old(self).channel_count,
            final(self).sample_rate == old(self).sample_rate,
            final(self).fx is Some <==> old(self).fx is Some,
            r == Ok::<u64, AudioMixerError>(
                spec_mixer_seek_result(*old(self), position as int) as u64,
            ),
            old(self).fx is None ==> final(self).channels.len() == old(self).channels.len()
                && (forall|j: int|
                0 <= j < old(self).channels.len() ==> spec_seek_post(
                    (#[trigger] old(self).channels[j]).channel,
                    spec_channel_seek_target(old(self).channels[j], position as int),
                    final(self).channels[j].channel,
                )),
            spec_no_fx(*old(self)) ==> spec_no_fx(*final(self)) && spec_playing_preserved(
                *old(self),
                *final(self),
            ),
        decreases *old(self), 2int,
    {
        self.mixer_position = 0;
        let ghost cc = self.channel_count as int;
        let ghost gpos = position as int;
        let mut max_seeked: u64 = 0;
        let cn = self.channels.len();
        let mut i: usize = 0;
        while i < cn
            invariant
                i <= cn,
                self.channels.len() == cn,
                forall|j: int|
                    i <= j < cn ==> #[trigger] self.channels[j] == old(self).channels[j],
                forall|j: int|
                    0 <= j < i ==> (#[trigger] self.channels[j]).delay == old(self).channels[j].delay && self.channels[j].duration == old(self).channels[j].duration && self.channels[j].channel.wf()
                        && self.channels[j].channel.reader.channels == cc
                        && self.channels[j].channel.reader.pcm_length == old(self).channels[j].channel.reader.pcm_length
                        && self.channels[j].channel.is_looping == old(self).channels[j].channel.is_looping,
                forall|j: int|
                    0 <= j < i ==> spec_seek_post(
                        (#[trigger] old(self).channels[j]).channel,
                        spec_channel_seek_target(old(self).channels[j], gpos),
                        self.channels[j].channel,
                    ),
                max_seeked == spec_channels_max_spot(old(self).channels, i as int, gpos),
                *self == (AudioMixer {
                    mixer_position: 0,
                    channels: self.channels,
                    ..*old(self)
                }),
            decreases cn - i,
        {
            let delay: u64 = match self.channels[i].delay {
                Some(d) => d,
                None => 0,
            };
            let target: u64;
            if position >= delay {
                let duration: u64 = match self.channels[i].duration {
                    Some(d) => d,
                    None => self.channels[i].channel.reader.pcm_length,
                };
                let relative: u64 = position - delay;
                let limited: u64 = if relative <= duration {
                    relative
                } else {
                    duration
                };
                let pcm = self.channels[i].channel.reader.pcm_length;
                target = if limited <= pcm {
                    limited
                } else {
                    pcm
                };
            } else {
                target = 0;
            }
            proof {
                assert(target == spec_channel_seek_target(old(self).channels[i as int], gpos));
            }
            match self.channels[i].channel.seek_to(target) {
                Ok(()) => (),
                Err(_) => {
                    proof {
                        assert(false);
                    }
                },
            }
            let spot = crate::fixed::sat_add_u64(delay, target);
            if spot > max_seeked {
                max_seeked = spot;
            }
            i = i + 1;
        }
        let mut kids: Vec<MixerEntry> = Vec::new();
        core::mem::swap(&mut kids, &mut self.mixers);
        let mn = kids.len();
        let mut k: usize = 0;
        while k < mn
            invariant
                k <= mn,
                kids.len() == mn,
                mn == old(self).mixers.len(),
                forall|j: int| k <= j < mn ==> #[trigger] kids[j] == old(self).mixers[j],
                forall|j: int|
                    0 <= j < k ==> (#[trigger] kids[j]).delay == old(self).mixers[j].delay
                        && kids[j].duration == old(self).mixers[j].duration && spec_mixer_wf(
                        kids[j].mixer,
                    ) && kids[j].mixer.channel_count == cc && spec_same_schedule(
                        old(self).mixers[j].mixer,
                        kids[j].mixer,
                    ) && (spec_no_fx(old(self).mixers[j].mixer) ==> spec_no_fx(kids[j].mixer)
                        && spec_playing_preserved(old(self).mixers[j].mixer, kids[j].mixer)),
                max_seeked == ({
                    let c = spec_channels_max_spot(old(self).channels, cn as int, gpos);
                    let x = spec_mixers_max_spot(old(self).mixers, k as int, gpos);
                    if c >= x {
                        c
                    } else {
                        x
                    }
                }),
            decreases mn - k,
        {
            proof {
                lemma_mixers_wf_element(
                    old(self).mixers,
                    old(self).mixers.len() as int,
                    cc,
                    k as int,
                );
            }
            let delay: u64 = match kids[k].delay {
                Some(d) => d,
                None => 0,
            };
            let limited: u64;
            if position >= delay {
                let duration: u64 = match kids[k].duration {
                    Some(d) => d,
                    None => kids[k].mixer.max_length,
                };
                let relative: u64 = position - delay;
                limited = if relative <= duration {
                    relative
                } else {
                    duration
                };
            } else {
                limited = 0;
            }
            proof {
                assert(limited == spec_mixer_seek_limited(old(self).mixers[k as int], gpos));
            }
            proof {
                lemma_seek_result_bounds(
                    old(self).mixers[k as int].mixer,
                    spec_mixer_seek_limited(old(self).mixers[k as int], gpos),
                );
            }
            let sub_seeked: u64 = match kids[k].mixer.seek_frames(limited) {
                Ok(s) => s,
                Err(_) => {
                    proof {
                        assert(false);
                    }
                    0
                },
            };
            let spot = crate::fixed::sat_add_u64(delay, sub_seeked);
            if spot > max_seeked {
                max_seeked = spot;
            }
            proof {
                let spot_spec = spec_sat_add_u64(
                    match old(self).mixers[k as int].delay {
                        Option::Some(d) => d as int,
                        Option::None => 0,
                    },
                    spec_mixer_seek_result(
                        old(self).mixers[k as int].mixer,
                        spec_mixer_seek_limited(old(self).mixers[k as int], gpos),
                    ),
                );
                let rest = spec_mixers_max_spot(old(self).mixers, k as int, gpos);
                assert(spec_mixers_max_spot(old(self).mixers, k + 1, gpos) == if spot_spec >= rest {
                    spot_spec
                } else {
                    rest
                });
            }
            k = k + 1;
        }
        core::mem::swap(&mut kids, &mut self.mixers);
        proof {
            let m = *self;
            assert forall|j: int|
                0 <= j < m.mixers.len() implies spec_mixer_wf(#[trigger] m.mixers[j].mixer)
                && m.mixers[j].mixer.channel_count == cc by {
                if k <= j {
                    lemma_mixers_wf_element(old(self).mixers, old(self).mixers.len() as int, cc, j);
                }
            }
            lemma_mixers_wf_all_from_elements(m.mixers, m.mixers.len() as int, cc);
            assert forall|j: int|
                0 <= j < m.mixers.len() implies (#[trigger] old(self).mixers[j]).delay
                == m.mixers[j].delay && old(self).mixers[j].duration == m.mixers[j].duration
                && spec_same_schedule(old(self).mixers[j].mixer, m.mixers[j].mixer) by {
                if k <= j {
                    lemma_same_schedule_refl(m.mixers[j].mixer);
                }
            }
            lemma_mixers_same_schedule_from_elements(
                old(self).mixers,
                m.mixers,
                m.mixers.len() as int,
            );
            lemma_same_schedule_length(*old(self), m);
            if spec_no_fx(*old(self)) {
                assert forall|j: int|
                    0 <= j < m.mixers.len() implies spec_no_fx(
                    (#[trigger] m.mixers[j]).mixer,
                ) by {
                    lemma_mixers_no_fx_element(old(self).mixers, mn as int, j);
                }
                lemma_mixers_no_fx_from_elements(m.mixers, m.mixers.len() as int);
                assert(spec_no_fx(m));
                assert forall|v: bool| spec_all_playing(*old(self), v) implies spec_all_playing(
                    m,
                    v,
                ) by {
                    assert forall|j: int|
                        0 <= j < m.mixers.len() implies spec_all_playing(
                        (#[trigger] m.mixers[j]).mixer,
                        v,
                    ) by {
                        lemma_mixers_all_playing_element(old(self).mixers, mn as int, v, j);
                        lemma_mixers_no_fx_element(old(self).mixers, mn as int, j);
                    }
                    lemma_mixers_all_playing_from_elements(m.mixers, m.mixers.len() as int, v);
                }
            }
        }
        let ghost pre_warm = *self;
        if self.fx.is_some() {
            let chans: usize = self.channel_count as usize;
            proof {
                assert(crate::fx::FX_LATENCY_FRAMES * self.channel_count <= 512 * 8);
                assert(MIXER_BUFFER_FRAMES * self.channel_count <= 4096 * 8) by (nonlinear_arith)
                    requires
                        self.channel_count <= 8,
                        MIXER_BUFFER_FRAMES == 4096,
                ;
                assert(crate::fx::FX_LATENCY_FRAMES * self.channel_count <= MIXER_BUFFER_FRAMES
                    * self.channel_count) by (nonlinear_arith)
                    requires
                        crate::fx::FX_LATENCY_FRAMES <= MIXER_BUFFER_FRAMES,
                        self.channel_count >= 0,
                ;
            }
            let mut scratch = crate::fixed::zero_buffer(
                (MIXER_BUFFER_FRAMES as usize) * chans,
            );
            let latency: u64 = crate::fx::FX_LATENCY_FRAMES as u64;
            let _ = self.mix_children(&mut scratch, latency);
            let ghost mid = *self;
            let warm_n: usize = (crate::fx::FX_LATENCY_FRAMES as usize) * chans;
            crate::fixed::pack_acc_clamped(&self.acc, &mut self.buffer, warm_n);
            match &mut self.fx {
                Some(f) => {
                    match f.pre_process(&self.buffer, latency) {
                        Ok(()) => (),
                        Err(_) => {
                            proof {
                                assert(false);
                            }
                        },
                    }
                    proof {
                        vstd::arithmetic::div_mod::lemma_mod_multiples_basic(
                            crate::fx::FX_LATENCY_FRAMES as int,
                            cc,
                        );
                    }
                },
                None => (),
            }
            proof {
                lemma_children_specs_ignore_marks(mid, *self);
                lemma_same_schedule_same_children(mid, *self);
                lemma_same_schedule_trans(*old(self), pre_warm, mid);
                lemma_same_schedule_trans(*old(self), mid, *self);
            }
        }
        Ok(max_seeked)
    }

    /// Mixes every child active at the mixer's position into the
    /// accumulator, additively: each child whose `[delay, delay +
    /// duration)` window covers the position is pulled for up to
    /// `frame_count` frames — no further than its window's end — and its
    /// frames are summed in.  A child whose pull fails is skipped for the
    /// period and produces silence.  Returns the number of children that
    /// contributed frames.
    #[verifier::loop_isolation(false)]
    fn mix_children(&mut self, temp: &mut Vec<i16>, frame_count: u64) -> (mixed: u32)
        requires
            old(self).wf(),
            frame_count <= MIXER_BUFFER_FRAMES,
        ensures
            final(self).wf(),
            spec_same_schedule(*old(self), *final(self)),
            final(self).is_playing == old(self).is_playing,
            final(self).mixer_position == old(self).mixer_position,
            final(self).max_length == old(self).max_length,
            final(self).is_infinite == old(self).is_infinite,
            final(self).ref_id == old(self).ref_id,
            final(self).marked_as_deleted == old(self).marked_as_deleted,
            final(self).channel_count == old(self).channel_count,
            final(self).sample_rate == old(self).sample_rate,
            final(self).resampler == old(self).resampler,
            final(self).panner == old(self).panner,
            final(self).volume == old(self).volume,
            final(self).fx == old(self).fx,
            final(self).buffer == old(self).buffer,
            final(self).acc.len() == old(self).acc.len(),
            final(self).intermediate.len() == old(self).intermediate.len(),
            final(self).channels.len() == old(self).channels.len(),
            final(self).mixers.len() == old(self).mixers.len(),
            final(temp).len() == old(temp).len(),
            old(self).channels.len() == 0 && old(self).mixers.len() == 0 ==> mixed == 0,
        decreases *old(self), 0int,
    {
        let ghost cc = self.channel_count as int;
        let chans: usize = self.channel_count as usize;
        proof {
            assert(frame_count * self.channel_count <= MIXER_BUFFER_FRAMES * self.channel_count)
                by (nonlinear_arith)
                requires
                    frame_count <= MIXER_BUFFER_FRAMES,
                    self.channel_count >= 0,
            ;
            crate::fixed::lemma_sample_count_bounds(frame_count as int, self.channel_count as int);
        }
        let n: usize = (frame_count as usize) * chans;
        crate::fixed::acc_zero_prefix(&mut self.acc, n);
        let mut mixed: u32 = 0;
        let position = self.mixer_position;
        let mut kids: Vec<ChannelEntry> = Vec::new();
        core::mem::swap(&mut kids, &mut self.channels);
        let cn = kids.len();
        let mut i: usize = 0;
        while i < cn
            invariant
                i <= cn,
                kids.len() == cn,
                cn == old(self).channels.len(),
                forall|j: int| i <= j < cn ==> #[trigger] kids[j] == old(self).channels[j],
                forall|j: int|
                    0 <= j < i ==> (#[trigger] kids[j]).delay == old(self).channels[j].delay
                        && kids[j].duration == old(self).channels[j].duration
                        && kids[j].channel.wf() && kids[j].channel.reader.channels == cc
                        && kids[j].channel.reader.pcm_length == old(self).channels[j].channel.reader.pcm_length && kids[j].channel.is_looping == old(self).channels[j].channel.is_looping,
                old(self).channels.len() == 0 && old(self).mixers.len() == 0 ==> mixed == 0,
                self.acc.len() == old(self).acc.len(),
                self.intermediate.len() == old(self).intermediate.len(),
                temp.len() == old(temp).len(),
                *self == (AudioMixer {
                    channels: self.channels,
                    acc: self.acc,
                    intermediate: self.intermediate,
                    ..*old(self)
                }),
            decreases cn - i,
        {
            let delay: u64 = match kids[i].delay {
                Some(d) => d,
                None => 0,
            };
            let duration: u64 = match kids[i].duration {
                Some(d) => d,
                None => kids[i].channel.reader.pcm_length,
            };
            let end: u64 = crate::fixed::sat_add_u64(delay, duration);
            if position >= delay && position < end {
                let remaining: u64 = end - position;
                let read_frames: u64 = if frame_count <= remaining {
                    frame_count
                } else {
                    remaining
                };
                match kids[i].channel.read_pcm_frames_with_listener(
                    None,
                    &mut self.intermediate,
                    temp,
                    read_frames,
                ) {
                    Ok(got) => {
                        if got > 0 {
                            proof {
                                crate::fixed::lemma_mul_le_mono(
                                    got as int,
                                    frame_count as int,
                                    cc,
                                );
                                crate::fixed::lemma_sample_count_bounds(got as int, cc);
                            }
                            let gn: usize = (got as usize) * chans;
                            crate::fixed::acc_add_samples(&mut self.acc, &self.intermediate, gn);
                            if mixed < u32::MAX {
                                mixed = mixed + 1;
                            }
                        }
                    },
                    Err(_) => (),
                }
            }
            i = i + 1;
        }
        core::mem::swap(&mut kids, &mut self.channels);
        let mut mkids: Vec<MixerEntry> = Vec::new();
        core::mem::swap(&mut mkids, &mut self.mixers);
        let mn = mkids.len();
        let mut k: usize = 0;
        while k < mn
            invariant
                k <= mn,
                mkids.len() == mn,
                mn == old(self).mixers.len(),
                forall|j: int| k <= j < mn ==> #[trigger] mkids[j] == old(self).mixers[j],
                forall|j: int|
                    0 <= j < k ==> (#[trigger] mkids[j]).delay == old(self).mixers[j].delay
                        && mkids[j].duration == old(self).mixers[j].duration && spec_mixer_wf(
                        mkids[j].mixer,
                    ) && mkids[j].mixer.channel_count == cc && spec_same_schedule(
                        old(self).mixers[j].mixer,
                        mkids[j].mixer,
                    ),
                old(self).channels.len() == 0 && old(self).mixers.len() == 0 ==> mixed == 0,
                self.acc.len() == old(self).acc.len(),
                self.intermediate.len() == old(self).intermediate.len(),
                temp.len() == old(temp).len(),
                self.channels.len() == cn,
                forall|j: int|
                    0 <= j < cn ==> (#[trigger] self.channels[j]).delay == old(self).channels[j].delay && self.channels[j].duration == old(self).channels[j].duration && self.channels[j].channel.wf()
                        && self.channels[j].channel.reader.channels == cc
                        && self.channels[j].channel.reader.pcm_length == old(self).channels[j].channel.reader.pcm_length
                        && self.channels[j].channel.is_looping == old(self).channels[j].channel.is_looping,
                *self == (AudioMixer {
                    channels: self.channels,
                    mixers: self.mixers,
                    acc: self.acc,
                    intermediate: self.intermediate,
                    ..*old(self)
                }),
                self.mixers.len() == 0,
            decreases mn - k,
        {
            proof {
                lemma_mixers_wf_element(
                    old(self).mixers,
                    old(self).mixers.len() as int,
                    cc,
                    k as int,
                );
            }
            let delay: u64 = match mkids[k].delay {
                Some(d) => d,
                None => 0,
            };
            let duration: u64 = match mkids[k].duration {
                Some(d) => d,
                None => mkids[k].mixer.max_length,
            };
            let end: u64 = crate::fixed::sat_add_u64(delay, duration);
            if position >= delay && position < end {
                let remaining: u64 = end - position;
                let read_frames: u64 = if frame_count <= remaining {
                    frame_count
                } else {
                    remaining
                };
                match mkids[k].mixer.read_pcm_frames(&mut self.intermediate, temp, read_frames) {
                    Ok(got) => {
                        if got > 0 {
                            proof {
                                crate::fixed::lemma_mul_le_mono(
                                    got as int,
                                    frame_count as int,
                                    cc,
                                );
                                crate::fixed::lemma_sample_count_bounds(got as int, cc);
                            }
                            let gn: usize = (got as usize) * chans;
                            crate::fixed::acc_add_samples(&mut self.acc, &self.intermediate, gn);
                            if mixed < u32::MAX {
                                mixed = mixed + 1;
                            }
                        }
                    },
                    Err(_) => {
                        proof {
                            lemma_same_schedule_refl(mkids[k as int].mixer);
                        }
                    },
                }
            } else {
                proof {
                    lemma_same_schedule_refl(mkids[k as int].mixer);
                }
            }
            k = k + 1;
        }
        core::mem::swap(&mut mkids, &mut self.mixers);
        proof {
            let m = *self;
            assert forall|j: int|
                0 <= j < m.mixers.len() implies spec_mixer_wf(#[trigger] m.mixers[j].mixer)
                && m.mixers[j].mixer.channel_count == cc by {}
            lemma_mixers_wf_all_from_elements(m.mixers, m.mixers.len() as int, cc);
            assert forall|j: int|
                0 <= j < m.mixers.len() implies (#[trigger] old(self).mixers[j]).delay
                == m.mixers[j].delay && old(self).mixers[j].duration == m.mixers[j].duration
                && spec_same_schedule(old(self).mixers[j].mixer, m.mixers[j].mixer) by {}
            lemma_mixers_same_schedule_from_elements(
                old(self).mixers,
                m.mixers,
                m.mixers.len() as int,
            );
            assert(spec_same_schedule(*old(self), m));
            lemma_same_schedule_length(*old(self), m);
        }
        mixed
    }


    /// The staging half of a pull: mixes the active children — at the
    /// stretch stage's input budget when it is present, at the
    /// resampler's otherwise — maintains the stage's `frame_available`
    /// account, and leaves the staged frames packed at the front of the
    /// mixer's own buffer.  Returns the number of contributing sources.
    #[verifier::loop_isolation(false)]
    fn stage_input(
        &mut self,
        temp: &mut Vec<i16>,
        required: u64,
        target: u64,
        needed: u64,
    ) -> (mixed: u32)
        requires
            old(self).wf(),
            required <= needed,
            target <= needed,
            needed <= MIXER_BUFFER_FRAMES,
            old(temp).len() >= needed * old(self).channel_count,
        ensures
            final(self).wf(),
            spec_same_schedule(*old(self), *final(self)),
            final(self).is_playing == old(self).is_playing,
            final(self).mixer_position == old(self).mixer_position,
            final(self).max_length == old(self).max_length,
            final(self).is_infinite == old(self).is_infinite,
            final(self).ref_id == old(self).ref_id,
            final(self).marked_as_deleted == old(self).marked_as_deleted,
            final(self).channel_count == old(self).channel_count,
            final(self).sample_rate == old(self).sample_rate,
            final(self).resampler == old(self).resampler,
            final(self).panner == old(self).panner,
            final(self).volume == old(self).volume,
            final(self).fx is Some <==> old(self).fx is Some,
            final(self).buffer.len() == old(self).buffer.len(),
            final(self).acc.len() == old(self).acc.len(),
            final(self).intermediate.len() == old(self).intermediate.len(),
            final(self).channels.len() == old(self).channels.len(),
            final(self).mixers.len() == old(self).mixers.len(),
            final(temp).len() == old(temp).len(),
            old(self).channels.len() == 0 && old(self).mixers.len() == 0 ==> mixed == 0,
        decreases *old(self), 1int,
    {
        let ghost cc = self.channel_count as int;
        let chans: usize = self.channel_count as usize;
        proof {
            crate::fixed::lemma_sample_count_bounds(needed as int, self.channel_count as int);
            assert(needed * self.channel_count <= MIXER_BUFFER_FRAMES * self.channel_count)
                by (nonlinear_arith)
                requires
                    needed <= MIXER_BUFFER_FRAMES,
                    self.channel_count >= 0,
            ;
            crate::fixed::lemma_mul_le_mono(required as int, needed as int, cc);
            crate::fixed::lemma_mul_le_mono(target as int, needed as int, cc);
        }
        let ghost mut mid = *self;
        proof {
            lemma_same_schedule_refl(*self);
        }
        let mut mixed: u32 = 0;
        if self.fx.is_some() {
            let available: u64 = if self.max_length >= self.mixer_position {
                self.max_length - self.mixer_position
            } else {
                0
            };
            if available > 0 {
                mixed = self.mix_children(temp, target);
                proof {
                    mid = *self;
                }
                match &mut self.fx {
                    Some(f) => {
                        if target >= available {
                            f.frame_available = crate::fixed::sat_add_i64(
                                f.frame_available,
                                crate::fx::FX_LATENCY_FRAMES as i64,
                            );
                        } else {
                            let add: i64 = if required > i64::MAX as u64 {
                                i64::MAX
                            } else {
                                required as i64
                            };
                            f.frame_available = crate::fixed::sat_add_i64(f.frame_available, add);
                        }
                    },
                    None => (),
                }
            }
            let tn: usize = (target as usize) * chans;
            crate::fixed::pack_acc_clamped(&self.acc, &mut self.buffer, tn);
            let fa_positive: bool = match &self.fx {
                Some(f) => f.frame_available > 0,
                None => false,
            };
            if fa_positive {
                let mut readed: u64 = required;
                match &mut self.fx {
                    Some(f) => {
                        match f.process(&self.buffer, target, temp, readed) {
                            Ok(()) => (),
                            Err(_) => {
                                proof {
                                    assert(false);
                                }
                            },
                        }
                        let sub: i64 = if readed > i64::MAX as u64 {
                            i64::MAX
                        } else {
                            readed as i64
                        };
                        f.frame_available = crate::fixed::sat_add_i64(f.frame_available, -sub);
                        if f.frame_available < 0 {
                            let adjusted: i128 = (readed as i128) + (f.frame_available as i128);
                            readed = if adjusted < 0 {
                                0
                            } else {
                                adjusted as u64
                            };
                            f.frame_available = 0;
                        }
                    },
                    None => (),
                }
                proof {
                    crate::fixed::lemma_mul_le_mono(readed as int, needed as int, cc);
                    crate::fixed::lemma_sample_count_bounds(readed as int, cc);
                }
                let rn: usize = (readed as usize) * chans;
                crate::fixed::copy_into(temp, &mut self.buffer, rn);
            }
        } else {
            mixed = self.mix_children(temp, required);
            proof {
                mid = *self;
            }
            let rn: usize = (required as usize) * chans;
            crate::fixed::pack_acc_clamped(&self.acc, &mut self.buffer, rn);
        }
        proof {
            lemma_children_specs_ignore_marks(mid, *self);
            lemma_same_schedule_same_children(mid, *self);
            lemma_same_schedule_trans(*old(self), mid, *self);
        }
        mixed
    }

    /// Pulls `frame_count` frames from the mixer: the active children are
    /// mixed additively, run through the stretch stage when present, then
    /// resampled, panned, gained, divided by the number of contributing
    /// sources and written to the front of `output`.  The mixer's clock
    /// advances by the full request — clamped at the mixer's length when
    /// it is finite — and a finite mixer that reaches its length stops;
    /// an infinite one never stops on its own.  The full request is
    /// always reported.
    #[verifier::loop_isolation(false)]
    #[verifier::rlimit(100)]
    pub fn read_pcm_frames(&mut self, output: &mut Vec<i16>, temp: &mut Vec<i16>, frame_count: u64)
        -> (r: Result<u64, AudioChannelError>)
        requires
            old(self).wf(),
        ensures
            final(self).wf(),
            spec_same_schedule(*old(self), *final(self)),
            final(self).max_length == old(self).max_length,
            final(self).is_infinite == old(self).is_infinite,
            final(self).ref_id == old(self).ref_id,
            final(self).channel_count == old(self).channel_count,
            final(self).sample_rate == old(self).sample_rate,
            final(self).channels.len() == old(self).channels.len(),
            final(self).mixers.len() == old(self).mixers.len(),
            final(output).len() == old(output).len(),
            final(temp).len() == old(temp).len(),
            frame_count > MIXER_BUFFER_FRAMES ==> r == Err::<u64, AudioChannelError>(
                AudioChannelError::AudioReaderError(AudioReaderError::PCMLengthTooLarge),
            ) && *final(self) == *old(self),
            frame_count <= MIXER_BUFFER_FRAMES && !old(self).is_playing ==> r == Ok::<
                u64,
                AudioChannelError,
            >(0u64) && *final(self) == *old(self),
            r is Err ==> *final(self) == *old(self),
            ({
                let ch = old(self).channel_count as int;
                let needed = old(self).spec_needed_frames(frame_count as int);
                old(self).is_playing && frame_count <= MIXER_BUFFER_FRAMES && needed
                    <= MIXER_BUFFER_FRAMES && old(output).len() >= frame_count * ch && old(temp).len() >= needed * ch ==> r is Ok
            }),
            ({
                let ch = old(self).channel_count as int;
                old(self).channels.len() == 0 && old(self).mixers.len() == 0 && old(self).is_playing
                    ==> (r matches Ok(n) ==> forall|i: int|
                    0 <= i < frame_count * ch ==> final(output)@[i] == 0i16)
            }),
            r matches Ok(n) ==> old(self).is_playing ==> {
                &&& n == frame_count
                &&& final(self).is_playing ==> old(self).is_playing
                &&& !old(self).is_infinite ==> final(self).mixer_position == if spec_sat_add_u64(
                    old(self).mixer_position as int,
                    frame_count as int,
                ) <= old(self).max_length {
                    spec_sat_add_u64(old(self).mixer_position as int, frame_count as int)
                } else {
                    old(self).max_length as int
                }
                &&& !old(self).is_infinite ==> (final(self).mixer_position >= old(self).max_length
                    ==> !final(self).is_playing) && (final(self).mixer_position < old(self).max_length ==> final(self).is_playing == old(self).is_playing)
                &&& old(self).is_infinite ==> final(self).is_playing == old(self).is_playing
                    && final(self).mixer_position == spec_sat_add_u64(
                    old(self).mixer_position as int,
                    frame_count as int,
                )
            },
        decreases *old(self), 2int,
    {
        if frame_count > MIXER_BUFFER_FRAMES {
            proof {
                lemma_same_schedule_refl(*self);
            }
            return Err(AudioChannelError::AudioReaderError(AudioReaderError::PCMLengthTooLarge));
        }
        if !self.is_playing {
            proof {
                lemma_same_schedule_refl(*self);
            }
            return Ok(0);
        }
        let ghost cc = self.channel_count as int;
        let chans: usize = self.channel_count as usize;
        let required: u64 = match self.resampler.get_required_input(frame_count) {
            Ok(v) => v,
            Err(_) => 0,
        };
        let target: u64 = match &self.fx {
            Some(f) => {
                if f.tempo == crate::fixed::MILLI_ONE {
                    required
                } else {
                    match f.get_required_input(required) {
                        Ok(v) => v,
                        Err(_) => 0,
                    }
                }
            },
            None => required,
        };
        proof {
            assert(required == old(self).spec_required_frames(frame_count as int));
            assert(target == old(self).spec_target_frames(frame_count as int));
        }
        let m0: u64 = if required >= target {
            required
        } else {
            target
        };
        let needed: u64 = if frame_count >= m0 {
            frame_count
        } else {
            m0
        };
        proof {
            assert(needed == old(self).spec_needed_frames(frame_count as int));
        }
        if needed > MIXER_BUFFER_FRAMES {
            proof {
                lemma_same_schedule_refl(*self);
            }
            return Err(
                AudioChannelError::AudioReaderError(
                    AudioReaderError::BufferTooSmall {
                        expected: needed,
                        actual: MIXER_BUFFER_FRAMES,
                    },
                ),
            );
        }
        proof {
            crate::fixed::lemma_sample_count_bounds(needed as int, self.channel_count as int);
            assert(needed * self.channel_count <= MIXER_BUFFER_FRAMES * self.channel_count)
                by (nonlinear_arith)
                requires
                    needed <= MIXER_BUFFER_FRAMES,
                    self.channel_count >= 0,
            ;
            crate::fixed::lemma_mul_le_mono(frame_count as int, needed as int, cc);
            crate::fixed::lemma_mul_le_mono(required as int, needed as int, cc);
            crate::fixed::lemma_mul_le_mono(target as int, needed as int, cc);
        }
        let needed_samples: u128 = (needed as u128) * (self.channel_count as u128);
        if (output.len() as u128) < (frame_count as u128) * (self.channel_count as u128) || (
        temp.len() as u128) < needed_samples {
            let shorter: u64 = if output.len() <= temp.len() {
                output.len() as u64
            } else {
                temp.len() as u64
            };
            proof {
                lemma_same_schedule_refl(*self);
            }
            return Err(
                AudioChannelError::AudioReaderError(
                    AudioReaderError::BufferTooSmall {
                        expected: if needed_samples > u64::MAX as u128 {
                            u64::MAX
                        } else {
                            needed_samples as u64
                        },
                        actual: shorter,
                    },
                ),
            );
        }
        let out_n: usize = (frame_count as usize) * chans;
        crate::fixed::zero_prefix(output, out_n);
        let mixed: u32 = self.stage_input(temp, required, target, needed);
        let ghost staged = *self;
        if mixed > 0 {
            if !self.resampler.bypass_mode() {
                let src = self.buffer.clone();
                match self.resampler.process(&src, required, temp, frame_count) {
                    Ok(_) => (),
                    Err(_) => {
                        proof {
                            assert(false);
                        }
                    },
                }
                crate::fixed::copy_into(temp, &mut self.buffer, out_n);
            }
            let panned_src = self.buffer.clone();
            match self.panner.process(&panned_src, temp, frame_count) {
                Ok(()) => (),
                Err(_) => {
                    proof {
                        assert(false);
                    }
                },
            }
            match self.volume.process(temp, &mut self.buffer, frame_count) {
                Ok(()) => (),
                Err(_) => {
                    proof {
                        assert(false);
                    }
                },
            }
            crate::fixed::divide_samples(&mut self.buffer, out_n, mixed);
            crate::fixed::copy_into(&self.buffer, output, out_n);
        }
        proof {
            lemma_same_schedule_same_children(staged, *self);
            lemma_children_specs_ignore_marks(staged, *self);
            lemma_same_schedule_trans(*old(self), staged, *self);
        }
        if self.is_infinite {
            self.mixer_position = crate::fixed::sat_add_u64(self.mixer_position, frame_count);
        } else {
            let cand: u64 = crate::fixed::sat_add_u64(self.mixer_position, frame_count);
            self.mixer_position = if cand <= self.max_length {
                cand
            } else {
                self.max_length
            };
            if self.mixer_position >= self.max_length {
                self.is_playing = false;
            }
        }
        Ok(frame_count)
    }

    /// Reads a value attribute.  The sample rate reported is the mixer's
    /// own (source) rate, in hertz; gains come back in thousandths.
    pub fn get_attribute(&self, attribute: AudioAttributes) -> (r: Result<i64, AudioPropertyError>)
        ensures
            attribute == AudioAttributes::SampleRate ==> r == Ok::<i64, AudioPropertyError>(
                self.resampler.target_sample_rate as i64,
            ),
            attribute == AudioAttributes::Volume ==> r == Ok::<i64, AudioPropertyError>(
                self.volume.volume as i64,
            ),
            attribute == AudioAttributes::Pan ==> r == Ok::<i64, AudioPropertyError>(
                self.panner.pan as i64,
            ),
            attribute == AudioAttributes::FXTempo && self.fx is None ==> r == Err::<
                i64,
                AudioPropertyError,
            >(AudioPropertyError::AudioFXError(AudioFXError::NotEnabled)),
            self.fx matches Some(f) ==> attribute == AudioAttributes::FXTempo ==> r == Ok::<
                i64,
                AudioPropertyError,
            >(f.tempo as i64),
            attribute == AudioAttributes::FXPitch && self.fx is None ==> r == Err::<
                i64,
                AudioPropertyError,
            >(AudioPropertyError::AudioFXError(AudioFXError::NotEnabled)),
            self.fx matches Some(f) ==> attribute == AudioAttributes::FXPitch ==> r == Ok::<
                i64,
                AudioPropertyError,
            >(f.octave as i64),
    {
        match attribute {
            AudioAttributes::SampleRate => Ok(self.resampler.target_sample_rate as i64),
            AudioAttributes::Volume => Ok(self.volume.volume as i64),
            AudioAttributes::Pan => Ok(self.panner.pan as i64),
            AudioAttributes::FXPitch => {
                match &self.fx {
                    Some(f) => Ok(f.octave as i64),
                    None => Err(AudioPropertyError::AudioFXError(AudioFXError::NotEnabled)),
                }
            },
            AudioAttributes::FXTempo => {
                match &self.fx {
                    Some(f) => Ok(f.tempo as i64),
                    None => Err(AudioPropertyError::AudioFXError(AudioFXError::NotEnabled)),
                }
            },
            _ => Err(AudioPropertyError::UnsupportedAttribute("not a value attribute")),
        }
    }

    /// Writes a value attribute: volume and pan clamp, the target sample
    /// rate and the stretch factors validate.
    pub fn set_attribute(&mut self, attribute: AudioAttributes, value: i64) -> (r: Result<
        (),
        AudioPropertyError,
    >)
        requires
            old(self).wf(),
        ensures
            final(self).wf(),
            final(self).mixer_position == old(self).mixer_position,
            final(self).is_playing == old(self).is_playing,
            final(self).max_length == old(self).max_length,
            final(self).is_infinite == old(self).is_infinite,
            attribute == AudioAttributes::Volume ==> r is Ok && final(self).volume.volume
                == crate::fixed::spec_clamp_unit_milli(value as int),
            attribute == AudioAttributes::Pan ==> r is Ok && final(self).panner.pan
                == crate::fixed::spec_clamp_pan_milli(value as int),
            attribute == AudioAttributes::SampleRate ==> if 1 <= value <= u32::MAX {
                r is Ok && final(self).resampler.target_sample_rate == value
            } else {
                r is Err && *final(self) == *old(self)
            },
            attribute == AudioAttributes::FXTempo && old(self).fx is None ==> r == Err::<
                (),
                AudioPropertyError,
            >(AudioPropertyError::AudioFXError(AudioFXError::NotEnabled)) && *final(self) == *old(self),
            attribute == AudioAttributes::FXTempo && old(self).fx is Some && 1 <= value
                <= u32::MAX ==> r is Ok && (final(self).fx matches Some(g) && g.tempo == value),
            attribute == AudioAttributes::FXPitch && old(self).fx is None ==> r == Err::<
                (),
                AudioPropertyError,
            >(AudioPropertyError::AudioFXError(AudioFXError::NotEnabled)) && *final(self) == *old(self),
            attribute == AudioAttributes::FXPitch && old(self).fx is Some && 1 <= value
                <= u32::MAX ==> r is Ok && (final(self).fx matches Some(g) && g.octave == value),
    {
        match attribute {
            AudioAttributes::Volume => {
                self.volume.set_volume(value);
                Ok(())
            },
            AudioAttributes::Pan => {
                self.panner.set_pan(value);
                Ok(())
            },
            AudioAttributes::SampleRate => {
                if value < 1 || value > u32::MAX as i64 {
                    return Err(
                        AudioPropertyError::UnsupportedAttribute("sample rate out of range"),
                    );
                }
                self.resampler.set_target_sample_rate(value as u32);
                Ok(())
            },
            AudioAttributes::FXTempo => {
                match &mut self.fx {
                    Some(f) => {
                        if value < 1 || value > u32::MAX as i64 {
                            return Err(
                                AudioPropertyError::AudioFXError(AudioFXError::InvalidTempo),
                            );
                        }
                        match f.set_tempo(value as u32) {
                            Ok(()) => Ok(()),
                            Err(e) => {
                                proof {
                                    assert(false);
                                }
                                Err(AudioPropertyError::AudioFXError(e))
                            },
                        }
                    },
                    None => Err(AudioPropertyError::AudioFXError(AudioFXError::NotEnabled)),
                }
            },
            AudioAttributes::FXPitch => {
                match &mut self.fx {
                    Some(f) => {
                        if value < 1 || value > u32::MAX as i64 {
                            return Err(
                                AudioPropertyError::AudioFXError(AudioFXError::InvalidOctave),
                            );
                        }
                        match f.set_octave(value as u32) {
                            Ok(()) => Ok(()),
                            Err(e) => {
                                proof {
                                    assert(false);
                                }
                                Err(AudioPropertyError::AudioFXError(e))
                            },
                        }
                    },
                    None => Err(AudioPropertyError::AudioFXError(AudioFXError::NotEnabled)),
                }
            },
            _ => Err(AudioPropertyError::UnsupportedAttribute("not a value attribute")),
        }
    }

    /// Reads a toggle: whether the stretch stage is installed.  The mixer
    /// carries no spatializer of its own.
    pub fn get_attribute_bool(&self, attribute: AudioAttributes) -> (r: Result<
        bool,
        AudioPropertyError,
    >)
        ensures
            attribute == AudioAttributes::AudioFX ==> r == Ok::<bool, AudioPropertyError>(
                self.fx is Some,
            ),
            attribute == AudioAttributes::AudioSpatialization ==> r == Ok::<
                bool,
                AudioPropertyError,
            >(false),
    {
        match attribute {
            AudioAttributes::AudioFX => Ok(self.fx.is_some()),
            AudioAttributes::AudioSpatialization => Ok(false),
            _ => Err(AudioPropertyError::UnsupportedAttribute("not a toggle attribute")),
        }
    }

    /// Writes a toggle.  Raising `AudioFX` installs the stretch stage (if
    /// absent) and re-seeks the mixer to warm it; lowering it drops the
    /// stage the same way.  The spatialization toggle is accepted and
    /// ignored: the mixer has no spatializer.
    pub fn set_attribute_bool(&mut self, attribute: AudioAttributes, value: bool) -> (r: Result<
        (),
        AudioPropertyError,
    >)
        requires
            old(self).wf(),
        ensures
            final(self).wf(),
            final(self).channel_count == old(self).channel_count,
            final(self).sample_rate == old(self).sample_rate,
            final(self).is_playing == old(self).is_playing,
            attribute == AudioAttributes::AudioFX ==> r is Ok && (final(self).fx is Some
                <==> value) && final(self).mixer_position == 0,
            attribute == AudioAttributes::AudioSpatialization ==> r is Ok && *final(self) == *old(self),
    {
        match attribute {
            AudioAttributes::AudioFX => {
                if value {
                    if self.fx.is_none() {
                        let fx = match AudioFX::new(self.channel_count, self.resampler.sample_rate) {
                            Ok(f) => f,
                            Err(e) => {
                                proof {
                                    assert(false);
                                }
                                return Err(AudioPropertyError::AudioFXError(e));
                            },
                        };
                        self.fx = Some(fx);
                    }
                } else {
                    self.fx = None;
                }
                proof {
                    lemma_children_specs_ignore_marks(*old(self), *self);
                }
                let _ = self.seek_frames(self.mixer_position);
                Ok(())
            },
            AudioAttributes::AudioSpatialization => Ok(()),
            _ => Err(AudioPropertyError::UnsupportedAttribute("not a toggle attribute")),
        }
    }

    /// Pulls up to `frame_count` frames into a fresh buffer, allocating
    /// the scratch itself; for control-path use, not the realtime path.
    pub fn read_simple(&mut self, frame_count: u64) -> (r: Result<Vec<i16>, AudioChannelError>)
        requires
            old(self).wf(),
        ensures
            final(self).wf(),
            frame_count > MIXER_BUFFER_FRAMES ==> (r matches Err(e) && e
                == AudioChannelError::AudioReaderError(AudioReaderError::PCMLengthTooLarge)
                && *final(self) == *old(self)),
            r matches Ok(v) ==> v.len() == frame_count * old(self).channel_count || v.len() == 0,
            old(self).is_playing && frame_count <= MIXER_BUFFER_FRAMES && old(self).spec_needed_frames(frame_count as int) == frame_count ==> r is Ok,
            old(self).is_playing ==> (r matches Ok(v) ==> v.len() == frame_count * old(self).channel_count),
    {
        if frame_count > MIXER_BUFFER_FRAMES {
            return Err(AudioChannelError::AudioReaderError(AudioReaderError::PCMLengthTooLarge));
        }
        proof {
            crate::fixed::lemma_sample_count_bounds(frame_count as int, self.channel_count as int);
            assert(frame_count * self.channel_count <= MIXER_BUFFER_FRAMES * self.channel_count)
                by (nonlinear_arith)
                requires
                    frame_count <= MIXER_BUFFER_FRAMES,
                    self.channel_count >= 0,
            ;
        }
        let n: usize = (frame_count as usize) * (self.channel_count as usize);
        let mut output = crate::fixed::zero_buffer(n);
        let mut temp = crate::fixed::zero_buffer(n);
        let got = match self.read_pcm_frames(&mut output, &mut temp, frame_count) {
            Ok(g) => g,
            Err(e) => {
                return Err(e);
            },
        };
        if got == 0 {
            let empty: Vec<i16> = Vec::new();
            return Ok(empty);
        }
        Ok(output)
    }

    /// Moves the mixer's timeline to an optional index, the start when
    /// absent.
    pub fn seek(&mut self, position: Option<PCMIndex>) -> (r: Result<u64, AudioMixerError>)
        requires
            old(self).wf(),
        ensures
            r is Ok,
            final(self).wf(),
            final(self).mixer_position == 0,
            final(self).is_playing == old(self).is_playing,
            final(self).max_length == old(self).max_length,
            final(self).is_infinite == old(self).is_infinite,
    {
        let pos: u64 = match position {
            Some(i) => i.index,
            None => 0,
        };
        self.seek_frames(pos)
    }
}

/// Each of the first `n` nested-mixer children of a well-formed list is
/// itself well formed.
pub proof fn lemma_mixers_wf_element(v: Vec<MixerEntry>, n: int, channel_count: int, i: int)
    requires
        spec_mixers_wf(v, n, channel_count),
        n <= v.len(),
        0 <= i < n,
    ensures
        spec_mixer_wf(v[i].mixer),
        v[i].mixer.channel_count == channel_count,
    decreases n,
{
    if i < n - 1 {
        lemma_mixers_wf_element(v, n - 1, channel_count, i);
    }
}

/// Channel window ends never lie below the timeline origin.
proof fn lemma_channels_max_end_nonneg(v: Vec<ChannelEntry>, n: int)
    ensures
        spec_channels_max_end(v, n) >= 0,
    decreases n,
{
    if n > 0 {
        lemma_channels_max_end_nonneg(v, n - 1);
    }
}

/// Nested-mixer window ends never lie below the timeline origin.
proof fn lemma_mixers_max_end_nonneg(v: Vec<MixerEntry>, n: int)
    ensures
        spec_mixers_max_end(v, n) >= 0,
    decreases n,
{
    if n > 0 {
        lemma_mixers_max_end_nonneg(v, n - 1);
    }
}

/// Element-wise play flags give the list condition.
proof fn lemma_mixers_all_playing_from_elements(v: Vec<MixerEntry>, n: int, value: bool)
    requires
        n <= v.len(),
        forall|i: int| 0 <= i < n ==> spec_all_playing((#[trigger] v[i]).mixer, value),
    ensures
        spec_mixers_all_playing(v, n, value),
    decreases n,
{
    if n > 0 {
        lemma_mixers_all_playing_from_elements(v, n - 1, value);
    }
}

/// The list play-flag condition holds of each element.
proof fn lemma_mixers_all_playing_element(v: Vec<MixerEntry>, n: int, value: bool, i: int)
    requires
        n <= v.len(),
        spec_mixers_all_playing(v, n, value),
        0 <= i < n,
    ensures
        spec_all_playing(v[i].mixer, value),
    decreases n,
{
    if i < n - 1 {
        lemma_mixers_all_playing_element(v, n - 1, value, i);
    }
}

/// The stage-free condition holds of each element.
proof fn lemma_mixers_no_fx_element(v: Vec<MixerEntry>, n: int, i: int)
    requires
        n <= v.len(),
        spec_mixers_no_fx(v, n),
        0 <= i < n,
    ensures
        spec_no_fx(v[i].mixer),
    decreases n,
{
    if i < n - 1 {
        lemma_mixers_no_fx_element(v, n - 1, i);
    }
}

/// Element-wise stage-freedom gives the list condition.
proof fn lemma_mixers_no_fx_from_elements(v: Vec<MixerEntry>, n: int)
    requires
        n <= v.len(),
        forall|i: int| 0 <= i < n ==> spec_no_fx((#[trigger] v[i]).mixer),
    ensures
        spec_mixers_no_fx(v, n),
    decreases n,
{
    if n > 0 {
        lemma_mixers_no_fx_from_elements(v, n - 1);
    }
}

/// Element-wise well-formedness gives list well-formedness.
proof fn lemma_mixers_wf_all_from_elements(v: Vec<MixerEntry>, n: int, cc: int)
    requires
        n <= v.len(),
        forall|i: int|
            0 <= i < n ==> spec_mixer_wf(#[trigger] v[i].mixer) && v[i].mixer.channel_count == cc,
    ensures
        spec_mixers_wf(v, n, cc),
    decreases n,
{
    if n > 0 {
        lemma_mixers_wf_all_from_elements(v, n - 1, cc);
    }
}

/// The length and infinity of a mixer do not depend on its own marks, so
/// recomputing them from the children is stable.
proof fn lemma_children_specs_ignore_marks(m1: AudioMixer, m2: AudioMixer)
    requires
        m1.channels == m2.channels,
        m1.mixers == m2.mixers,
    ensures
        spec_mixer_length(m1) == spec_mixer_length(m2),
        spec_mixer_infinite(m1) == spec_mixer_infinite(m2),
{
}

/// Every node of a graph — the mixer itself, its channel children and,
/// recursively, its nested mixers' descendants — carries `value` as its
/// play flag.
pub open spec fn spec_all_playing(m: AudioMixer, value: bool) -> bool
    decreases m, 3int,
{
    &&& m.is_playing == value
    &&& (forall|i: int|
        0 <= i < m.channels.len() ==> (#[trigger] m.channels[i]).channel.playing == value)
    &&& spec_mixers_all_playing(m.mixers, m.mixers.len() as int, value)
}

/// The play-flag condition on the first `n` nested-mixer children.
pub open spec fn spec_mixers_all_playing(v: Vec<MixerEntry>, n: int, value: bool) -> bool
    decreases v, 2int, n,
{
    if n <= 0 || v.len() < n {
        true
    } else {
        spec_mixers_all_playing(v, n - 1, value) && spec_all_playing(v[n - 1].mixer, value)
    }
}

/// No node of the graph carries a stretch stage, so no seek in the graph
/// pre-warms — and none pulls a child while seeking.
pub open spec fn spec_no_fx(m: AudioMixer) -> bool
    decreases m, 3int,
{
    &&& m.fx is None
    &&& spec_mixers_no_fx(m.mixers, m.mixers.len() as int)
}

/// The stage-free condition on the first `n` nested-mixer children.
pub open spec fn spec_mixers_no_fx(v: Vec<MixerEntry>, n: int) -> bool
    decreases v, 2int, n,
{
    if n <= 0 || v.len() < n {
        true
    } else {
        spec_mixers_no_fx(v, n - 1) && spec_no_fx(v[n - 1].mixer)
    }
}

/// Whatever uniform play flag the whole graph carried, it still carries.
pub open spec fn spec_playing_preserved(a: AudioMixer, b: AudioMixer) -> bool {
    forall|v: bool| spec_all_playing(a, v) ==> spec_all_playing(b, v)
}

/// Where a seek to `position` lands a channel child: inside its window
/// when the window has begun, clamped to the window's duration and the
/// child's length; at the stream start otherwise.
pub open spec fn spec_channel_seek_target(e: ChannelEntry, position: int) -> int {
    let delay = match e.delay {
        Option::Some(d) => d as int,
        Option::None => 0,
    };
    let duration = match e.duration {
        Option::Some(d) => d as int,
        Option::None => e.channel.reader.pcm_length as int,
    };
    if position >= delay {
        let relative = position - delay;
        let limited = if relative <= duration {
            relative
        } else {
            duration
        };
        if limited <= e.channel.reader.pcm_length {
            limited
        } else {
            e.channel.reader.pcm_length as int
        }
    } else {
        0
    }
}

/// The relative position a seek to `position` passes into a nested mixer.
pub open spec fn spec_mixer_seek_limited(e: MixerEntry, position: int) -> int {
    let delay = match e.delay {
        Option::Some(d) => d as int,
        Option::None => 0,
    };
    let duration = match e.duration {
        Option::Some(d) => d as int,
        Option::None => e.mixer.max_length as int,
    };
    if position >= delay {
        if position - delay <= duration {
            position - delay
        } else {
            duration
        }
    } else {
        0
    }
}

/// The furthest `delay + sought` spot among the first `n` channel
/// children after a seek to `position`.
pub open spec fn spec_channels_max_spot(v: Vec<ChannelEntry>, n: int, position: int) -> int
    decreases n,
{
    if n <= 0 || v.len() < n {
        0
    } else {
        let delay = match v[n - 1].delay {
            Option::Some(d) => d as int,
            Option::None => 0,
        };
        let spot = spec_sat_add_u64(delay, spec_channel_seek_target(v[n - 1], position));
        let rest = spec_channels_max_spot(v, n - 1, position);
        if spot >= rest {
            spot
        } else {
            rest
        }
    }
}

/// The furthest spot among the first `n` nested-mixer children.
pub open spec fn spec_mixers_max_spot(v: Vec<MixerEntry>, n: int, position: int) -> int
    decreases v, 2int, n,
{
    if n <= 0 || v.len() < n {
        0
    } else {
        let delay = match v[n - 1].delay {
            Option::Some(d) => d as int,
            Option::None => 0,
        };
        let spot = spec_sat_add_u64(
            delay,
            spec_mixer_seek_result(v[n - 1].mixer, spec_mixer_seek_limited(v[n - 1], position)),
        );
        let rest = spec_mixers_max_spot(v, n - 1, position);
        if spot >= rest {
            spot
        } else {
            rest
        }
    }
}

/// What a seek to `position` reports: the furthest `delay + sought` spot
/// over all children, zero when there are none.
pub open spec fn spec_mixer_seek_result(m: AudioMixer, position: int) -> int
    decreases m, 3int,
{
    let c = spec_channels_max_spot(m.channels, m.channels.len() as int, position);
    let x = spec_mixers_max_spot(m.mixers, m.mixers.len() as int, position);
    if c >= x {
        c
    } else {
        x
    }
}

/// Seek spots stay within the 64-bit frame range.
proof fn lemma_channels_max_spot_bounds(v: Vec<ChannelEntry>, n: int, position: int)
    ensures
        0 <= spec_channels_max_spot(v, n, position) <= u64::MAX,
    decreases n,
{
    if n > 0 {
        lemma_channels_max_spot_bounds(v, n - 1, position);
    }
}

proof fn lemma_mixers_max_spot_bounds(v: Vec<MixerEntry>, n: int, position: int)
    ensures
        0 <= spec_mixers_max_spot(v, n, position) <= u64::MAX,
    decreases v, 2int, n,
{
    if n > 0 && n <= v.len() {
        lemma_mixers_max_spot_bounds(v, n - 1, position);
        lemma_seek_result_bounds(
            v[n - 1].mixer,
            spec_mixer_seek_limited(v[n - 1], position),
        );
    }
}

/// The reported seek spot always fits a frame count.
pub proof fn lemma_seek_result_bounds(m: AudioMixer, position: int)
    ensures
        0 <= spec_mixer_seek_result(m, position) <= u64::MAX,
    decreases m, 3int,
{
    lemma_channels_max_spot_bounds(m.channels, m.channels.len() as int, position);
    lemma_mixers_max_spot_bounds(m.mixers, m.mixers.len() as int, position);
}

/// Two mixers share a schedule when their children line up window for
/// window: same delays and durations, channel children of the same length
/// and looping mark, and nested mixers sharing a schedule in turn.
/// Playing a graph only moves positions and flags, so it keeps the
/// schedule.
pub open spec fn spec_same_schedule(a: AudioMixer, b: AudioMixer) -> bool
    decreases a, 6int,
{
    &&& a.channels.len() == b.channels.len()
    &&& (forall|i: int|
        0 <= i < a.channels.len() ==> (#[trigger] a.channels[i]).delay == b.channels[i].delay
            && a.channels[i].duration == b.channels[i].duration
            && a.channels[i].channel.reader.pcm_length == b.channels[i].channel.reader.pcm_length
            && a.channels[i].channel.is_looping == b.channels[i].channel.is_looping)
    &&& a.mixers.len() == b.mixers.len()
    &&& spec_mixers_same_schedule(a.mixers, b.mixers, a.mixers.len() as int)
}

/// The schedule relation on the first `n` nested-mixer children.
pub open spec fn spec_mixers_same_schedule(va: Vec<MixerEntry>, vb: Vec<MixerEntry>, n: int) -> bool
    decreases va, 5int, n,
{
    if n <= 0 || va.len() < n || vb.len() < n {
        true
    } else {
        spec_mixers_same_schedule(va, vb, n - 1) && va[n - 1].delay == vb[n - 1].delay && va[n
            - 1].duration == vb[n - 1].duration && spec_same_schedule(va[n - 1].mixer, vb[n - 1].mixer)
    }
}

/// Channel children that line up have the same furthest window end.
proof fn lemma_channels_same_end(va: Vec<ChannelEntry>, vb: Vec<ChannelEntry>, n: int)
    requires
        n <= va.len(),
        n <= vb.len(),
        forall|i: int|
            0 <= i < n ==> (#[trigger] va[i]).delay == vb[i].delay && va[i].duration
                == vb[i].duration && va[i].channel.reader.pcm_length
                == vb[i].channel.reader.pcm_length,
    ensures
        spec_channels_max_end(va, n) == spec_channels_max_end(vb, n),
    decreases n,
{
    if n > 0 {
        lemma_channels_same_end(va, vb, n - 1);
    }
}

/// Nested-mixer children that share a schedule have the same furthest
/// window end and the same infinity.
proof fn lemma_mixers_same_schedule_end(va: Vec<MixerEntry>, vb: Vec<MixerEntry>, n: int)
    requires
        n <= va.len(),
        n <= vb.len(),
        spec_mixers_same_schedule(va, vb, n),
    ensures
        spec_mixers_max_end(va, n) == spec_mixers_max_end(vb, n),
        spec_mixers_any_infinite(va, n) == spec_mixers_any_infinite(vb, n),
    decreases va, 5int, n,
{
    if n > 0 {
        lemma_mixers_same_schedule_end(va, vb, n - 1);
        lemma_same_schedule_length(va[n - 1].mixer, vb[n - 1].mixer);
        assert(spec_mixer_entry_end(va[n - 1]) == spec_mixer_entry_end(vb[n - 1])) by {
            assert(va[n - 1].delay == vb[n - 1].delay);
            assert(va[n - 1].duration == vb[n - 1].duration);
            assert(spec_mixer_length(va[n - 1].mixer) == spec_mixer_length(vb[n - 1].mixer));
        }
    }
}

/// Mixers sharing a schedule have the same natural length and infinity.
pub proof fn lemma_same_schedule_length(a: AudioMixer, b: AudioMixer)
    requires
        spec_same_schedule(a, b),
    ensures
        spec_mixer_length(a) == spec_mixer_length(b),
        spec_mixer_infinite(a) == spec_mixer_infinite(b),
    decreases a, 6int,
{
    lemma_channels_same_end(a.channels, b.channels, a.channels.len() as int);
    lemma_mixers_same_schedule_end(a.mixers, b.mixers, a.mixers.len() as int);
    if exists|i: int| 0 <= i < a.channels.len() && #[trigger] a.channels[i].channel.is_looping {
        let i = choose|i: int|
            0 <= i < a.channels.len() && #[trigger] a.channels[i].channel.is_looping;
        assert(b.channels[i].channel.is_looping);
    }
    if exists|i: int| 0 <= i < b.channels.len() && #[trigger] b.channels[i].channel.is_looping {
        let i = choose|i: int|
            0 <= i < b.channels.len() && #[trigger] b.channels[i].channel.is_looping;
        assert(a.channels[i].channel.is_looping);
    }
}

/// A schedule relation holding element-wise holds of the whole list.
proof fn lemma_mixers_same_schedule_from_elements(
    va: Vec<MixerEntry>,
    vb: Vec<MixerEntry>,
    n: int,
)
    requires
        n <= va.len(),
        n <= vb.len(),
        forall|i: int|
            0 <= i < n ==> (#[trigger] va[i]).delay == vb[i].delay && va[i].duration
                == vb[i].duration && spec_same_schedule(va[i].mixer, vb[i].mixer),
    ensures
        spec_mixers_same_schedule(va, vb, n),
    decreases n,
{
    if n > 0 {
        lemma_mixers_same_schedule_from_elements(va, vb, n - 1);
    }
}

/// The schedule relation is reflexive.
pub proof fn lemma_same_schedule_refl(a: AudioMixer)
    ensures
        spec_same_schedule(a, a),
    decreases a, 6int,
{
    lemma_mixers_same_schedule_refl(a.mixers, a.mixers.len() as int);
}

proof fn lemma_mixers_same_schedule_refl(v: Vec<MixerEntry>, n: int)
    ensures
        spec_mixers_same_schedule(v, v, n),
    decreases v, 5int, n,
{
    if n > 0 && n <= v.len() {
        lemma_mixers_same_schedule_refl(v, n - 1);
        lemma_same_schedule_refl(v[n - 1].mixer);
    }
}

/// The schedule relation is transitive.
pub proof fn lemma_same_schedule_trans(a: AudioMixer, b: AudioMixer, c: AudioMixer)
    requires
        spec_same_schedule(a, b),
        spec_same_schedule(b, c),
    ensures
        spec_same_schedule(a, c),
    decreases a, 6int,
{
    lemma_mixers_same_schedule_trans(a.mixers, b.mixers, c.mixers, a.mixers.len() as int);
}

proof fn lemma_mixers_same_schedule_trans(
    va: Vec<MixerEntry>,
    vb: Vec<MixerEntry>,
    vc: Vec<MixerEntry>,
    n: int,
)
    requires
        n <= va.len(),
        va.len() == vb.len(),
        vb.len() == vc.len(),
        spec_mixers_same_schedule(va, vb, n),
        spec_mixers_same_schedule(vb, vc, n),
    ensures
        spec_mixers_same_schedule(va, vc, n),
    decreases va, 5int, n,
{
    if n > 0 {
        lemma_mixers_same_schedule_trans(va, vb, vc, n - 1);
        lemma_same_schedule_trans(va[n - 1].mixer, vb[n - 1].mixer, vc[n - 1].mixer);
    }
}

/// Two states with the very same children share a schedule.
proof fn lemma_same_schedule_same_children(a: AudioMixer, b: AudioMixer)
    requires
        a.channels == b.channels,
        a.mixers == b.mixers,
    ensures
        spec_same_schedule(a, b),
        spec_same_schedule(b, a),
{
    lemma_same_schedule_refl(a);
}

/// A mixer's infinity mark is exactly the one-level reading of its
/// children: some channel child loops, or some nested mixer is marked
/// infinite — whose own mark is grounded the same way in turn.
pub proof fn lemma_mixer_infinite_iff(m: &AudioMixer)
    requires
        m.wf(),
    ensures
        m.is_infinite <==> ((exists|i: int|
            0 <= i < m.channels.len() && #[trigger] m.channels[i].channel.is_looping) || (
        exists|j: int| 0 <= j < m.mixers.len() && (#[trigger] m.mixers[j].mixer).is_infinite)),
{
    lemma_mixers_any_infinite_iff(m.mixers, m.mixers.len() as int, m.channel_count as int);
}

/// The list form of the infinity reading, grounded by well-formedness.
proof fn lemma_mixers_any_infinite_iff(v: Vec<MixerEntry>, n: int, cc: int)
    requires
        n <= v.len(),
        spec_mixers_wf(v, n, cc),
    ensures
        spec_mixers_any_infinite(v, n) <==> (exists|j: int|
            0 <= j < n && (#[trigger] v[j].mixer).is_infinite),
    decreases n,
{
    if n > 0 {
        lemma_mixers_any_infinite_iff(v, n - 1, cc);
        lemma_mixers_wf_element(v, n, cc, n - 1);
        if spec_mixers_any_infinite(v, n) {
            if spec_mixers_any_infinite(v, n - 1) {
                let j = choose|j: int| 0 <= j < n - 1 && (#[trigger] v[j].mixer).is_infinite;
                assert(0 <= j < n && v[j].mixer.is_infinite);
            } else {
                assert(v[n - 1].mixer.is_infinite);
            }
        }
        if exists|j: int| 0 <= j < n && (#[trigger] v[j].mixer).is_infinite {
            let j = choose|j: int| 0 <= j < n && (#[trigger] v[j].mixer).is_infinite;
            if j < n - 1 {
                assert(spec_mixers_any_infinite(v, n - 1));
            } else {
                assert(spec_mixer_infinite(v[n - 1].mixer));
            }
        }
    }
}

} // verus!
