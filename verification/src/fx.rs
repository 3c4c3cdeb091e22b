//! The tempo/pitch stage.
//!
//! The stage owns a first-in-first-out frame buffer.  `process` feeds it
//! input frames and drains output frames; the tempo factor does not change
//! what the buffer holds, only how many input frames a caller must supply
//! per output frame (`get_required_input`).  The caller keeps the
//! `frame_available` account that gates draining, exactly as the
//! surrounding node's pull loop maintains it.

use vstd::prelude::*;

use crate::fixed::MILLI_ONE;
use crate::fixed::copy_prefix;
use crate::fixed::copy_suffix;

verus! {

/// Frames the stage wants buffered before it can stream steadily; used to
/// pre-warm the buffer after seeks and to drain it at end of stream.
pub const FX_LATENCY_FRAMES: u32 = 512;

#[derive(Debug, Clone)]
pub enum AudioFXError {
    NotEnabled,
    InvalidConfiguration,
    InvalidInputSize { expected: u64, actual: u64 },
    InvalidOutputSize { expected: u64, actual: u64 },
    InvalidFrameCount,
    InvalidTempo,
    InvalidOctave,
}

/// A tempo/pitch stage over a fixed channel count.  `tempo` and `octave`
/// are factors in thousandths (`1000` is unity); `queue` holds the frames
/// buffered inside the stage.
#[derive(Clone)]
pub struct AudioFX {
    pub channels: u32,
    pub sample_rate: u32,
    pub tempo: u32,
    pub octave: u32,
    pub frame_available: i64,
    pub queue: Vec<i16>,
}

impl AudioFX {
    pub open spec fn wf(&self) -> bool {
        &&& 1 <= self.channels <= 8
        &&& 8000 <= self.sample_rate <= 192000
        &&& self.tempo >= 1
        &&& self.octave >= 1
        &&& self.queue.len() as int % (self.channels as int) == 0
    }

    /// The number of whole frames currently buffered in the stage.
    pub open spec fn spec_queue_frames(&self) -> int {
        self.queue.len() as int / (self.channels as int)
    }

    /// A stage for `channels`-channel frames at `sample_rate`, at unity
    /// tempo and pitch, with an empty buffer.
    pub fn new(channels: u32, sample_rate: u32) -> (r: Result<AudioFX, AudioFXError>)
        ensures
            ({
                let valid = 1 <= channels <= 8 && 8000 <= sample_rate <= 192000;
                if valid {
                    r matches Ok(fx) && fx.channels == channels && fx.sample_rate == sample_rate
                        && fx.tempo == MILLI_ONE && fx.octave == MILLI_ONE && fx.frame_available
                        == 0 && fx.queue.len() == 0
                } else {
                    r == Err::<AudioFX, AudioFXError>(AudioFXError::InvalidConfiguration)
                }
            }),
    {
        if channels < 1 || channels > 8 {
            return Err(AudioFXError::InvalidConfiguration);
        }
        if sample_rate < 8000 || sample_rate > 192000 {
            return Err(AudioFXError::InvalidConfiguration);
        }
        Ok(
            AudioFX {
                channels,
                sample_rate,
                tempo: MILLI_ONE,
                octave: MILLI_ONE,
                frame_available: 0,
                queue: Vec::new(),
            },
        )
    }

    /// The tempo stage is a no-op exactly at unity tempo.
    pub fn tempo_bypass(&self) -> (r: bool)
        ensures
            r == (self.tempo == MILLI_ONE),
    {
        self.tempo == MILLI_ONE
    }

    /// Stores the tempo factor (in thousandths); zero is rejected.
    pub fn set_tempo(&mut self, tempo: u32) -> (r: Result<(), AudioFXError>)
        ensures
            tempo >= 1 ==> r is Ok && *final(self) == (AudioFX { tempo, ..*old(self) }),
            tempo == 0 ==> r == Err::<(), AudioFXError>(AudioFXError::InvalidTempo) && *final(self)
                == *old(self),
    {
        if tempo == 0 {
            return Err(AudioFXError::InvalidTempo);
        }
        self.tempo = tempo;
        Ok(())
    }

    /// Stores the transpose factor (in thousandths); zero is rejected.  The
    /// factor is applied by whatever renders the buffered frames; this
    /// stage only carries it.
    pub fn set_octave(&mut self, octave: u32) -> (r: Result<(), AudioFXError>)
        ensures
            octave >= 1 ==> r is Ok && *final(self) == (AudioFX { octave, ..*old(self) }),
            octave == 0 ==> r == Err::<(), AudioFXError>(AudioFXError::InvalidOctave)
                && *final(self) == *old(self),
    {
        if octave == 0 {
            return Err(AudioFXError::InvalidOctave);
        }
        self.octave = octave;
        Ok(())
    }

    /// Frames the stage wants fed before output flows after a reset.
    pub fn get_input_latency(&self) -> (r: u32)
        ensures
            r == FX_LATENCY_FRAMES,
    {
        FX_LATENCY_FRAMES
    }

    /// Frames still owed by the stage once its input ends.
    pub fn get_output_latency(&self) -> (r: u32)
        ensures
            r == FX_LATENCY_FRAMES,
    {
        FX_LATENCY_FRAMES
    }

    /// The number of input frames consumed per `output_frame_count` output
    /// frames: the identity at unity tempo, `output_frame_count * tempo /
    /// 1000` otherwise.  A zero request, or a product beyond 64 bits, is
    /// rejected.
    pub fn get_required_input(&self, output_frame_count: u64) -> (r: Result<u64, AudioFXError>)
        ensures
            output_frame_count == 0 ==> r == Err::<u64, AudioFXError>(
                AudioFXError::InvalidFrameCount,
            ),
            output_frame_count > 0 && self.tempo == MILLI_ONE ==> r == Ok::<u64, AudioFXError>(
                output_frame_count,
            ),
            ({
                let need = output_frame_count * self.tempo / 1000;
                output_frame_count > 0 && self.tempo != MILLI_ONE ==> if need <= u64::MAX {
                    r == Ok::<u64, AudioFXError>(need as u64)
                } else {
                    r == Err::<u64, AudioFXError>(AudioFXError::InvalidFrameCount)
                }
            }),
    {
        if output_frame_count == 0 {
            return Err(AudioFXError::InvalidFrameCount);
        }
        if self.tempo == MILLI_ONE {
            return Ok(output_frame_count);
        }
        proof {
            crate::fixed::lemma_sample_count_bounds(output_frame_count as int, self.tempo as int);
            vstd::arithmetic::div_mod::lemma_div_pos_is_pos(output_frame_count * self.tempo, 1000);
        }
        let wide: u128 = (output_frame_count as u128) * (self.tempo as u128) / 1000;
        if wide > u64::MAX as u128 {
            Err(AudioFXError::InvalidFrameCount)
        } else {
            Ok(wide as u64)
        }
    }

    /// The number of output frames that `input_frame_count` input frames
    /// yield: the identity at unity tempo, `input_frame_count * 1000 /
    /// tempo` otherwise.  A zero argument or a zero result is rejected.
    pub fn get_expected_output(&self, input_frame_count: u64) -> (r: Result<u64, AudioFXError>)
        requires
            self.wf(),
        ensures
            input_frame_count == 0 ==> r == Err::<u64, AudioFXError>(
                AudioFXError::InvalidFrameCount,
            ),
            input_frame_count > 0 && self.tempo == MILLI_ONE ==> r == Ok::<u64, AudioFXError>(
                input_frame_count,
            ),
            ({
                let out = input_frame_count * 1000 / (self.tempo as int);
                input_frame_count > 0 && self.tempo != MILLI_ONE ==> if out == 0 || out > u64::MAX {
                    r == Err::<u64, AudioFXError>(AudioFXError::InvalidFrameCount)
                } else {
                    r == Ok::<u64, AudioFXError>(out as u64)
                }
            }),
    {
        if input_frame_count == 0 {
            return Err(AudioFXError::InvalidFrameCount);
        }
        if self.tempo == MILLI_ONE {
            return Ok(input_frame_count);
        }
        proof {
            crate::fixed::lemma_sample_count_bounds(input_frame_count as int, 1000);
            vstd::arithmetic::div_mod::lemma_div_pos_is_pos(
                input_frame_count * 1000,
                self.tempo as int,
            );
        }
        let wide: u128 = (input_frame_count as u128) * 1000 / (self.tempo as u128);
        if wide == 0 || wide > u64::MAX as u128 {
            Err(AudioFXError::InvalidFrameCount)
        } else {
            Ok(wide as u64)
        }
    }

    /// Resets the stage and seeds its buffer with the first `frame_count`
    /// frames of `input`, recording them as available.  Fails when `input`
    /// is shorter than `frame_count` frames.
    pub fn pre_process(&mut self, input: &Vec<i16>, frame_count: u64) -> (r: Result<
        (),
        AudioFXError,
    >)
        requires
            old(self).wf(),
        ensures
            ({
                let n = frame_count * old(self).channels;
                if input.len() >= n {
                    &&& r is Ok
                    &&& final(self).queue@ == input@.subrange(0, n as int)
                    &&& final(self).frame_available == if frame_count <= i64::MAX {
                        frame_count as int
                    } else {
                        i64::MAX as int
                    }
                    &&& final(self).channels == old(self).channels
                    &&& final(self).sample_rate == old(self).sample_rate
                    &&& final(self).tempo == old(self).tempo
                    &&& final(self).octave == old(self).octave
                } else {
                    r matches Err(e) && e == (AudioFXError::InvalidInputSize {
                        expected: if n <= u64::MAX {
                            n as u64
                        } else {
                            u64::MAX
                        },
                        actual: input.len() as u64,
                    }) && *final(self) == *old(self)
                }
            }),
    {
        proof {
            crate::fixed::lemma_sample_count_bounds(frame_count as int, self.channels as int);
        }
        let needed: u128 = (frame_count as u128) * (self.channels as u128);
        if (input.len() as u128) < needed {
            return Err(
                AudioFXError::InvalidInputSize {
                    expected: if needed > u64::MAX as u128 {
                        u64::MAX
                    } else {
                        needed as u64
                    },
                    actual: input.len() as u64,
                },
            );
        }
        let n: usize = (frame_count as usize) * (self.channels as usize);
        self.queue = copy_prefix(input, n);
        self.frame_available = if frame_count <= i64::MAX as u64 {
            frame_count as i64
        } else {
            i64::MAX
        };
        Ok(())
    }

    /// Feeds `input_frame_count` frames into the buffer, then drains up to
    /// `output_frame_count` frames — as many as the buffer holds — to the
    /// front of `output`, zero-filling the remainder of the request.  The
    /// rest of `output`, and the `frame_available` account, are untouched.
    /// Fails when a buffer is shorter than its frame count requires.
    #[verifier::loop_isolation(false)]
    pub fn process(
        &mut self,
        input: &Vec<i16>,
        input_frame_count: u64,
        output: &mut Vec<i16>,
        output_frame_count: u64,
    ) -> (r: Result<(), AudioFXError>)
        requires
            old(self).wf(),
        ensures
            final(self).channels == old(self).channels,
            final(self).sample_rate == old(self).sample_rate,
            final(self).tempo == old(self).tempo,
            final(self).octave == old(self).octave,
            final(self).frame_available == old(self).frame_available,
            final(output).len() == old(output).len(),
            final(self).wf(),
            ({
                let ch = old(self).channels as int;
                let n_in = input_frame_count * ch;
                let n_out = output_frame_count * ch;
                if input.len() < n_in {
                    &&& r matches Err(e) && e == (AudioFXError::InvalidInputSize {
                        expected: if n_in <= u64::MAX {
                            n_in as u64
                        } else {
                            u64::MAX
                        },
                        actual: input.len() as u64,
                    })
                    &&& *final(self) == *old(self)
                    &&& *final(output) == *old(output)
                } else if old(output).len() < n_out {
                    &&& r matches Err(e) && e == (AudioFXError::InvalidOutputSize {
                        expected: if n_out <= u64::MAX {
                            n_out as u64
                        } else {
                            u64::MAX
                        },
                        actual: old(output).len() as u64,
                    })
                    &&& *final(self) == *old(self)
                    &&& *final(output) == *old(output)
                } else {
                    let fed = old(self).queue@ + input@.subrange(0, n_in as int);
                    let emit = if output_frame_count <= fed.len() as int / ch {
                        output_frame_count as int
                    } else {
                        fed.len() as int / ch
                    };
                    &&& r is Ok
                    &&& final(self).queue@ == fed.skip(emit * ch)
                    &&& forall|i: int| 0 <= i < emit * ch ==> final(output)@[i] == fed[i]
                    &&& forall|i: int| emit * ch <= i < n_out ==> final(output)@[i] == 0
                    &&& forall|i: int|
                        n_out <= i < old(output).len() ==> final(output)@[i] == old(output)@[i]
                }
            }),
    {
        proof {
            crate::fixed::lemma_sample_count_bounds(input_frame_count as int, self.channels as int);
            crate::fixed::lemma_sample_count_bounds(
                output_frame_count as int,
                self.channels as int,
            );
        }
        let needed_in: u128 = (input_frame_count as u128) * (self.channels as u128);
        if (input.len() as u128) < needed_in {
            return Err(
                AudioFXError::InvalidInputSize {
                    expected: if needed_in > u64::MAX as u128 {
                        u64::MAX
                    } else {
                        needed_in as u64
                    },
                    actual: input.len() as u64,
                },
            );
        }
        let needed_out: u128 = (output_frame_count as u128) * (self.channels as u128);
        if (output.len() as u128) < needed_out {
            return Err(
                AudioFXError::InvalidOutputSize {
                    expected: if needed_out > u64::MAX as u128 {
                        u64::MAX
                    } else {
                        needed_out as u64
                    },
                    actual: output.len() as u64,
                },
            );
        }
        let ghost ch = self.channels as int;
        let n_in: usize = (input_frame_count as usize) * (self.channels as usize);
        let n_out: usize = (output_frame_count as usize) * (self.channels as usize);
        let ghost fed = old(self).queue@ + input@.subrange(0, n_in as int);
        for i in 0..n_in
            invariant
                self.queue.len() == old(self).queue.len() + i,
                self.queue@ == fed.take(old(self).queue.len() + i),
                self.channels == old(self).channels,
                self.sample_rate == old(self).sample_rate,
                self.tempo == old(self).tempo,
                self.octave == old(self).octave,
                self.frame_available == old(self).frame_available,
        {
            self.queue.push(input[i]);
            proof {
                assert(self.queue@ =~= fed.take(old(self).queue.len() + i + 1));
            }
        }
        proof {
            assert(self.queue@ =~= fed);
            assert(fed.len() == old(self).queue.len() + n_in);
            vstd::arithmetic::div_mod::lemma_add_mod_noop(
                old(self).queue.len() as int,
                n_in as int,
                ch,
            );
            assert((n_in as int) % ch == (input_frame_count * ch) % ch);
            vstd::arithmetic::div_mod::lemma_mod_multiples_basic(input_frame_count as int, ch);
            assert((input_frame_count * ch) % ch == 0);
            assert(fed.len() as int % ch == 0) by {
                vstd::arithmetic::div_mod::lemma_small_mod(0nat, ch as nat);
            }
        }
        let queue_frames: usize = self.queue.len() / (self.channels as usize);
        proof {
            vstd::arithmetic::div_mod::lemma_fundamental_div_mod(fed.len() as int, ch);
        }
        let emit: u64 = if output_frame_count <= queue_frames as u64 {
            output_frame_count
        } else {
            queue_frames as u64
        };
        let e: usize = (emit as usize) * (self.channels as usize);
        proof {
            assert(emit * ch <= fed.len()) by (nonlinear_arith)
                requires
                    emit <= fed.len() as int / ch,
                    ch >= 1,
                    fed.len() as int % ch == 0,
                    fed.len() as int == ch * (fed.len() as int / ch) + fed.len() as int % ch,
            ;
            assert(emit * ch <= output_frame_count * ch) by (nonlinear_arith)
                requires
                    emit <= output_frame_count,
                    ch >= 0,
            ;
        }
        for i in 0..e
            invariant
                output.len() == old(output).len(),
                self.queue@ == fed,
                forall|j: int| 0 <= j < i ==> output@[j] == fed[j],
                forall|j: int| i <= j < old(output).len() ==> output@[j] == old(output)@[j],
        {
            output[i] = self.queue[i];
        }
        for i in e..n_out
            invariant
                output.len() == old(output).len(),
                self.queue@ == fed,
                forall|j: int| 0 <= j < e ==> output@[j] == fed[j],
                forall|j: int| e <= j < i ==> output@[j] == 0,
                forall|j: int| i <= j < old(output).len() ==> output@[j] == old(output)@[j],
        {
            output[i] = 0;
        }
        self.queue = copy_suffix(&self.queue, e);
        proof {
            vstd::arithmetic::div_mod::lemma_sub_mod_noop(fed.len() as int, e as int, ch);
            vstd::arithmetic::div_mod::lemma_mod_multiples_basic(emit as int, ch);
            assert((fed.len() - emit * ch) % ch == fed.len() as int % ch);
            assert(final(self).queue.len() as int % ch == 0);
        }
        Ok(())
    }
}

} // verus!
