//! A finite, seekable source of interleaved PCM frames.

use vstd::prelude::*;

verus! {

#[derive(Debug, Clone, PartialEq)]
pub enum AudioReaderError {
    FileNotFound(String),
    OggError(AudioOggError),
    InitializationError(i32),
    InvalidFileFormat,
    InvalidPCMLength,
    InvalidOperation,
    PCMLengthTooLarge,
    BufferTooSmall { expected: u64, actual: u64 },
    SeekError(i32),
}

#[derive(Debug, Clone, PartialEq)]
pub enum AudioOggError {
    InvalidFileFormat,
    UnknownFormat,
    ReadError(&'static str),
}

/// Decoded interleaved PCM with a read position.  `data` holds exactly
/// `pcm_length * channels` samples, and the position never passes the end.
#[derive(Clone)]
pub struct AudioReader {
    pub data: Vec<i16>,
    pub sample_rate: u32,
    pub channels: u32,
    pub pcm_length: u64,
    pub position: u64,
}

impl AudioReader {
    pub open spec fn wf(&self) -> bool {
        &&& self.channels >= 1
        &&& self.sample_rate >= 1
        &&& self.data.len() == self.pcm_length * self.channels
        &&& self.position <= self.pcm_length
    }

    /// The frames between the read position and the end of the stream.
    pub fn available_frames(&self) -> (r: u64)
        requires
            self.wf(),
        ensures
            r == self.pcm_length - self.position,
    {
        self.pcm_length - self.position
    }

    /// Wraps raw interleaved PCM.  The buffer must carry at least
    /// `pcm_length * channels` samples — extra samples are dropped — and
    /// the channel count and sample rate must not be zero.
    pub fn load_audio_buffer(buffer: &Vec<i16>, sample_rate: u32, channels: u32, pcm_length: u64)
        -> (r: Result<AudioReader, AudioReaderError>)
        ensures
            ({
                let valid = channels >= 1 && sample_rate >= 1 && buffer.len() >= pcm_length
                    * channels;
                if valid {
                    r matches Ok(rd) && rd.wf() && rd.sample_rate == sample_rate && rd.channels
                        == channels && rd.pcm_length == pcm_length && rd.position == 0 && rd.data@
                        == buffer@.subrange(0, (pcm_length * channels) as int)
                } else {
                    r == Err::<AudioReader, AudioReaderError>(AudioReaderError::InvalidPCMLength)
                }
            }),
    {
        if channels < 1 || sample_rate < 1 {
            return Err(AudioReaderError::InvalidPCMLength);
        }
        proof {
            crate::fixed::lemma_sample_count_bounds(pcm_length as int, channels as int);
        }
        let needed: u128 = (pcm_length as u128) * (channels as u128);
        if (buffer.len() as u128) < needed {
            return Err(AudioReaderError::InvalidPCMLength);
        }
        let n: usize = (pcm_length as usize) * (channels as usize);
        let data = crate::fixed::copy_prefix(buffer, n);
        Ok(AudioReader { data, sample_rate, channels, pcm_length, position: 0 })
    }

    /// Decodes an in-memory audio file.  Ogg Vorbis is decoded here; an
    /// Ogg container with any other codec is refused as an unknown format,
    /// and a buffer without the Ogg capture pattern is refused outright —
    /// other containers belong to the host's decoders, not to this
    /// library.
    pub fn load_file_buffer(buffer: &Vec<u8>) -> (r: Result<AudioReader, AudioReaderError>)
        ensures
            !crate::ogg::spec_is_ogg(buffer@) ==> r == Err::<AudioReader, AudioReaderError>(
                AudioReaderError::InvalidFileFormat,
            ),
            crate::ogg::spec_is_ogg(buffer@) && buffer.len() >= 0x24 && !crate::ogg::spec_has_vorbis_tag(
                buffer@,
            ) ==> r == Err::<AudioReader, AudioReaderError>(
                AudioReaderError::OggError(AudioOggError::UnknownFormat),
            ),
            crate::ogg::spec_is_ogg(buffer@) && buffer.len() >= 0x24
                && crate::ogg::spec_has_vorbis_tag(buffer@) ==> {
                &&& crate::ogg::vorbis_decode_of(buffer@) is None ==> r is Err
                &&& (crate::ogg::vorbis_decode_of(buffer@) matches Some(m) ==> (r matches Ok(rd)
                    && rd.sample_rate == m.1 && rd.channels == m.2 && rd.pcm_length
                    == m.0.len() as int / m.2 as int && rd.data@ == m.0.subrange(
                    0,
                    rd.pcm_length * m.2,
                )))
            },
            r matches Ok(rd) ==> rd.wf() && rd.position == 0,
    {
        if !crate::ogg::is_ogg_buffer(buffer) {
            return Err(AudioReaderError::InvalidFileFormat);
        }
        match crate::ogg::get_ogg_type(buffer) {
            Ok(crate::ogg::OggType::Vorbis) => crate::ogg::read_ogg_vorbis(buffer),
            Ok(_) => Err(AudioReaderError::OggError(AudioOggError::UnknownFormat)),
            Err(e) => Err(AudioReaderError::OggError(e)),
        }
    }

    /// Reads up to `size` frames into the front of `buffer`, advancing the
    /// position by the frames read; the rest of `buffer` is untouched.
    /// Whenever `size` frames are available, exactly `size` frames are
    /// read.  A zero request is rejected, as is a buffer shorter than
    /// `size * channels` samples.
    #[verifier::loop_isolation(false)]
    pub fn read(&mut self, buffer: &mut Vec<i16>, size: u64) -> (r: Result<u64, AudioReaderError>)
        requires
            old(self).wf(),
        ensures
            final(self).wf(),
            final(self).data == old(self).data,
            final(self).sample_rate == old(self).sample_rate,
            final(self).channels == old(self).channels,
            final(self).pcm_length == old(self).pcm_length,
            final(buffer).len() == old(buffer).len(),
            size == 0 ==> r == Err::<u64, AudioReaderError>(AudioReaderError::InvalidPCMLength)
                && *final(self) == *old(self) && *final(buffer) == *old(buffer),
            ({
                let ch = old(self).channels as int;
                let n = size * ch;
                size > 0 && old(buffer).len() < n ==> (r matches Err(e) && e
                    == (AudioReaderError::BufferTooSmall {
                    expected: if n <= u64::MAX {
                        n as u64
                    } else {
                        u64::MAX
                    },
                    actual: old(buffer).len() as u64,
                }) && *final(self) == *old(self) && *final(buffer) == *old(buffer))
            }),
            ({
                let ch = old(self).channels as int;
                let avail = old(self).pcm_length - old(self).position;
                let got = if size <= avail {
                    size as int
                } else {
                    avail
                };
                size > 0 && old(buffer).len() >= size * ch ==> {
                    &&& r == Ok::<u64, AudioReaderError>(got as u64)
                    &&& final(self).position == old(self).position + got
                    &&& forall|i: int|
                        0 <= i < got * ch ==> final(buffer)@[i] == old(self).data@[old(
                            self,
                        ).position * ch + i]
                    &&& forall|i: int|
                        got * ch <= i < old(buffer).len() ==> final(buffer)@[i] == old(buffer)@[i]
                }
            }),
    {
        if size == 0 {
            return Err(AudioReaderError::InvalidPCMLength);
        }
        proof {
            crate::fixed::lemma_sample_count_bounds(size as int, self.channels as int);
        }
        let needed: u128 = (size as u128) * (self.channels as u128);
        if (buffer.len() as u128) < needed {
            return Err(
                AudioReaderError::BufferTooSmall {
                    expected: if needed > u64::MAX as u128 {
                        u64::MAX
                    } else {
                        needed as u64
                    },
                    actual: buffer.len() as u64,
                },
            );
        }
        let avail: u64 = self.pcm_length - self.position;
        let got: u64 = if size <= avail {
            size
        } else {
            avail
        };
        let ghost ch = self.channels as int;
        proof {
            assert(got * ch <= size * ch) by (nonlinear_arith)
                requires
                    0 <= got <= size,
                    ch >= 0,
            ;
            assert(self.position * ch + got * ch <= self.pcm_length * ch) by (nonlinear_arith)
                requires
                    self.position + got <= self.pcm_length,
                    ch >= 0,
            ;
            crate::fixed::lemma_sample_count_bounds(self.position as int, self.channels as int);
        }
        let n: usize = (got as usize) * (self.channels as usize);
        let base: usize = (self.position as usize) * (self.channels as usize);
        for i in 0..n
            invariant
                buffer.len() == old(buffer).len(),
                forall|j: int| 0 <= j < i ==> buffer@[j] == self.data@[base + j],
                forall|j: int| i <= j < old(buffer).len() ==> buffer@[j] == old(buffer)@[j],
        {
            buffer[i] = self.data[base + i];
        }
        self.position = self.position + got;
        Ok(got)
    }

    /// Moves the read position; a position past the end is rejected.
    pub fn seek(&mut self, position: u64) -> (r: Result<(), AudioReaderError>)
        requires
            old(self).wf(),
        ensures
            final(self).wf(),
            final(self).data == old(self).data,
            final(self).sample_rate == old(self).sample_rate,
            final(self).channels == old(self).channels,
            final(self).pcm_length == old(self).pcm_length,
            position <= old(self).pcm_length ==> r is Ok && final(self).position == position,
            position > old(self).pcm_length ==> r == Err::<(), AudioReaderError>(
                AudioReaderError::InvalidOperation,
            ) && *final(self) == *old(self),
    {
        if position > self.pcm_length {
            return Err(AudioReaderError::InvalidOperation);
        }
        self.position = position;
        Ok(())
    }
}

/// Readers never point past the end of their stream.
pub proof fn lemma_reader_position_in_bounds(reader: &AudioReader)
    requires
        reader.wf(),
    ensures
        0 <= reader.position <= reader.pcm_length,
{
}

} // verus!
