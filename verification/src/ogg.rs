//! Ogg container sniffing and Vorbis decoding.
//!
//! Format detection is plain byte logic: an Ogg capture pattern at the
//! start, and a codec tag at offset `0x1C`.  Decoding itself is done by
//! the `lewton` crate behind one trusted wrapper whose whole result is
//! named — a function of the bytes alone — so the reader assembly around
//! it carries an exact contract.

use vstd::prelude::*;

use crate::reader::AudioOggError;
use crate::reader::AudioReader;
use crate::reader::AudioReaderError;

verus! {

/// The codec carried by an Ogg container.
#[derive(Debug, Clone, Copy, PartialEq, Eq, Structural)]
pub enum OggType {
    Unknown,
    Vorbis,
    Opus,
}

/// The buffer begins with the Ogg capture pattern `OggS`.
pub open spec fn spec_is_ogg(bytes: Seq<u8>) -> bool {
    &&& bytes.len() >= 4
    &&& bytes[0] == 0x4fu8
    &&& bytes[1] == 0x67u8
    &&& bytes[2] == 0x67u8
    &&& bytes[3] == 0x53u8
}

/// The eight bytes at `0x1C` begin with the Opus codec tag `OpusHead`.
pub open spec fn spec_has_opus_tag(bytes: Seq<u8>) -> bool {
    &&& bytes.len() >= 0x24
    &&& bytes[0x1c] == 0x4fu8
    &&& bytes[0x1d] == 0x70u8
    &&& bytes[0x1e] == 0x75u8
    &&& bytes[0x1f] == 0x73u8
    &&& bytes[0x20] == 0x48u8
    &&& bytes[0x21] == 0x65u8
    &&& bytes[0x22] == 0x61u8
    &&& bytes[0x23] == 0x64u8
}

/// The eight bytes at `0x1C` begin with the Vorbis codec tag `\x01vorbis`.
pub open spec fn spec_has_vorbis_tag(bytes: Seq<u8>) -> bool {
    &&& bytes.len() >= 0x24
    &&& bytes[0x1c] == 0x01u8
    &&& bytes[0x1d] == 0x76u8
    &&& bytes[0x1e] == 0x6fu8
    &&& bytes[0x1f] == 0x72u8
    &&& bytes[0x20] == 0x62u8
    &&& bytes[0x21] == 0x69u8
    &&& bytes[0x22] == 0x73u8
}

/// Whether the buffer begins with the Ogg capture pattern.
pub fn is_ogg_buffer(buffer: &Vec<u8>) -> (r: bool)
    ensures
        r == spec_is_ogg(buffer@),
{
    if buffer.len() < 4 {
        return false;
    }
    buffer[0] == 0x4f && buffer[1] == 0x67 && buffer[2] == 0x67 && buffer[3] == 0x53
}

/// Identifies the codec inside an Ogg container from the tag at `0x1C`.
/// A buffer without the capture pattern is rejected; one too short to
/// carry a tag cannot be read.
pub fn get_ogg_type(buffer: &Vec<u8>) -> (r: Result<OggType, AudioOggError>)
    ensures
        !spec_is_ogg(buffer@) ==> r == Err::<OggType, AudioOggError>(
            AudioOggError::InvalidFileFormat,
        ),
        spec_is_ogg(buffer@) && buffer.len() < 0x24 ==> (r matches Err(e) && e matches
            AudioOggError::ReadError(_)),
        spec_is_ogg(buffer@) && buffer.len() >= 0x24 ==> r == Ok::<OggType, AudioOggError>(
            if spec_has_opus_tag(buffer@) {
                OggType::Opus
            } else if spec_has_vorbis_tag(buffer@) {
                OggType::Vorbis
            } else {
                OggType::Unknown
            },
        ),
{
    if !is_ogg_buffer(buffer) {
        return Err(AudioOggError::InvalidFileFormat);
    }
    if buffer.len() < 0x24 {
        return Err(AudioOggError::ReadError("buffer too short for a codec tag"));
    }
    if buffer[0x1c] == 0x4f && buffer[0x1d] == 0x70 && buffer[0x1e] == 0x75 && buffer[0x1f] == 0x73
        && buffer[0x20] == 0x48 && buffer[0x21] == 0x65 && buffer[0x22] == 0x61 && buffer[0x23]
        == 0x64 {
        return Ok(OggType::Opus);
    }
    if buffer[0x1c] == 0x01 && buffer[0x1d] == 0x76 && buffer[0x1e] == 0x6f && buffer[0x1f] == 0x72
        && buffer[0x20] == 0x62 && buffer[0x21] == 0x69 && buffer[0x22] == 0x73 {
        return Ok(OggType::Vorbis);
    }
    Ok(OggType::Unknown)
}

/// What decoding an Ogg Vorbis stream yields — the interleaved samples,
/// the sample rate and the channel count, a function of the bytes alone —
/// or nothing when the stream is not a well-formed Vorbis stream.
pub uninterp spec fn vorbis_decode_of(bytes: Seq<u8>) -> Option<(Seq<i16>, u32, u32)>;

/// Relies on lewton's `OggStreamReader::new` and `read_dec_packet_itl`:
/// the first reads and validates the three Vorbis headers — rejecting a
/// zero sample rate or channel count — and the second decompresses one
/// packet of interleaved samples at a time until the stream ends.  The
/// decode depends on the bytes alone, which is what names its result.
#[verifier::external_body]
fn vorbis_decode(bytes: &Vec<u8>) -> (r: Option<(Vec<i16>, u32, u32)>)
    ensures
        r is Some <==> vorbis_decode_of(bytes@) is Some,
        r matches Some(d) ==> (vorbis_decode_of(bytes@) matches Some(m) && d.0@ == m.0 && d.1
            == m.1 && d.2 == m.2 && d.1 >= 1 && d.2 >= 1),
{
    let mut rdr = lewton::inside_ogg::OggStreamReader::new(
        std::io::Cursor::new(bytes.clone()),
    ).ok()?;
    let mut samples: Vec<i16> = Vec::new();
    while let Ok(Some(mut packet)) = rdr.read_dec_packet_itl() {
        samples.append(&mut packet);
    }
    let sample_rate = rdr.ident_hdr.audio_sample_rate;
    let channels = rdr.ident_hdr.audio_channels as u32;
    Some((samples, sample_rate, channels))
}

/// Decodes a whole Ogg Vorbis stream into a reader positioned at its
/// start, carrying exactly the decoded samples — whole frames of them —
/// at the decoded rate and width.  A stream the decoder rejects is a read
/// error.
pub fn read_ogg_vorbis(buffer: &Vec<u8>) -> (r: Result<AudioReader, AudioReaderError>)
    ensures
        vorbis_decode_of(buffer@) is None ==> r == Err::<AudioReader, AudioReaderError>(
            AudioReaderError::OggError(AudioOggError::ReadError("malformed Ogg Vorbis stream")),
        ),
        vorbis_decode_of(buffer@) matches Some(m) ==> (r matches Ok(rd) && rd.wf() && rd.position
            == 0 && rd.sample_rate == m.1 && rd.channels == m.2 && rd.pcm_length == m.0.len() as int
            / m.2 as int && rd.data@ == m.0.subrange(0, rd.pcm_length * m.2)),
{
    let decoded = match vorbis_decode(buffer) {
        Some(d) => d,
        None => {
            return Err(
                AudioReaderError::OggError(AudioOggError::ReadError("malformed Ogg Vorbis stream")),
            );
        },
    };
    let samples = decoded.0;
    let sample_rate = decoded.1;
    let channels = decoded.2;
    let pcm_length: u64 = (samples.len() / (channels as usize)) as u64;
    proof {
        vstd::arithmetic::div_mod::lemma_fundamental_div_mod(
            samples.len() as int,
            channels as int,
        );
        vstd::arithmetic::div_mod::lemma_mod_bound(samples.len() as int, channels as int);
    }
    proof {
        let len = samples.len() as int;
        let ch = channels as int;
        assert(ch * (len / ch) <= len);
        assert((len / ch) * ch == ch * (len / ch));
    }
    let keep: usize = (pcm_length as usize) * (channels as usize);
    let data = crate::fixed::copy_prefix(&samples, keep);
    Ok(AudioReader { data, sample_rate, channels, pcm_length, position: 0 })
}

} // verus!
