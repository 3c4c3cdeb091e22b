//! Frame-count indices and their conversions to and from milliseconds.

use vstd::prelude::*;

verus! {

/// An index into a PCM stream, counted in frames.  The index is always
/// strictly positive: zero-length indices are rejected at construction.
pub struct PCMIndex {
    pub index: u64,
}

impl PCMIndex {
    /// Wraps a frame count; a zero count is rejected.
    pub fn new(index: u64) -> (r: Option<PCMIndex>)
        ensures
            index > 0 ==> r == Some(PCMIndex { index }),
            index == 0 ==> r is None,
    {
        if index > 0 {
            Some(PCMIndex { index })
        } else {
            None
        }
    }

    /// The frame count equivalent to `milliseconds` at `sample_rate`, rounded
    /// down; `None` when the count rounds to zero or does not fit in 64 bits.
    pub fn from_millis(milliseconds: u64, sample_rate: u32) -> (r: Option<PCMIndex>)
        ensures
            ({
                let frames = milliseconds * sample_rate / 1000;
                if 0 < frames <= u64::MAX {
                    r == Some(PCMIndex { index: frames as u64 })
                } else {
                    r is None
                }
            }),
    {
        proof {
            assert((milliseconds as int) * (sample_rate as int) <= u128::MAX) by (nonlinear_arith)
                requires
                    0 <= milliseconds <= u64::MAX,
                    0 <= sample_rate <= u32::MAX,
            ;
        }
        let wide: u128 = (milliseconds as u128) * (sample_rate as u128) / 1000;
        if wide == 0 || wide > u64::MAX as u128 {
            None
        } else {
            Some(PCMIndex { index: wide as u64 })
        }
    }

    /// The frame count equivalent to `seconds` at `sample_rate`; `None` when
    /// the count is zero or does not fit in 64 bits.
    pub fn from_secs(seconds: u64, sample_rate: u32) -> (r: Option<PCMIndex>)
        ensures
            ({
                let frames = seconds * sample_rate;
                if 0 < frames <= u64::MAX {
                    r == Some(PCMIndex { index: frames as u64 })
                } else {
                    r is None
                }
            }),
    {
        proof {
            assert((seconds as int) * (sample_rate as int) <= u128::MAX) by (nonlinear_arith)
                requires
                    0 <= seconds <= u64::MAX,
                    0 <= sample_rate <= u32::MAX,
            ;
        }
        let wide: u128 = (seconds as u128) * (sample_rate as u128);
        if wide == 0 || wide > u64::MAX as u128 {
            None
        } else {
            Some(PCMIndex { index: wide as u64 })
        }
    }

    /// This index expressed in milliseconds at `sample_rate`, rounded down,
    /// and saturating at `u64::MAX`.
    pub fn to_millis(&self, sample_rate: u32) -> (r: u64)
        requires
            sample_rate >= 1,
        ensures
            r == spec_frames_to_millis(self.index as int, sample_rate as int),
    {
        let wide: u128 = (self.index as u128) * 1000 / (sample_rate as u128);
        if wide > u64::MAX as u128 {
            u64::MAX
        } else {
            wide as u64
        }
    }

    /// This index expressed in whole seconds at `sample_rate`, rounded down.
    pub fn to_secs(&self, sample_rate: u32) -> (r: u64)
        requires
            sample_rate >= 1,
        ensures
            r == self.index as int / sample_rate as int,
    {
        self.index / (sample_rate as u64)
    }
}

/// The number of whole milliseconds that `frames` frames last at rate
/// `sample_rate`, saturating at `u64::MAX`.
pub open spec fn spec_frames_to_millis(frames: int, sample_rate: int) -> int {
    let ms = frames * 1000 / sample_rate;
    if ms > u64::MAX {
        u64::MAX as int
    } else {
        ms
    }
}

/// Round trip between frames and milliseconds: converting a frame index to
/// whole milliseconds and back never gains frames, and what is lost is at
/// most one millisecond's worth of frames (rounded up).  When the index
/// lasts a whole number of milliseconds the trip is exact.
pub proof fn lemma_pcm_millis_round_trip(index: u64, sample_rate: u32)
    requires
        sample_rate >= 1,
        index * 1000 <= u64::MAX,
    ensures
        ({
            let ms = spec_frames_to_millis(index as int, sample_rate as int);
            let back = ms * sample_rate / 1000;
            back <= index && index - back <= sample_rate / 1000 + 1
                && ((index * 1000) % (sample_rate as int) == 0 ==> back == index)
        }),
{
    let i = index as int;
    let sr = sample_rate as int;
    let ms = i * 1000 / sr;
    assert(0 <= ms <= i * 1000) by {
        vstd::arithmetic::div_mod::lemma_div_pos_is_pos(i * 1000, sr);
        vstd::arithmetic::div_mod::lemma_div_nonincreasing(i * 1000, sr);
    }
    assert(spec_frames_to_millis(i, sr) == ms);
    let back = ms * sr / 1000;
    let r1 = (i * 1000) % sr;
    let r2 = (ms * sr) % 1000;
    vstd::arithmetic::div_mod::lemma_fundamental_div_mod(i * 1000, sr);
    vstd::arithmetic::div_mod::lemma_mod_bound(i * 1000, sr);
    vstd::arithmetic::div_mod::lemma_fundamental_div_mod(ms * sr, 1000);
    vstd::arithmetic::div_mod::lemma_mod_bound(ms * sr, 1000);
    // 1000 * i == sr * ms + r1, and ms * sr == 1000 * back + r2, so
    // 1000 * (i - back) == r1 + r2 with 0 <= r1 < sr and 0 <= r2 < 1000.
    assert(1000 * (i - back) == r1 + r2);
    assert(back <= i);
    let q = sr / 1000;
    vstd::arithmetic::div_mod::lemma_fundamental_div_mod(sr, 1000);
    vstd::arithmetic::div_mod::lemma_mod_bound(sr, 1000);
    assert(1000 * (i - back) < 1000 * q + 2000);
    assert(i - back <= q + 1);
    if r1 == 0 {
        assert(1000 * (i - back) == r2 < 1000);
        assert(i - back == 0);
    }
}

} // verus!
