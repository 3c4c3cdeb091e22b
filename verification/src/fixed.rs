//! Fixed-point sample arithmetic.
//!
//! Gain-like parameters are carried in thousandths (a value of `1000` is
//! unity), and samples are 16-bit integer PCM.  Scaling truncates toward
//! zero, so a gain never enlarges a sample's magnitude.

use vstd::prelude::*;

verus! {

/// Unity for fixed-point parameters carried in thousandths.
pub const MILLI_ONE: u32 = 1000;

/// `sample` scaled by `milli / 1000`, truncating toward zero.
pub open spec fn spec_scale_milli(sample: int, milli: int) -> int {
    if sample >= 0 {
        sample * milli / 1000
    } else {
        -((-sample) * milli / 1000)
    }
}

/// `value / count`, truncating toward zero.
pub open spec fn spec_div_toward_zero(value: int, count: int) -> int {
    if value >= 0 {
        value / count
    } else {
        -((-value) / count)
    }
}

/// `value` clamped to the `i32` range.
pub open spec fn spec_sat_i32(value: int) -> int {
    if value > i32::MAX {
        i32::MAX as int
    } else if value < i32::MIN {
        i32::MIN as int
    } else {
        value
    }
}

/// `value` clamped to the `i16` range.
pub open spec fn spec_clamp_i16(value: int) -> int {
    if value > i16::MAX {
        i16::MAX as int
    } else if value < i16::MIN {
        i16::MIN as int
    } else {
        value
    }
}

/// A scaled magnitude never exceeds the magnitude itself.
proof fn lemma_scaled_magnitude_bound(v: int, milli: int)
    requires
        0 <= v,
        0 <= milli <= 1000,
    ensures
        v * milli / 1000 <= v,
        v * milli >= 0,
{
    assert(v * milli <= v * 1000 && v * milli >= 0) by (nonlinear_arith)
        requires
            0 <= milli <= 1000,
            v >= 0,
    ;
    vstd::arithmetic::div_mod::lemma_div_is_ordered(v * milli, v * 1000, 1000);
    assert(v * 1000 == 1000 * v);
    vstd::arithmetic::div_mod::lemma_div_multiples_vanish(v, 1000);
}

/// The sample count `frames * channels` fits comfortably in 128 bits, and
/// dominates the frame count whenever there is at least one channel.
pub proof fn lemma_sample_count_bounds(frames: int, channels: int)
    requires
        0 <= frames <= u64::MAX,
        0 <= channels <= u32::MAX,
    ensures
        0 <= frames * channels <= u64::MAX * u32::MAX,
        channels >= 1 ==> frames <= frames * channels,
{
    assert(0 <= frames * channels <= u64::MAX * u32::MAX && (channels >= 1 ==> frames <= frames
        * channels)) by (nonlinear_arith)
        requires
            0 <= frames <= u64::MAX,
            0 <= channels <= u32::MAX,
    ;
}

/// Multiplying both sides of an inequality by a channel count keeps it.
pub proof fn lemma_mul_le_mono(a: int, b: int, c: int)
    requires
        a <= b,
        0 <= c,
    ensures
        a * c <= b * c,
{
    assert(a * c <= b * c) by (nonlinear_arith)
        requires
            a <= b,
            0 <= c,
    ;
}

/// The integer square root: the greatest `s` with `s * s <= x`.
pub open spec fn spec_isqrt(x: int) -> int
    decreases x,
{
    if x < 1 {
        0
    } else {
        let r = spec_isqrt(x - 1);
        if (r + 1) * (r + 1) <= x {
            r + 1
        } else {
            r
        }
    }
}

/// The integer square root is squeezed between consecutive squares.
pub proof fn lemma_isqrt_bounds(x: int)
    requires
        x >= 0,
    ensures
        spec_isqrt(x) >= 0,
        spec_isqrt(x) * spec_isqrt(x) <= x,
        x < (spec_isqrt(x) + 1) * (spec_isqrt(x) + 1),
    decreases x,
{
    if x >= 1 {
        lemma_isqrt_bounds(x - 1);
        let r = spec_isqrt(x - 1);
        if (r + 1) * (r + 1) <= x {
            assert(x < ((r + 1) + 1) * ((r + 1) + 1)) by (nonlinear_arith)
                requires
                    x - 1 < (r + 1) * (r + 1),
                    r >= 0,
            ;
        }
    }
}

/// Nothing above the integer square root squares below `x`.
pub proof fn lemma_isqrt_unique(x: int, s: int)
    requires
        x >= 0,
        s >= 0,
        s * s <= x,
        x < (s + 1) * (s + 1),
    ensures
        s == spec_isqrt(x),
{
    lemma_isqrt_bounds(x);
    let r = spec_isqrt(x);
    if s < r {
        assert((s + 1) * (s + 1) <= r * r) by (nonlinear_arith)
            requires
                0 <= s,
                s + 1 <= r,
        ;
    }
    if s > r {
        assert((r + 1) * (r + 1) <= s * s) by (nonlinear_arith)
            requires
                0 <= r,
                r + 1 <= s,
        ;
    }
}

/// Computes the integer square root of a small radicand by walking the
/// squares upward.
#[verifier::loop_isolation(false)]
pub fn isqrt_small(x: u32) -> (r: u32)
    requires
        x <= 2_000_000,
    ensures
        r == spec_isqrt(x as int),
        r <= 1414,
{
    let mut s: u32 = 0;
    while (s + 1) * (s + 1) <= x
        invariant
            s * s <= x,
            s <= 1414,
            (s + 1) * (s + 1) <= 2_002_225,
        decreases 1415 - s,
    {
        proof {
            assert(s + 1 <= 1414) by (nonlinear_arith)
                requires
                    (s + 1) * (s + 1) <= 2_000_000,
                    s >= 0,
            ;
            assert((s + 2) * (s + 2) <= 2_002_225) by (nonlinear_arith)
                requires
                    s + 1 <= 1414,
                    s >= 0,
            ;
        }
        s = s + 1;
    }
    proof {
        lemma_isqrt_unique(x as int, s as int);
    }
    s
}

/// A gain parameter clamped to the unit interval, in thousandths.
pub open spec fn spec_clamp_unit_milli(value: int) -> int {
    if value < 0 {
        0
    } else if value > MILLI_ONE {
        MILLI_ONE as int
    } else {
        value
    }
}

/// A pan parameter clamped to `[-1000, 1000]`.
pub open spec fn spec_clamp_pan_milli(value: int) -> int {
    if value < -(MILLI_ONE as int) {
        -(MILLI_ONE as int)
    } else if value > MILLI_ONE {
        MILLI_ONE as int
    } else {
        value
    }
}

/// Clamps a gain parameter to the unit interval, in thousandths.
pub fn clamp_unit_milli(value: i64) -> (r: u32)
    ensures
        r == spec_clamp_unit_milli(value as int),
{
    if value < 0 {
        0
    } else if value > MILLI_ONE as i64 {
        MILLI_ONE
    } else {
        value as u32
    }
}

/// Clamps a pan parameter to `[-1000, 1000]`.
pub fn clamp_pan_milli(value: i64) -> (r: i32)
    ensures
        r == spec_clamp_pan_milli(value as int),
{
    if value < -(MILLI_ONE as i64) {
        -(MILLI_ONE as i32)
    } else if value > MILLI_ONE as i64 {
        MILLI_ONE as i32
    } else {
        value as i32
    }
}

/// Scaling by unity changes nothing.
pub proof fn lemma_scale_milli_unity(sample: int)
    ensures
        spec_scale_milli(sample, MILLI_ONE as int) == sample,
{
    if sample >= 0 {
        assert(sample * 1000 == 1000 * sample);
        vstd::arithmetic::div_mod::lemma_div_multiples_vanish(sample, 1000);
    } else {
        assert((-sample) * 1000 == 1000 * (-sample));
        vstd::arithmetic::div_mod::lemma_div_multiples_vanish(-sample, 1000);
    }
}

/// Scales one sample by a sub-unity fixed-point factor.
pub fn scale_milli(sample: i16, milli: u32) -> (r: i16)
    requires
        milli <= MILLI_ONE,
    ensures
        r == spec_scale_milli(sample as int, milli as int),
{
    if sample >= 0 {
        let v: u32 = sample as u32;
        proof {
            lemma_scaled_magnitude_bound(v as int, milli as int);
        }
        let scaled: u32 = v * milli / 1000;
        scaled as i16
    } else {
        let v: u32 = (-(sample as i32)) as u32;
        proof {
            lemma_scaled_magnitude_bound(v as int, milli as int);
        }
        let scaled: u32 = v * milli / 1000;
        (-(scaled as i32)) as i16
    }
}

/// Divides one accumulated sample by the number of mixed sources.
pub fn div_toward_zero_i32(value: i32, count: u32) -> (r: i32)
    requires
        count >= 1,
    ensures
        r == spec_div_toward_zero(value as int, count as int),
{
    if value >= 0 {
        let v: u32 = value as u32;
        proof {
            vstd::arithmetic::div_mod::lemma_div_nonincreasing(v as int, count as int);
        }
        (v / count) as i32
    } else {
        let v: u64 = (-(value as i64)) as u64;
        proof {
            vstd::arithmetic::div_mod::lemma_div_nonincreasing(v as int, count as int);
        }
        let q: u64 = v / (count as u64);
        (-(q as i64)) as i32
    }
}

/// Adds two accumulator samples, saturating at the `i32` range.
pub fn sat_add_i32(a: i32, b: i32) -> (r: i32)
    ensures
        r == spec_sat_i32(a + b),
{
    match a.checked_add(b) {
        Some(s) => s,
        None => {
            if a > 0 {
                i32::MAX
            } else {
                i32::MIN
            }
        },
    }
}

/// Adds two frame counts, saturating at the top of the 64-bit range.
pub fn sat_add_u64(a: u64, b: u64) -> (r: u64)
    ensures
        r == if a + b > u64::MAX {
            u64::MAX as int
        } else {
            a + b
        },
{
    if a > u64::MAX - b {
        u64::MAX
    } else {
        a + b
    }
}

/// Zeroes the first `n` cells of an accumulator.
#[verifier::loop_isolation(false)]
pub fn acc_zero_prefix(acc: &mut Vec<i32>, n: usize)
    requires
        n <= old(acc).len(),
    ensures
        final(acc).len() == old(acc).len(),
        forall|i: int| 0 <= i < n ==> final(acc)@[i] == 0i32,
        forall|i: int| n <= i < old(acc).len() ==> final(acc)@[i] == old(acc)@[i],
{
    for i in 0..n
        invariant
            acc.len() == old(acc).len(),
            forall|j: int| 0 <= j < i ==> acc@[j] == 0i32,
            forall|j: int| i <= j < old(acc).len() ==> acc@[j] == old(acc)@[j],
    {
        acc[i] = 0i32;
    }
}

/// Adds `n` samples of `src` into the accumulator, saturating.
#[verifier::loop_isolation(false)]
pub fn acc_add_samples(acc: &mut Vec<i32>, src: &Vec<i16>, n: usize)
    requires
        n <= old(acc).len(),
        n <= src.len(),
    ensures
        final(acc).len() == old(acc).len(),
        forall|i: int| 0 <= i < n ==> final(acc)@[i] == spec_sat_i32(old(acc)@[i] + src@[i]),
        forall|i: int| n <= i < old(acc).len() ==> final(acc)@[i] == old(acc)@[i],
{
    for i in 0..n
        invariant
            acc.len() == old(acc).len(),
            forall|j: int| 0 <= j < i ==> acc@[j] == spec_sat_i32(old(acc)@[j] + src@[j]),
            forall|j: int| i <= j < old(acc).len() ==> acc@[j] == old(acc)@[j],
    {
        let s = sat_add_i32(acc[i], src[i] as i32);
        acc[i] = s;
    }
}

/// Packs the first `n` accumulator cells into 16-bit samples, clamping.
#[verifier::loop_isolation(false)]
pub fn pack_acc_clamped(acc: &Vec<i32>, out: &mut Vec<i16>, n: usize)
    requires
        n <= acc.len(),
        n <= old(out).len(),
    ensures
        final(out).len() == old(out).len(),
        forall|i: int| 0 <= i < n ==> final(out)@[i] == spec_clamp_i16(acc@[i] as int),
        forall|i: int| n <= i < old(out).len() ==> final(out)@[i] == old(out)@[i],
{
    for i in 0..n
        invariant
            out.len() == old(out).len(),
            forall|j: int| 0 <= j < i ==> out@[j] == spec_clamp_i16(acc@[j] as int),
            forall|j: int| i <= j < old(out).len() ==> out@[j] == old(out)@[j],
    {
        let s = clamp_to_i16(acc[i]);
        out[i] = s;
    }
}

/// Divides the first `n` samples in place by the number of mixed sources.
#[verifier::loop_isolation(false)]
pub fn divide_samples(buffer: &mut Vec<i16>, n: usize, count: u32)
    requires
        n <= old(buffer).len(),
        count >= 1,
    ensures
        final(buffer).len() == old(buffer).len(),
        forall|i: int|
            0 <= i < n ==> final(buffer)@[i] == spec_div_toward_zero(
                old(buffer)@[i] as int,
                count as int,
            ),
        forall|i: int| n <= i < old(buffer).len() ==> final(buffer)@[i] == old(buffer)@[i],
{
    for i in 0..n
        invariant
            buffer.len() == old(buffer).len(),
            forall|j: int|
                0 <= j < i ==> buffer@[j] == spec_div_toward_zero(
                    old(buffer)@[j] as int,
                    count as int,
                ),
            forall|j: int| i <= j < old(buffer).len() ==> buffer@[j] == old(buffer)@[j],
    {
        let q = div_toward_zero_i32(buffer[i] as i32, count);
        proof {
            let v = old(buffer)@[i as int] as int;
            if v >= 0 {
                vstd::arithmetic::div_mod::lemma_div_nonincreasing(v, count as int);
                vstd::arithmetic::div_mod::lemma_div_pos_is_pos(v, count as int);
            } else {
                vstd::arithmetic::div_mod::lemma_div_nonincreasing(-v, count as int);
                vstd::arithmetic::div_mod::lemma_div_pos_is_pos(-v, count as int);
            }
        }
        buffer[i] = q as i16;
    }
}

/// Zeroes the first `n` samples of a buffer.
#[verifier::loop_isolation(false)]
pub fn zero_prefix(buffer: &mut Vec<i16>, n: usize)
    requires
        n <= old(buffer).len(),
    ensures
        final(buffer).len() == old(buffer).len(),
        forall|i: int| 0 <= i < n ==> final(buffer)@[i] == 0i16,
        forall|i: int| n <= i < old(buffer).len() ==> final(buffer)@[i] == old(buffer)@[i],
{
    for i in 0..n
        invariant
            buffer.len() == old(buffer).len(),
            forall|j: int| 0 <= j < i ==> buffer@[j] == 0i16,
            forall|j: int| i <= j < old(buffer).len() ==> buffer@[j] == old(buffer)@[j],
    {
        buffer[i] = 0i16;
    }
}

/// A silent buffer of `n` samples.
#[verifier::loop_isolation(false)]
pub fn zero_buffer(n: usize) -> (r: Vec<i16>)
    ensures
        r.len() == n,
        forall|i: int| 0 <= i < n ==> r@[i] == 0i16,
{
    let mut out: Vec<i16> = Vec::new();
    for i in 0..n
        invariant
            out.len() == i,
            forall|j: int| 0 <= j < i ==> out@[j] == 0i16,
    {
        out.push(0i16);
    }
    out
}

/// Copies the first `n` samples of `src` into a fresh buffer.
#[verifier::loop_isolation(false)]
pub fn copy_prefix(src: &Vec<i16>, n: usize) -> (r: Vec<i16>)
    requires
        n <= src.len(),
    ensures
        r@ == src@.subrange(0, n as int),
{
    let mut out: Vec<i16> = Vec::new();
    for i in 0..n
        invariant
            out@ == src@.subrange(0, i as int),
    {
        out.push(src[i]);
        proof {
            assert(out@ =~= src@.subrange(0, i + 1));
        }
    }
    out
}

/// Copies everything from sample `start` on of `src` into a fresh buffer.
#[verifier::loop_isolation(false)]
pub fn copy_suffix(src: &Vec<i16>, start: usize) -> (r: Vec<i16>)
    requires
        start <= src.len(),
    ensures
        r@ == src@.skip(start as int),
{
    let mut out: Vec<i16> = Vec::new();
    let n = src.len();
    for i in start..n
        invariant
            out@ == src@.subrange(start as int, i as int),
    {
        out.push(src[i]);
        proof {
            assert(out@ =~= src@.subrange(start as int, i + 1));
        }
    }
    proof {
        assert(src@.subrange(start as int, src.len() as int) =~= src@.skip(start as int));
    }
    out
}

/// `value` clamped to the `i64` range.
pub open spec fn spec_sat_i64(value: int) -> int {
    if value > i64::MAX {
        i64::MAX as int
    } else if value < i64::MIN {
        i64::MIN as int
    } else {
        value
    }
}

/// Adds two frame accounts, saturating at the `i64` range.
pub fn sat_add_i64(a: i64, b: i64) -> (r: i64)
    ensures
        r == spec_sat_i64(a + b),
{
    match a.checked_add(b) {
        Some(s) => s,
        None => {
            if a > 0 {
                i64::MAX
            } else {
                i64::MIN
            }
        },
    }
}

/// Copies the first `n` samples of `src` onto the front of `dst`, leaving
/// the rest of `dst` as it was.
#[verifier::loop_isolation(false)]
pub fn copy_into(src: &Vec<i16>, dst: &mut Vec<i16>, n: usize)
    requires
        n <= src.len(),
        n <= old(dst).len(),
    ensures
        final(dst).len() == old(dst).len(),
        forall|i: int| 0 <= i < n ==> final(dst)@[i] == src@[i],
        forall|i: int| n <= i < old(dst).len() ==> final(dst)@[i] == old(dst)@[i],
{
    for i in 0..n
        invariant
            dst.len() == old(dst).len(),
            forall|j: int| 0 <= j < i ==> dst@[j] == src@[j],
            forall|j: int| i <= j < old(dst).len() ==> dst@[j] == old(dst)@[j],
    {
        dst[i] = src[i];
    }
}

/// Clamps an accumulator sample back to the 16-bit PCM range.
pub fn clamp_to_i16(value: i32) -> (r: i16)
    ensures
        r == spec_clamp_i16(value as int),
{
    if value > i16::MAX as i32 {
        i16::MAX
    } else if value < i16::MIN as i32 {
        i16::MIN
    } else {
        value as i16
    }
}

} // verus!
