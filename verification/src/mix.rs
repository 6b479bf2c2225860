//! Down-mixing the integer sample encodings: one interleaved frame becomes
//! one mono value, the mean of its channels brought into the range of -1 to
//! 1. The value is kept exact, as a ratio of two integers; turning it into a
//! floating-point number is left to the caller.

use vstd::prelude::*;

verus! {

/// The magnitude by which signed 16-bit samples are divided.
pub const I16_SCALE: u32 = 32767;

/// The midpoint of unsigned 16-bit samples, which is also their half-range.
pub const U16_MIDPOINT: u32 = 32768;

/// A mono value as the exact ratio `numerator / denominator`.
#[derive(Clone, Copy, Debug, PartialEq, Eq, Structural)]
pub struct Mono {
    pub numerator: i128,
    /// Never zero for a value that came from a frame.
    pub denominator: i128,
}

/// The sum of the samples of a frame.
pub open spec fn total_i16(frame: Seq<i16>) -> int
    decreases frame.len(),
{
    if frame.len() == 0 {
        0
    } else {
        total_i16(frame.drop_last()) + frame.last()
    }
}

/// The sum of the samples of a frame.
pub open spec fn total_u16(frame: Seq<u16>) -> int
    decreases frame.len(),
{
    if frame.len() == 0 {
        0
    } else {
        total_u16(frame.drop_last()) + frame.last()
    }
}

/// The mean of a frame of signed samples, each divided by `I16_SCALE`:
/// the sum of the samples over the scale times their number.
pub open spec fn mean_i16(frame: Seq<i16>) -> (int, int) {
    (total_i16(frame), frame.len() * I16_SCALE)
}

/// The mean of a frame of unsigned samples, each lowered by the midpoint and
/// divided by it: the sum of the samples less the midpoint times their
/// number, over the midpoint times their number.
pub open spec fn mean_u16(frame: Seq<u16>) -> (int, int) {
    (total_u16(frame) - frame.len() * U16_MIDPOINT, frame.len() * U16_MIDPOINT)
}

/// The sum of a frame lies between the least and the greatest sample value
/// times the number of samples.
proof fn lemma_total_i16_bounds(frame: Seq<i16>)
    ensures
        -32768 * frame.len() <= total_i16(frame) <= 32767 * frame.len(),
    decreases frame.len(),
{
    if frame.len() > 0 {
        lemma_total_i16_bounds(frame.drop_last());
    }
}

/// The sum of a frame lies between zero and the greatest sample value times
/// the number of samples.
proof fn lemma_total_u16_bounds(frame: Seq<u16>)
    ensures
        0 <= total_u16(frame) <= 65535 * frame.len(),
    decreases frame.len(),
{
    if frame.len() > 0 {
        lemma_total_u16_bounds(frame.drop_last());
    }
}

/// Down-mixes one frame of signed 16-bit samples. The frame has a sample for
/// each channel, so at least one.
pub fn downmix_i16(frame: &[i16]) -> (m: Mono)
    requires
        frame@.len() >= 1,
    ensures
        (m.numerator as int, m.denominator as int) == mean_i16(frame@),
        m.denominator > 0,
{
    let mut total: i128 = 0;
    let mut i: usize = 0;
    while i < frame.len()
        invariant
            i <= frame.len(),
            total == total_i16(frame@.subrange(0, i as int)),
            -32768 * i <= total <= 32767 * i,
        decreases frame.len() - i,
    {
        proof {
            let upto = frame@.subrange(0, i + 1);
            assert(upto.drop_last() =~= frame@.subrange(0, i as int));
        }
        total = total + frame[i] as i128;
        i = i + 1;
    }
    assert(frame@.subrange(0, i as int) =~= frame@);
    Mono { numerator: total, denominator: frame.len() as i128 * I16_SCALE as i128 }
}

/// Down-mixes one frame of unsigned 16-bit samples. The frame has a sample
/// for each channel, so at least one.
pub fn downmix_u16(frame: &[u16]) -> (m: Mono)
    requires
        frame@.len() >= 1,
    ensures
        (m.numerator as int, m.denominator as int) == mean_u16(frame@),
        m.denominator > 0,
{
    let mut total: i128 = 0;
    let mut i: usize = 0;
    while i < frame.len()
        invariant
            i <= frame.len(),
            total == total_u16(frame@.subrange(0, i as int)),
            0 <= total <= 65535 * i,
        decreases frame.len() - i,
    {
        proof {
            let upto = frame@.subrange(0, i + 1);
            assert(upto.drop_last() =~= frame@.subrange(0, i as int));
        }
        total = total + frame[i] as i128;
        i = i + 1;
    }
    assert(frame@.subrange(0, i as int) =~= frame@);
    let offset = frame.len() as i128 * U16_MIDPOINT as i128;
    Mono { numerator: total - offset, denominator: offset }
}

/// Every sample of `frame` is `value`.
pub open spec fn all_i16(frame: Seq<i16>, value: i16) -> bool {
    forall|i: int| 0 <= i < frame.len() ==> #[trigger] frame[i] == value
}

/// Every sample of `frame` is `value`.
pub open spec fn all_u16(frame: Seq<u16>, value: u16) -> bool {
    forall|i: int| 0 <= i < frame.len() ==> #[trigger] frame[i] == value
}

/// A frame whose channels all carry the same signed sample mixes down to
/// that sample over the scale, whatever the number of channels.
pub proof fn lemma_equal_channels_keep_their_value_i16(frame: Seq<i16>, value: i16)
    requires
        frame.len() >= 1,
        all_i16(frame, value),
    ensures
        mean_i16(frame).0 * I16_SCALE == value * mean_i16(frame).1,
    decreases frame.len(),
{
    lemma_total_of_equal_i16(frame, value);
    assert(total_i16(frame) * 32767 == value * (frame.len() * 32767)) by (nonlinear_arith)
        requires
            total_i16(frame) == value * frame.len(),
    ;
}

/// A frame whose channels all carry the same unsigned sample mixes down to
/// that sample, lowered by the midpoint, over the midpoint.
pub proof fn lemma_equal_channels_keep_their_value_u16(frame: Seq<u16>, value: u16)
    requires
        frame.len() >= 1,
        all_u16(frame, value),
    ensures
        mean_u16(frame).0 * U16_MIDPOINT == (value - U16_MIDPOINT) * mean_u16(frame).1,
    decreases frame.len(),
{
    lemma_total_of_equal_u16(frame, value);
    assert((total_u16(frame) - frame.len() * 32768) * 32768 == (value - 32768) * (frame.len()
        * 32768)) by (nonlinear_arith)
        requires
            total_u16(frame) == value * frame.len(),
    ;
}

/// The sum of a frame of equal samples is the sample times their number.
proof fn lemma_total_of_equal_i16(frame: Seq<i16>, value: i16)
    requires
        all_i16(frame, value),
    ensures
        total_i16(frame) == value * frame.len(),
    decreases frame.len(),
{
    if frame.len() > 0 {
        lemma_total_of_equal_i16(frame.drop_last(), value);
        assert(value * (frame.len() - 1) + value == value * frame.len()) by (nonlinear_arith);
    }
}

/// The sum of a frame of equal samples is the sample times their number.
proof fn lemma_total_of_equal_u16(frame: Seq<u16>, value: u16)
    requires
        all_u16(frame, value),
    ensures
        total_u16(frame) == value * frame.len(),
    decreases frame.len(),
{
    if frame.len() > 0 {
        lemma_total_of_equal_u16(frame.drop_last(), value);
        assert(value * (frame.len() - 1) + value == value * frame.len()) by (nonlinear_arith);
    }
}

/// A frame of signed samples mixes down to no less than -32768/32767 and no
/// more than 1.
pub proof fn lemma_signed_mean_is_in_range(frame: Seq<i16>)
    requires
        frame.len() >= 1,
    ensures
        -32768 * frame.len() <= mean_i16(frame).0 <= mean_i16(frame).1,
{
    lemma_total_i16_bounds(frame);
}

/// A frame of unsigned samples mixes down to no less than -1 and to less
/// than 1.
pub proof fn lemma_unsigned_mean_is_in_range(frame: Seq<u16>)
    requires
        frame.len() >= 1,
    ensures
        -mean_u16(frame).1 <= mean_u16(frame).0 < mean_u16(frame).1,
{
    lemma_total_u16_bounds(frame);
}

} // verus!
