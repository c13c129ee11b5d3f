//! The data model: a tagged PCM sample buffer in one of four representations,
//! the channel descriptor that travels with it, and the spec-level meaning of
//! the polarity transform on each representation.

use vstd::prelude::*;

verus! {

/// The positive full-scale value of a signed 16-bit sample.
pub const FULL_SCALE_POS: i16 = 32767;

/// The negative full-scale value of a signed 16-bit sample.
pub const FULL_SCALE_NEG: i16 = -32768;

/// The silence value of the unsigned 8-bit representation. Unsigned PCM is
/// centered here, not at zero.
pub const U8_CENTER: u8 = 128;

/// The IEEE 754 single-precision bit pattern of positive infinity. Every bit
/// pattern from 1 up to this one, inclusive, denotes a value strictly greater
/// than zero (positive subnormals, normals, and positive infinity); everything
/// above it is a NaN or carries the sign bit.
pub const F32_BITS_POS_INF: u32 = 0x7f80_0000;

/// Channel count and sampling rate of a buffer. Both must be carried unchanged
/// from the input to the output and to the loudness measurement.
#[derive(Clone, Copy, PartialEq, Eq, Structural, Debug)]
pub struct ChannelDesc {
    /// Number of interleaved channels; positive for any meaningful buffer.
    pub channel_count: u16,
    /// Sampling rate in Hz; positive for any meaningful buffer.
    pub sampling_rate: u32,
}

/// A sample buffer in exactly one of four representations, or the marker that
/// the container held no audio data at all.
///
/// Samples of different channels are interleaved in frame-major order; the
/// transform maps each sample independently, so the interleaving is never
/// inspected, only preserved.
///
/// The 24-bit representation arrives widened to `i32`, as container readers
/// deliver it. The float representation is held as IEEE 754 single-precision
/// bit patterns (`f32::to_bits` of each sample): the only thing the transform
/// reads of a float sample is whether it is strictly greater than zero, and on
/// bit patterns that is plain integer logic.
#[derive(Clone, Debug)]
pub enum SampleData {
    U8(Vec<u8>),
    I16(Vec<i16>),
    I24(Vec<i32>),
    F32(Vec<u32>),
    Empty,
}

/// The two-way polarity decision: a sample strictly above its representation's
/// center maps to positive full scale, everything else (the center itself
/// included) to negative full scale.
pub open spec fn polarity(above_center: bool) -> i16 {
    if above_center {
        FULL_SCALE_POS
    } else {
        FULL_SCALE_NEG
    }
}

/// An unsigned 8-bit sample is above center when it is strictly greater than
/// 128, the representation's silence value. A raw zero threshold would be
/// wrong for unsigned data.
pub open spec fn u8_above_center(v: u8) -> bool {
    v > U8_CENTER
}

/// A signed 16-bit sample is above center when strictly greater than zero;
/// zero itself maps to negative full scale.
pub open spec fn i16_above_center(v: i16) -> bool {
    v > 0
}

/// A 24-bit sample, widened to `i32`, is above center when strictly greater
/// than zero.
pub open spec fn i24_above_center(v: i32) -> bool {
    v > 0
}

/// A float sample, given by its IEEE 754 bit pattern, is above center when the
/// value it denotes is strictly greater than zero. That holds exactly for the
/// patterns from 1 (the smallest positive subnormal) up to the pattern of
/// positive infinity: zero (pattern 0), every NaN, and everything with the
/// sign bit set compare as not greater than zero.
pub open spec fn f32_bits_above_center(b: u32) -> bool {
    1 <= b && b <= F32_BITS_POS_INF
}

/// The transform of a whole unsigned 8-bit buffer.
pub open spec fn volumed_u8(s: Seq<u8>) -> Seq<i16> {
    s.map_values(|v: u8| polarity(u8_above_center(v)))
}

/// The transform of a whole signed 16-bit buffer.
pub open spec fn volumed_i16(s: Seq<i16>) -> Seq<i16> {
    s.map_values(|v: i16| polarity(i16_above_center(v)))
}

/// The transform of a whole 24-bit buffer.
pub open spec fn volumed_i24(s: Seq<i32>) -> Seq<i16> {
    s.map_values(|v: i32| polarity(i24_above_center(v)))
}

/// The transform of a whole float buffer, given by bit patterns.
pub open spec fn volumed_f32(s: Seq<u32>) -> Seq<i16> {
    s.map_values(|v: u32| polarity(f32_bits_above_center(v)))
}

/// Number of samples a buffer holds; an absent buffer holds none.
pub open spec fn sample_len(d: SampleData) -> nat {
    match d {
        SampleData::U8(v) => v@.len(),
        SampleData::I16(v) => v@.len(),
        SampleData::I24(v) => v@.len(),
        SampleData::F32(v) => v@.len(),
        SampleData::Empty => 0,
    }
}

/// Whether the sample at index `i` lies strictly above its representation's
/// center.
pub open spec fn sample_above_center(d: SampleData, i: int) -> bool {
    match d {
        SampleData::U8(v) => u8_above_center(v@[i]),
        SampleData::I16(v) => i16_above_center(v@[i]),
        SampleData::I24(v) => i24_above_center(v@[i]),
        SampleData::F32(v) => f32_bits_above_center(v@[i]),
        SampleData::Empty => false,
    }
}

/// The normalized output that a buffer transforms to: the per-representation
/// transform of its samples, and the empty sequence for an absent buffer
/// (which the dispatcher rejects before any output exists).
pub open spec fn volumed_of(d: SampleData) -> Seq<i16> {
    match d {
        SampleData::U8(v) => volumed_u8(v@),
        SampleData::I16(v) => volumed_i16(v@),
        SampleData::I24(v) => volumed_i24(v@),
        SampleData::F32(v) => volumed_f32(v@),
        SampleData::Empty => Seq::empty(),
    }
}

/// The transform never changes the number of samples: the output buffer is
/// exactly as long as the input buffer, for every representation, the empty
/// but present buffer included.
pub proof fn lemma_output_len(d: SampleData)
    ensures
        volumed_of(d).len() == sample_len(d),
{
}

/// Every transformed sample is one of the two full-scale sentinels, never an
/// intermediate value, and it is the positive one exactly when the source
/// sample lies strictly above its representation's center.
pub proof fn lemma_output_extremal(d: SampleData, i: int)
    requires
        0 <= i < sample_len(d),
    ensures
        volumed_of(d)[i] == FULL_SCALE_POS || volumed_of(d)[i] == FULL_SCALE_NEG,
        volumed_of(d)[i] == FULL_SCALE_POS <==> sample_above_center(d, i),
{
}

} // verus!
