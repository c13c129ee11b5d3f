//! The polarity transform and the format dispatcher: each sample of a tagged
//! buffer is forced to one of the two full-scale 16-bit values, and the four
//! representations are routed to the transform variant that matches their
//! centering convention.

use vstd::prelude::*;

use crate::samples::ChannelDesc;
use crate::samples::SampleData;
use crate::samples::FULL_SCALE_NEG;
use crate::samples::FULL_SCALE_POS;
use crate::samples::U8_CENTER;
use crate::samples::F32_BITS_POS_INF;
use crate::samples::f32_bits_above_center;
use crate::samples::i16_above_center;
use crate::samples::i24_above_center;
use crate::samples::polarity;
use crate::samples::sample_len;
use crate::samples::u8_above_center;
use crate::samples::volumed_f32;
use crate::samples::volumed_i16;
use crate::samples::volumed_i24;
use crate::samples::volumed_of;
use crate::samples::volumed_u8;

verus! {

/// What can go wrong in the pipeline. Every error is fatal to the run; there
/// is no recovery path anywhere.
#[derive(Clone, Copy, PartialEq, Eq, Structural, Debug)]
pub enum WarError {
    /// The input decoded, but carried no audio data at all.
    NoAudioData,
    /// The loudness engine could not be configured for the buffer's channel
    /// count and sampling rate.
    EngineInit,
    /// The loudness engine rejected the submitted frames.
    EngineSubmit,
    /// The loudness engine could not produce the integrated loudness value.
    EngineRetrieve,
}

/// A sample buffer together with the channel descriptor it arrived with.
#[derive(Clone, Debug)]
pub struct AudioInput {
    pub desc: ChannelDesc,
    pub data: SampleData,
}

/// The normalized result of the transform: always signed 16-bit samples, under
/// the input's own channel descriptor.
#[derive(Clone, Debug)]
pub struct AudioOutput {
    pub desc: ChannelDesc,
    pub samples: Vec<i16>,
}

/// Transforms an unsigned 8-bit buffer. Unsigned PCM is centered at 128, not
/// at zero, so the threshold is 128: a raw zero threshold would send every
/// sample to positive full scale.
pub fn perform_voluming_u8(data: Vec<u8>) -> (r: Vec<i16>)
    ensures
        r@ == volumed_u8(data@),
{
    let mut out: Vec<i16> = Vec::new();
    let n: usize = data.len();
    let mut idx: usize = 0;
    while idx < n
        invariant
            n == data@.len(),
            idx <= n,
            out@.len() == idx,
            forall|j: int| 0 <= j < idx ==> out@[j] == polarity(u8_above_center(data@[j])),
        decreases n - idx,
    {
        if data[idx] > U8_CENTER {
            out.push(FULL_SCALE_POS);
        } else {
            out.push(FULL_SCALE_NEG);
        }
        idx += 1;
    }
    proof {
        assert(out@ =~= volumed_u8(data@));
    }
    out
}

/// Transforms a signed 16-bit buffer: strictly positive samples to positive
/// full scale, zero and negative samples to negative full scale.
pub fn perform_voluming_i16(data: Vec<i16>) -> (r: Vec<i16>)
    ensures
        r@ == volumed_i16(data@),
{
    let mut out: Vec<i16> = Vec::new();
    let n: usize = data.len();
    let mut idx: usize = 0;
    while idx < n
        invariant
            n == data@.len(),
            idx <= n,
            out@.len() == idx,
            forall|j: int| 0 <= j < idx ==> out@[j] == polarity(i16_above_center(data@[j])),
        decreases n - idx,
    {
        if data[idx] > 0 {
            out.push(FULL_SCALE_POS);
        } else {
            out.push(FULL_SCALE_NEG);
        }
        idx += 1;
    }
    proof {
        assert(out@ =~= volumed_i16(data@));
    }
    out
}

/// Transforms a 24-bit buffer, arriving widened to `i32`: strictly positive
/// samples to positive full scale, the rest to negative full scale.
pub fn perform_voluming_i24(data: Vec<i32>) -> (r: Vec<i16>)
    ensures
        r@ == volumed_i24(data@),
{
    let mut out: Vec<i16> = Vec::new();
    let n: usize = data.len();
    let mut idx: usize = 0;
    while idx < n
        invariant
            n == data@.len(),
            idx <= n,
            out@.len() == idx,
            forall|j: int| 0 <= j < idx ==> out@[j] == polarity(i24_above_center(data@[j])),
        decreases n - idx,
    {
        if data[idx] > 0 {
            out.push(FULL_SCALE_POS);
        } else {
            out.push(FULL_SCALE_NEG);
        }
        idx += 1;
    }
    proof {
        assert(out@ =~= volumed_i24(data@));
    }
    out
}

/// Transforms a float buffer, given as IEEE 754 bit patterns: samples whose
/// value is strictly greater than zero go to positive full scale, all others
/// (zero of either sign, negatives, and NaN) to negative full scale. On bit
/// patterns "strictly greater than zero" is exactly the interval from 1 to
/// the pattern of positive infinity.
pub fn perform_voluming_f32(data: Vec<u32>) -> (r: Vec<i16>)
    ensures
        r@ == volumed_f32(data@),
{
    let mut out: Vec<i16> = Vec::new();
    let n: usize = data.len();
    let mut idx: usize = 0;
    while idx < n
        invariant
            n == data@.len(),
            idx <= n,
            out@.len() == idx,
            forall|j: int| 0 <= j < idx ==> out@[j] == polarity(f32_bits_above_center(data@[j])),
        decreases n - idx,
    {
        let b = data[idx];
        if 1 <= b && b <= F32_BITS_POS_INF {
            out.push(FULL_SCALE_POS);
        } else {
            out.push(FULL_SCALE_NEG);
        }
        idx += 1;
    }
    proof {
        assert(out@ =~= volumed_f32(data@));
    }
    out
}

/// The format dispatcher: routes a tagged buffer to the transform variant for
/// its representation and returns the normalized buffer, of exactly the
/// input's length. A buffer that holds no audio data is rejected as fatal
/// before any output exists.
pub fn perform_voluming(data: SampleData) -> (r: Result<Vec<i16>, WarError>)
    ensures
        r is Err <==> data is Empty,
        r matches Err(e) ==> e == WarError::NoAudioData,
        r matches Ok(v) ==> v@ == volumed_of(data) && v@.len() == sample_len(data),
{
    match data {
        SampleData::U8(v) => Ok(perform_voluming_u8(v)),
        SampleData::I16(v) => Ok(perform_voluming_i16(v)),
        SampleData::I24(v) => Ok(perform_voluming_i24(v)),
        SampleData::F32(v) => Ok(perform_voluming_f32(v)),
        SampleData::Empty => Err(WarError::NoAudioData),
    }
}

/// Transforms a whole input: the samples are dispatched to their transform,
/// and the channel descriptor is carried over unchanged, as the output file
/// and the loudness measurement both require the original channel count and
/// sampling rate.
pub fn transform(input: AudioInput) -> (r: Result<AudioOutput, WarError>)
    ensures
        r is Err <==> input.data is Empty,
        r matches Err(e) ==> e == WarError::NoAudioData,
        r matches Ok(out) ==> out.desc == input.desc && out.samples@ == volumed_of(input.data),
{
    let AudioInput { desc, data } = input;
    match perform_voluming(data) {
        Ok(samples) => Ok(AudioOutput { desc, samples }),
        Err(e) => Err(e),
    }
}

} // verus!
