//! The loudness accumulator: wraps the external loudness-measurement engine's
//! lifecycle around a normalized 16-bit buffer and surfaces the integrated
//! loudness as a single scalar.
//!
//! The engine is configured once, with the original channel count and sampling
//! rate and with integrated-loudness measurement only; the whole buffer is
//! then submitted in one pass, and the global value is retrieved only after
//! submission completes. The scalar is carried as the bit pattern of the
//! engine's double-precision result, since this crate does not compute with
//! floating point itself.

use vstd::prelude::*;

use crate::samples::ChannelDesc;
use crate::transform::WarError;

verus! {

#[verifier::external_type_specification]
#[verifier::external_body]
pub struct ExEbuR128(ebur128::EbuR128);

#[verifier::external_type_specification]
#[verifier::external_body]
pub struct ExEbur128Error(ebur128::Error);

/// The most channels the engine accepts.
pub const ENGINE_MAX_CHANNELS: u16 = 64;

/// The lowest sampling rate, in Hz, the engine accepts.
pub const ENGINE_MIN_RATE: u32 = 16;

/// The highest sampling rate, in Hz, the engine accepts.
pub const ENGINE_MAX_RATE: u32 = 2822400;

/// Whether the engine can be configured for this descriptor: at least one
/// channel, at most 64, and a sampling rate between 16 Hz and 2822400 Hz.
pub open spec fn engine_config_ok(desc: ChannelDesc) -> bool {
    1 <= desc.channel_count <= ENGINE_MAX_CHANNELS && ENGINE_MIN_RATE <= desc.sampling_rate
        <= ENGINE_MAX_RATE
}

/// Whether a buffer divides into whole frames: its length is a multiple of
/// the channel count. The engine accepts only whole interleaved frames.
pub open spec fn frames_align(desc: ChannelDesc, samples: Seq<i16>) -> bool {
    samples.len() as int % (desc.channel_count as int) == 0
}

/// The channel count and sampling rate an engine was created with.
pub uninterp spec fn ebur_config(e: ebur128::EbuR128) -> (u32, u32);

/// The interleaved 16-bit frames submitted to an engine so far.
pub uninterp spec fn ebur_frames(e: ebur128::EbuR128) -> Seq<i16>;

/// Whether an engine is a fresh integrated-loudness engine: created in
/// integrated-only measurement mode with the default channel layout for its
/// channel count, and touched by nothing but frame submission since. Only
/// such engines are created here, and for them the global loudness is a
/// function of configuration and frames alone.
pub uninterp spec fn ebur_integrated(e: ebur128::EbuR128) -> bool;

/// The bit pattern of the double-precision integrated loudness, in LUFS, that
/// the engine reports for the given channel count, sampling rate and frames.
/// The measurement is pure arithmetic over these inputs, so the same inputs
/// give the same value.
pub uninterp spec fn loudness_value(channels: u32, rate: u32, frames: Seq<i16>) -> u64;

/// Relies on `ebur128::EbuR128::new`: creates an engine in integrated-only
/// measurement mode (`Mode::I`), with no frames submitted yet and the default
/// channel layout. It succeeds exactly for 1 to 64 channels and a sampling
/// rate of 16 Hz to 2822400 Hz.
#[verifier::external_body]
fn ebur_new(channels: u32, rate: u32) -> (r: Result<ebur128::EbuR128, ebur128::Error>)
    ensures
        r is Ok <==> (1 <= channels <= 64 && 16 <= rate <= 2822400),
        r matches Ok(e) ==> ebur_config(e) == (channels, rate) && ebur_frames(e)
            == Seq::<i16>::empty() && ebur_integrated(e),
{
    ebur128::EbuR128::new(channels, rate, ebur128::Mode::I)
}

/// Relies on `ebur128::EbuR128::add_frames_i16`: on success the given
/// interleaved 16-bit frames are appended to what the engine has seen, and
/// nothing else about the engine changes. For a fresh integrated engine it
/// succeeds exactly when the buffer length is a multiple of the engine's
/// channel count, whole frames being the only unit it accepts.
#[verifier::external_body]
fn ebur_add_frames_i16(e: &mut ebur128::EbuR128, frames: &Vec<i16>) -> (r: Result<
    (),
    ebur128::Error,
>)
    ensures
        ebur_integrated(*old(e)) ==> (r is Ok <==> frames@.len() as int % (
        ebur_config(*old(e)).0 as int) == 0),
        r is Ok ==> ebur_config(*final(e)) == ebur_config(*old(e)) && ebur_frames(*final(e))
            == ebur_frames(*old(e)) + frames@ && (ebur_integrated(*final(e)) <==> ebur_integrated(
            *old(e),
        )),
{
    e.add_frames_i16(frames.as_slice())
}

/// Relies on `ebur128::EbuR128::loudness_global`: in integrated mode it always
/// succeeds, and for a fresh integrated engine the reported value is computed,
/// deterministically, from the channel count, the sampling rate and the
/// submitted frames alone. The result is returned as the bit pattern of the
/// engine's double-precision value.
#[verifier::external_body]
fn ebur_loudness_global_bits(e: &ebur128::EbuR128) -> (r: Result<u64, ebur128::Error>)
    ensures
        ebur_integrated(*e) ==> r is Ok,
        r matches Ok(bits) ==> (ebur_integrated(*e) ==> bits == loudness_value(
            ebur_config(*e).0,
            ebur_config(*e).1,
            ebur_frames(*e),
        )),
{
    e.loudness_global().map(|v| v.to_bits())
}

/// Measures the integrated loudness of a normalized buffer: configures the
/// engine with the buffer's own channel count and sampling rate, submits the
/// whole buffer as 16-bit frames in one pass, and only then retrieves the
/// global value, returned as the bit pattern of the engine's double-precision
/// LUFS result.
///
/// It succeeds exactly when the engine can be configured for the descriptor
/// and the buffer divides into whole frames; a descriptor the engine rejects
/// is an initialization failure, a misaligned buffer a submission failure,
/// and either is fatal to the run. On success the value is exactly the
/// engine's loudness for this descriptor and these samples, so measuring the
/// same buffer under the same descriptor twice yields the same value.
pub fn measure_loudness(desc: ChannelDesc, samples: &Vec<i16>) -> (r: Result<u64, WarError>)
    ensures
        r is Ok <==> engine_config_ok(desc) && frames_align(desc, samples@),
        r matches Ok(bits) ==> bits == loudness_value(
            desc.channel_count as u32,
            desc.sampling_rate,
            samples@,
        ),
        r matches Err(e) ==> (if !engine_config_ok(desc) {
            e == WarError::EngineInit
        } else {
            e == WarError::EngineSubmit
        }),
{
    let mut engine = match ebur_new(desc.channel_count as u32, desc.sampling_rate) {
        Ok(e) => e,
        Err(_) => {
            return Err(WarError::EngineInit);
        },
    };
    match ebur_add_frames_i16(&mut engine, samples) {
        Ok(()) => {},
        Err(_) => {
            return Err(WarError::EngineSubmit);
        },
    }
    proof {
        assert(ebur_frames(engine) =~= samples@);
    }
    match ebur_loudness_global_bits(&engine) {
        Ok(bits) => Ok(bits),
        Err(_) => Err(WarError::EngineRetrieve),
    }
}

/// Loudness measurement is deterministic: the same normalized buffer under
/// the same channel descriptor always measures to the same value.
pub proof fn lemma_loudness_deterministic(
    desc1: ChannelDesc,
    samples1: Seq<i16>,
    desc2: ChannelDesc,
    samples2: Seq<i16>,
)
    requires
        desc1 == desc2,
        samples1 == samples2,
    ensures
        loudness_value(desc1.channel_count as u32, desc1.sampling_rate, samples1)
            == loudness_value(desc2.channel_count as u32, desc2.sampling_rate, samples2),
{
}

} // verus!
