//! A deliberately crude "loudness maximizer" for PCM audio: every sample of the
//! input, whatever its representation, is forced to one of the two full-scale
//! 16-bit values, and the integrated loudness of the result is measured.
//!
//! The container reader and writer are not part of this crate; callers hand in
//! a [`samples::SampleData`] buffer with its [`samples::ChannelDesc`] and get
//! back the normalized 16-bit buffer and the measured loudness.

pub mod loudness;
pub mod samples;
pub mod transform;
