use loudness_war::samples::ChannelDesc;
use loudness_war::samples::SampleData;
use loudness_war::transform::perform_voluming;
use loudness_war::transform::perform_voluming_f32;
use loudness_war::transform::perform_voluming_i16;
use loudness_war::transform::perform_voluming_i24;
use loudness_war::transform::perform_voluming_u8;
use loudness_war::transform::transform;
use loudness_war::transform::AudioInput;
use loudness_war::transform::WarError;

#[test]
fn i16_polarity_boundaries() {
    assert_eq!(perform_voluming_i16(vec![0]), vec![-32768]);
    assert_eq!(perform_voluming_i16(vec![1]), vec![32767]);
    assert_eq!(perform_voluming_i16(vec![-1]), vec![-32768]);
    assert_eq!(perform_voluming_i16(vec![i16::MAX, i16::MIN]), vec![32767, -32768]);
}

#[test]
fn u8_polarity_boundaries() {
    assert_eq!(perform_voluming_u8(vec![128]), vec![-32768]);
    assert_eq!(perform_voluming_u8(vec![129]), vec![32767]);
    assert_eq!(perform_voluming_u8(vec![0]), vec![-32768]);
    assert_eq!(perform_voluming_u8(vec![255]), vec![32767]);
}

#[test]
fn i24_polarity_boundaries() {
    assert_eq!(perform_voluming_i24(vec![0]), vec![-32768]);
    assert_eq!(perform_voluming_i24(vec![1]), vec![32767]);
    assert_eq!(perform_voluming_i24(vec![-8388608]), vec![-32768]);
    assert_eq!(perform_voluming_i24(vec![8388607]), vec![32767]);
}

#[test]
fn f32_polarity_boundaries() {
    assert_eq!(perform_voluming_f32(vec![0.0f32.to_bits()]), vec![-32768]);
    assert_eq!(perform_voluming_f32(vec![(-0.0f32).to_bits()]), vec![-32768]);
    assert_eq!(perform_voluming_f32(vec![f32::MIN_POSITIVE.to_bits()]), vec![32767]);
    assert_eq!(perform_voluming_f32(vec![1.0e-45f32.to_bits()]), vec![32767]);
    assert_eq!(perform_voluming_f32(vec![f32::INFINITY.to_bits()]), vec![32767]);
    assert_eq!(perform_voluming_f32(vec![f32::NEG_INFINITY.to_bits()]), vec![-32768]);
    assert_eq!(perform_voluming_f32(vec![f32::NAN.to_bits()]), vec![-32768]);
    assert_eq!(perform_voluming_f32(vec![(-1.5f32).to_bits()]), vec![-32768]);
    assert_eq!(perform_voluming_f32(vec![1.5f32.to_bits()]), vec![32767]);
}

#[test]
fn empty_buffers_stay_empty() {
    assert_eq!(perform_voluming(SampleData::U8(vec![])).unwrap(), Vec::<i16>::new());
    assert_eq!(perform_voluming(SampleData::I16(vec![])).unwrap(), Vec::<i16>::new());
    assert_eq!(perform_voluming(SampleData::I24(vec![])).unwrap(), Vec::<i16>::new());
    assert_eq!(perform_voluming(SampleData::F32(vec![])).unwrap(), Vec::<i16>::new());
}

#[test]
fn output_length_matches_input_length() {
    assert_eq!(perform_voluming(SampleData::U8(vec![0, 128, 200])).unwrap().len(), 3);
    assert_eq!(perform_voluming(SampleData::I16(vec![5, -5])).unwrap().len(), 2);
    assert_eq!(perform_voluming(SampleData::I24(vec![7])).unwrap().len(), 1);
    assert_eq!(
        perform_voluming(SampleData::F32(vec![0.25f32.to_bits(), 0u32, 3u32, 4u32])).unwrap().len(),
        4
    );
}

#[test]
fn no_audio_data_is_fatal() {
    assert_eq!(perform_voluming(SampleData::Empty), Err(WarError::NoAudioData));
    let input = AudioInput {
        desc: ChannelDesc { channel_count: 2, sampling_rate: 44100 },
        data: SampleData::Empty,
    };
    assert_eq!(transform(input).unwrap_err(), WarError::NoAudioData);
}

#[test]
fn descriptor_is_preserved() {
    let desc = ChannelDesc { channel_count: 6, sampling_rate: 96000 };
    for data in [
        SampleData::U8(vec![1, 2, 3]),
        SampleData::I16(vec![-1, 1]),
        SampleData::I24(vec![10]),
        SampleData::F32(vec![0.75f32.to_bits()]),
    ] {
        let out = transform(AudioInput { desc, data }).unwrap();
        assert_eq!(out.desc, desc);
    }
}

#[test]
fn mono_i16_scenario() {
    let desc = ChannelDesc { channel_count: 1, sampling_rate: 8000 };
    let input = AudioInput { desc, data: SampleData::I16(vec![100, -50, 0, 32000]) };
    let out = transform(input).unwrap();
    assert_eq!(out.samples, vec![32767, -32768, -32768, 32767]);
    assert_eq!(out.desc, desc);

    let header = wav::Header::new(
        wav::header::WAV_FORMAT_PCM,
        out.desc.channel_count,
        out.desc.sampling_rate,
        16,
    );
    let mut cursor = std::io::Cursor::new(Vec::new());
    wav::write(header, &wav::BitDepth::Sixteen(out.samples.clone()), &mut cursor).unwrap();
    cursor.set_position(0);
    let (read_header, read_data) = wav::read(&mut cursor).unwrap();
    assert_eq!(read_header.channel_count, 1);
    assert_eq!(read_header.sampling_rate, 8000);
    match read_data {
        wav::BitDepth::Sixteen(read_samples) => {
            assert_eq!(read_samples, vec![32767, -32768, -32768, 32767]);
        }
        _ => panic!("expected 16-bit PCM data"),
    }
}

#[test]
fn stereo_u8_scenario() {
    let desc = ChannelDesc { channel_count: 2, sampling_rate: 44100 };
    let input = AudioInput { desc, data: SampleData::U8(vec![200, 50, 128, 129]) };
    let out = transform(input).unwrap();
    assert_eq!(out.samples, vec![32767, -32768, -32768, 32767]);
    assert_eq!(out.desc, desc);
}

#[test]
fn mono_f32_scenario() {
    let desc = ChannelDesc { channel_count: 1, sampling_rate: 44100 };
    let bits: Vec<u32> = [0.5f32, -0.5f32, 0.0f32].iter().map(|v| v.to_bits()).collect();
    let input = AudioInput { desc, data: SampleData::F32(bits) };
    let out = transform(input).unwrap();
    assert_eq!(out.samples, vec![32767, -32768, -32768]);
}
