use tts_pipeline::error::PipelineError;
use tts_pipeline::wav::WavFile;

fn header(n: u32, rate: u32) -> Vec<u8> {
    let mut h = Vec::new();
    h.extend_from_slice(b"RIFF");
    h.extend_from_slice(&(36 + 2 * n).to_le_bytes());
    h.extend_from_slice(b"WAVE");
    h.extend_from_slice(b"fmt ");
    h.extend_from_slice(&16u32.to_le_bytes());
    h.extend_from_slice(&1u16.to_le_bytes());
    h.extend_from_slice(&1u16.to_le_bytes());
    h.extend_from_slice(&rate.to_le_bytes());
    h.extend_from_slice(&(2 * rate).to_le_bytes());
    h.extend_from_slice(&2u16.to_le_bytes());
    h.extend_from_slice(&16u16.to_le_bytes());
    h.extend_from_slice(b"data");
    h.extend_from_slice(&(2 * n).to_le_bytes());
    h
}

#[test]
fn empty_buffer_gives_header_only() {
    let wav = WavFile::encode(&vec![], 44_100).ok().unwrap();
    assert_eq!(wav.len(), 44);
    assert_eq!(wav.sample_count(), 0);
    assert_eq!(wav.sample_rate(), 44_100);
    assert_eq!(wav.as_bytes(), &header(0, 44_100));
}

#[test]
fn header_bytes_are_exact() {
    let wav = WavFile::encode(&vec![0, 1, -1], 24_000).ok().unwrap();
    let expected: Vec<u8> = vec![
        0x52, 0x49, 0x46, 0x46, 42, 0, 0, 0, 0x57, 0x41, 0x56, 0x45, 0x66, 0x6d, 0x74, 0x20, 16,
        0, 0, 0, 1, 0, 1, 0, 0xC0, 0x5D, 0, 0, 0x80, 0xBB, 0, 0, 2, 0, 16, 0, 0x64, 0x61, 0x74,
        0x61, 6, 0, 0, 0, 0, 0, 1, 0, 0xFF, 0xFF,
    ];
    assert_eq!(wav.into_bytes(), expected);
}

#[test]
fn samples_are_little_endian_twos_complement() {
    let samples: Vec<i16> = vec![0, 1, -1, 256, -256, i16::MAX, i16::MIN, 0x1234];
    let wav = WavFile::encode(&samples, 8_000).ok().unwrap();
    let bytes = wav.as_bytes();
    assert_eq!(bytes.len(), 44 + 16);
    let mut expected = header(8, 8_000);
    for s in &samples {
        expected.extend_from_slice(&s.to_le_bytes());
    }
    assert_eq!(bytes, &expected);
    assert_eq!(&bytes[54..56], &[0xFF, 0x7F]);
    assert_eq!(&bytes[56..58], &[0x00, 0x80]);
    assert_eq!(&bytes[58..60], &[0x34, 0x12]);
}

#[test]
fn encoder_agrees_with_reference_writer() {
    let samples: Vec<i16> = (0..1000).map(|i| ((i * 37) % 65_536 - 32_768) as i16).collect();
    for rate in [1u32, 8_000, 24_000, 44_100, 2_147_483_647] {
        let mut expected: Vec<u8> = Vec::new();
        candle_examples::wav::write_pcm_as_wav(&mut expected, &samples, rate).unwrap();
        let wav = WavFile::encode(&samples, rate).ok().unwrap();
        assert_eq!(wav.as_bytes(), &expected);
    }
}

#[test]
fn round_trip_recovers_rate_and_samples() {
    let samples: Vec<i16> = vec![3, -3, 1000, -1000, i16::MAX, i16::MIN, 0];
    let wav = WavFile::encode(&samples, 44_100).ok().unwrap();
    let parsed = WavFile::parse(wav.into_bytes()).unwrap();
    assert_eq!(parsed.sample_rate(), 44_100);
    assert_eq!(parsed.sample_count(), samples.len());
    assert_eq!(parsed.samples(), samples);
}

#[test]
fn round_trip_of_quantised_floats_is_within_one_step() {
    let pcm: Vec<f32> = vec![0.0, 0.5, -0.5, 1.0, -1.0, 0.123_456, -0.987_654, 2.0, -2.0];
    let quantised: Vec<i16> =
        pcm.iter().map(|s| candle_examples::wav::Sample::to_i16(s)).collect();
    let wav = WavFile::encode(&quantised, 44_100).ok().unwrap();
    let back = WavFile::parse(wav.into_bytes()).unwrap().samples();
    assert_eq!(back.len(), pcm.len());
    for (s, q) in pcm.iter().zip(back.iter()) {
        let recovered = *q as f32 / 32_767.0;
        assert!((recovered - s.clamp(-1.0, 1.0)).abs() <= 1.0 / 32_768.0);
    }
}

#[test]
fn parse_then_encode_is_identity() {
    let samples: Vec<i16> = vec![7, 8, 9];
    let bytes = WavFile::encode(&samples, 16_000).ok().unwrap().into_bytes();
    let parsed = WavFile::parse(bytes.clone()).unwrap();
    let again = WavFile::encode(&parsed.samples(), parsed.sample_rate()).ok().unwrap();
    assert_eq!(again.into_bytes(), bytes);
}

#[test]
fn parse_rejects_what_is_not_a_container() {
    assert!(WavFile::parse(vec![]).is_none());
    assert!(WavFile::parse(vec![0; 43]).is_none());
    assert!(WavFile::parse(vec![0; 44]).is_none());
    let good = WavFile::encode(&vec![1, 2], 8_000).ok().unwrap().into_bytes();
    let mut odd = good.clone();
    odd.push(0);
    assert!(WavFile::parse(odd).is_none());
    let mut truncated = good.clone();
    truncated.truncate(46);
    assert!(WavFile::parse(truncated).is_none());
    for at in [0usize, 4, 8, 12, 16, 20, 22, 28, 32, 34, 36, 40] {
        let mut bad = good.clone();
        bad[at] ^= 0x01;
        assert!(WavFile::parse(bad).is_none(), "byte {} was changed", at);
    }
    assert!(WavFile::parse(good).is_some());
}

#[test]
fn rate_too_high_for_header_is_refused() {
    assert!(matches!(
        WavFile::encode(&vec![0], 2_147_483_648),
        Err(PipelineError::AudioEncode)
    ));
    assert!(matches!(WavFile::encode(&vec![0], u32::MAX), Err(PipelineError::AudioEncode)));
    assert!(WavFile::encode(&vec![0], 2_147_483_647).is_ok());
}

#[test]
fn equal_input_gives_identical_bytes() {
    let samples: Vec<i16> = vec![5, -5, 50, -50];
    let a = WavFile::encode(&samples, 44_100).ok().unwrap().into_bytes();
    let b = WavFile::encode(&samples.clone(), 44_100).ok().unwrap().into_bytes();
    assert_eq!(a, b);
}
