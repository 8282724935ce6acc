use tts_pipeline::error::PipelineError;
use tts_pipeline::response::{
    audio_file_name, audio_file_path, content_disposition, decimal_text, reply,
};
use tts_pipeline::text::parse_unsigned;
use tts_pipeline::wav::WavFile;

#[test]
fn numbers_are_written_in_decimal() {
    assert_eq!(decimal_text(0), "0");
    assert_eq!(decimal_text(7), "7");
    assert_eq!(decimal_text(10), "10");
    assert_eq!(decimal_text(1_700_000_000), "1700000000");
    assert_eq!(decimal_text(u64::MAX), "18446744073709551615");
}

#[test]
fn written_numbers_read_back() {
    for n in [0u64, 1, 9, 10, 99, 100, 12_345, 1_700_000_000, u64::MAX - 1, u64::MAX] {
        assert_eq!(parse_unsigned(&decimal_text(n)), Some(n));
        assert_eq!(decimal_text(n), n.to_string());
    }
}

#[test]
fn file_is_named_by_timestamp() {
    assert_eq!(audio_file_name(1_700_000_000), "generated_audio_1700000000.wav");
    assert_eq!(audio_file_name(0), "generated_audio_0.wav");
    assert_ne!(audio_file_name(1), audio_file_name(2));
    assert_eq!(
        audio_file_path(&audio_file_name(12)),
        "./public/audio/generated_audio_12.wav"
    );
}

#[test]
fn disposition_offers_the_file() {
    assert_eq!(
        content_disposition("generated_audio_5.wav"),
        "attachment; filename=\"generated_audio_5.wav\""
    );
}

#[test]
fn success_is_sent_as_audio() {
    let wav = WavFile::encode(&vec![1, 2, 3], 44_100).ok().unwrap();
    let bytes = wav.as_bytes().clone();
    let r = reply(Ok(wav), "generated_audio_5.wav");
    assert_eq!(r.status, 200);
    assert_eq!(r.content_type.as_deref(), Some("audio/wav"));
    assert_eq!(
        r.content_disposition.as_deref(),
        Some("attachment; filename=\"generated_audio_5.wav\"")
    );
    assert_eq!(r.body, bytes);
    assert!(r.body.len() > 44);
}

#[test]
fn failures_are_sent_with_their_status() {
    let r = reply(Err(PipelineError::InvalidRequest), "x.wav");
    assert_eq!(r.status, 400);
    assert!(r.body.is_empty());
    assert!(r.content_type.is_none());
    assert!(r.content_disposition.is_none());
    for e in [
        PipelineError::ModelLoad,
        PipelineError::Tokenization,
        PipelineError::Generation,
        PipelineError::AudioDecode,
        PipelineError::AudioEncode,
        PipelineError::Io,
    ] {
        assert_eq!(e.status(), 500);
        assert_eq!(reply(Err(e), "x.wav").status, 500);
        assert!(!e.message().is_empty());
    }
}

#[test]
fn only_loading_failures_abort_startup() {
    assert!(PipelineError::ModelLoad.aborts_startup());
    assert!(!PipelineError::InvalidRequest.aborts_startup());
    assert!(!PipelineError::Generation.aborts_startup());
    assert_eq!(PipelineError::InvalidRequest.message(), "invalid request: text is required");
}
