use tokenizers::Tokenizer;
use tts_pipeline::error::PipelineError;
use tts_pipeline::tokens::{fallback_encode, TokenEncoder, Truncation, FALLBACK_MODULUS};

fn load(document: &[u8]) -> TokenEncoder {
    TokenEncoder::select(Tokenizer::from_bytes(document).ok())
}

fn cutting(max_length: usize, stride: usize) -> TokenEncoder {
    let document = format!(
        r#"{{"version":"1.0","truncation":{{"direction":"Right","max_length":{},"strategy":"LongestFirst","stride":{}}},"padding":null,"added_tokens":[],"normalizer":null,"pre_tokenizer":{{"type":"Whitespace"}},"post_processor":null,"decoder":null,"model":{{"type":"WordLevel","vocab":{{"[UNK]":0,"hello":1,"world":2}},"unk_token":"[UNK]"}}}}"#,
        max_length, stride
    );
    let encoder = load(document.as_bytes());
    assert!(matches!(encoder, TokenEncoder::Vocabulary(_)));
    encoder
}

const VOCABULARY: &str = r#"{"version":"1.0","truncation":null,"padding":null,"added_tokens":[],"normalizer":null,"pre_tokenizer":{"type":"Whitespace"},"post_processor":null,"decoder":null,"model":{"type":"WordLevel","vocab":{"[UNK]":0,"hello":1,"world":2},"unk_token":"[UNK]"}}"#;

#[test]
fn characters_map_to_code_points_modulo_n() {
    assert_eq!(FALLBACK_MODULUS, 1000);
    assert_eq!(fallback_encode("Hello"), vec![72, 101, 108, 108, 111]);
    assert_eq!(fallback_encode("é€😀"), vec![233, 8364 % 1000, 128512 % 1000]);
    assert_eq!(fallback_encode("\u{3e8}\u{3e7}"), vec![0, 999]);
}

#[test]
fn character_tokenizer_never_fails() {
    let encoder = TokenEncoder::select(None);
    assert_eq!(encoder.encode("").ok().unwrap(), Vec::<u32>::new());
    assert_eq!(encoder.encode("a b").ok().unwrap(), vec![97, 32, 98]);
    assert_eq!(encoder.encode("\u{10FFFF}\0").ok().unwrap(), vec![1114111 % 1000, 0]);
}

#[test]
fn unusable_vocabulary_falls_back() {
    assert!(matches!(load(b"not a vocabulary"), TokenEncoder::FallbackChar));
    assert!(matches!(load(b""), TokenEncoder::FallbackChar));
    assert!(matches!(load(b"{}"), TokenEncoder::FallbackChar));
}

#[test]
fn vocabulary_tokenizer_looks_words_up() {
    let encoder = load(VOCABULARY.as_bytes());
    assert!(matches!(encoder, TokenEncoder::Vocabulary(_)));
    assert_eq!(encoder.encode("hello world").ok().unwrap(), vec![1, 2]);
    assert_eq!(encoder.encode("world   hello").ok().unwrap(), vec![2, 1]);
    assert_eq!(encoder.encode("hello there").ok().unwrap(), vec![1, 0]);
    assert_eq!(encoder.encode("").ok().unwrap(), Vec::<u32>::new());
    assert_eq!(encoder.encode("hello world").ok().unwrap(), encoder.encode("hello world").ok().unwrap());
}

#[test]
fn lookup_outcome_is_resolved() {
    assert_eq!(TokenEncoder::resolve(Some(vec![1, 2])).ok().unwrap(), vec![1, 2]);
    assert!(matches!(TokenEncoder::resolve(None), Err(PipelineError::Tokenization)));
}

#[test]
fn usable_truncation_cuts_the_ids() {
    let encoder = cutting(2, 0);
    assert_eq!(encoder.encode("hello world hello").ok().unwrap(), vec![1, 2]);
    assert_eq!(encoder.encode("hello").ok().unwrap(), vec![1]);
    let encoder = cutting(3, 2);
    assert_eq!(encoder.encode("hello world hello world").ok().unwrap(), vec![1, 2, 1]);
    let encoder = cutting(0, 0);
    assert_eq!(encoder.encode("hello world").ok().unwrap(), Vec::<u32>::new());
    let encoder = cutting(0, 5);
    assert_eq!(encoder.encode("hello world").ok().unwrap(), Vec::<u32>::new());
}

#[test]
fn unusable_truncation_is_a_tokenization_failure() {
    for (max_length, stride) in [(2usize, 2usize), (2, 3), (1, 1), (5, 9)] {
        let encoder = cutting(max_length, stride);
        assert!(matches!(
            encoder.encode("hello world hello world hello world"),
            Err(PipelineError::Tokenization)
        ));
        assert!(matches!(encoder.encode("hello"), Err(PipelineError::Tokenization)));
    }
}

#[test]
fn truncation_numbers_are_judged() {
    let t = |max_length, stride, added| Truncation { max_length, stride, added };
    assert!(t(512, 0, 1).usable(true));
    assert!(t(512, 510, 1).usable(true));
    assert!(!t(512, 511, 1).usable(true));
    assert!(t(512, 511, 1).usable(false));
    assert!(!t(512, 512, 0).usable(true));
    assert!(!t(512, 512, 0).usable(false));
    assert!(t(1, 0, 1).usable(true));
    assert!(t(1, 7, 1).usable(true));
    assert!(!t(1, 7, 1).usable(false));
    assert!(!t(1, 0, 2).usable(true));
    assert!(t(1, 0, 2).usable(false));
    assert!(t(0, 0, 0).usable(true));
    assert!(t(0, 9, 0).usable(false));
}
