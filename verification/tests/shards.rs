use tts_pipeline::error::PipelineError;
use tts_pipeline::shards::{shard_files, shards_of_index, IndexContent, IndexError};

#[test]
fn distinct_files_of_the_weight_map_are_listed() {
    let index = br#"{"metadata":{"total_size":10},"weight_map":{"a.weight":"model-00001-of-00002.safetensors","b.weight":"model-00002-of-00002.safetensors","c.weight":"model-00001-of-00002.safetensors"}}"#;
    let mut files = shards_of_index(index).ok().unwrap();
    files.sort();
    assert_eq!(
        files,
        vec![
            "model-00001-of-00002.safetensors".to_string(),
            "model-00002-of-00002.safetensors".to_string()
        ]
    );
}

#[test]
fn values_that_are_not_strings_are_skipped() {
    let index = br#"{"weight_map":{"a":"x","b":7,"c":null,"d":["x"],"e":"x","f":{"g":"y"}}}"#;
    assert_eq!(shards_of_index(index).ok().unwrap(), vec!["x".to_string()]);
    assert_eq!(shards_of_index(br#"{"weight_map":{}}"#).ok().unwrap(), Vec::<String>::new());
}

#[test]
fn index_without_weight_map_is_refused() {
    assert!(matches!(shards_of_index(br#"{"metadata":{}}"#), Err(IndexError::NoWeightMap)));
    assert!(matches!(shards_of_index(br#"[1,2]"#), Err(IndexError::NoWeightMap)));
    assert_eq!(IndexError::NoWeightMap.kind(), PipelineError::ModelLoad);
}

#[test]
fn weight_map_that_is_not_an_object_is_refused() {
    assert!(matches!(shards_of_index(br#"{"weight_map":"x"}"#), Err(IndexError::NotAMap)));
    assert!(matches!(shards_of_index(br#"{"weight_map":["x"]}"#), Err(IndexError::NotAMap)));
    assert!(matches!(shards_of_index(br#"{"weight_map":null}"#), Err(IndexError::NotAMap)));
    assert_eq!(IndexError::NotAMap.kind(), PipelineError::ModelLoad);
}

#[test]
fn index_that_is_not_json_is_refused() {
    assert!(matches!(shards_of_index(b""), Err(IndexError::Unreadable(_))));
    match shards_of_index(b"{\"weight_map\":") {
        Err(IndexError::Unreadable(cause)) => {
            assert!(cause.is_eof());
            assert_eq!(IndexError::Unreadable(cause).kind(), PipelineError::ModelLoad);
        }
        _ => panic!("a truncated document was read"),
    }
}

#[test]
fn first_occurrence_decides_the_order() {
    let entries = vec![
        Some("b".to_string()),
        None,
        Some("a".to_string()),
        Some("b".to_string()),
        Some("c".to_string()),
        Some("a".to_string()),
    ];
    let files = shard_files(Ok(IndexContent::Entries(entries))).ok().unwrap();
    assert_eq!(files, vec!["b".to_string(), "a".to_string(), "c".to_string()]);
    assert!(matches!(shard_files(Ok(IndexContent::Missing)), Err(IndexError::NoWeightMap)));
    assert!(matches!(shard_files(Ok(IndexContent::NotAMap)), Err(IndexError::NotAMap)));
}
