use tts_pipeline::codes::CodeMatrix;
use tts_pipeline::error::PipelineError;

#[test]
fn rectangular_rows_within_bound_are_accepted() {
    let m = CodeMatrix::from_rows(vec![vec![1, 2, 3], vec![4, 5, 6]], 3).ok().unwrap();
    assert_eq!(m.codebooks(), 2);
    assert_eq!(m.steps(), 3);
    assert_eq!(m.code(1, 2), 6);
    assert_eq!(m.rows(), &vec![vec![1, 2, 3], vec![4, 5, 6]]);
    let empty = CodeMatrix::from_rows(vec![], 0).ok().unwrap();
    assert_eq!(empty.codebooks(), 0);
    assert_eq!(empty.steps(), 0);
    let no_steps = CodeMatrix::from_rows(vec![vec![], vec![]], 0).ok().unwrap();
    assert_eq!(no_steps.codebooks(), 2);
    assert_eq!(no_steps.steps(), 0);
}

#[test]
fn too_many_steps_are_refused() {
    let r = CodeMatrix::from_rows(vec![vec![1, 2, 3], vec![4, 5, 6]], 2);
    assert!(matches!(r, Err(PipelineError::Generation)));
    let r = CodeMatrix::from_rows(vec![vec![1]], 0);
    assert!(matches!(r, Err(PipelineError::Generation)));
}

#[test]
fn ragged_rows_are_refused() {
    let r = CodeMatrix::from_rows(vec![vec![1, 2, 3], vec![4, 5]], 10);
    assert!(matches!(r, Err(PipelineError::Generation)));
    let r = CodeMatrix::from_rows(vec![vec![], vec![4]], 10);
    assert!(matches!(r, Err(PipelineError::Generation)));
}

#[test]
fn codec_check_counts_codebooks_and_bounds_codes() {
    let m = CodeMatrix::from_rows(vec![vec![0, 1023], vec![5, 6]], 512).ok().unwrap();
    assert!(m.check_for_codec(2, 1024).is_ok());
    assert!(matches!(m.check_for_codec(9, 1024), Err(PipelineError::AudioDecode)));
    assert!(matches!(m.check_for_codec(1, 1024), Err(PipelineError::AudioDecode)));
    assert!(matches!(m.check_for_codec(2, 1023), Err(PipelineError::AudioDecode)));
    assert!(matches!(m.check_for_codec(2, 0), Err(PipelineError::AudioDecode)));
}
