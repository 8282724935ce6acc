//! The generation engine: runs the model's autoregressive loop and accepts
//! its output only as a well-formed, bounded code matrix.

use vstd::prelude::*;
use candle_core::Tensor;
use candle_transformers::generation::LogitsProcessor;
use candle_transformers::models::parler_tts::Model;
use crate::codes::{grid, is_generated, CodeMatrix};
use crate::error::PipelineError;
use crate::tokens::TokenSequence;

verus! {

#[verifier::external_type_specification]
#[verifier::external_body]
pub struct ExModel(Model);

#[verifier::external_type_specification]
#[verifier::external_body]
pub struct ExLogitsProcessor(LogitsProcessor);

#[verifier::external_type_specification]
#[verifier::external_body]
pub struct ExTensor(Tensor);

#[verifier::external_type_specification]
#[verifier::external_body]
pub struct ExTensorError(candle_core::Error);

/// Calls `Model::generate` of `candle_transformers::models::parler_tts` on
/// the two id sequences, each as a one-row tensor on the model's device,
/// and copies the returned matrix out with `Tensor::to_vec2`.
///
/// Nothing is assumed of the outcome.  Empty id sequences are left out:
/// the model is not known to survive them.
#[verifier::external_body]
fn run_model(
    model: &mut Model,
    prompt: &Vec<u32>,
    style: &Vec<u32>,
    sampler: LogitsProcessor,
    max_steps: usize,
) -> (outcome: Result<Vec<Vec<u32>>, candle_core::Error>)
    requires
        prompt@.len() > 0,
        style@.len() > 0,
{
    let device = model.embed_prompts.embeddings().device().clone();
    let prompt = Tensor::new(prompt.as_slice(), &device)?.unsqueeze(0)?;
    let style = Tensor::new(style.as_slice(), &device)?.unsqueeze(0)?;
    model.generate(&prompt, &style, sampler, max_steps)?.to_vec2::<u32>()
}

/// What `generate` makes of the model's outcome: the rows as a code matrix
/// exactly when the model succeeded with a rectangular matrix of at most
/// `max_steps` columns, `Generation` in every other case.  No partial
/// matrix is ever handed on.
pub fn accept_rows(outcome: Result<Vec<Vec<u32>>, candle_core::Error>, max_steps: usize) -> (r: Result<
    CodeMatrix,
    PipelineError,
>)
    ensures
        r is Ok <==> (outcome matches Ok(rows) && is_generated(grid(rows@), max_steps as int)),
        r matches Ok(m) ==> outcome is Ok && m@ == grid(outcome->Ok_0@) && is_generated(
            m@,
            max_steps as int,
        ),
        r matches Err(e) ==> e == PipelineError::Generation,
{
    match outcome {
        Ok(rows) => CodeMatrix::from_rows(rows, max_steps),
        Err(_) => Err(PipelineError::Generation),
    }
}

/// Generates the audio codes for a prompt spoken in the described style.
///
/// `max_steps` is a hard bound: whatever the model does, the matrix that
/// comes back has at most `max_steps` columns.  Fails with `Generation`
/// when either id sequence is empty, when the model fails, and when its
/// output is not a rectangular matrix within the bound.
pub fn generate(
    model: &mut Model,
    prompt: &TokenSequence,
    style: &TokenSequence,
    sampler: LogitsProcessor,
    max_steps: usize,
) -> (r: Result<CodeMatrix, PipelineError>)
    ensures
        prompt@.len() == 0 || style@.len() == 0 ==> r is Err,
        r matches Ok(m) ==> is_generated(m@, max_steps as int),
        r matches Err(e) ==> e == PipelineError::Generation,
{
    if prompt.len() == 0 || style.len() == 0 {
        return Err(PipelineError::Generation);
    }
    accept_rows(run_model(model, prompt, style, sampler, max_steps), max_steps)
}

} // verus!
