//! From codes to a waveform: the codec and the loudness normaliser.
//!
//! The waveform is a tensor of fractional samples and stays opaque here.

use vstd::prelude::*;
use candle_core::{DType, Device, IndexOp, Tensor};
use candle_transformers::models::parler_tts::Model;
use crate::codes::{fits_codec, grid, is_rectangular, steps_of, CodeMatrix};
use crate::error::PipelineError;

verus! {

/// Sample rate that the loudness meter is run at.
pub const LOUDNESS_METER_RATE: u32 = 24_000;

/// Fewest time steps that the codec can decode: its first upsampling layer
/// cannot take a shorter input.
pub const MIN_DECODABLE_STEPS: usize = 2;

/// Whether the normaliser compresses peaks after applying the gain.
pub const LOUDNESS_COMPRESSOR: bool = true;

/// Calls `decode_codes` of the model's audio codec
/// (`candle_transformers::models::dac::Model`) on the rows as one batch of
/// 64-bit codes on the model's device, and takes the single channel of the
/// single batch entry out of the result.
///
/// Nothing is assumed of the outcome.  Matrices without rows or with fewer
/// than two columns are left out: the length arithmetic of the codec's
/// first transposed convolution (stride 8, padding 4) underflows on them.
#[verifier::external_body]
fn decode_codes(model: &Model, rows: &Vec<Vec<u32>>) -> (outcome: Result<
    Tensor,
    candle_core::Error,
>)
    requires
        rows@.len() > 0,
        is_rectangular(grid(rows@)),
        steps_of(grid(rows@)) >= MIN_DECODABLE_STEPS,
{
    let device = model.embed_prompts.embeddings().device();
    let codes = Tensor::new(rows.clone(), &Device::Cpu)?.to_dtype(DType::I64)?.unsqueeze(0)?;
    model.audio_encoder.decode_codes(&codes.to_device(device)?)?.i((0, 0))
}

/// Calls `candle_examples::audio::normalize_loudness`.  Nothing is assumed
/// of the outcome.
#[verifier::external_body]
fn normalize_loudness(waveform: &Tensor, meter_rate: u32, compressor: bool) -> (outcome: Result<
    Tensor,
    candle_core::Error,
>) {
    candle_examples::audio::normalize_loudness(waveform, meter_rate, compressor)
}

/// What a codec or normaliser outcome becomes: the waveform, or
/// `AudioDecode` in place of the tensor library's error.
pub fn waveform_of(outcome: Result<Tensor, candle_core::Error>) -> (r: Result<
    Tensor,
    PipelineError,
>)
    ensures
        r is Ok <==> outcome is Ok,
        r matches Ok(t) ==> outcome == Ok::<Tensor, candle_core::Error>(t),
        r matches Err(e) ==> e == PipelineError::AudioDecode,
{
    match outcome {
        Ok(t) => Ok(t),
        Err(_) => Err(PipelineError::AudioDecode),
    }
}

/// Decodes a code matrix into a waveform.
///
/// Fails with `AudioDecode` when the matrix does not have `codebooks` rows,
/// holds a code that is not below `codebook_size`, or has fewer than
/// `MIN_DECODABLE_STEPS` time steps, and when the codec itself fails.
pub fn decode(model: &Model, codes: &CodeMatrix, codebooks: usize, codebook_size: usize) -> (r:
    Result<Tensor, PipelineError>)
    ensures
        !fits_codec(codes@, codebooks as int, codebook_size as int) ==> r is Err,
        codes@.len() == 0 || steps_of(codes@) < MIN_DECODABLE_STEPS ==> r is Err,
        r matches Err(e) ==> e == PipelineError::AudioDecode,
{
    match codes.check_for_codec(codebooks, codebook_size) {
        Err(e) => {
            return Err(e);
        },
        Ok(_) => {},
    }
    if codes.codebooks() == 0 || codes.steps() < MIN_DECODABLE_STEPS {
        return Err(PipelineError::AudioDecode);
    }
    waveform_of(decode_codes(model, codes.rows()))
}

/// Brings a waveform to the target loudness, with peak compression.  The
/// policy is integrated loudness, not peak: quiet input is returned as it
/// is.  Fails with `AudioDecode` when the normaliser fails.
pub fn normalize(waveform: &Tensor) -> (r: Result<Tensor, PipelineError>)
    ensures
        r matches Err(e) ==> e == PipelineError::AudioDecode,
{
    waveform_of(normalize_loudness(waveform, LOUDNESS_METER_RATE, LOUDNESS_COMPRESSOR))
}

} // verus!
