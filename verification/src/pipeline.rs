//! The stages of one request, run against the model bundle of the server.

use vstd::prelude::*;
use vstd::string::*;
use candle_core::Tensor;
use candle_transformers::generation::LogitsProcessor;
use candle_transformers::models::parler_tts::Model;
use crate::audio;
use crate::codes::{fits_codec, is_generated, steps_of, CodeMatrix};
use crate::engine;
use crate::error::PipelineError;
use crate::request::{request_of, FormField, GenerationRequest};
use crate::response::{audio_content_type, disposition_of, reply, Reply};
use crate::sampling::SamplingConfig;
use crate::tokens::TokenEncoder;
use crate::wav::{
    declared_bits,
    declared_channels,
    declared_rate,
    decoded_samples,
    fits,
    is_container,
    lemma_round_trip,
    wav_bytes,
    WavFile,
};

verus! {

/// The numbers of the model configuration that the pipeline goes by.
#[derive(Clone, Copy, Debug, PartialEq, Eq, Structural)]
pub struct ModelConfig {
    /// Samples per second of the decoded waveform.
    pub sample_rate: u32,
    /// Number of codebooks of the audio codec.
    pub codebook_count: usize,
    /// Number of codes in each codebook.
    pub codebook_size: usize,
    /// Hard upper bound on the number of generation steps.
    pub max_steps: usize,
}

/// Everything a request is served with: the loaded model, the tokenizer
/// and the configuration.  Built once, before the first request.
pub struct ModelBundle {
    model: Model,
    encoder: TokenEncoder,
    config: ModelConfig,
}

impl ModelBundle {
    /// The configuration the bundle was built with.
    pub closed spec fn settings(&self) -> ModelConfig {
        self.config
    }

    /// The tokenizer the bundle was built with.
    pub closed spec fn tokenizer(&self) -> TokenEncoder {
        self.encoder
    }

    /// Puts the loaded parts together.
    pub fn new(model: Model, encoder: TokenEncoder, config: ModelConfig) -> (bundle: ModelBundle)
        ensures
            bundle.settings() == config,
            bundle.tokenizer() == encoder,
    {
        ModelBundle { model, encoder, config }
    }

    /// The configuration the bundle was built with.
    pub fn config(&self) -> (config: ModelConfig)
        ensures
            config == self.settings(),
    {
        self.config
    }

    /// The tokenizer chosen at start-up.
    pub fn encoder(&self) -> (encoder: &TokenEncoder)
        ensures
            *encoder == self.tokenizer(),
    {
        &self.encoder
    }

    /// Encodes the text and the description of `request` and generates the
    /// audio codes for them, drawing from `sampler`.
    ///
    /// The configuration and the tokenizer are left as they were.  On
    /// success the matrix is rectangular and has at most `config.max_steps`
    /// columns.  The only failures are `Tokenization`, which the character
    /// tokenizer never gives, and `Generation`.
    pub fn generate_codes(&mut self, request: &GenerationRequest, sampler: LogitsProcessor) -> (r:
        Result<CodeMatrix, PipelineError>)
        ensures
            final(self).settings() == old(self).settings(),
            final(self).tokenizer() == old(self).tokenizer(),
            r matches Ok(m) ==> is_generated(m@, old(self).settings().max_steps as int),
            r matches Err(e) ==> e == PipelineError::Tokenization || e
                == PipelineError::Generation,
            r matches Err(e) ==> old(self).tokenizer() is FallbackChar ==> e
                == PipelineError::Generation,
    {
        let prompt = match self.encoder.encode(request.text().as_str()) {
            Ok(ids) => ids,
            Err(e) => {
                return Err(e);
            },
        };
        let style = match self.encoder.encode(request.description().as_str()) {
            Ok(ids) => ids,
            Err(e) => {
                return Err(e);
            },
        };
        let max_steps = self.config.max_steps;
        engine::generate(&mut self.model, &prompt, &style, sampler, max_steps)
    }

    /// Decodes the codes into a waveform and normalises its loudness.
    ///
    /// Fails with `AudioDecode`, and with nothing else: always when the
    /// matrix does not fit the codec of the configuration or has fewer time
    /// steps than the codec can decode.
    pub fn decode_audio(&self, codes: &CodeMatrix) -> (r: Result<Tensor, PipelineError>)
        ensures
            !fits_codec(
                codes@,
                self.settings().codebook_count as int,
                self.settings().codebook_size as int,
            ) ==> r is Err,
            steps_of(codes@) < audio::MIN_DECODABLE_STEPS ==> r is Err,
            r matches Err(e) ==> e == PipelineError::AudioDecode,
    {
        let waveform = match audio::decode(
            &self.model,
            codes,
            self.config.codebook_count,
            self.config.codebook_size,
        ) {
            Ok(t) => t,
            Err(e) => {
                return Err(e);
            },
        };
        audio::normalize(&waveform)
    }

    /// Runs one accepted request through every stage, in order: sampling
    /// parameters, tokenization, generation, decoding, loudness, quantisation
    /// and serialisation.  The first stage that fails ends the run, and
    /// nothing of the stages before it is handed out.
    ///
    /// `make_sampler` builds the sampler for the parameters of the request;
    /// `quantise` reads the waveform as sixteen-bit samples, or gives `None`
    /// where it cannot be read.  Both work on fractional numbers and are
    /// for the caller to supply; they must accept every valid configuration
    /// and every waveform.
    ///
    /// On success the container holds exactly the samples that `quantise`
    /// gave, and declares the configured sample rate, one channel and
    /// sixteen bits.  A failure is one of `Tokenization`, `Generation`,
    /// `AudioDecode` and `AudioEncode`.
    pub fn synthesize<S, Q>(
        &mut self,
        request: &GenerationRequest,
        make_sampler: S,
        quantise: Q,
    ) -> (r: Result<WavFile, PipelineError>) where
        S: Fn(SamplingConfig) -> LogitsProcessor,
        Q: Fn(&Tensor) -> Option<Vec<i16>>,

        requires
            forall|c: SamplingConfig| c.is_valid() ==> call_requires(make_sampler, (c,)),
            forall|t: &Tensor| call_requires(quantise, (t,)),
        ensures
            final(self).settings() == old(self).settings(),
            final(self).tokenizer() == old(self).tokenizer(),
            r matches Ok(w) ==> {
                &&& is_container(w@)
                &&& declared_rate(w@) == old(self).settings().sample_rate
                &&& declared_channels(w@) == 1
                &&& declared_bits(w@) == 16
            },
            r matches Ok(w) ==> exists|t: &Tensor, samples: Vec<i16>|
                {
                    &&& #[trigger] call_ensures(quantise, (t,), Some(samples))
                    &&& w@ == wav_bytes(samples@, old(self).settings().sample_rate)
                    &&& w@.len() == 44 + 2 * samples@.len()
                },
            r matches Err(e) ==> e == PipelineError::Tokenization || e
                == PipelineError::Generation || e == PipelineError::AudioDecode || e
                == PipelineError::AudioEncode,
    {
        let sampler = make_sampler(SamplingConfig::from_request(request));
        let codes = match self.generate_codes(request, sampler) {
            Ok(codes) => codes,
            Err(e) => {
                return Err(e);
            },
        };
        let waveform = match self.decode_audio(&codes) {
            Ok(t) => t,
            Err(e) => {
                return Err(e);
            },
        };
        let samples = match quantise(&waveform) {
            Some(samples) => samples,
            None => {
                return Err(PipelineError::AudioDecode);
            },
        };
        let r = self.finish(&samples);
        proof {
            if r is Ok {
                lemma_round_trip(samples@, self.settings().sample_rate);
                assert(call_ensures(quantise, (&waveform,), Some(samples)));
            }
        }
        r
    }

    /// Answers one submitted form.
    ///
    /// A form without a text is answered with status 400 and the bundle is
    /// not touched.  Every other form is run through the stages and is
    /// answered either with status 200 and a well-formed container that
    /// holds exactly the samples that `quantise` gave and declares the
    /// configured sample rate, one channel and sixteen bits, offered for
    /// download as `file_name`, or with status 500 and no body.
    pub fn handle<S, Q>(
        &mut self,
        fields: &Vec<FormField>,
        file_name: &str,
        make_sampler: S,
        quantise: Q,
    ) -> (r: Reply) where
        S: Fn(SamplingConfig) -> LogitsProcessor,
        Q: Fn(&Tensor) -> Option<Vec<i16>>,

        requires
            forall|c: SamplingConfig| c.is_valid() ==> call_requires(make_sampler, (c,)),
            forall|t: &Tensor| call_requires(quantise, (t,)),
        ensures
            final(self).settings() == old(self).settings(),
            final(self).tokenizer() == old(self).tokenizer(),
            request_of(fields@) is None ==> r.status == 400 && *final(self) == *old(self),
            request_of(fields@) is Some ==> r.status == 200 || r.status == 500,
            r.status == 200 ==> {
                &&& is_container(r.body@)
                &&& declared_rate(r.body@) == old(self).settings().sample_rate
                &&& declared_channels(r.body@) == 1
                &&& declared_bits(r.body@) == 16
                &&& r.content_type matches Some(t) && t@ == audio_content_type()
                &&& r.content_disposition matches Some(d) && d@ == disposition_of(file_name@)
            },
            r.status == 200 ==> exists|t: &Tensor, samples: Vec<i16>|
                {
                    &&& #[trigger] call_ensures(quantise, (t,), Some(samples))
                    &&& r.body@ == wav_bytes(samples@, old(self).settings().sample_rate)
                    &&& r.body@.len() == 44 + 2 * samples@.len()
                },
            r.status != 200 ==> {
                &&& r.body@.len() == 0
                &&& r.content_type is None
                &&& r.content_disposition is None
            },
    {
        let request = match GenerationRequest::from_form(fields) {
            Ok(request) => request,
            Err(e) => {
                return reply(Err(e), file_name);
            },
        };
        let outcome = self.synthesize(&request, make_sampler, quantise);
        reply(outcome, file_name)
    }

    /// Serialises the quantised samples at the sample rate of the
    /// configuration.
    ///
    /// Succeeds exactly when the header fields can hold the size and the
    /// rate.  The container then declares the configured sample rate, one
    /// channel and sixteen bits, and holds the samples unchanged.
    pub fn finish(&self, samples: &Vec<i16>) -> (r: Result<WavFile, PipelineError>)
        ensures
            r is Ok <==> fits(samples@.len() as int, self.settings().sample_rate),
            r matches Ok(w) ==> {
                &&& w@ == wav_bytes(samples@, self.settings().sample_rate)
                &&& is_container(w@)
                &&& declared_rate(w@) == self.settings().sample_rate
                &&& declared_channels(w@) == 1
                &&& declared_bits(w@) == 16
                &&& decoded_samples(w@) == samples@
            },
            r matches Err(e) ==> e == PipelineError::AudioEncode,
    {
        proof {
            if fits(samples@.len() as int, self.config.sample_rate) {
                lemma_round_trip(samples@, self.config.sample_rate);
            }
        }
        WavFile::encode(samples, self.config.sample_rate)
    }
}

/// Whatever the samples, the container written for them under a
/// configuration is well formed and declares the configured sample rate,
/// one channel and sixteen bits.
pub proof fn lemma_container_follows_configuration(samples: Seq<i16>, config: ModelConfig)
    requires
        fits(samples.len() as int, config.sample_rate),
    ensures
        is_container(wav_bytes(samples, config.sample_rate)),
        declared_rate(wav_bytes(samples, config.sample_rate)) == config.sample_rate,
        declared_channels(wav_bytes(samples, config.sample_rate)) == 1,
        declared_bits(wav_bytes(samples, config.sample_rate)) == 16,
{
    lemma_round_trip(samples, config.sample_rate);
}

/// Equal samples under configurations with equal sample rates are
/// written as byte-identical containers: of two requests whose samples
/// come out equal, the bodies are equal.
pub proof fn lemma_equal_samples_equal_bodies(
    a: Seq<i16>,
    b: Seq<i16>,
    first: ModelConfig,
    second: ModelConfig,
)
    requires
        a == b,
        first.sample_rate == second.sample_rate,
    ensures
        wav_bytes(a, first.sample_rate) == wav_bytes(b, second.sample_rate),
{
}

/// A container that holds at least one sample is longer than its header.
pub proof fn lemma_audio_follows_header(samples: Seq<i16>, config: ModelConfig)
    requires
        samples.len() >= 1,
        fits(samples.len() as int, config.sample_rate),
    ensures
        wav_bytes(samples, config.sample_rate).len() > 44,
        wav_bytes(samples, config.sample_rate).len() == 44 + 2 * samples.len(),
{
    lemma_round_trip(samples, config.sample_rate);
}

} // verus!
