//! The failure taxonomy of the pipeline and its mapping to HTTP statuses.

use vstd::prelude::*;
use vstd::string::*;

verus! {

/// Why a request, or the start-up of the server, failed.
#[derive(Clone, Copy, Debug, PartialEq, Eq, Structural)]
pub enum PipelineError {
    /// A required form field is missing or empty.
    InvalidRequest,
    /// Model artefacts could not be retrieved or parsed; fatal at start-up.
    ModelLoad,
    /// The vocabulary tokenizer could not encode a text.
    Tokenization,
    /// The model failed while scoring or sampling, or produced malformed codes.
    Generation,
    /// The code matrix handed to the codec is malformed or was rejected by it.
    AudioDecode,
    /// The samples cannot be serialised into a container.
    AudioEncode,
    /// The file system refused to persist the output.
    Io,
}

/// Status of a successful response.
pub const STATUS_OK: u16 = 200;

/// Status reported for a request that failed validation.
pub const STATUS_BAD_REQUEST: u16 = 400;

/// Status reported for every failure inside the pipeline.
pub const STATUS_INTERNAL_ERROR: u16 = 500;

impl PipelineError {
    /// Validation failures are the caller's fault; everything else is internal.
    pub open spec fn is_client_error(self) -> bool {
        self is InvalidRequest
    }

    /// Only artefact loading failures abort start-up.
    pub open spec fn is_fatal(self) -> bool {
        self is ModelLoad
    }

    /// The HTTP status the error is reported with.
    pub open spec fn status_spec(self) -> u16 {
        if self.is_client_error() {
            STATUS_BAD_REQUEST
        } else {
            STATUS_INTERNAL_ERROR
        }
    }

    /// The HTTP status the error is reported with: 400 for a validation
    /// failure, 500 for anything else.
    pub fn status(&self) -> (code: u16)
        ensures
            code == self.status_spec(),
            code == 400 <==> *self == PipelineError::InvalidRequest,
            code == 500 <==> *self != PipelineError::InvalidRequest,
    {
        match self {
            PipelineError::InvalidRequest => STATUS_BAD_REQUEST,
            _ => STATUS_INTERNAL_ERROR,
        }
    }

    /// Whether the process must stop instead of serving traffic.
    pub fn aborts_startup(&self) -> (fatal: bool)
        ensures
            fatal == self.is_fatal(),
    {
        match self {
            PipelineError::ModelLoad => true,
            _ => false,
        }
    }

    /// The text logged for operators.
    pub open spec fn message_spec(self) -> Seq<char> {
        match self {
            PipelineError::InvalidRequest => "invalid request: text is required"@,
            PipelineError::ModelLoad => "model artefacts could not be loaded"@,
            PipelineError::Tokenization => "text could not be tokenized"@,
            PipelineError::Generation => "audio code generation failed"@,
            PipelineError::AudioDecode => "audio codes could not be decoded"@,
            PipelineError::AudioEncode => "samples could not be serialised"@,
            PipelineError::Io => "output could not be persisted"@,
        }
    }

    /// The text logged for operators.
    pub fn message(&self) -> (text: String)
        ensures
            text@ == self.message_spec(),
    {
        match self {
            PipelineError::InvalidRequest => String::from_str("invalid request: text is required"),
            PipelineError::ModelLoad => String::from_str("model artefacts could not be loaded"),
            PipelineError::Tokenization => String::from_str("text could not be tokenized"),
            PipelineError::Generation => String::from_str("audio code generation failed"),
            PipelineError::AudioDecode => String::from_str("audio codes could not be decoded"),
            PipelineError::AudioEncode => String::from_str("samples could not be serialised"),
            PipelineError::Io => String::from_str("output could not be persisted"),
        }
    }
}

} // verus!
