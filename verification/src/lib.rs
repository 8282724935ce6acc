//! Text-to-speech request pipeline: request validation, token encoding,
//! autoregressive code generation, waveform decoding and WAV serialisation.
//!
//! Every function in this crate carries a contract and is verified against
//! it.  Calls into the tensor, tokenizer and JSON crates go through small
//! trusted wrappers whose doc comments say what is assumed of the callee.

pub mod audio;
pub mod codes;
pub mod decimal;
pub mod engine;
pub mod error;
pub mod pipeline;
pub mod request;
pub mod response;
pub mod sampling;
pub mod shards;
pub mod text;
pub mod tokens;
pub mod wav;
