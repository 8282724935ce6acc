//! Turning text into token ids, with the loaded vocabulary or, where none
//! could be loaded, character by character.

use vstd::prelude::*;
use crate::error::PipelineError;
use crate::text::chars_of;

verus! {

#[verifier::external_type_specification]
#[verifier::external_body]
pub struct ExTokenizer(tokenizers::Tokenizer);

/// The ids of one text, in order.
pub type TokenSequence = Vec<u32>;

/// Number of distinct ids that the character tokenizer produces.
pub const FALLBACK_MODULUS: u32 = 1000;

/// The id that the character tokenizer gives to `c`: its code point modulo
/// the number of ids.
pub open spec fn fallback_id(c: char) -> u32 {
    (c as u32 % FALLBACK_MODULUS) as u32
}

/// The ids that the character tokenizer gives to `text`: one per character.
pub open spec fn fallback_ids(text: Seq<char>) -> Seq<u32> {
    Seq::new(text.len(), |i: int| fallback_id(text[i]))
}

/// The tokenizer of the running server, chosen once at start-up.
pub enum TokenEncoder {
    /// Subword ids from the loaded vocabulary.
    Vocabulary(tokenizers::Tokenizer),
    /// One id per character; keeps the pipeline working without a vocabulary.
    FallbackChar,
}

/// The numbers that decide how an encoding is cut to length.
#[derive(Clone, Copy, Debug, PartialEq, Eq, Structural)]
pub struct Truncation {
    /// Longest encoding that is kept, special tokens included.
    pub max_length: usize,
    /// Number of ids that consecutive pieces of a cut encoding share.
    pub stride: usize,
    /// Number of special tokens that are added to a single text.
    pub added: usize,
}

impl Truncation {
    /// Room left for the ids of the text itself: the maximal length, less
    /// the special tokens where they are asked for.
    pub open spec fn room(self, special: bool) -> int {
        if special {
            self.max_length - self.added
        } else {
            self.max_length as int
        }
    }

    /// Whether an encoding of any length can be cut with these numbers:
    /// there is room for the special tokens, and where any room is left for
    /// the text, the stride is shorter than it.
    pub open spec fn is_usable(self, special: bool) -> bool {
        self.room(special) == 0 || 0 <= self.stride < self.room(special)
    }

    /// Whether an encoding of any length can be cut with these numbers.
    pub fn usable(&self, special: bool) -> (ok: bool)
        ensures
            ok == self.is_usable(special),
    {
        if special && self.added > self.max_length {
            return false;
        }
        let room: usize = if special {
            self.max_length - self.added
        } else {
            self.max_length
        };
        room == 0 || self.stride < room
    }
}

/// Whether a tokenizer with the given truncation can be asked to encode:
/// one that does not cut at all always can.
pub open spec fn can_encode(truncation: Option<Truncation>, special: bool) -> bool {
    truncation matches Some(t) ==> t.is_usable(special)
}

/// The maximal length and the stride that a tokenizer was loaded with, in
/// this order; `None` for one that does not cut.
pub uninterp spec fn truncation_of(tokenizer: tokenizers::Tokenizer) -> Option<(usize, usize)>;

/// The number of special tokens that the post-processor of a tokenizer adds
/// to a single text, or to a pair of texts; `None` for a tokenizer without
/// a post-processor.
pub uninterp spec fn added_tokens_of(tokenizer: tokenizers::Tokenizer, pair: bool) -> Option<
    usize,
>;

/// The truncation numbers of a tokenizer for single texts; a tokenizer
/// without a post-processor adds no tokens.
pub open spec fn limits_of(tokenizer: tokenizers::Tokenizer) -> Option<Truncation> {
    match truncation_of(tokenizer) {
        Some((max_length, stride)) => Some(
            Truncation {
                max_length,
                stride,
                added: match added_tokens_of(tokenizer, false) {
                    Some(n) => n,
                    None => 0,
                },
            },
        ),
        None => None,
    }
}

/// Reads the maximal length and the stride out of what
/// `Tokenizer::get_truncation` gives.
#[verifier::external_body]
fn read_truncation(tokenizer: &tokenizers::Tokenizer) -> (numbers: Option<(usize, usize)>)
    ensures
        numbers == truncation_of(*tokenizer),
{
    tokenizer.get_truncation().map(|t| (t.max_length, t.stride))
}

/// Asks the post-processor that `Tokenizer::get_post_processor` gives for
/// `PostProcessor::added_tokens`.
#[verifier::external_body]
fn read_added_tokens(tokenizer: &tokenizers::Tokenizer, pair: bool) -> (added: Option<usize>)
    ensures
        added == added_tokens_of(*tokenizer, pair),
{
    tokenizer.get_post_processor().map(|p| tokenizers::PostProcessor::added_tokens(p, pair))
}

/// The truncation numbers of a tokenizer for single texts.
fn read_limits(tokenizer: &tokenizers::Tokenizer) -> (limits: Option<Truncation>)
    ensures
        limits == limits_of(*tokenizer),
{
    match read_truncation(tokenizer) {
        Some((max_length, stride)) => {
            let added = match read_added_tokens(tokenizer, false) {
                Some(n) => n,
                None => 0,
            };
            Some(Truncation { max_length, stride, added })
        },
        None => None,
    }
}

/// Calls `tokenizers::Tokenizer::encode` on one text and copies the ids out
/// of the encoding (`Encoding::get_ids`).  Nothing is assumed of the ids:
/// they depend on the vocabulary, which is opaque here, and a model with
/// dropout draws random numbers.  `None` stands for the crate's error.
///
/// Tokenizers whose truncation numbers are not usable are left out: where
/// special tokens are asked for, the crate subtracts their number from the
/// maximal length, and before cutting it asserts that the stride is
/// shorter than what is left.
#[verifier::external_body]
fn vocabulary_ids(tokenizer: &tokenizers::Tokenizer, text: &str, special: bool) -> (ids: Option<
    Vec<u32>,
>)
    requires
        can_encode(limits_of(*tokenizer), special),
{
    tokenizer.encode(text, special).ok().map(|encoding| encoding.get_ids().to_vec())
}

impl TokenEncoder {
    /// The tokenizer to run with, given what loading the vocabulary gave:
    /// the vocabulary tokenizer where there is one, the character tokenizer
    /// otherwise.
    pub fn select(loaded: Option<tokenizers::Tokenizer>) -> (encoder: TokenEncoder)
        ensures
            encoder == match loaded {
                Some(t) => TokenEncoder::Vocabulary(t),
                None => TokenEncoder::FallbackChar,
            },
    {
        match loaded {
            Some(t) => TokenEncoder::Vocabulary(t),
            None => TokenEncoder::FallbackChar,
        }
    }

    /// What `encode` returns for the outcome of the vocabulary lookup: the
    /// ids where there are some, `Tokenization` otherwise.
    pub fn resolve(outcome: Option<Vec<u32>>) -> (r: Result<TokenSequence, PipelineError>)
        ensures
            r == match outcome {
                Some(ids) => Ok::<TokenSequence, PipelineError>(ids),
                None => Err(PipelineError::Tokenization),
            },
    {
        match outcome {
            Some(ids) => Ok(ids),
            None => Err(PipelineError::Tokenization),
        }
    }

    /// The ids of `text`.
    ///
    /// The character tokenizer never fails and gives each character its
    /// code point modulo `FALLBACK_MODULUS`; the empty text gives no ids.
    /// The vocabulary tokenizer gives the ids of the vocabulary, special
    /// tokens included, or fails with `Tokenization`; it always fails when
    /// its truncation numbers are not usable.
    pub fn encode(&self, text: &str) -> (r: Result<TokenSequence, PipelineError>)
        ensures
            self is FallbackChar ==> r is Ok && r->Ok_0@ == fallback_ids(text@),
            self matches TokenEncoder::Vocabulary(t) && !can_encode(limits_of(*t), true)
                ==> r is Err,
            r matches Err(e) ==> e == PipelineError::Tokenization && self is Vocabulary,
    {
        match self {
            TokenEncoder::Vocabulary(tokenizer) => {
                let usable = match read_limits(tokenizer) {
                    Some(truncation) => truncation.usable(true),
                    None => true,
                };
                if usable {
                    TokenEncoder::resolve(vocabulary_ids(tokenizer, text, true))
                } else {
                    Err(PipelineError::Tokenization)
                }
            },
            TokenEncoder::FallbackChar => Ok(fallback_encode(text)),
        }
    }
}

/// The ids that the character tokenizer gives to `text`.
pub fn fallback_encode(text: &str) -> (ids: TokenSequence)
    ensures
        ids@ == fallback_ids(text@),
        ids@.len() == text@.len(),
        forall|i: int| 0 <= i < ids@.len() ==> ids@[i] < FALLBACK_MODULUS,
{
    let chars = chars_of(text);
    let mut ids: Vec<u32> = Vec::new();
    let mut i: usize = 0;
    while i < chars.len()
        invariant
            i <= chars@.len(),
            chars@ == text@,
            ids@.len() == i,
            forall|j: int| 0 <= j < i ==> ids@[j] == fallback_id(text@[j]),
        decreases chars@.len() - i,
    {
        let c: u32 = chars[i] as u32;
        ids.push(c % FALLBACK_MODULUS);
        i = i + 1;
    }
    assert(ids@ =~= fallback_ids(text@));
    ids
}

} // verus!
