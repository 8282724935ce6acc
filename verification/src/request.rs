//! Inbound generation requests: reading the form fields, applying the
//! defaults and rejecting what cannot be served.

use vstd::prelude::*;
use vstd::string::*;
use crate::decimal::Decimal;
use crate::error::PipelineError;
use crate::text::{parse_unsigned, same_text, unsigned_of};

verus! {

/// Name of the required field that carries the text to speak.
pub const TEXT_FIELD: &'static str = "text";

/// Name of the optional field that describes the voice.
pub const DESCRIPTION_FIELD: &'static str = "description";

/// Name of the optional field that carries the sampling temperature.
pub const TEMPERATURE_FIELD: &'static str = "temperature";

/// Name of the optional field that carries the random seed.
pub const SEED_FIELD: &'static str = "seed";

/// Name of the optional field that carries the nucleus threshold.
pub const TOP_P_FIELD: &'static str = "top_p";

/// Name of the required field that carries the text to speak.
pub open spec fn text_field() -> Seq<char> {
    "text"@
}

/// Name of the optional field that describes the voice.
pub open spec fn description_field() -> Seq<char> {
    "description"@
}

/// Name of the optional field that carries the sampling temperature.
pub open spec fn temperature_field() -> Seq<char> {
    "temperature"@
}

/// Name of the optional field that carries the random seed.
pub open spec fn seed_field() -> Seq<char> {
    "seed"@
}

/// Name of the optional field that carries the nucleus threshold.
pub open spec fn top_p_field() -> Seq<char> {
    "top_p"@
}

/// The voice description used when a request brings none.
pub open spec fn default_description() -> Seq<char> {
    "A female speaker delivers a slightly expressive and animated speech with a moderate speed and pitch. The recording is of very high quality, with the speaker's voice sounding clear and very close up."@
}

/// One field of a submitted form.
///
/// `decimal` is the value read as a decimal number, where it reads as one;
/// the reader of the form fills it in, since this crate does not compute
/// with fractional numbers.  It is consulted for the decimal fields only.
pub struct FormField {
    pub name: String,
    pub value: String,
    pub decimal: Option<Decimal>,
}

/// The last field called `name`, if there is one: a later field overrides
/// an earlier one of the same name.
pub open spec fn latest(fields: Seq<FormField>, name: Seq<char>) -> Option<FormField>
    decreases fields.len(),
{
    if fields.len() == 0 {
        None
    } else if fields.last().name@ == name {
        Some(fields.last())
    } else {
        latest(fields.drop_last(), name)
    }
}

/// The text of the field called `name`; empty when the form has no such field.
pub open spec fn text_of(fields: Seq<FormField>, name: Seq<char>) -> Seq<char> {
    match latest(fields, name) {
        Some(f) => f.value@,
        None => Seq::empty(),
    }
}

/// The decimal reading of the field called `name`; nothing when the form
/// has no such field or its value does not read as a number.
pub open spec fn decimal_of(fields: Seq<FormField>, name: Seq<char>) -> Option<Decimal> {
    match latest(fields, name) {
        Some(f) => f.decimal,
        None => None,
    }
}

/// The seed that the form asks for; nothing when the form has no seed field
/// or its value is not an unsigned 64-bit numeral.
pub open spec fn seed_of(fields: Seq<FormField>) -> Option<u64> {
    match latest(fields, seed_field()) {
        Some(f) => unsigned_of(f.value@),
        None => None,
    }
}

/// A temperature is kept when it is at least zero, and dropped otherwise.
pub open spec fn kept_temperature(d: Option<Decimal>) -> Option<Decimal> {
    if d is Some && d->0.is_non_negative() {
        d
    } else {
        None
    }
}

/// A nucleus threshold is kept when it is greater than zero and at most
/// one, and dropped otherwise.
pub open spec fn kept_top_p(d: Option<Decimal>) -> Option<Decimal> {
    if d is Some && d->0.is_unit_fraction() {
        d
    } else {
        None
    }
}

/// What a request says, as plain values.
pub struct RequestView {
    pub text: Seq<char>,
    pub description: Seq<char>,
    pub temperature: Option<Decimal>,
    pub seed: Option<u64>,
    pub top_p: Option<Decimal>,
}

impl RequestView {
    /// The text and the description are not empty, the temperature is at
    /// least zero and the nucleus threshold lies in (0, 1].
    pub open spec fn is_well_formed(self) -> bool {
        &&& self.text.len() > 0
        &&& self.description.len() > 0
        &&& self.temperature == kept_temperature(self.temperature)
        &&& self.top_p == kept_top_p(self.top_p)
    }
}

/// The request made of the given values: none when the text is empty;
/// otherwise the text as it is, the default description in place of an
/// empty one, and each numeric value that is out of range dropped.
pub open spec fn request_from(
    text: Seq<char>,
    description: Seq<char>,
    temperature: Option<Decimal>,
    seed: Option<u64>,
    top_p: Option<Decimal>,
) -> Option<RequestView> {
    if text.len() == 0 {
        None
    } else {
        Some(
            RequestView {
                text,
                description: if description.len() == 0 {
                    default_description()
                } else {
                    description
                },
                temperature: kept_temperature(temperature),
                seed,
                top_p: kept_top_p(top_p),
            },
        )
    }
}

/// The request that a form makes.
pub open spec fn request_of(fields: Seq<FormField>) -> Option<RequestView> {
    request_from(
        text_of(fields, text_field()),
        text_of(fields, description_field()),
        decimal_of(fields, temperature_field()),
        seed_of(fields),
        decimal_of(fields, top_p_field()),
    )
}

/// Position of the last field called `name`.
fn find_latest(fields: &Vec<FormField>, name: &str) -> (found: Option<usize>)
    ensures
        match found {
            Some(k) => k < fields@.len() && latest(fields@, name@) == Some(fields@[k as int]),
            None => latest(fields@, name@) is None,
        },
{
    let mut found: Option<usize> = None;
    let mut i: usize = 0;
    while i < fields.len()
        invariant
            i <= fields@.len(),
            match found {
                Some(k) => k < i && latest(fields@.take(i as int), name@) == Some(
                    fields@[k as int],
                ),
                None => latest(fields@.take(i as int), name@) is None,
            },
        decreases fields@.len() - i,
    {
        proof {
            let next = fields@.take(i + 1);
            assert(next.drop_last() =~= fields@.take(i as int));
            assert(next.last() == fields@[i as int]);
        }
        if same_text(fields[i].name.as_str(), name) {
            found = Some(i);
        }
        i = i + 1;
    }
    assert(fields@.take(fields@.len() as int) =~= fields@);
    found
}

/// The text of the field called `name`, or the empty string.
fn field_text(fields: &Vec<FormField>, name: &str) -> (value: String)
    ensures
        value@ == text_of(fields@, name@),
{
    match find_latest(fields, name) {
        Some(k) => fields[k].value.clone(),
        None => String::new(),
    }
}

/// The decimal reading of the field called `name`.
fn field_decimal(fields: &Vec<FormField>, name: &str) -> (value: Option<Decimal>)
    ensures
        value == decimal_of(fields@, name@),
{
    match find_latest(fields, name) {
        Some(k) => fields[k].decimal,
        None => None,
    }
}

/// A request that passed validation.  Every value of this type is well
/// formed, so generation never sees an empty text.
pub struct GenerationRequest {
    text: String,
    description: String,
    temperature: Option<Decimal>,
    seed: Option<u64>,
    top_p: Option<Decimal>,
}

impl View for GenerationRequest {
    type V = RequestView;

    closed spec fn view(&self) -> RequestView {
        RequestView {
            text: self.text@,
            description: self.description@,
            temperature: self.temperature,
            seed: self.seed,
            top_p: self.top_p,
        }
    }
}

impl GenerationRequest {
    #[verifier::type_invariant]
    spec fn well_formed(&self) -> bool {
        self@.is_well_formed()
    }

    /// Builds a request from its parts.
    ///
    /// Fails with `InvalidRequest` exactly when `text` is empty.  An empty
    /// description is replaced by the default one; a temperature below zero
    /// and a nucleus threshold outside (0, 1] are treated as absent.
    pub fn new(
        text: String,
        description: String,
        temperature: Option<Decimal>,
        seed: Option<u64>,
        top_p: Option<Decimal>,
    ) -> (r: Result<GenerationRequest, PipelineError>)
        ensures
            r is Ok <==> text@.len() > 0,
            r matches Ok(q) ==> Some(q@) == request_from(
                text@,
                description@,
                temperature,
                seed,
                top_p,
            ) && q@.is_well_formed(),
            r matches Err(e) ==> e == PipelineError::InvalidRequest,
    {
        if text.as_str().is_empty() {
            return Err(PipelineError::InvalidRequest);
        }
        let description = if description.as_str().is_empty() {
            proof {
                reveal_strlit(
                    "A female speaker delivers a slightly expressive and animated speech with a moderate speed and pitch. The recording is of very high quality, with the speaker's voice sounding clear and very close up.",
                );
            }
            String::from_str(
                "A female speaker delivers a slightly expressive and animated speech with a moderate speed and pitch. The recording is of very high quality, with the speaker's voice sounding clear and very close up.",
            )
        } else {
            description
        };
        let temperature = match temperature {
            Some(t) => if t.non_negative() {
                Some(t)
            } else {
                None
            },
            None => None,
        };
        let top_p = match top_p {
            Some(p) => if p.unit_fraction() {
                Some(p)
            } else {
                None
            },
            None => None,
        };
        Ok(GenerationRequest { text, description, temperature, seed, top_p })
    }

    /// Reads a request from the fields of a submitted form.
    ///
    /// Of several fields with one name the last counts; fields with other
    /// names are ignored.  Fails with `InvalidRequest` exactly when the form
    /// has no text or an empty one.  A seed that is not an unsigned 64-bit
    /// numeral and a decimal field that does not read as a number are
    /// treated as absent, never as an error.
    pub fn from_form(fields: &Vec<FormField>) -> (r: Result<GenerationRequest, PipelineError>)
        ensures
            r is Ok <==> text_of(fields@, text_field()).len() > 0,
            r matches Ok(q) ==> Some(q@) == request_of(fields@) && q@.is_well_formed(),
            r matches Err(e) ==> e == PipelineError::InvalidRequest,
    {
        let text = field_text(fields, TEXT_FIELD);
        let description = field_text(fields, DESCRIPTION_FIELD);
        let temperature = field_decimal(fields, TEMPERATURE_FIELD);
        let top_p = field_decimal(fields, TOP_P_FIELD);
        let seed = match find_latest(fields, SEED_FIELD) {
            Some(k) => parse_unsigned(fields[k].value.as_str()),
            None => None,
        };
        GenerationRequest::new(text, description, temperature, seed, top_p)
    }

    /// The text to speak; never empty.
    pub fn text(&self) -> (text: &String)
        ensures
            text@ == self@.text,
            text@.len() > 0,
    {
        proof {
            use_type_invariant(self);
        }
        &self.text
    }

    /// The voice description; never empty.
    pub fn description(&self) -> (description: &String)
        ensures
            description@ == self@.description,
            description@.len() > 0,
    {
        proof {
            use_type_invariant(self);
        }
        &self.description
    }

    /// The temperature asked for, if any; at least zero.
    pub fn temperature(&self) -> (temperature: Option<Decimal>)
        ensures
            temperature == self@.temperature,
            temperature matches Some(t) ==> t.is_non_negative(),
    {
        proof {
            use_type_invariant(self);
        }
        self.temperature
    }

    /// The seed asked for, if any.
    pub fn seed(&self) -> (seed: Option<u64>)
        ensures
            seed == self@.seed,
    {
        self.seed
    }

    /// The nucleus threshold asked for, if any; in (0, 1].
    pub fn top_p(&self) -> (top_p: Option<Decimal>)
        ensures
            top_p == self@.top_p,
            top_p matches Some(p) ==> p.is_unit_fraction(),
    {
        proof {
            use_type_invariant(self);
        }
        self.top_p
    }
}

/// A form without a text field, or with an empty one, makes no request.
pub proof fn lemma_empty_text_is_rejected(fields: Seq<FormField>)
    requires
        text_of(fields, text_field()).len() == 0,
    ensures
        request_of(fields) is None,
{
}

/// A form with a text and without a description, or with an empty one,
/// makes a request with the default description.
pub proof fn lemma_empty_description_is_defaulted(fields: Seq<FormField>)
    requires
        text_of(fields, text_field()).len() > 0,
        text_of(fields, description_field()).len() == 0,
    ensures
        request_of(fields) matches Some(q) && q.description == default_description()
            && q.is_well_formed(),
{
    reveal_strlit(
        "A female speaker delivers a slightly expressive and animated speech with a moderate speed and pitch. The recording is of very high quality, with the speaker's voice sounding clear and very close up.",
    );
}

/// Every request that a form makes is well formed.
pub proof fn lemma_request_is_well_formed(fields: Seq<FormField>)
    requires
        request_of(fields) is Some,
    ensures
        request_of(fields)->0.is_well_formed(),
        request_of(fields)->0.text == text_of(fields, text_field()),
{
    reveal_strlit(
        "A female speaker delivers a slightly expressive and animated speech with a moderate speed and pitch. The recording is of very high quality, with the speaker's voice sounding clear and very close up.",
    );
}

} // verus!
