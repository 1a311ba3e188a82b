//! From the answer of the inference service to a resolution that may be
//! released.
//!
//! The answer is read in two steps. [`extract`] decides what the answer
//! holds: nothing, a report that no result can be had, or the arguments of a
//! structured call, as JSON text. Once that text has been decoded,
//! [`conclude`] holds the decoded resolution to the payout invariants.
//! [`resolve_response`] takes both steps, with the decoder handed in.

use crate::chat::{ChatCompletionResponse, ResponseMessage};
use crate::question::{
    accepted, all_ones, cancel_payout, cancellation, payout_fault, PayoutError, QuestionResponse,
    Resolution,
};
use crate::text::{chars_of, contains, find};
use vstd::prelude::*;
use vstd::string::StringExecFns;

verus! {

/// The answer given where the service reports that no result can be had.
pub const NO_WINNER: &'static str = "No winner";

/// Why the answer of the service holds no resolution.
#[derive(Debug)]
pub enum SchemaError {
    /// The answer holds no candidate.
    NoChoices,
    /// The first candidate made no structured call.
    NoStructuredCall,
    /// The arguments of the structured call are not a resolution. `raw` is
    /// the text of the arguments, `reason` what the decoder said of it.
    SchemaMismatch { raw: String, reason: String },
}

/// Why no resolution was released.
#[derive(Debug)]
pub enum ResolveError {
    Schema(SchemaError),
    Payout(PayoutError),
}

/// What is said of an answer without candidates.
pub const NO_CHOICES: &'static str = "No choices in response";

/// What is said of a candidate without a structured call.
pub const NO_STRUCTURED_CALL: &'static str = "No tool calls in response";

/// What stands before the decoder's reason.
pub const MISMATCH_HEAD: &'static str = "Failed to parse tool call arguments: ";

impl SchemaError {
    /// The error in words. Of arguments that are not a resolution, the
    /// decoder's reason is given and the raw text is not.
    pub open spec fn text(self) -> Seq<char> {
        match self {
            SchemaError::NoChoices => NO_CHOICES@,
            SchemaError::NoStructuredCall => NO_STRUCTURED_CALL@,
            SchemaError::SchemaMismatch { raw, reason } => MISMATCH_HEAD@ + reason@,
        }
    }

    /// Says the error in words.
    pub fn message(&self) -> (message: String)
        ensures
            message@ == self.text(),
    {
        match self {
            SchemaError::NoChoices => NO_CHOICES.to_owned(),
            SchemaError::NoStructuredCall => NO_STRUCTURED_CALL.to_owned(),
            SchemaError::SchemaMismatch { raw, reason } => {
                let mut message = MISMATCH_HEAD.to_owned();
                message.append(reason.as_str());
                message
            },
        }
    }
}

impl ResolveError {
    /// The error in words: those of the error that it holds.
    pub open spec fn text(self) -> Seq<char> {
        match self {
            ResolveError::Schema(e) => e.text(),
            ResolveError::Payout(e) => e.text(),
        }
    }

    /// Says the error in words.
    pub fn message(&self) -> (message: String)
        ensures
            message@ == self.text(),
    {
        match self {
            ResolveError::Schema(e) => e.message(),
            ResolveError::Payout(e) => e.message(),
        }
    }
}

/// What the answer of the service holds.
#[derive(Debug)]
pub enum Extraction {
    /// The service reported that no result can be had: the question is
    /// cancelled with this resolution.
    Cancelled(QuestionResponse),
    /// The arguments of the structured call, as JSON text still to be
    /// decoded.
    Structured(String),
}

/// What [`extract`] finds, as mathematical values.
pub enum Finding {
    NoChoices,
    Cancelled(Resolution),
    NoStructuredCall,
    Structured(Seq<char>),
}

/// The phrases by which the service reports that no result can be had.
pub open spec fn sentinel_phrases() -> Seq<Seq<char>> {
    seq![
        "no live data"@,
        "impossible to determine"@,
        "no verifiable information"@,
        "no winner"@,
        "no data"@,
    ]
}

/// `content` holds one of `phrases` as a substring.
pub open spec fn mentions_any(content: Seq<char>, phrases: Seq<Seq<char>>) -> bool {
    exists|i: int| 0 <= i < phrases.len() && contains(content, #[trigger] phrases[i])
}

/// The resolution that cancels a question of `n` outcomes, with `content`
/// as its explanation.
pub open spec fn cancelled(content: Seq<char>, n: nat) -> Resolution {
    Resolution {
        answer: NO_WINNER@,
        explanation: content,
        payout_vector: cancellation(n),
        valid: false,
    }
}

/// The free text of a candidate's message, where it has any.
pub open spec fn free_text(message: ResponseMessage) -> Option<Seq<char>> {
    match message.content {
        Some(content) => Some(content@),
        None => None,
    }
}

/// The arguments of the first structured call of a candidate's message,
/// where it made one.
pub open spec fn first_call(message: ResponseMessage) -> Option<Seq<char>> {
    match message.tool_calls {
        Some(calls) => if calls@.len() > 0 {
            Some(calls@[0].function.arguments@)
        } else {
            None
        },
        None => None,
    }
}

/// What the answer `response` holds for a question of `n` outcomes, where
/// `phrases` report that no result can be had. Only the first candidate is
/// read, and its free text is looked at before its structured calls.
pub open spec fn finding(
    response: ChatCompletionResponse,
    n: nat,
    phrases: Seq<Seq<char>>,
) -> Finding {
    if response.choices@.len() == 0 {
        Finding::NoChoices
    } else {
        let message = response.choices@[0].message;
        match free_text(message) {
            Some(content) if mentions_any(content, phrases) => Finding::Cancelled(
                cancelled(content, n),
            ),
            _ => match first_call(message) {
                Some(arguments) => Finding::Structured(arguments),
                None => Finding::NoStructuredCall,
            },
        }
    }
}

/// `result` says what `finding` holds: each finding has one result that
/// stands for it.
pub open spec fn reports(result: Result<Extraction, SchemaError>, finding: Finding) -> bool {
    match finding {
        Finding::NoChoices => result matches Err(SchemaError::NoChoices),
        Finding::Cancelled(r) => result matches Ok(Extraction::Cancelled(q)) && q@ == r,
        Finding::NoStructuredCall => result matches Err(SchemaError::NoStructuredCall),
        Finding::Structured(arguments) => result matches Ok(Extraction::Structured(text))
            && text@ == arguments,
    }
}

/// The phrases by which the service reports that no result can be had.
pub fn default_phrases() -> (phrases: Vec<&'static str>)
    ensures
        phrases@.map_values(|p: &'static str| p@) == sentinel_phrases(),
{
    let mut phrases: Vec<&'static str> = Vec::new();
    phrases.push("no live data");
    phrases.push("impossible to determine");
    phrases.push("no verifiable information");
    phrases.push("no winner");
    phrases.push("no data");
    assert(phrases@.map_values(|p: &'static str| p@) =~= sentinel_phrases());
    phrases
}

/// Whether `content` holds one of `phrases` as a substring.
pub fn mentions(content: &str, phrases: &Vec<&str>) -> (hit: bool)
    ensures
        hit == mentions_any(content@, phrases@.map_values(|p: &str| p@)),
{
    let ghost views = phrases@.map_values(|p: &str| p@);
    let hay = chars_of(content);
    let mut i: usize = 0;
    while i < phrases.len()
        invariant
            i <= phrases.len(),
            hay@ == content@,
            views == phrases@.map_values(|p: &str| p@),
            forall|j: int| 0 <= j < i ==> !contains(content@, #[trigger] views[j]),
        decreases phrases.len() - i,
    {
        let needle = chars_of(phrases[i]);
        assert(views[i as int] == needle@);
        if find(&hay, &needle) {
            return true;
        }
        i += 1;
    }
    false
}

/// Cancels a question of `n` outcomes: the answer is [`NO_WINNER`], the
/// explanation is `content`, every outcome is paid `1`, and the resolution
/// is marked not valid.
pub fn cancel(content: &str, n: usize) -> (r: QuestionResponse)
    ensures
        r@ == cancelled(content@, n as nat),
        accepted(r@, n),
{
    let r = QuestionResponse {
        answer: NO_WINNER.to_owned(),
        explanation: content.to_owned(),
        payout_vector: cancel_payout(n),
        valid: false,
    };
    assert(all_ones(r@.payout_vector));
    r
}

/// Decides what the answer `response` holds for a question of `n` outcomes,
/// where `phrases` report that no result can be had.
pub fn extract_with(response: &ChatCompletionResponse, n: usize, phrases: &Vec<&str>) -> (result:
    Result<Extraction, SchemaError>)
    ensures
        reports(result, finding(*response, n as nat, phrases@.map_values(|p: &str| p@))),
        result matches Ok(Extraction::Cancelled(r)) ==> accepted(r@, n),
{
    if response.choices.len() == 0 {
        return Err(SchemaError::NoChoices);
    }
    let message = &response.choices[0].message;
    if let Some(content) = &message.content {
        if mentions(content.as_str(), phrases) {
            return Ok(Extraction::Cancelled(cancel(content.as_str(), n)));
        }
    }
    match &message.tool_calls {
        Some(calls) => {
            if calls.len() > 0 {
                Ok(Extraction::Structured(calls[0].function.arguments.clone()))
            } else {
                Err(SchemaError::NoStructuredCall)
            }
        },
        None => Err(SchemaError::NoStructuredCall),
    }
}

/// Decides what the answer `response` holds for a question of `n` outcomes.
///
/// An answer without candidates is an error. Where the first candidate's
/// free text holds one of the [`sentinel_phrases`], the question is
/// cancelled, whatever structured call the candidate made. Otherwise the
/// arguments of its first structured call are handed out, and a candidate
/// without one is an error.
pub fn extract(response: &ChatCompletionResponse, n: usize) -> (result: Result<
    Extraction,
    SchemaError,
>)
    ensures
        reports(result, finding(*response, n as nat, sentinel_phrases())),
        result matches Ok(Extraction::Cancelled(r)) ==> accepted(r@, n),
{
    let phrases = default_phrases();
    assert(phrases@.map_values(|p: &str| p@) =~= phrases@.map_values(|p: &'static str| p@));
    extract_with(response, n, &phrases)
}

/// `result` is what the decoding `decoded` of the arguments `raw` comes to
/// for a question of `n` outcomes: the decoder's refusal keeps the raw text
/// beside its reason, and a decoded resolution is released unchanged if it
/// breaks no payout invariant, and refused with the first that it breaks.
pub open spec fn concludes(
    result: Result<QuestionResponse, ResolveError>,
    decoded: Result<QuestionResponse, String>,
    raw: Seq<char>,
    n: usize,
) -> bool {
    match decoded {
        Err(reason) => result matches Err(
            ResolveError::Schema(SchemaError::SchemaMismatch { raw: kept, reason: why }),
        ) && kept@ == raw && why@ == reason@,
        Ok(r) => match payout_fault(r@, n) {
            Some(e) => result matches Err(ResolveError::Payout(fault)) && fault == e,
            None => result matches Ok(released) && released@ == r@,
        },
    }
}

/// Concludes the resolution of a question of `n` outcomes from the decoding
/// of the structured call's arguments `raw`.
///
/// Where the arguments could not be decoded, the error keeps them beside
/// the decoder's reason. A decoded resolution is released only if its
/// payout vector has `n` entries and, where it is marked not valid, pays
/// `1` to every outcome.
pub fn conclude(decoded: Result<QuestionResponse, String>, raw: String, n: usize) -> (result:
    Result<QuestionResponse, ResolveError>)
    ensures
        concludes(result, decoded, raw@, n),
        result matches Ok(r) ==> r@.payout_vector.len() == n && (!r.valid ==> all_ones(
            r@.payout_vector,
        )),
{
    match decoded {
        Err(reason) => Err(ResolveError::Schema(SchemaError::SchemaMismatch { raw, reason })),
        Ok(r) => match r.check_payout(n) {
            Ok(()) => Ok(r),
            Err(e) => Err(ResolveError::Payout(e)),
        },
    }
}

/// `result` is what the answer `response` comes to for a question of `n`
/// outcomes, where `decode` reads the arguments of a structured call: what
/// [`extract`] finds, and for a structured call what [`conclude`] makes of
/// one of the decodings that `decode` may give.
pub open spec fn resolves<F: Fn(&str) -> Result<QuestionResponse, String>>(
    result: Result<QuestionResponse, ResolveError>,
    response: ChatCompletionResponse,
    n: usize,
    decode: F,
) -> bool {
    match finding(response, n as nat, sentinel_phrases()) {
        Finding::NoChoices => result matches Err(ResolveError::Schema(SchemaError::NoChoices)),
        Finding::Cancelled(r) => result matches Ok(released) && released@ == r,
        Finding::NoStructuredCall => result matches Err(
            ResolveError::Schema(SchemaError::NoStructuredCall),
        ),
        Finding::Structured(arguments) => exists|
            text: &str,
            decoded: Result<QuestionResponse, String>,
        |
            text@ == arguments && call_ensures(decode, (text,), decoded) && concludes(
                result,
                decoded,
                arguments,
                n,
            ),
    }
}

/// Resolves a question of `n` outcomes from the answer `response` of the
/// inference service, in this order:
///
/// 1. an answer without candidates is refused;
/// 2. where the first candidate's free text holds a sentinel phrase, the
///    question is cancelled and no structured call is read;
/// 3. a candidate without structured call is refused;
/// 4. the arguments of its first call are decoded by `decode`, and where
///    that fails the error keeps the arguments;
/// 5. the decoded resolution is held to the payout invariants.
///
/// Whatever is released has `n` payout entries, and pays `1` to every
/// outcome where it is not valid.
pub fn resolve_response<F: Fn(&str) -> Result<QuestionResponse, String>>(
    response: &ChatCompletionResponse,
    n: usize,
    decode: F,
) -> (result: Result<QuestionResponse, ResolveError>)
    requires
        forall|text: &str| call_requires(decode, (text,)),
    ensures
        resolves(result, *response, n, decode),
        result matches Ok(r) ==> accepted(r@, n),
{
    match extract(response, n) {
        Err(e) => Err(ResolveError::Schema(e)),
        Ok(Extraction::Cancelled(r)) => Ok(r),
        Ok(Extraction::Structured(arguments)) => {
            let text = arguments.as_str();
            let decoded = decode(text);
            assert(text@ == arguments@ && call_ensures(decode, (text,), decoded));
            conclude(decoded, arguments, n)
        },
    }
}

} // verus!
