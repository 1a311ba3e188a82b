//! What starts a resolution and where its result goes: the trigger, the
//! payload that it carries, and the addresses of the data to fetch.

use crate::text::{parse_unsigned, split, split_fields, unsigned};
use vstd::prelude::*;
use vstd::slice::slice_to_vec;
use vstd::string::{StringExecFns, StringSliceAdditionalSpecFns};
use vstd::utf8::{decode_utf8, encode_utf8_decode_utf8, valid_utf8};

verus! {

/// What set a resolution off.
#[derive(Debug)]
pub enum TriggerData {
    /// An event of a contract on an Ethereum chain.
    EthContractEvent,
    /// Raw bytes, as given on a command line.
    Raw(Vec<u8>),
    /// Any other kind of trigger.
    Other,
}

/// Where the result of a resolution goes.
#[derive(Debug, Clone, Copy, PartialEq, Eq, Structural)]
pub enum Destination {
    Ethereum,
    CliOutput,
}

/// Why a trigger carries no payload.
#[derive(Debug, Clone, Copy, PartialEq, Eq, Structural)]
pub enum TriggerError {
    /// Events of Ethereum contracts are not read.
    EthereumNotSupported,
    /// The kind of trigger is not known.
    Unsupported,
}

/// Why a payload was refused.
#[derive(Debug, Clone, Copy, PartialEq, Eq, Structural)]
pub enum InputError {
    /// The payload is not UTF-8 text.
    NotText,
    /// An extraction payload has `found` fields, not four.
    InferenceFormat { found: usize },
    /// A rule payload has `found` fields, not two.
    GameFormat { found: usize },
    /// The seed is not an unsigned 64-bit integer in decimal.
    Seed,
}

/// What is said of an event of an Ethereum contract.
pub const ETHEREUM_NOT_SUPPORTED: &'static str = "Ethereum event triggers not supported";

/// What is said of a trigger of an unknown kind.
pub const UNSUPPORTED_TRIGGER: &'static str = "Unsupported trigger data type";

/// What is said of a payload that is no text.
pub const NOT_TEXT: &'static str = "Input is not valid UTF-8";

/// What is said of an extraction payload with another number of fields.
pub const INFERENCE_FORMAT: &'static str =
    "Input must be in format 'CONDITIONID|QUESTIONHASH|OPENAI_API_KEY|SEED'";

/// What is said of a rule payload with another number of fields.
pub const GAME_FORMAT: &'static str = "Invalid input format. Expected 'GAME_ID|API_KEY'";

/// What is said of a seed that is no unsigned integer.
pub const SEED_FORMAT: &'static str = "SEED must be an integer";

impl TriggerError {
    /// The error in words.
    pub open spec fn text(self) -> Seq<char> {
        match self {
            TriggerError::EthereumNotSupported => ETHEREUM_NOT_SUPPORTED@,
            TriggerError::Unsupported => UNSUPPORTED_TRIGGER@,
        }
    }

    /// Says the error in words.
    pub fn message(&self) -> (message: String)
        ensures
            message@ == self.text(),
    {
        match self {
            TriggerError::EthereumNotSupported => ETHEREUM_NOT_SUPPORTED.to_owned(),
            TriggerError::Unsupported => UNSUPPORTED_TRIGGER.to_owned(),
        }
    }
}

impl InputError {
    /// The error in words.
    pub open spec fn text(self) -> Seq<char> {
        match self {
            InputError::NotText => NOT_TEXT@,
            InputError::InferenceFormat { found } => INFERENCE_FORMAT@,
            InputError::GameFormat { found } => GAME_FORMAT@,
            InputError::Seed => SEED_FORMAT@,
        }
    }

    /// Says the error in words.
    pub fn message(&self) -> (message: String)
        ensures
            message@ == self.text(),
    {
        match self {
            InputError::NotText => NOT_TEXT.to_owned(),
            InputError::InferenceFormat { found } => INFERENCE_FORMAT.to_owned(),
            InputError::GameFormat { found } => GAME_FORMAT.to_owned(),
            InputError::Seed => SEED_FORMAT.to_owned(),
        }
    }
}

/// The payload of an extraction: `CONDITION_ID|CONTENT_ID|API_KEY|SEED`.
#[derive(Debug)]
pub struct InferenceInput {
    pub condition_id: String,
    pub content_id: String,
    pub api_key: String,
    pub seed: u64,
}

/// The payload of a rule evaluation: `GAME_ID|API_KEY`.
#[derive(Debug)]
pub struct GameInput {
    pub game_id: String,
    pub api_key: String,
}

/// The character between the fields of a payload.
pub const FIELD_SEPARATOR: char = '|';

/// Where questions are fetched from.
pub const QUESTION_BASE: &'static str = "https://ipfs.io/ipfs/";

/// Where the summary of a sporting event is fetched from.
pub const GAME_BASE: &'static str = "https://api.sportradar.com/soccer/trial/v4/en/sport_events/";

/// What follows the event's identifier in the address of its summary.
pub const GAME_SUFFIX: &'static str = "/summary.json?api_key=";

/// The payload, identifier and destination of a trigger. Only raw triggers
/// carry a payload: it is handed out unchanged, under the identifier `0`,
/// for the command line.
pub fn decode_trigger_input(trigger: TriggerData) -> (decoded: Result<
    (u64, Vec<u8>, Destination),
    TriggerError,
>)
    ensures
        match trigger {
            TriggerData::Raw(data) => decoded matches Ok((id, payload, destination)) && id == 0
                && payload@ == data@ && destination == Destination::CliOutput,
            TriggerData::EthContractEvent => decoded == Err::<(u64, Vec<u8>, Destination), _>(
                TriggerError::EthereumNotSupported,
            ),
            TriggerData::Other => decoded == Err::<(u64, Vec<u8>, Destination), _>(
                TriggerError::Unsupported,
            ),
        },
{
    match trigger {
        TriggerData::EthContractEvent => Err(TriggerError::EthereumNotSupported),
        TriggerData::Raw(data) => Ok((0, data, Destination::CliOutput)),
        TriggerData::Other => Err(TriggerError::Unsupported),
    }
}

/// The bytes handed to the destination for the trigger `trigger_id`: the
/// output, unchanged.
pub fn encode_trigger_output(trigger_id: u64, output: &[u8]) -> (encoded: Vec<u8>)
    ensures
        encoded@ == output@,
{
    slice_to_vec(output)
}

/// `std::str::from_utf8`: the text that the bytes encode, if and only if
/// they are valid UTF-8. The text's bytes are the given bytes.
#[verifier::external_body]
fn text_of(bytes: &[u8]) -> (text: Option<&str>)
    ensures
        text is Some <==> valid_utf8(bytes@),
        text matches Some(s) ==> s.spec_bytes() == bytes@,
{
    std::str::from_utf8(bytes).ok()
}

/// What an extraction payload holds, as mathematical values.
pub struct InferenceFields {
    pub condition_id: Seq<char>,
    pub content_id: Seq<char>,
    pub api_key: Seq<char>,
    pub seed: u64,
}

impl View for InferenceInput {
    type V = InferenceFields;

    open spec fn view(&self) -> InferenceFields {
        InferenceFields {
            condition_id: self.condition_id@,
            content_id: self.content_id@,
            api_key: self.api_key@,
            seed: self.seed,
        }
    }
}

/// What a rule payload holds, as mathematical values.
pub struct GameFields {
    pub game_id: Seq<char>,
    pub api_key: Seq<char>,
}

impl View for GameInput {
    type V = GameFields;

    open spec fn view(&self) -> GameFields {
        GameFields { game_id: self.game_id@, api_key: self.api_key@ }
    }
}

/// What the text `input` holds as an extraction payload: exactly four
/// fields, the last of them an unsigned 64-bit integer. The number of
/// fields is looked at first.
pub open spec fn inference_fields(input: Seq<char>) -> Result<InferenceFields, InputError> {
    let fields = split(input, FIELD_SEPARATOR);
    if fields.len() != 4 {
        Err(InputError::InferenceFormat { found: fields.len() as usize })
    } else {
        match unsigned(fields[3]) {
            Some(seed) => Ok(
                InferenceFields {
                    condition_id: fields[0],
                    content_id: fields[1],
                    api_key: fields[2],
                    seed,
                },
            ),
            None => Err(InputError::Seed),
        }
    }
}

/// What the text `input` holds as a rule payload: exactly two fields.
pub open spec fn game_fields(input: Seq<char>) -> Result<GameFields, InputError> {
    let fields = split(input, FIELD_SEPARATOR);
    if fields.len() != 2 {
        Err(InputError::GameFormat { found: fields.len() as usize })
    } else {
        Ok(GameFields { game_id: fields[0], api_key: fields[1] })
    }
}

/// What the bytes `payload` hold, read by `fields` once they are decoded:
/// bytes that are not UTF-8 hold nothing.
pub open spec fn of_bytes<T>(
    payload: Seq<u8>,
    fields: spec_fn(Seq<char>) -> Result<T, InputError>,
) -> Result<T, InputError> {
    if valid_utf8(payload) {
        fields(decode_utf8(payload))
    } else {
        Err(InputError::NotText)
    }
}

/// `parsed` holds what `fields` says, with the same error where it is one.
pub open spec fn holds<P: View>(
    parsed: Result<P, InputError>,
    fields: Result<P::V, InputError>,
) -> bool {
    match fields {
        Ok(f) => parsed matches Ok(p) && p@ == f,
        Err(e) => parsed matches Err(pe) && pe == e,
    }
}

/// Reads the text of an extraction payload.
pub fn parse_inference_input(input: &str) -> (parsed: Result<InferenceInput, InputError>)
    ensures
        holds(parsed, inference_fields(input@)),
{
    let fields = split_fields(input, FIELD_SEPARATOR);
    if fields.len() != 4 {
        return Err(InputError::InferenceFormat { found: fields.len() });
    }
    match parse_unsigned(fields[3]) {
        Some(seed) => Ok(
            InferenceInput {
                condition_id: fields[0].to_owned(),
                content_id: fields[1].to_owned(),
                api_key: fields[2].to_owned(),
                seed,
            },
        ),
        None => Err(InputError::Seed),
    }
}

/// Reads the text of a rule payload.
pub fn parse_game_input(input: &str) -> (parsed: Result<GameInput, InputError>)
    ensures
        holds(parsed, game_fields(input@)),
{
    let fields = split_fields(input, FIELD_SEPARATOR);
    if fields.len() != 2 {
        return Err(InputError::GameFormat { found: fields.len() });
    }
    Ok(GameInput { game_id: fields[0].to_owned(), api_key: fields[1].to_owned() })
}

/// Reads the bytes of an extraction payload.
pub fn parse_inference_payload(payload: &[u8]) -> (parsed: Result<InferenceInput, InputError>)
    ensures
        holds(parsed, of_bytes(payload@, |s: Seq<char>| inference_fields(s))),
{
    match text_of(payload) {
        Some(input) => {
            proof {
                encode_utf8_decode_utf8(input@);
            }
            parse_inference_input(input)
        },
        None => Err(InputError::NotText),
    }
}

/// Reads the bytes of a rule payload.
pub fn parse_game_payload(payload: &[u8]) -> (parsed: Result<GameInput, InputError>)
    ensures
        holds(parsed, of_bytes(payload@, |s: Seq<char>| game_fields(s))),
{
    match text_of(payload) {
        Some(input) => {
            proof {
                encode_utf8_decode_utf8(input@);
            }
            parse_game_input(input)
        },
        None => Err(InputError::NotText),
    }
}

/// The address of the question with the content identifier `cid`.
pub fn question_url(cid: &str) -> (url: String)
    ensures
        url@ == QUESTION_BASE@ + cid@,
{
    let mut url = QUESTION_BASE.to_owned();
    url.append(cid);
    url
}

/// The address of the summary of the event `game_id`, fetched with
/// `api_key`.
pub fn game_url(game_id: &str, api_key: &str) -> (url: String)
    ensures
        url@ == GAME_BASE@ + game_id@ + GAME_SUFFIX@ + api_key@,
{
    let mut url = GAME_BASE.to_owned();
    url.append(game_id);
    url.append(GAME_SUFFIX);
    url.append(api_key);
    url
}

} // verus!
