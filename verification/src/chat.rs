//! The messages exchanged with the inference service.

use vstd::prelude::*;
use vstd::std_specs::convert::FromSpecImpl;
use vstd::string::StringExecFns;

verus! {

/// A query to the inference service.
#[derive(Debug)]
pub struct ChatCompletionRequest {
    pub model: String,
    pub messages: Vec<Message>,
    /// The sampling temperature, in thousandths.
    pub temperature_milli: u32,
    pub max_tokens: u32,
    pub seed: u64,
    pub tools: Option<Vec<Tool>>,
    pub tool_choice: Option<ToolChoice>,
}

/// One message of a query.
#[derive(Debug)]
pub struct Message {
    pub role: String,
    pub content: String,
}

/// A function that the service may call.
#[derive(Debug)]
pub struct Tool {
    pub tool_type: String,
    pub function: Function,
}

/// The function that the service is bound to call.
#[derive(Debug)]
pub struct ToolChoice {
    pub choice_type: String,
    pub function_name: String,
}

/// The name of a callable function, what it is for, and the shape of its
/// arguments.
#[derive(Debug)]
pub struct Function {
    pub name: String,
    pub description: String,
    pub parameters: FunctionParameters,
}

/// The shape of a function's arguments: named properties, in the order in
/// which they were declared, and the names that must be present.
#[derive(Debug)]
pub struct FunctionParameters {
    pub param_type: String,
    pub properties: Vec<(String, ParameterProperty)>,
    pub required: Vec<String>,
}

/// The type of one property, what it means, and for an array the type of
/// its elements.
#[derive(Debug)]
pub struct ParameterProperty {
    pub prop_type: String,
    pub description: String,
    pub items: Option<ParameterItems>,
}

/// The type of an array's elements.
#[derive(Debug)]
pub struct ParameterItems {
    pub item_type: String,
}

/// The answer of the inference service.
#[derive(Debug)]
pub struct ChatCompletionResponse {
    pub id: String,
    pub object: String,
    pub created: u64,
    pub model: String,
    pub choices: Vec<Choice>,
    pub usage: Usage,
}

/// One candidate answer.
#[derive(Debug)]
pub struct Choice {
    pub index: u32,
    pub message: ResponseMessage,
    pub finish_reason: String,
}

/// The message of a candidate answer: free text, structured calls, or both.
#[derive(Debug)]
pub struct ResponseMessage {
    pub role: String,
    pub content: Option<String>,
    pub tool_calls: Option<Vec<ToolCall>>,
}

/// A structured call made by the service.
#[derive(Debug)]
pub struct ToolCall {
    pub id: String,
    pub tool_type: String,
    pub function: FunctionCall,
}

/// The called function and its arguments, as JSON text.
#[derive(Debug)]
pub struct FunctionCall {
    pub name: String,
    pub arguments: String,
}

/// Token counts of one exchange.
#[derive(Debug)]
pub struct Usage {
    pub prompt_tokens: u32,
    pub completion_tokens: u32,
    pub total_tokens: u32,
}

impl FunctionParameters {
    /// The names of the declared properties, in order.
    pub open spec fn names(&self) -> Seq<Seq<char>> {
        self.properties@.map_values(|p: (String, ParameterProperty)| p.0@)
    }

    /// The names that must be present, in order.
    pub open spec fn required_names(&self) -> Seq<Seq<char>> {
        self.required@.map_values(|s: String| s@)
    }

    /// No property is declared twice, and every required name is declared.
    pub open spec fn wf(&self) -> bool {
        &&& self.names().no_duplicates()
        &&& forall|i: int|
            0 <= i < self.required_names().len() ==> self.names().contains(
                #[trigger] self.required_names()[i],
            )
    }
}

/// `serde_json::Error`, held as it is.
#[verifier::external_type_specification]
#[verifier::external_body]
pub struct ExJsonError(serde_json::Error);

/// Why an exchange with the inference service failed.
#[derive(Debug)]
pub enum ApiError {
    /// The request could not be made or was not answered.
    RequestError(String),
    /// A body could not be written or read as JSON.
    JsonError(serde_json::Error),
    /// The service answered with an error.
    ApiError(String),
}

/// What stands before the account of a failed request.
pub const REQUEST_FAILED: &'static str = "HTTP request failed: ";

/// What stands before the account of a JSON error.
pub const JSON_FAILED: &'static str = "JSON serialization/deserialization failed: ";

/// What stands before the error that the service answered with.
pub const API_FAILED: &'static str = "API returned an error: ";

impl From<serde_json::Error> for ApiError {
    fn from(error: serde_json::Error) -> (e: ApiError) {
        ApiError::JsonError(error)
    }
}

impl FromSpecImpl<serde_json::Error> for ApiError {
    open spec fn obeys_from_spec() -> bool {
        true
    }

    open spec fn from_spec(error: serde_json::Error) -> ApiError {
        ApiError::JsonError(error)
    }
}

/// The `Display` text of a `serde_json::Error`.
#[verifier::external_body]
fn json_error_text(error: &serde_json::Error) -> String {
    error.to_string()
}

impl ApiError {
    /// `message` says the error in words: the lead-in of its kind, then its
    /// account. For a JSON error the account is the decoder's own.
    pub open spec fn said_by(self, message: Seq<char>) -> bool {
        match self {
            ApiError::RequestError(account) => message == REQUEST_FAILED@ + account@,
            ApiError::JsonError(_) => exists|account: Seq<char>| message == JSON_FAILED@ + account,
            ApiError::ApiError(account) => message == API_FAILED@ + account@,
        }
    }

    /// Says the error in words.
    pub fn message(&self) -> (message: String)
        ensures
            self.said_by(message@),
    {
        match self {
            ApiError::RequestError(account) => {
                let mut message = REQUEST_FAILED.to_owned();
                message.append(account.as_str());
                message
            },
            ApiError::JsonError(error) => {
                let account = json_error_text(error);
                let mut message = JSON_FAILED.to_owned();
                message.append(account.as_str());
                message
            },
            ApiError::ApiError(account) => {
                let mut message = API_FAILED.to_owned();
                message.append(account.as_str());
                message
            },
        }
    }
}

} // verus!
