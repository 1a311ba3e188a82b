//! The query that asks the inference service for a structured resolution.

use crate::chat::{
    ChatCompletionRequest, Function, FunctionParameters, Message, ParameterItems,
    ParameterProperty, Tool, ToolChoice,
};
use vstd::prelude::*;
use vstd::string::StringExecFns;

verus! {

/// Where the query is sent.
pub const ENDPOINT: &'static str = "https://api.x.ai/v1/chat/completions";

/// The model that is asked.
pub const MODEL: &'static str = "grok-3";

/// The instruction that defines the oracle's role and its answer.
pub const SYSTEM_PROMPT: &'static str = r#"You are the oracle of a prediction market. 
                For the given question and description, search live data from reputable sources or trusted news to determine the definitive winner among the provided results.
                If no live data is found, set valid to false, return payoutVector as all ones, and explain why. 
                Answer format:
                {
                    answer: string summarizing the definitive winning outcome,
                    explanation: short concise explanation of why the winner was chosen based on live data,
                    payoutVector: an array of integers with length and order matching results, where >0 is set for the winner. 
                        For scalar markets (result is a number), use proportional integers (e.g., scaled to 0-100). 
                        To cancel a prediction (if no winner can be determined from live data), return an array of ones,
                        The payout values are calculated as index_value/sum(all index_value's) so use minimum integers.
                    valid: boolean indicating if live data is sufficient or if it should be consulted again later
                }"#;

/// What stands before the question in the user's message.
pub const DATA_PREFIX: &'static str = "Data: ";

/// The sampling temperature of every query, in thousandths.
pub const TEMPERATURE_MILLI: u32 = 200;

/// The token budget of every answer.
pub const MAX_TOKENS: u32 = 100;

/// The name of the one function that the service must call.
pub const FUNCTION_NAME: &'static str = "resolve_prediction";

/// What that function is for.
pub const FUNCTION_DESCRIPTION: &'static str =
    "Resolves a prediction market with the definitive winner";

pub const ANSWER_DESCRIPTION: &'static str = "String summarizing the predicted outcome";

pub const EXPLANATION_DESCRIPTION: &'static str =
    "Concise explanation of why the winner was chosen based on live data";

pub const PAYOUT_DESCRIPTION: &'static str =
    "Vector matching data.results length, with 1 for the definitive winner, proportional integers for scalar markets, or ones to cancel if no winner can be determined";

pub const VALID_DESCRIPTION: &'static str =
    "Whether live data is sufficient to determine the winner";

/// What stands before the key in the authorization header.
pub const BEARER_PREFIX: &'static str = "Bearer ";

/// `p` declares a property of type `prop_type` with the given description,
/// and with elements of type `items` where it is an array.
pub open spec fn property_is(
    p: ParameterProperty,
    prop_type: Seq<char>,
    description: Seq<char>,
    items: Option<Seq<char>>,
) -> bool {
    &&& p.prop_type@ == prop_type
    &&& p.description@ == description
    &&& match items {
        Some(item_type) => p.items matches Some(i) && i.item_type@ == item_type,
        None => p.items is None,
    }
}

/// The four names of a resolution, in the order of the schema.
pub open spec fn resolution_fields() -> Seq<Seq<char>> {
    seq!["answer"@, "explanation"@, "payoutVector"@, "valid"@]
}

/// `s` is the schema of a resolution: an object with the text properties
/// `answer` and `explanation`, the integer array `payoutVector` and the
/// boolean `valid`, all four required.
pub open spec fn is_resolution_schema(s: FunctionParameters) -> bool {
    &&& s.param_type@ == "object"@
    &&& s.names() == resolution_fields()
    &&& property_is(s.properties@[0].1, "string"@, ANSWER_DESCRIPTION@, None)
    &&& property_is(s.properties@[1].1, "string"@, EXPLANATION_DESCRIPTION@, None)
    &&& property_is(s.properties@[2].1, "array"@, PAYOUT_DESCRIPTION@, Some("integer"@))
    &&& property_is(s.properties@[3].1, "boolean"@, VALID_DESCRIPTION@, None)
    &&& s.required_names() == resolution_fields()
}

/// `tool` offers the function that resolves a question, with the schema of
/// a resolution as its arguments.
pub open spec fn is_resolution_tool(tool: Tool) -> bool {
    &&& tool.tool_type@ == "function"@
    &&& tool.function.name@ == FUNCTION_NAME@
    &&& tool.function.description@ == FUNCTION_DESCRIPTION@
    &&& is_resolution_schema(tool.function.parameters)
}

/// `request` is the query for the question written in `data_json`, to be
/// sampled with `seed`: the system's instruction, then the question; the
/// fixed temperature and token budget; and the resolving function as the
/// only tool, which the service is bound to call.
pub open spec fn is_extraction_request(
    request: ChatCompletionRequest,
    data_json: Seq<char>,
    seed: u64,
) -> bool {
    &&& request.model@ == MODEL@
    &&& request.messages@.len() == 2
    &&& request.messages@[0].role@ == "system"@
    &&& request.messages@[0].content@ == SYSTEM_PROMPT@
    &&& request.messages@[1].role@ == "user"@
    &&& request.messages@[1].content@ == DATA_PREFIX@ + data_json
    &&& request.temperature_milli == TEMPERATURE_MILLI
    &&& request.max_tokens == MAX_TOKENS
    &&& request.seed == seed
    &&& request.tools matches Some(tools) && tools@.len() == 1 && is_resolution_tool(tools@[0])
    &&& request.tool_choice matches Some(choice) && choice.choice_type@ == "function"@
        && choice.function_name@ == FUNCTION_NAME@
}

/// The four names of a resolution are pairwise different.
pub proof fn lemma_resolution_fields_distinct()
    ensures
        resolution_fields().no_duplicates(),
{
    reveal_strlit("answer");
    reveal_strlit("explanation");
    reveal_strlit("payoutVector");
    reveal_strlit("valid");
    let f = resolution_fields();
    assert(f[0].len() == 6);
    assert(f[1].len() == 11);
    assert(f[2].len() == 12);
    assert(f[3].len() == 5);
}

/// The schema of a resolution declares no name twice and declares every
/// name that it requires.
pub proof fn lemma_resolution_schema_wf(s: FunctionParameters)
    requires
        is_resolution_schema(s),
    ensures
        s.wf(),
{
    lemma_resolution_fields_distinct();
    assert forall|i: int| 0 <= i < s.required_names().len() implies s.names().contains(
        #[trigger] s.required_names()[i],
    ) by {
        assert(s.names()[i] == s.required_names()[i]);
    }
}

fn property(prop_type: &str, description: &str, items: Option<&str>) -> (p: ParameterProperty)
    ensures
        property_is(
            p,
            prop_type@,
            description@,
            match items {
                Some(t) => Some(t@),
                None => None,
            },
        ),
{
    let items = match items {
        Some(item_type) => Some(ParameterItems { item_type: item_type.to_owned() }),
        None => None,
    };
    ParameterProperty {
        prop_type: prop_type.to_owned(),
        description: description.to_owned(),
        items,
    }
}

/// Builds the schema of a resolution.
pub fn resolution_schema() -> (schema: FunctionParameters)
    ensures
        is_resolution_schema(schema),
        schema.wf(),
{
    let mut properties: Vec<(String, ParameterProperty)> = Vec::new();
    properties.push(("answer".to_owned(), property("string", ANSWER_DESCRIPTION, None)));
    properties.push(
        ("explanation".to_owned(), property("string", EXPLANATION_DESCRIPTION, None)),
    );
    properties.push(
        ("payoutVector".to_owned(), property("array", PAYOUT_DESCRIPTION, Some("integer"))),
    );
    properties.push(("valid".to_owned(), property("boolean", VALID_DESCRIPTION, None)));
    let mut required: Vec<String> = Vec::new();
    required.push("answer".to_owned());
    required.push("explanation".to_owned());
    required.push("payoutVector".to_owned());
    required.push("valid".to_owned());
    let schema = FunctionParameters { param_type: "object".to_owned(), properties, required };
    proof {
        assert(schema.names() =~= resolution_fields());
        assert(schema.required_names() =~= resolution_fields());
        lemma_resolution_schema_wf(schema);
    }
    schema
}

/// Builds the one tool of a query: the function that resolves a question.
pub fn resolution_tool() -> (tool: Tool)
    ensures
        is_resolution_tool(tool),
{
    Tool {
        tool_type: "function".to_owned(),
        function: Function {
            name: FUNCTION_NAME.to_owned(),
            description: FUNCTION_DESCRIPTION.to_owned(),
            parameters: resolution_schema(),
        },
    }
}

/// Builds the query for the question written in `data_json`.
pub fn build_request(data_json: &str, seed: u64) -> (request: ChatCompletionRequest)
    ensures
        is_extraction_request(request, data_json@, seed),
{
    let mut content = DATA_PREFIX.to_owned();
    content.append(data_json);
    let mut messages: Vec<Message> = Vec::new();
    messages.push(Message { role: "system".to_owned(), content: SYSTEM_PROMPT.to_owned() });
    messages.push(Message { role: "user".to_owned(), content });
    let mut tools: Vec<Tool> = Vec::new();
    tools.push(resolution_tool());
    ChatCompletionRequest {
        model: MODEL.to_owned(),
        messages,
        temperature_milli: TEMPERATURE_MILLI,
        max_tokens: MAX_TOKENS,
        seed,
        tools: Some(tools),
        tool_choice: Some(
            ToolChoice {
                choice_type: "function".to_owned(),
                function_name: FUNCTION_NAME.to_owned(),
            },
        ),
    }
}

/// The value of the authorization header for `api_key`.
pub fn bearer(api_key: &str) -> (header: String)
    ensures
        header@ == BEARER_PREFIX@ + api_key@,
{
    let mut header = BEARER_PREFIX.to_owned();
    header.append(api_key);
    header
}

} // verus!
