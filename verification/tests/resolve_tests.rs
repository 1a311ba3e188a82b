use outcome_resolver::chat::{
    ApiError, ChatCompletionResponse, Choice, FunctionCall, ResponseMessage, ToolCall, Usage,
};
use outcome_resolver::question::{
    cancel_payout, is_all_ones, PayoutError, QuestionInfo, QuestionResponse, QuestionTestament,
};
use outcome_resolver::request::{
    bearer, build_request, resolution_schema, resolution_tool, ENDPOINT, SYSTEM_PROMPT,
};
use outcome_resolver::resolve::{
    cancel, conclude, default_phrases, extract, extract_with, mentions, resolve_response,
    Extraction, ResolveError, SchemaError,
};
use serde_json::Value;

fn call(arguments: &str) -> ToolCall {
    ToolCall {
        id: "call_1".to_string(),
        tool_type: "function".to_string(),
        function: FunctionCall {
            name: "resolve_prediction".to_string(),
            arguments: arguments.to_string(),
        },
    }
}

fn response(content: Option<&str>, calls: Option<Vec<ToolCall>>) -> ChatCompletionResponse {
    ChatCompletionResponse {
        id: "id".to_string(),
        object: "chat.completion".to_string(),
        created: 1,
        model: "grok-3".to_string(),
        choices: vec![Choice {
            index: 0,
            message: ResponseMessage {
                role: "assistant".to_string(),
                content: content.map(|c| c.to_string()),
                tool_calls: calls,
            },
            finish_reason: "stop".to_string(),
        }],
        usage: Usage { prompt_tokens: 1, completion_tokens: 2, total_tokens: 3 },
    }
}

fn resolution(payout: Vec<u64>, valid: bool) -> QuestionResponse {
    QuestionResponse {
        answer: "Yes".to_string(),
        explanation: "because".to_string(),
        payout_vector: payout,
        valid,
    }
}

#[test]
fn no_data_cancels_a_three_outcome_question() {
    let r = response(Some("There is no data on this"), None);
    match extract(&r, 3) {
        Ok(Extraction::Cancelled(q)) => {
            assert_eq!(q.answer, "No winner");
            assert_eq!(q.explanation, "There is no data on this");
            assert_eq!(q.payout_vector, vec![1, 1, 1]);
            assert!(!q.valid);
        }
        other => panic!("not cancelled: {other:?}"),
    }
}

#[test]
fn every_sentinel_phrase_cancels() {
    for phrase in [
        "no live data",
        "impossible to determine",
        "no verifiable information",
        "no winner",
        "no data",
    ] {
        let content = format!("Sorry, {phrase}.");
        let r = response(Some(&content), None);
        assert!(matches!(extract(&r, 2), Ok(Extraction::Cancelled(_))), "{phrase}");
    }
}

#[test]
fn the_sentinel_phrases_are_these_five() {
    assert_eq!(
        default_phrases(),
        vec![
            "no live data",
            "impossible to determine",
            "no verifiable information",
            "no winner",
            "no data",
        ]
    );
}

#[test]
fn sentinel_match_is_case_sensitive() {
    let r = response(Some("No Data was found. No Winner."), None);
    assert!(matches!(extract(&r, 2), Err(SchemaError::NoStructuredCall)));
}

#[test]
fn sentinel_text_wins_over_a_structured_call() {
    let args = r#"{"answer":"A","explanation":"e","payoutVector":[1,0],"valid":true}"#;
    let r = response(Some("it is impossible to determine"), Some(vec![call(args)]));
    match extract(&r, 2) {
        Ok(Extraction::Cancelled(q)) => {
            assert_eq!(q.payout_vector, vec![1, 1]);
            assert!(!q.valid);
        }
        other => panic!("not cancelled: {other:?}"),
    }
}

#[test]
fn other_text_does_not_hide_a_structured_call() {
    let args = r#"{"answer":"A"}"#;
    let r = response(Some("Here is the result"), Some(vec![call(args)]));
    match extract(&r, 2) {
        Ok(Extraction::Structured(text)) => assert_eq!(text, args),
        other => panic!("no call: {other:?}"),
    }
}

#[test]
fn only_the_first_call_is_read() {
    let r = response(None, Some(vec![call("first"), call("second")]));
    match extract(&r, 2) {
        Ok(Extraction::Structured(text)) => assert_eq!(text, "first"),
        other => panic!("no call: {other:?}"),
    }
}

#[test]
fn answer_without_choices_is_refused() {
    let mut r = response(Some("no data"), None);
    r.choices.clear();
    assert!(matches!(extract(&r, 3), Err(SchemaError::NoChoices)));
}

#[test]
fn answer_without_structured_call_is_refused() {
    assert!(matches!(extract(&response(None, None), 3), Err(SchemaError::NoStructuredCall)));
    assert!(matches!(
        extract(&response(None, Some(vec![])), 3),
        Err(SchemaError::NoStructuredCall)
    ));
    assert!(matches!(
        extract(&response(Some("fine"), None), 3),
        Err(SchemaError::NoStructuredCall)
    ));
}

#[test]
fn phrases_can_be_given() {
    let r = response(Some("unknown outcome"), None);
    let phrases = vec!["unknown"];
    assert!(matches!(extract_with(&r, 1, &phrases), Ok(Extraction::Cancelled(_))));
    assert!(matches!(extract_with(&r, 1, &vec![]), Err(SchemaError::NoStructuredCall)));
    assert!(mentions("unknown outcome", &phrases));
    assert!(!mentions("known", &phrases));
}

#[test]
fn cancelling_pays_one_to_every_outcome() {
    let q = cancel("why", 4);
    assert_eq!(q.answer, "No winner");
    assert_eq!(q.explanation, "why");
    assert_eq!(q.payout_vector, vec![1, 1, 1, 1]);
    assert!(!q.valid);
    assert!(q.check_payout(4).is_ok());
    assert_eq!(cancel_payout(0), Vec::<u64>::new());
    assert_eq!(cancel("", 0).payout_vector, Vec::<u64>::new());
}

#[test]
fn payout_of_length_two_for_three_outcomes_is_a_length_mismatch() {
    let raw = r#"{"answer":"Yes","explanation":"because","payoutVector":[1,0],"valid":true}"#;
    let result = conclude(Ok(resolution(vec![1, 0], true)), raw.to_string(), 3);
    match result {
        Err(ResolveError::Payout(e)) => {
            assert_eq!(e, PayoutError::LengthMismatch { actual: 2, expected: 3 })
        }
        other => panic!("released: {other:?}"),
    }
}

#[test]
fn not_valid_with_other_than_ones_is_refused() {
    for payout in [vec![1, 2, 1], vec![0, 0, 0], vec![2, 2, 2], vec![1, 1, 0]] {
        let result = conclude(Ok(resolution(payout, false)), String::new(), 3);
        assert!(matches!(
            result,
            Err(ResolveError::Payout(PayoutError::CancelPayoutNotUniform))
        ));
    }
}

#[test]
fn length_is_looked_at_before_uniformity() {
    let r = resolution(vec![2, 2], false);
    assert_eq!(
        r.check_payout(3),
        Err(PayoutError::LengthMismatch { actual: 2, expected: 3 })
    );
}

#[test]
fn accepted_resolution_is_released_unchanged() {
    let released = conclude(Ok(resolution(vec![0, 100, 7], true)), String::new(), 3).unwrap();
    assert_eq!(released.answer, "Yes");
    assert_eq!(released.explanation, "because");
    assert_eq!(released.payout_vector, vec![0, 100, 7]);
    assert!(released.valid);
    let cancelled = conclude(Ok(resolution(vec![1, 1], false)), String::new(), 2).unwrap();
    assert_eq!(cancelled.payout_vector, vec![1, 1]);
    assert!(!cancelled.valid);
}

#[test]
fn accepted_resolutions_keep_the_invariants() {
    let counts = [0usize, 1, 2, 3];
    let payouts = [vec![], vec![1], vec![1, 1], vec![1, 0], vec![1, 1, 1], vec![3, 1, 1]];
    for n in counts {
        for payout in &payouts {
            for valid in [true, false] {
                let r = resolution(payout.clone(), valid);
                if r.check_payout(n).is_ok() {
                    assert_eq!(r.payout_vector.len(), n);
                    if !r.valid {
                        assert!(r.payout_vector.iter().all(|&x| x == 1));
                    }
                } else {
                    assert!(payout.len() != n || (!valid && payout.iter().any(|&x| x != 1)));
                }
            }
        }
    }
}

#[test]
fn empty_payout_is_uniform() {
    assert!(is_all_ones(&vec![]));
    assert!(is_all_ones(&vec![1, 1]));
    assert!(!is_all_ones(&vec![1, 0]));
    assert!(resolution(vec![], false).check_payout(0).is_ok());
}

#[test]
fn undecodable_arguments_keep_the_raw_text() {
    let result = conclude(Err("expected value at line 1".to_string()), "{oops".to_string(), 3);
    match result {
        Err(ResolveError::Schema(SchemaError::SchemaMismatch { raw, reason })) => {
            assert_eq!(raw, "{oops");
            assert_eq!(reason, "expected value at line 1");
        }
        other => panic!("not a mismatch: {other:?}"),
    }
}

#[test]
fn request_carries_the_question_and_the_seed() {
    let request = build_request(r#"{"question":"Who wins?"}"#, 77);
    assert_eq!(request.model, "grok-3");
    assert_eq!(request.messages.len(), 2);
    assert_eq!(request.messages[0].role, "system");
    assert_eq!(request.messages[0].content, SYSTEM_PROMPT);
    assert_eq!(request.messages[1].role, "user");
    assert_eq!(request.messages[1].content, r#"Data: {"question":"Who wins?"}"#);
    assert_eq!(request.temperature_milli, 200);
    assert_eq!(request.max_tokens, 100);
    assert_eq!(request.seed, 77);
    let tools = request.tools.unwrap();
    assert_eq!(tools.len(), 1);
    assert_eq!(tools[0].tool_type, "function");
    assert_eq!(tools[0].function.name, "resolve_prediction");
    let choice = request.tool_choice.unwrap();
    assert_eq!(choice.choice_type, "function");
    assert_eq!(choice.function_name, "resolve_prediction");
}

#[test]
fn system_prompt_states_the_answer_format() {
    assert!(SYSTEM_PROMPT.starts_with("You are the oracle of a prediction market. \n"));
    assert!(SYSTEM_PROMPT.contains("payoutVector: an array of integers"));
    assert!(SYSTEM_PROMPT.ends_with("consulted again later\n                }"));
    assert_eq!(ENDPOINT, "https://api.x.ai/v1/chat/completions");
}

#[test]
fn schema_declares_the_four_fields() {
    let schema = resolution_schema();
    assert_eq!(schema.param_type, "object");
    let names: Vec<&str> = schema.properties.iter().map(|p| p.0.as_str()).collect();
    assert_eq!(names, vec!["answer", "explanation", "payoutVector", "valid"]);
    let types: Vec<&str> = schema.properties.iter().map(|p| p.1.prop_type.as_str()).collect();
    assert_eq!(types, vec!["string", "string", "array", "boolean"]);
    assert!(schema.properties[0].1.items.is_none());
    assert_eq!(schema.properties[2].1.items.as_ref().unwrap().item_type, "integer");
    assert_eq!(schema.properties[0].1.description, "String summarizing the predicted outcome");
    assert_eq!(
        schema.properties[3].1.description,
        "Whether live data is sufficient to determine the winner"
    );
    assert_eq!(schema.required, vec!["answer", "explanation", "payoutVector", "valid"]);
    let tool = resolution_tool();
    assert_eq!(
        tool.function.description,
        "Resolves a prediction market with the definitive winner"
    );
    assert_eq!(tool.function.parameters.properties.len(), 4);
}

#[test]
fn authorization_is_a_bearer_token() {
    assert_eq!(bearer("sk-123"), "Bearer sk-123");
    assert_eq!(bearer(""), "Bearer ");
}

#[test]
fn question_is_stripped_of_its_provenance() {
    let testament = QuestionTestament {
        question: "Who wins?".to_string(),
        oracle: "0xoracle".to_string(),
        description: "The final".to_string(),
        results: vec!["A".to_string(), "B".to_string(), "Draw".to_string()],
        generated_at: "2025-01-01".to_string(),
        is_scalar: false,
    };
    let info: QuestionInfo = testament.into_info();
    assert_eq!(info.question, "Who wins?");
    assert_eq!(info.description, "The final");
    assert_eq!(info.results, vec!["A", "B", "Draw"]);
    assert!(!info.is_scalar);
    assert_eq!(info.outcome_count(), 3);
}

fn member<'a>(object: &'a serde_json::Map<String, Value>, name: &str) -> Result<&'a Value, String> {
    object.get(name).ok_or(format!("missing field `{name}`"))
}

/// Reads a resolution from JSON text, field by field as the schema of a
/// resolution declares them.
fn decode(text: &str) -> Result<QuestionResponse, String> {
    let value: Value = serde_json::from_str(text).map_err(|e| e.to_string())?;
    let object = value.as_object().ok_or("not an object".to_string())?;
    let schema = resolution_schema();
    for name in &schema.required {
        member(object, name)?;
    }
    let answer = member(object, "answer")?.as_str().ok_or("answer is no string")?;
    let explanation = member(object, "explanation")?.as_str().ok_or("explanation is no string")?;
    let items = member(object, "payoutVector")?.as_array().ok_or("payoutVector is no array")?;
    let mut payout_vector = Vec::new();
    for item in items {
        payout_vector.push(item.as_u64().ok_or("payout entry is no integer")?);
    }
    let valid = member(object, "valid")?.as_bool().ok_or("valid is no boolean")?;
    Ok(QuestionResponse {
        answer: answer.to_string(),
        explanation: explanation.to_string(),
        payout_vector,
        valid,
    })
}

/// Writes a resolution as JSON text, under the names of the schema.
fn encode(r: &QuestionResponse) -> String {
    let mut object = serde_json::Map::new();
    object.insert("answer".to_string(), Value::from(r.answer.clone()));
    object.insert("explanation".to_string(), Value::from(r.explanation.clone()));
    object.insert("payoutVector".to_string(), Value::from(r.payout_vector.clone()));
    object.insert("valid".to_string(), Value::from(r.valid));
    serde_json::to_string(&Value::Object(object)).unwrap()
}

#[test]
fn no_data_without_structured_call_resolves_to_no_winner() {
    let r = response(Some("Sorry, there is no data for this market"), None);
    let q = resolve_response(&r, 3, decode).unwrap();
    assert_eq!(q.answer, "No winner");
    assert!(!q.valid);
    assert_eq!(q.payout_vector, vec![1, 1, 1]);
    assert_eq!(q.explanation, "Sorry, there is no data for this market");
}

#[test]
fn structured_call_of_length_two_for_three_outcomes_fails() {
    let args = r#"{"answer":"A","explanation":"e","payoutVector":[1,0],"valid":true}"#;
    let r = response(None, Some(vec![call(args)]));
    match resolve_response(&r, 3, decode) {
        Err(ResolveError::Payout(e)) => {
            assert_eq!(e, PayoutError::LengthMismatch { actual: 2, expected: 3 });
            assert_eq!(e.message(), "Payout vector length (2) does not match results length (3)");
        }
        other => panic!("released: {other:?}"),
    }
}

#[test]
fn structured_call_is_resolved_in_one_step() {
    let args = r#"{"answer":"B","explanation":"won 2:1","payoutVector":[0,1,0],"valid":true}"#;
    let r = response(Some("calling the function"), Some(vec![call(args)]));
    let q = resolve_response(&r, 3, decode).unwrap();
    assert_eq!(q.answer, "B");
    assert_eq!(q.explanation, "won 2:1");
    assert_eq!(q.payout_vector, vec![0, 1, 0]);
    assert!(q.valid);
}

#[test]
fn steps_of_resolution_fail_in_order() {
    let mut empty = response(None, None);
    empty.choices.clear();
    assert!(matches!(
        resolve_response(&empty, 2, decode),
        Err(ResolveError::Schema(SchemaError::NoChoices))
    ));
    assert!(matches!(
        resolve_response(&response(Some("hello"), None), 2, decode),
        Err(ResolveError::Schema(SchemaError::NoStructuredCall))
    ));
    let broken = response(None, Some(vec![call("{\"answer\": 1")]));
    match resolve_response(&broken, 2, decode) {
        Err(ResolveError::Schema(SchemaError::SchemaMismatch { raw, reason })) => {
            assert_eq!(raw, "{\"answer\": 1");
            assert!(!reason.is_empty());
        }
        other => panic!("not a mismatch: {other:?}"),
    }
    let wrong = r#"{"answer":"A","explanation":"e","payoutVector":[1,2],"valid":false}"#;
    assert!(matches!(
        resolve_response(&response(None, Some(vec![call(wrong)])), 2, decode),
        Err(ResolveError::Payout(PayoutError::CancelPayoutNotUniform))
    ));
}

#[test]
fn arguments_of_another_shape_are_a_mismatch() {
    for args in [
        r#"{"answer":"A","explanation":"e","payoutVector":[1,0]}"#,
        r#"{"answer":"A","explanation":"e","payoutVector":[1,1.5],"valid":true}"#,
        r#"{"answer":"A","explanation":"e","payoutVector":[1,18446744073709551616],"valid":true}"#,
        r#"{"answer":"A","explanation":"e","payoutVector":[1,-1],"valid":true}"#,
        r#"{"answer":"A","explanation":"e","payoutVector":"1,0","valid":true}"#,
        r#"{"answer":7,"explanation":"e","payoutVector":[1,0],"valid":true}"#,
        r#"[1, 0]"#,
        "",
    ] {
        let r = response(None, Some(vec![call(args)]));
        match resolve_response(&r, 2, decode) {
            Err(ResolveError::Schema(SchemaError::SchemaMismatch { raw, .. })) => {
                assert_eq!(raw, args)
            }
            other => panic!("not a mismatch: {other:?}"),
        }
    }
}

#[test]
fn resolution_survives_the_json_round_trip() {
    let written = [
        resolution(vec![0, 1, 0], true),
        resolution(vec![1, 1, 1], false),
        resolution(vec![255, 0, 17], true),
        resolution(vec![300, 0, u64::MAX], true),
        QuestionResponse {
            answer: "quote \" and \\ and \n newline, ünïcödé".to_string(),
            explanation: String::new(),
            payout_vector: vec![100, 0, 0],
            valid: true,
        },
    ];
    for first in written {
        let text = encode(&first);
        let r = response(None, Some(vec![call(&text)]));
        let back = resolve_response(&r, 3, decode).unwrap();
        assert_eq!(back.answer, first.answer);
        assert_eq!(back.explanation, first.explanation);
        assert_eq!(back.payout_vector, first.payout_vector);
        assert_eq!(back.valid, first.valid);
    }
}

#[test]
fn errors_are_said_in_words() {
    assert_eq!(SchemaError::NoChoices.message(), "No choices in response");
    assert_eq!(SchemaError::NoStructuredCall.message(), "No tool calls in response");
    let mismatch =
        SchemaError::SchemaMismatch { raw: "{".to_string(), reason: "EOF at line 1".to_string() };
    assert_eq!(mismatch.message(), "Failed to parse tool call arguments: EOF at line 1");
    assert_eq!(
        PayoutError::LengthMismatch { actual: 10, expected: 0 }.message(),
        "Payout vector length (10) does not match results length (0)"
    );
    assert_eq!(
        PayoutError::CancelPayoutNotUniform.message(),
        "Invalid response: valid is false but payout_vector is not all ones"
    );
    assert_eq!(
        ResolveError::Payout(PayoutError::CancelPayoutNotUniform).message(),
        PayoutError::CancelPayoutNotUniform.message()
    );
    assert_eq!(
        ResolveError::Schema(SchemaError::NoChoices).message(),
        "No choices in response"
    );
}

#[test]
fn api_errors_are_said_in_words() {
    assert_eq!(
        ApiError::RequestError("timeout".to_string()).message(),
        "HTTP request failed: timeout"
    );
    assert_eq!(
        ApiError::ApiError("rate limited".to_string()).message(),
        "API returned an error: rate limited"
    );
    let cause = serde_json::from_str::<Value>("{").unwrap_err();
    let account = cause.to_string();
    let error = ApiError::from(cause);
    assert!(matches!(error, ApiError::JsonError(_)));
    assert_eq!(
        error.message(),
        format!("JSON serialization/deserialization failed: {account}")
    );
}

#[test]
fn payout_entry_above_a_byte_is_released() {
    let args = r#"{"answer":"Yes","explanation":"e","payoutVector":[300,0],"valid":true}"#;
    let r = response(None, Some(vec![call(args)]));
    let q = resolve_response(&r, 2, decode).unwrap();
    assert_eq!(q.answer, "Yes");
    assert!(q.valid);
    assert_eq!(q.payout_vector, vec![300, 0]);
    let large = resolution(vec![0, u64::MAX, 1 << 40], true);
    assert!(large.check_payout(3).is_ok());
    let released = conclude(Ok(large), String::new(), 3).unwrap();
    assert_eq!(released.payout_vector, vec![0, u64::MAX, 1 << 40]);
}

#[test]
fn cancellation_pays_exactly_one() {
    for payout in [vec![1, 257], vec![256, 256], vec![u64::MAX, 1], vec![1, 1 << 32]] {
        assert_eq!(
            resolution(payout, false).check_payout(2),
            Err(PayoutError::CancelPayoutNotUniform)
        );
    }
}
