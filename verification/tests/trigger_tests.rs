use outcome_resolver::trigger::{
    decode_trigger_input, encode_trigger_output, game_url, parse_game_input, parse_game_payload,
    parse_inference_input, parse_inference_payload, question_url, Destination, InputError,
    TriggerData, TriggerError,
};

#[test]
fn raw_trigger_hands_out_its_bytes() {
    let decoded = decode_trigger_input(TriggerData::Raw(vec![1, 2, 3]));
    match decoded {
        Ok((id, payload, destination)) => {
            assert_eq!(id, 0);
            assert_eq!(payload, vec![1, 2, 3]);
            assert_eq!(destination, Destination::CliOutput);
        }
        Err(e) => panic!("refused: {e:?}"),
    }
}

#[test]
fn other_triggers_are_refused() {
    assert_eq!(
        decode_trigger_input(TriggerData::EthContractEvent).unwrap_err(),
        TriggerError::EthereumNotSupported
    );
    assert_eq!(decode_trigger_input(TriggerData::Other).unwrap_err(), TriggerError::Unsupported);
}

#[test]
fn output_is_encoded_unchanged() {
    assert_eq!(encode_trigger_output(7, b"{\"valid\":true}"), b"{\"valid\":true}".to_vec());
    assert_eq!(encode_trigger_output(0, &[]), Vec::<u8>::new());
}

#[test]
fn inference_payload_has_four_fields() {
    let input = parse_inference_input("0xabc|bafy123|sk-key|42").unwrap();
    assert_eq!(input.condition_id, "0xabc");
    assert_eq!(input.content_id, "bafy123");
    assert_eq!(input.api_key, "sk-key");
    assert_eq!(input.seed, 42);
}

#[test]
fn inference_payload_with_another_field_count_is_refused() {
    assert_eq!(
        parse_inference_input("a|b|c").unwrap_err(),
        InputError::InferenceFormat { found: 3 }
    );
    assert_eq!(
        parse_inference_input("a|b|c|1|e").unwrap_err(),
        InputError::InferenceFormat { found: 5 }
    );
    assert_eq!(
        parse_inference_input("").unwrap_err(),
        InputError::InferenceFormat { found: 1 }
    );
}

#[test]
fn field_count_is_looked_at_before_the_seed() {
    assert_eq!(
        parse_inference_input("a|b|x").unwrap_err(),
        InputError::InferenceFormat { found: 3 }
    );
}

#[test]
fn seed_must_be_an_unsigned_integer() {
    assert_eq!(parse_inference_input("a|b|c|seed").unwrap_err(), InputError::Seed);
    assert_eq!(parse_inference_input("a|b|c|").unwrap_err(), InputError::Seed);
    assert_eq!(parse_inference_input("a|b|c|-1").unwrap_err(), InputError::Seed);
    assert_eq!(
        parse_inference_input("a|b|c|18446744073709551616").unwrap_err(),
        InputError::Seed
    );
    assert_eq!(parse_inference_input("a|b|c|18446744073709551615").unwrap().seed, u64::MAX);
}

#[test]
fn fields_may_be_empty() {
    let input = parse_inference_input("|||0").unwrap();
    assert_eq!(input.condition_id, "");
    assert_eq!(input.content_id, "");
    assert_eq!(input.api_key, "");
    assert_eq!(input.seed, 0);
}

#[test]
fn game_payload_has_two_fields() {
    let input = parse_game_input("sr:sport_event:123|key").unwrap();
    assert_eq!(input.game_id, "sr:sport_event:123");
    assert_eq!(input.api_key, "key");
    assert_eq!(
        parse_game_input("only").unwrap_err(),
        InputError::GameFormat { found: 1 }
    );
    assert_eq!(
        parse_game_input("a|b|c").unwrap_err(),
        InputError::GameFormat { found: 3 }
    );
}

#[test]
fn payload_bytes_are_decoded_as_utf8() {
    let input = parse_inference_payload("c|ï|k|9".as_bytes()).unwrap();
    assert_eq!(input.content_id, "ï");
    assert_eq!(input.seed, 9);
    let game = parse_game_payload(b"g|k").unwrap();
    assert_eq!(game.game_id, "g");
    assert_eq!(game.api_key, "k");
}

#[test]
fn payload_that_is_not_utf8_is_refused() {
    assert_eq!(parse_inference_payload(&[0xff, b'|', b'a']).unwrap_err(), InputError::NotText);
    assert_eq!(parse_game_payload(&[b'a', b'|', 0xc3]).unwrap_err(), InputError::NotText);
}

#[test]
fn addresses_are_built_from_the_identifiers() {
    assert_eq!(question_url("bafy123"), "https://ipfs.io/ipfs/bafy123");
    assert_eq!(
        game_url("sr:sport_event:1", "key"),
        "https://api.sportradar.com/soccer/trial/v4/en/sport_events/sr:sport_event:1/summary.json?api_key=key"
    );
}

#[test]
fn refusals_are_said_in_words() {
    assert_eq!(
        TriggerError::EthereumNotSupported.message(),
        "Ethereum event triggers not supported"
    );
    assert_eq!(TriggerError::Unsupported.message(), "Unsupported trigger data type");
    assert_eq!(
        InputError::InferenceFormat { found: 3 }.message(),
        "Input must be in format 'CONDITIONID|QUESTIONHASH|OPENAI_API_KEY|SEED'"
    );
    assert_eq!(
        InputError::GameFormat { found: 1 }.message(),
        "Invalid input format. Expected 'GAME_ID|API_KEY'"
    );
    assert_eq!(InputError::Seed.message(), "SEED must be an integer");
    assert_eq!(InputError::NotText.message(), "Input is not valid UTF-8");
}
