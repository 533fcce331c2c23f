use prompt_templates::deserialize_prompt;
use prompt_templates::find_parameter;
use prompt_templates::Completion;
use prompt_templates::CompletionExampleColumn;
use prompt_templates::Parameter;
use prompt_templates::Prompt;
use prompt_templates::PromptError;
use prompt_templates::PromptKind;
use prompt_templates::ScalarValue;

fn completion_with_params() -> Completion {
    Completion {
        prompt_type: "completion".to_string(),
        vendor: "google".to_string(),
        model: "text-bison".to_string(),
        prompt: "Write a hello world in java".to_string(),
        parameters: Some(vec![
            Parameter { name: "maxOutputTokens".to_string(), value: ScalarValue::Int(256) },
            Parameter { name: "temperature".to_string(), value: ScalarValue::Decimal("0.4".to_string()) },
        ]),
        examples: None,
    }
}

#[test]
fn chat_omitted_fields_are_absent() {
    let yaml = "type: chat\nvendor: google\nmodel: chat-bison\n";
    let prompt = deserialize_prompt(yaml).unwrap();
    if let Prompt::Chat(chat) = prompt {
        assert!(chat.parameters.is_none());
        assert!(chat.examples.is_none());
        assert!(chat.context.is_none());
        assert!(chat.messages.is_none());
    } else {
        panic!("Expected Prompt::Chat, got {:?}", prompt);
    }
}

#[test]
fn unknown_type_is_not_an_error() {
    let prompt = deserialize_prompt("type: somethingelse\nextra: 1\n").unwrap();
    assert!(matches!(prompt, Prompt::Unknown));
}

#[test]
fn example_count_is_zero_without_examples() {
    let completion = completion_with_params();
    assert_eq!(completion.example_count(), 0);
    assert_eq!(
        completion.final_prompt(),
        "Write a hello world in java\n\n",
    );
}

#[test]
fn example_count_is_max_of_column_lengths() {
    let completion = Completion {
        prompt_type: "completion".to_string(),
        vendor: "v".to_string(),
        model: "m".to_string(),
        prompt: "P".to_string(),
        parameters: None,
        examples: Some(vec![
            CompletionExampleColumn {
                name: "input".to_string(),
                values: vec!["a".to_string()],
                test: None,
            },
            CompletionExampleColumn {
                name: "output".to_string(),
                values: vec!["x".to_string(), "y".to_string(), "z".to_string()],
                test: Some("t".to_string()),
            },
        ]),
    };
    assert_eq!(completion.example_count(), 3);
}

#[test]
fn ragged_columns_render_empty_cells() {
    let completion = Completion {
        prompt_type: "completion".to_string(),
        vendor: "v".to_string(),
        model: "m".to_string(),
        prompt: "P".to_string(),
        parameters: None,
        examples: Some(vec![
            CompletionExampleColumn {
                name: "input".to_string(),
                values: vec!["a".to_string()],
                test: None,
            },
            CompletionExampleColumn {
                name: "output".to_string(),
                values: vec!["x".to_string(), "y".to_string(), "z".to_string()],
                test: Some("t".to_string()),
            },
        ]),
    };
    let expected = "P\n\n\
        input: a\noutput: x\n\n\
        input: \noutput: y\n\n\
        input: \noutput: z\n\n\
        input: \noutput: t\n";
    assert_eq!(completion.final_prompt(), expected);
}

#[test]
fn empty_example_list_renders_like_none() {
    let completion = Completion {
        prompt_type: "completion".to_string(),
        vendor: "v".to_string(),
        model: "m".to_string(),
        prompt: "P".to_string(),
        parameters: None,
        examples: Some(vec![]),
    };
    assert_eq!(completion.example_count(), 0);
    assert_eq!(completion.final_prompt(), "P\n\n");
}

#[test]
fn parameter_accessors_coerce_or_fail() {
    let completion = completion_with_params();

    assert_eq!(completion.find_parameter_as_i32("maxOutputTokens"), Ok(Some(256)));
    assert_eq!(completion.find_parameter_as_i32("nonexistent"), Ok(None));

    let number = completion.find_parameter_as_number("temperature").unwrap().unwrap();
    match number {
        ScalarValue::Decimal(t) => assert_eq!(t.parse::<f32>().unwrap(), 0.4f32),
        other => panic!("expected a decimal value, got {:?}", other),
    }

    assert_eq!(
        completion.find_parameter_as_bool("maxOutputTokens"),
        Err(PromptError::TypeMismatch),
    );
}

#[test]
fn integer_satisfies_a_number_request() {
    let completion = completion_with_params();
    let number = completion.find_parameter_as_number("maxOutputTokens").unwrap().unwrap();
    assert!(matches!(number, ScalarValue::Int(256)));
}

#[test]
fn string_and_bool_accessors() {
    let completion = Completion {
        parameters: Some(vec![
            Parameter { name: "stop".to_string(), value: ScalarValue::Text("END".to_string()) },
            Parameter { name: "echo".to_string(), value: ScalarValue::Bool(true) },
        ]),
        ..completion_with_params()
    };
    assert_eq!(completion.find_parameter_as_str("stop"), Ok(Some("END".to_string())));
    assert_eq!(completion.find_parameter_as_bool("echo"), Ok(Some(true)));
    assert_eq!(completion.find_parameter_as_str("echo"), Err(PromptError::TypeMismatch));
    assert_eq!(completion.find_parameter_as_i32("stop"), Err(PromptError::TypeMismatch));
}

#[test]
fn out_of_range_integer_is_a_type_mismatch() {
    let completion = Completion {
        parameters: Some(vec![Parameter {
            name: "big".to_string(),
            value: ScalarValue::Int(5_000_000_000),
        }]),
        ..completion_with_params()
    };
    assert_eq!(completion.find_parameter_as_i32("big"), Err(PromptError::TypeMismatch));
}

#[test]
fn first_matching_parameter_wins() {
    let parameters = Some(vec![
        Parameter { name: "n".to_string(), value: ScalarValue::Int(1) },
        Parameter { name: "n".to_string(), value: ScalarValue::Int(2) },
    ]);
    let found = find_parameter(&parameters, "n");
    assert!(matches!(found, Some(ScalarValue::Int(1))));
    assert!(find_parameter(&parameters, "absent").is_none());
    assert!(find_parameter(&None, "n").is_none());
}

#[test]
fn malformed_documents_are_rejected() {
    assert!(matches!(deserialize_prompt("a: [1"), Err(PromptError::MalformedDocument)));
    assert!(matches!(
        deserialize_prompt("vendor: google\n"),
        Err(PromptError::MalformedDocument)
    ));
    assert!(matches!(
        deserialize_prompt("type: [completion]\n"),
        Err(PromptError::MalformedDocument)
    ));
}

#[test]
fn missing_required_fields_are_schema_mismatches() {
    assert!(matches!(
        deserialize_prompt("type: completion\nvendor: google\nmodel: text-bison\n"),
        Err(PromptError::SchemaMismatch(PromptKind::Completion))
    ));
    assert!(matches!(
        deserialize_prompt("type: chat\nvendor: google\n"),
        Err(PromptError::SchemaMismatch(PromptKind::Chat))
    ));
    assert!(matches!(
        deserialize_prompt(
            "type: completion\nvendor: google\nmodel: m\nprompt: p\nexamples: 3\n",
        ),
        Err(PromptError::SchemaMismatch(PromptKind::Completion))
    ));
}
