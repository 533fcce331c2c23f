use prompt_templates::deserialize_prompt;
use prompt_templates::Prompt;
use prompt_templates::ScalarValue;

#[test]
fn test_deserialize_prompt_completion() {
    let yaml = r#"  
        type: completion  
        vendor: google
        model: text-bison
        prompt: Write a hello world in java
        parameters:  
            - name: maxOutputTokens
              value: 256
            - name: temperature
              value: 0.4
        examples:  
            - name: input
              values:
                - a
                - b
              test: c
            - name: output
              values:
                - x
                - y
    "#;

    let prompt = deserialize_prompt(yaml).unwrap();

    if let Prompt::Completion(completion) = prompt {
        assert_eq!(completion.vendor, "google");
        assert_eq!(completion.model, "text-bison");
        assert_eq!(completion.prompt, "Write a hello world in java");

        if let Some(parameters) = completion.parameters {
            assert_eq!(parameters.len(), 2);
            assert_eq!(parameters[0].name, "maxOutputTokens");
            assert!(matches!(parameters[0].value, ScalarValue::Int(256)));
            assert_eq!(parameters[1].name, "temperature");
            assert!(matches!(parameters[1].value, ScalarValue::Decimal(ref t) if t == "0.4"));
        }

        if let Some(examples) = completion.examples {
            assert_eq!(examples.len(), 2);
            assert_eq!(examples[0].name, "input");
            assert_eq!(examples[1].name, "output");
            assert_eq!(examples[0].values, vec!["a", "b"]);
            assert_eq!(examples[0].test, Some("c".to_string()));
            assert_eq!(examples[1].values, vec!["x", "y"]);
            assert_eq!(examples[1].test, None);
        }
    } else {
        panic!("Expected Prompt::Completion, got {:?}", prompt);
    }
}

#[test]
fn test_deserialize_prompt_chat() {
    let yaml = r#"  
        type: chat  
        vendor: google
        model: chat-bison 
        parameters:  
            - name: maxOutputTokens
              value: 256
            - name: temperature
              value: 0.4
        examples:  
            - input: who are u?
              output: I'm google
        messages:  
            - input: what's your name?
    "#;

    let prompt = deserialize_prompt(yaml).unwrap();

    if let Prompt::Chat(chat) = prompt {
        assert_eq!(chat.vendor, "google");
        assert_eq!(chat.model, "chat-bison");

        if let Some(parameters) = chat.parameters {
            assert_eq!(parameters.len(), 2);
            assert_eq!(parameters[0].name, "maxOutputTokens");
            assert!(matches!(parameters[0].value, ScalarValue::Int(256)));
            assert_eq!(parameters[1].name, "temperature");
            assert!(matches!(parameters[1].value, ScalarValue::Decimal(ref t) if t == "0.4"));
        }

        if let Some(examples) = chat.examples {
            assert_eq!(examples.len(), 1);
            assert_eq!(examples[0].input, "who are u?");
            assert_eq!(examples[0].output, Some("I'm google".to_string()));
        }

        assert_eq!(chat.context, None);

        if let Some(messages) = chat.messages {
            assert_eq!(messages.len(), 1);
            assert_eq!(messages[0].input, "what's your name?");
            assert_eq!(messages[0].output, None);
        }
    } else {
        panic!("Expected Prompt::Chat, got {:?}", prompt);
    }
}

#[test]
fn test_deserialize_prompt_unknown() {
    let yaml = r#"  
        type: unknown  
    "#;

    let prompt = deserialize_prompt(yaml).unwrap();

    if let Prompt::Unknown = prompt {
        // Test passed
    } else {
        panic!("Expected Prompt::Unkwon, got {:?}", prompt);
    }
}

#[test]
fn test_get_examples_count() {
    let yaml = r#"  
        type: completion  
        vendor: google
        model: text-bison
        prompt: Write a hello world in java
        parameters:  
            - name: maxOutputTokens
              value: 256
            - name: temperature
              value: 0.4
        examples:  
            - name: input
              values:
                - a
                - b
              test: c
            - name: output
              values:
                - x
                - y
    "#;

    let prompt = deserialize_prompt(yaml).unwrap();

    let final_prompt = r#"Write a hello world in java

input: a
output: x

input: b
output: y

input: c
output: 
"#;
    if let Prompt::Completion(completion) = prompt {
        assert_eq!(completion.example_count(), 2);
        assert_eq!(completion.final_prompt(), final_prompt);
    } else {
        panic!("Expected Prompt::Unkwon, got {:?}", prompt);
    }
}
