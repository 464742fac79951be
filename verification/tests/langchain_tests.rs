use autoflashcard::json::{node_to_json, parse_json};
use autoflashcard::langchain::{
    card_from_node, card_to_node, deck_from_json_text, deck_to_node, extract_json, resolve_engine,
    generation_outcome, ConfigError, EngineChoice, ExtractError, GenerationError,
};
use autoflashcard::{Flashcard, FlashcardResponse};

#[test]
fn test_extract_json_valid() {
    let text = r#"Here is the response:
    {
        "deck_name": "Test Deck",
        "cards": [
            {
                "front": "Hello",
                "back": "Hola",
                "example": "Hello, world!",
                "example_translate": "¡Hola, mundo!"
            }
        ]
    }
    Some additional text"#;

    let result = extract_json(text);
    assert!(result.is_ok());

    let json = result.unwrap();
    assert!(json.contains("deck_name"));
    assert!(json.contains("Test Deck"));
}

#[test]
fn test_extract_json_no_json() {
    let text = "This is just plain text without any JSON";
    let result = extract_json(text);
    assert!(result.is_err());
    assert_eq!(
        result.unwrap_err().message(),
        "No JSON found in assistant's reply"
    );
}

#[test]
fn test_extract_json_nested_braces() {
    let text = r#"Response: {"deck_name": "Test", "cards": [{"front": "a", "back": "b", "example": "{test}", "example_translate": "test"}]}"#;
    let result = extract_json(text);
    assert!(result.is_ok());
    let json = result.unwrap();
    assert!(json.contains("{test}"));
}

#[test]
fn test_extract_json_with_markdown() {
    let text = r#"Here's the JSON response:
```json
{
    "deck_name": "Japanese Vocabulary",
    "cards": [
        {
            "front": "犬",
            "back": "dog",
            "example": "犬が好きです",
            "example_translate": "I like dogs"
        }
    ]
}
```"#;

    let result = extract_json(text);
    assert!(result.is_ok());
    let json = result.unwrap();
    assert!(json.contains("Japanese Vocabulary"));
    assert!(json.contains("犬"));
}

#[test]
fn test_extract_json_multiple_json_blocks() {
    let text = r#"First block: {"test": 1}
    The actual response:
    {
        "deck_name": "Numbers",
        "cards": []
    }"#;

    let result = extract_json(text);
    assert!(result.is_ok());
    let json = result.unwrap();
    assert!(json.contains("test") || json.contains("deck_name"));
}

#[test]
fn test_extract_json_spans_both_blocks() {
    // Two disjoint objects: the span runs from the first `{` through the
    // last `}`, covering both, and is then no well-formed JSON.
    let text = r#"First block: {"test": 1}
    The actual response:
    {
        "deck_name": "Numbers",
        "cards": []
    }"#;
    let json = extract_json(text).unwrap();
    assert!(json.contains("test"));
    assert!(json.contains("deck_name"));
    assert!(json.starts_with('{'));
    assert!(json.ends_with('}'));
    assert!(parse_json(&json).is_none());
}

#[test]
fn test_flashcard_serialization() {
    let flashcard = Flashcard {
        front: "Hello".to_string(),
        back: "Hola".to_string(),
        example: "Hello, friend!".to_string(),
        example_translate: "¡Hola, amigo!".to_string(),
    };

    let json = node_to_json(&card_to_node(&flashcard));
    assert!(json.contains("\"front\":\"Hello\""));
    assert!(json.contains("\"back\":\"Hola\""));

    let node = parse_json(&json).expect("the card's JSON parses again");
    let deserialized = card_from_node(&node).expect("the card's JSON describes a card");
    assert_eq!(deserialized.front, "Hello");
    assert_eq!(deserialized.back, "Hola");
    assert_eq!(deserialized.example, "Hello, friend!");
    assert_eq!(deserialized.example_translate, "¡Hola, amigo!");
}

#[test]
fn test_flashcard_response_serialization() {
    let response = FlashcardResponse {
        deck_name: "Spanish Basics".to_string(),
        cards: vec![
            Flashcard {
                front: "One".to_string(),
                back: "Uno".to_string(),
                example: "One apple".to_string(),
                example_translate: "Una manzana".to_string(),
            },
            Flashcard {
                front: "Two".to_string(),
                back: "Dos".to_string(),
                example: "Two cats".to_string(),
                example_translate: "Dos gatos".to_string(),
            },
        ],
    };

    let json = node_to_json(&deck_to_node(&response));
    let deserialized = deck_from_json_text(&json).expect("the deck's JSON describes a deck");

    assert_eq!(deserialized.deck_name, "Spanish Basics");
    assert_eq!(deserialized.cards.len(), 2);
    assert_eq!(deserialized.cards[0].front, "One");
    assert_eq!(deserialized.cards[1].front, "Two");
}

#[test]
fn test_deck_rejects_wrong_shape() {
    // A well-formed JSON text that is no deck: the deck reading fails, the
    // parse itself does not.
    assert!(parse_json("{\"deck_name\": 7, \"cards\": []}").is_some());
    assert!(deck_from_json_text("{\"deck_name\": 7, \"cards\": []}").is_none());
    assert!(deck_from_json_text("{\"deck_name\": \"D\"}").is_none());
    assert!(deck_from_json_text("{\"deck_name\": \"D\", \"cards\": [{}]}").is_none());
    assert!(deck_from_json_text("not json at all").is_none());
}

#[test]
fn test_deck_with_empty_cards_parses() {
    let deck = deck_from_json_text("{\"deck_name\": \"Empty\", \"cards\": []}")
        .expect("a deck with no cards is valid");
    assert_eq!(deck.deck_name, "Empty");
    assert_eq!(deck.cards.len(), 0);
}

#[test]
fn test_resolve_engine_default_is_openai() {
    let choice = resolve_engine(None, Some("SECRET-REDACTED".to_string()), None).unwrap();
    assert!(matches!(choice, EngineChoice::OpenAi { .. }));
}

#[test]
fn test_resolve_engine_missing_credential() {
    let err = resolve_engine(Some("openai".to_string()), None, None).unwrap_err();
    assert_eq!(err, ConfigError::MissingCredential);
    assert_eq!(err.message(), "OPEN_API_KEY is not set");
}

#[test]
fn test_resolve_engine_invalid_engine() {
    let err = resolve_engine(Some("invalid_engine".to_string()), None, None).unwrap_err();
    assert_eq!(err, ConfigError::UnsupportedEngine);
    assert_eq!(err.message(), "Unsupported engine");
}

#[test]
fn test_resolve_engine_ollama_default_model() {
    let choice = resolve_engine(Some("ollama".to_string()), None, None).unwrap();
    match choice {
        EngineChoice::Ollama { model } => assert_eq!(model, "gemma2"),
        _ => panic!("the local engine was asked for"),
    }
}

#[test]
fn test_resolve_engine_ollama_custom_model() {
    let choice =
        resolve_engine(Some("ollama".to_string()), None, Some("mistral".to_string())).unwrap();
    match choice {
        EngineChoice::Ollama { model } => assert_eq!(model, "mistral"),
        _ => panic!("the local engine was asked for"),
    }
}

#[test]
fn test_generation_outcome_backend_failure() {
    let r = generation_outcome(Err("connection refused".to_string()));
    match r {
        Err(GenerationError::GenerationFailed(m)) => assert_eq!(m, "connection refused"),
        _ => panic!("a backend failure fails the run"),
    }
}

#[test]
fn test_generation_outcome_recovers_deck() {
    let reply = "Sure! Here you go:\n{\"deck_name\": \"Greetings\", \"cards\": [{\"front\": \"Hola\", \"back\": \"Hello\", \"example\": \"Hola, amigo\", \"example_translate\": \"Hello, friend\"}]}\nEnjoy!";
    let deck = generation_outcome(Ok(reply.to_string())).expect("the reply holds a deck");
    assert_eq!(deck.deck_name, "Greetings");
    assert_eq!(deck.cards.len(), 1);
    assert_eq!(deck.cards[0].front, "Hola");
}

#[test]
fn test_generation_outcome_no_json() {
    let r = generation_outcome(Ok("no braces here".to_string()));
    match r {
        Err(GenerationError::GenerationFailed(m)) => {
            assert_eq!(m, "No JSON found in assistant's reply")
        },
        _ => panic!("a reply without JSON fails the run"),
    }
}

#[test]
fn test_generation_outcome_malformed_json() {
    let r = generation_outcome(Ok("{this is not json}".to_string()));
    match r {
        Err(GenerationError::GenerationFailed(m)) => {
            assert_eq!(m, "Reply's JSON is not a flashcard deck")
        },
        _ => panic!("a malformed span fails the run"),
    }
}

#[test]
fn test_extract_error_messages() {
    assert_eq!(
        ExtractError::NoJsonFound.message(),
        "No JSON found in assistant's reply"
    );
    assert_eq!(
        ExtractError::MalformedJson.message(),
        "Reply's JSON is not a flashcard deck"
    );
}
