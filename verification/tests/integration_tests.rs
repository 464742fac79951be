use autoflashcard::anki_adapter::{
    add_card_outcome, create_deck_outcome, insertion_requests, model_setup_decision,
};
use autoflashcard::json::{node_to_json, parse_json};
use autoflashcard::langchain::deck_from_reply;
use autoflashcard::{Flashcard, FlashcardResponse};

#[test]
fn test_flashcard_response_with_empty_cards() {
    let response = FlashcardResponse {
        deck_name: "Empty Deck".to_string(),
        cards: vec![],
    };

    assert_eq!(response.deck_name, "Empty Deck");
    assert_eq!(response.cards.len(), 0);
}

#[test]
fn test_flashcard_response_with_many_cards() {
    let cards: Vec<Flashcard> = (0..100)
        .map(|i| Flashcard {
            front: format!("Front {}", i),
            back: format!("Back {}", i),
            example: format!("Example {}", i),
            example_translate: format!("Translation {}", i),
        })
        .collect();

    let response = FlashcardResponse {
        deck_name: "Large Deck".to_string(),
        cards,
    };

    assert_eq!(response.cards.len(), 100);
    assert_eq!(response.cards[0].front, "Front 0");
    assert_eq!(response.cards[99].front, "Front 99");
}

#[test]
fn test_reply_to_insertions_workflow() {
    // The generate-then-insert pipeline on plain values: a fenced reply is
    // recovered into a deck, the note type's presence is checked, the deck
    // is created, and one insertion request per card follows, in order.
    let reply = "Here you go:\n```json\n{\"deck_name\": \"Spanish Basics\", \"cards\": [{\"front\": \"Hola\", \"back\": \"Hello\", \"example\": \"Hola, ¿cómo estás?\", \"example_translate\": \"Hello, how are you?\"}, {\"front\": \"Adiós\", \"back\": \"Goodbye\", \"example\": \"Adiós, hasta luego\", \"example_translate\": \"Goodbye, see you later\"}]}\n```";
    let deck = deck_from_reply(reply).expect("the reply holds a deck");
    assert_eq!(deck.deck_name, "Spanish Basics");
    assert_eq!(deck.cards.len(), 2);

    let names_reply = parse_json("{\"result\": [\"Basic\", \"Cloze\"], \"error\": null}").unwrap();
    let creation = model_setup_decision(&names_reply).unwrap();
    assert!(creation.is_some());

    let deck_reply = parse_json("{\"result\": 1234567890, \"error\": null}").unwrap();
    assert_eq!(create_deck_outcome(&deck_reply), None);

    let requests = insertion_requests(&deck.deck_name, &deck.cards);
    assert_eq!(requests.len(), 2);
    assert!(node_to_json(&requests[0]).contains("\"deckName\":\"Spanish Basics\""));
    assert!(node_to_json(&requests[0]).contains("\"Front\":\"Hola\""));
    assert!(node_to_json(&requests[1]).contains("\"Front\":\"Adiós\""));

    let note_reply = parse_json("{\"result\": 1234567890, \"error\": null}").unwrap();
    assert!(add_card_outcome(&note_reply).is_ok());
}
