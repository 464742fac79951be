pub mod anki_adapter;
pub mod constant;
pub mod json;
pub mod langchain;
pub mod prompt;

pub use langchain::{Flashcard, FlashcardResponse};
