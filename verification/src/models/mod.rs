//! The data the application works on: words and sentences, flashcards, decks
//! and saved texts.

pub mod deck;
pub mod flashcard;
pub mod word;
