//! Spaced-repetition flashcards for learning Japanese: the record store that
//! keeps decks, cards, texts, cached answers and settings, the scheduler that
//! decides when a card is due again, and the state of the screens built on them.

pub mod app;
pub mod components;
pub mod constants;
pub mod error;
pub mod models;
pub mod services;
pub mod srs;
pub mod store;
pub mod text;
pub mod theme;
pub mod time;
pub mod value;
pub mod views;
