//! The services that the screens call: the database, the tutor and the
//! tokenizer.

pub mod database;
pub mod llm;
pub mod tokenizer;
