//! The record store: every deck, card, text, cached answer and setting, each
//! under its own key, changed only through transactions that take effect as a
//! whole or not at all.

pub mod contents;
pub mod error;
pub mod record;
pub mod schema;
pub mod transaction;
