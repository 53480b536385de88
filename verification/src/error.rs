//! The error that the screens show, whichever service it came from.

use crate::services::database::DatabaseError;
use crate::services::llm::LLMError;
use crate::services::tokenizer::TokenizerError;
use crate::text::labelled;
use crate::value::ViewEq;
use vstd::prelude::*;
use vstd::std_specs::convert::FromSpecImpl;

verus! {

/// The result of an operation of the application.
pub type AppResult<T> = Result<T, AppError>;

/// An error of the application, by the part it came from.
#[derive(Debug, PartialEq, Eq)]
pub enum AppError {
    /// The tutor failed.
    LLM(String),
    /// The database failed.
    Database(String),
    /// The tokenizer failed.
    Tokenizer(String),
    /// The configuration is wrong.
    Config(String),
    /// The user's input was refused.
    Validation(String),
    /// The network failed.
    Network(String),
    /// Anything else.
    Other(String),
}

/// What an [`AppError`] holds.
pub enum AppErrorView {
    LLM(Seq<char>),
    Database(Seq<char>),
    Tokenizer(Seq<char>),
    Config(Seq<char>),
    Validation(Seq<char>),
    Network(Seq<char>),
    Other(Seq<char>),
}

impl AppErrorView {
    /// The error in words.
    pub open spec fn text(self) -> Seq<char> {
        match self {
            AppErrorView::LLM(message) => "LLM Error: "@ + message,
            AppErrorView::Database(message) => "Database Error: "@ + message,
            AppErrorView::Tokenizer(message) => "Tokenizer Error: "@ + message,
            AppErrorView::Config(message) => "Configuration Error: "@ + message,
            AppErrorView::Validation(message) => "Validation Error: "@ + message,
            AppErrorView::Network(message) => "Network Error: "@ + message,
            AppErrorView::Other(message) => "Error: "@ + message,
        }
    }
}

impl View for AppError {
    type V = AppErrorView;

    open spec fn view(&self) -> AppErrorView {
        match self {
            AppError::LLM(message) => AppErrorView::LLM(message@),
            AppError::Database(message) => AppErrorView::Database(message@),
            AppError::Tokenizer(message) => AppErrorView::Tokenizer(message@),
            AppError::Config(message) => AppErrorView::Config(message@),
            AppError::Validation(message) => AppErrorView::Validation(message@),
            AppError::Network(message) => AppErrorView::Network(message@),
            AppError::Other(message) => AppErrorView::Other(message@),
        }
    }
}

impl DeepView for AppError {
    type V = AppErrorView;

    open spec fn deep_view(&self) -> AppErrorView {
        self@
    }
}

impl ViewEq for AppError {
    fn duplicate(&self) -> (r: Self) {
        match self {
            AppError::LLM(message) => AppError::LLM(message.clone()),
            AppError::Database(message) => AppError::Database(message.clone()),
            AppError::Tokenizer(message) => AppError::Tokenizer(message.clone()),
            AppError::Config(message) => AppError::Config(message.clone()),
            AppError::Validation(message) => AppError::Validation(message.clone()),
            AppError::Network(message) => AppError::Network(message.clone()),
            AppError::Other(message) => AppError::Other(message.clone()),
        }
    }

    fn same(&self, other: &Self) -> (b: bool) {
        match (self, other) {
            (AppError::LLM(a), AppError::LLM(b)) => *a == *b,
            (AppError::Database(a), AppError::Database(b)) => *a == *b,
            (AppError::Tokenizer(a), AppError::Tokenizer(b)) => *a == *b,
            (AppError::Config(a), AppError::Config(b)) => *a == *b,
            (AppError::Validation(a), AppError::Validation(b)) => *a == *b,
            (AppError::Network(a), AppError::Network(b)) => *a == *b,
            (AppError::Other(a), AppError::Other(b)) => *a == *b,
            _ => false,
        }
    }
}

impl Clone for AppError {
    fn clone(&self) -> (r: Self)
        ensures
            r@ == self@,
    {
        self.duplicate()
    }
}

impl AppError {
    /// The error in words, as it is shown to the user.
    pub fn to_string(&self) -> (text: String)
        ensures
            text@ == self@.text(),
    {
        match self {
            AppError::LLM(message) => labelled("LLM Error: ", message.as_str()),
            AppError::Database(message) => labelled("Database Error: ", message.as_str()),
            AppError::Tokenizer(message) => labelled("Tokenizer Error: ", message.as_str()),
            AppError::Config(message) => labelled("Configuration Error: ", message.as_str()),
            AppError::Validation(message) => labelled("Validation Error: ", message.as_str()),
            AppError::Network(message) => labelled("Network Error: ", message.as_str()),
            AppError::Other(message) => labelled("Error: ", message.as_str()),
        }
    }
}

impl From<DatabaseError> for AppError {
    /// An error of the database, with its text as the message.
    fn from(err: DatabaseError) -> (e: AppError)
        ensures
            e@ == AppErrorView::Database(err@.text()),
    {
        AppError::Database(err.to_string())
    }
}

impl FromSpecImpl<DatabaseError> for AppError {
    open spec fn obeys_from_spec() -> bool {
        false
    }

    open spec fn from_spec(err: DatabaseError) -> AppError {
        choose|e: AppError| e@ == AppErrorView::Database(err@.text())
    }
}

impl From<LLMError> for AppError {
    /// An error of the tutor, with its text as the message.
    fn from(err: LLMError) -> (e: AppError)
        ensures
            e@ == AppErrorView::LLM(err@.text()),
    {
        AppError::LLM(err.to_string())
    }
}

impl FromSpecImpl<LLMError> for AppError {
    open spec fn obeys_from_spec() -> bool {
        false
    }

    open spec fn from_spec(err: LLMError) -> AppError {
        choose|e: AppError| e@ == AppErrorView::LLM(err@.text())
    }
}

impl From<TokenizerError> for AppError {
    /// An error of the tokenizer, with its text as the message.
    fn from(err: TokenizerError) -> (e: AppError)
        ensures
            e@ == AppErrorView::Tokenizer(err@.text()),
    {
        AppError::Tokenizer(err.to_string())
    }
}

impl FromSpecImpl<TokenizerError> for AppError {
    open spec fn obeys_from_spec() -> bool {
        false
    }

    open spec fn from_spec(err: TokenizerError) -> AppError {
        choose|e: AppError| e@ == AppErrorView::Tokenizer(err@.text())
    }
}

} // verus!
