//! The tutor: explanations of words and answers to questions about a text.
//!
//! No language model is connected yet. The service answers with fixed
//! sentences built from what it was asked, so that the screens can be used
//! and the answers can be cached.

use crate::models::word::{ExampleSentence, ExampleSentenceView, WordExplanation, WordExplanationView};
use crate::text::{enclosed, labelled};
use crate::value::ViewEq;
use vstd::prelude::*;
use vstd::string::StringExecFns;

verus! {

/// Why the tutor failed.
#[derive(Debug, PartialEq, Eq)]
pub enum LLMError {
    /// No API key was set.
    NotConfigured,
    NetworkError(String),
    ApiError(String),
    ParseError(String),
}

/// What an [`LLMError`] holds.
pub enum LLMErrorView {
    NotConfigured,
    NetworkError(Seq<char>),
    ApiError(Seq<char>),
    ParseError(Seq<char>),
}

impl LLMErrorView {
    /// The error in words.
    pub open spec fn text(self) -> Seq<char> {
        match self {
            LLMErrorView::NotConfigured =>
                "LLM service not configured. Please add your API key in settings."@,
            LLMErrorView::NetworkError(message) => "Network error: "@ + message,
            LLMErrorView::ApiError(message) => "API error: "@ + message,
            LLMErrorView::ParseError(message) => "Parse error: "@ + message,
        }
    }
}

impl View for LLMError {
    type V = LLMErrorView;

    open spec fn view(&self) -> LLMErrorView {
        match self {
            LLMError::NotConfigured => LLMErrorView::NotConfigured,
            LLMError::NetworkError(message) => LLMErrorView::NetworkError(message@),
            LLMError::ApiError(message) => LLMErrorView::ApiError(message@),
            LLMError::ParseError(message) => LLMErrorView::ParseError(message@),
        }
    }
}

impl DeepView for LLMError {
    type V = LLMErrorView;

    open spec fn deep_view(&self) -> LLMErrorView {
        self@
    }
}

impl ViewEq for LLMError {
    fn duplicate(&self) -> (r: Self) {
        match self {
            LLMError::NotConfigured => LLMError::NotConfigured,
            LLMError::NetworkError(message) => LLMError::NetworkError(message.clone()),
            LLMError::ApiError(message) => LLMError::ApiError(message.clone()),
            LLMError::ParseError(message) => LLMError::ParseError(message.clone()),
        }
    }

    fn same(&self, other: &Self) -> (b: bool) {
        match (self, other) {
            (LLMError::NotConfigured, LLMError::NotConfigured) => true,
            (LLMError::NetworkError(a), LLMError::NetworkError(b)) => *a == *b,
            (LLMError::ApiError(a), LLMError::ApiError(b)) => *a == *b,
            (LLMError::ParseError(a), LLMError::ParseError(b)) => *a == *b,
            _ => false,
        }
    }
}

impl Clone for LLMError {
    fn clone(&self) -> (r: Self)
        ensures
            r@ == self@,
    {
        self.duplicate()
    }
}

impl LLMError {
    /// The error in words, as it is shown to the user.
    pub fn to_string(&self) -> (text: String)
        ensures
            text@ == self@.text(),
    {
        match self {
            LLMError::NotConfigured => String::from_str(
                "LLM service not configured. Please add your API key in settings.",
            ),
            LLMError::NetworkError(message) => labelled("Network error: ", message.as_str()),
            LLMError::ApiError(message) => labelled("API error: ", message.as_str()),
            LLMError::ParseError(message) => labelled("Parse error: ", message.as_str()),
        }
    }
}

/// The explanation that stands in for the tutor's: a sentence for the
/// meaning, one for the grammar of the dictionary form, and one example.
pub open spec fn placeholder_explanation(surface: Seq<char>, base_form: Seq<char>)
    -> WordExplanationView {
    WordExplanationView {
        meaning: "Meaning of '"@ + surface + "'"@,
        grammar_notes: Some("Grammar notes for '"@ + base_form + "'"@),
        examples: seq![
            ExampleSentenceView {
                japanese: surface + "の例文"@,
                english: "Example sentence with "@ + surface,
            },
        ],
        jlpt_level: "N5"@,
    }
}

/// The answer that stands in for the tutor's.
pub open spec fn placeholder_answer(question: Seq<char>, context: Seq<char>) -> Seq<char> {
    "Answer to: '"@ + question + "' (with context: "@ + context + ")"@
}

/// The tutor.
pub struct LLMService {
    api_key: Option<String>,
    user_context: String,
}

impl LLMService {
    /// The API key, if one was set.
    pub closed spec fn api_key(&self) -> Option<Seq<char>> {
        match self.api_key {
            Some(key) => Some(key@),
            None => None,
        }
    }

    /// What the tutor was told about the user.
    pub closed spec fn user_context(&self) -> Seq<char> {
        self.user_context@
    }

    /// A tutor with the given API key, if any, and the given description of
    /// the user.
    pub fn new(api_key: Option<String>, user_context: String) -> (service: LLMService)
        ensures
            service.api_key() == (match api_key {
                Some(key) => Some(key@),
                None => None,
            }),
            service.user_context() == user_context@,
    {
        LLMService { api_key, user_context }
    }

    /// Explains a word, given as it is written, as it is read, and in its
    /// dictionary form.
    pub fn explain_word(&self, surface: &str, reading: &str, base_form: &str) -> (r: Result<
        WordExplanation,
        LLMError,
    >)
        ensures
            r matches Ok(explanation) && explanation@ == placeholder_explanation(
                surface@,
                base_form@,
            ),
    {
        let mut examples: Vec<ExampleSentence> = Vec::new();
        examples.push(
            ExampleSentence {
                japanese: labelled(surface, "の例文"),
                english: labelled("Example sentence with ", surface),
            },
        );
        let explanation = WordExplanation {
            meaning: enclosed("Meaning of '", surface, "'"),
            grammar_notes: Some(enclosed("Grammar notes for '", base_form, "'")),
            examples,
            jlpt_level: String::from_str("N5"),
        };
        assert(explanation.examples.deep_view() =~= placeholder_explanation(
            surface@,
            base_form@,
        ).examples);
        Ok(explanation)
    }

    /// Answers a question about the text that is being read.
    pub fn answer_question(&self, question: &str, context: &str) -> (r: Result<String, LLMError>)
        ensures
            r matches Ok(answer) && answer@ == placeholder_answer(question@, context@),
    {
        let mut answer = enclosed("Answer to: '", question, "' (with context: ");
        answer.append(context);
        answer.append(")");
        Ok(answer)
    }

    /// Whether an API key was set.
    pub fn is_configured(&self) -> (b: bool)
        ensures
            b == self.api_key() is Some,
    {
        self.api_key.is_some()
    }

    /// Sets the API key.
    pub fn set_api_key(&mut self, api_key: String)
        ensures
            final(self).api_key() == Some(api_key@),
            final(self).user_context() == old(self).user_context(),
    {
        self.api_key = Some(api_key);
    }

    /// Tells the tutor about the user, so that it can fit its answers.
    pub fn set_user_context(&mut self, context: String)
        ensures
            final(self).user_context() == context@,
            final(self).api_key() == old(self).api_key(),
    {
        self.user_context = context;
    }
}

} // verus!
