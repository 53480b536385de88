//! The tokenizer: cuts a Japanese text into words.
//!
//! No dictionary is connected yet. The service cuts a text into its single
//! characters, each of which stands as its own reading and dictionary form.

use crate::models::word::{WordSegment, WordSegmentView};
use crate::text::{labelled, single};
use crate::value::ViewEq;
use vstd::prelude::*;
use vstd::std_specs::iter::IteratorSpec;

verus! {

/// Why the tokenizer failed.
#[derive(Debug, PartialEq, Eq)]
pub enum TokenizerError {
    InitializationError(String),
    ParseError(String),
}

/// What a [`TokenizerError`] holds.
pub enum TokenizerErrorView {
    InitializationError(Seq<char>),
    ParseError(Seq<char>),
}

impl TokenizerErrorView {
    /// The error in words.
    pub open spec fn text(self) -> Seq<char> {
        match self {
            TokenizerErrorView::InitializationError(message) => "Tokenizer initialization error: "@
                + message,
            TokenizerErrorView::ParseError(message) => "Parse error: "@ + message,
        }
    }
}

impl View for TokenizerError {
    type V = TokenizerErrorView;

    open spec fn view(&self) -> TokenizerErrorView {
        match self {
            TokenizerError::InitializationError(message) => TokenizerErrorView::InitializationError(
                message@,
            ),
            TokenizerError::ParseError(message) => TokenizerErrorView::ParseError(message@),
        }
    }
}

impl DeepView for TokenizerError {
    type V = TokenizerErrorView;

    open spec fn deep_view(&self) -> TokenizerErrorView {
        self@
    }
}

impl ViewEq for TokenizerError {
    fn duplicate(&self) -> (r: Self) {
        match self {
            TokenizerError::InitializationError(message) => TokenizerError::InitializationError(
                message.clone(),
            ),
            TokenizerError::ParseError(message) => TokenizerError::ParseError(message.clone()),
        }
    }

    fn same(&self, other: &Self) -> (b: bool) {
        match (self, other) {
            (TokenizerError::InitializationError(a), TokenizerError::InitializationError(b)) => *a
                == *b,
            (TokenizerError::ParseError(a), TokenizerError::ParseError(b)) => *a == *b,
            _ => false,
        }
    }
}

impl Clone for TokenizerError {
    fn clone(&self) -> (r: Self)
        ensures
            r@ == self@,
    {
        self.duplicate()
    }
}

impl TokenizerError {
    /// The error in words, as it is shown to the user.
    pub fn to_string(&self) -> (text: String)
        ensures
            text@ == self@.text(),
    {
        match self {
            TokenizerError::InitializationError(message) => labelled(
                "Tokenizer initialization error: ",
                message.as_str(),
            ),
            TokenizerError::ParseError(message) => labelled("Parse error: ", message.as_str()),
        }
    }
}

/// The segment that one character makes on its own: it is its own reading
/// and dictionary form, has no explanation, and is not selected.
pub open spec fn character_segment(c: char) -> WordSegmentView {
    WordSegmentView {
        surface: seq![c],
        reading: seq![c],
        base_form: seq![c],
        explanation: None,
        is_selected: false,
    }
}

/// The tokenizer.
#[derive(Debug, Clone, Copy, PartialEq, Eq, Structural)]
pub struct TokenizerService {}

impl TokenizerService {
    /// Starts the tokenizer.
    pub fn new() -> (r: Result<TokenizerService, TokenizerError>)
        ensures
            r is Ok,
    {
        Ok(TokenizerService {  })
    }

    /// Cuts a text into segments: one for each character, in order.
    pub fn tokenize(&self, text: &str) -> (r: Result<Vec<WordSegment>, TokenizerError>)
        ensures
            r matches Ok(segments) && segments.deep_view() == text@.map_values(
                |c: char| character_segment(c),
            ),
    {
        broadcast use vstd::string::group_string_axioms;

        let mut segments: Vec<WordSegment> = Vec::new();
        let mut rest = text.chars();
        let ghost mut n: int = 0;
        loop
            invariant
                0 <= n <= text@.len(),
                rest.remaining() == text@.skip(n),
                segments@.len() == n,
                forall|k: int| 0 <= k < n ==> segments@[k]@ == character_segment(text@[k]),
            decreases text@.len() - n,
        {
            match rest.next() {
                None => {
                    assert(segments.deep_view() =~= text@.map_values(
                        |c: char| character_segment(c),
                    ));
                    return Ok(segments);
                },
                Some(c) => {
                    assert(c == text@[n]);
                    segments.push(
                        WordSegment {
                            surface: single(c),
                            reading: single(c),
                            base_form: single(c),
                            explanation: None,
                            is_selected: false,
                        },
                    );
                    proof {
                        n = n + 1;
                    }
                },
            }
        }
    }

    /// The readings to print above a text: none yet.
    pub fn get_furigana(&self, text: &str) -> (r: Result<
        Vec<(String, Option<String>)>,
        TokenizerError,
    >)
        ensures
            r matches Ok(spans) && spans@.len() == 0,
    {
        Ok(Vec::new())
    }
}

impl Default for TokenizerService {
    fn default() -> TokenizerService {
        TokenizerService {  }
    }
}

} // verus!
