//! Words, example sentences and proficiency levels.

use crate::text::same_text;
use crate::value::{duplicate_all, duplicate_option, option_view, same_all, same_option, ViewEq};
use vstd::prelude::*;

verus! {

/// An example sentence in Japanese with its English translation.
#[derive(Debug, PartialEq, Eq)]
pub struct ExampleSentence {
    pub japanese: String,
    pub english: String,
}

/// What an [`ExampleSentence`] holds.
pub struct ExampleSentenceView {
    pub japanese: Seq<char>,
    pub english: Seq<char>,
}

impl View for ExampleSentence {
    type V = ExampleSentenceView;

    open spec fn view(&self) -> ExampleSentenceView {
        ExampleSentenceView { japanese: self.japanese@, english: self.english@ }
    }
}

impl DeepView for ExampleSentence {
    type V = ExampleSentenceView;

    open spec fn deep_view(&self) -> ExampleSentenceView {
        self@
    }
}

impl ViewEq for ExampleSentence {
    fn duplicate(&self) -> (r: Self) {
        ExampleSentence { japanese: self.japanese.clone(), english: self.english.clone() }
    }

    fn same(&self, other: &Self) -> (b: bool) {
        self.japanese == other.japanese && self.english == other.english
    }
}

impl Clone for ExampleSentence {
    fn clone(&self) -> (r: Self)
        ensures
            r@ == self@,
    {
        self.duplicate()
    }
}

/// The levels of the Japanese Language Proficiency Test, from N5 (beginner)
/// to N1 (advanced).
#[derive(Debug, Clone, Copy, PartialEq, Eq, Structural)]
pub enum JLPTLevel {
    N5,
    N4,
    N3,
    N2,
    N1,
    Unknown,
}

/// The upper-case form that `str::to_uppercase` gives a text.
pub uninterp spec fn uppercase(text: Seq<char>) -> Seq<char>;

/// Calls `str::to_uppercase`. The mapping is Unicode's and depends on the
/// text alone, so the result is named: it is `uppercase` of the text.
#[verifier::external_body]
fn to_upper(text: &str) -> (upper: String)
    ensures
        upper@ == uppercase(text@),
{
    text.to_uppercase()
}

impl JLPTLevel {
    /// The short name of a level; `?` for an unknown one.
    pub open spec fn label(self) -> Seq<char> {
        match self {
            JLPTLevel::N5 => "N5"@,
            JLPTLevel::N4 => "N4"@,
            JLPTLevel::N3 => "N3"@,
            JLPTLevel::N2 => "N2"@,
            JLPTLevel::N1 => "N1"@,
            JLPTLevel::Unknown => "?"@,
        }
    }

    /// The level that an upper-case name stands for; `Unknown` for any text
    /// that is not one of the five names.
    pub open spec fn named(upper: Seq<char>) -> JLPTLevel {
        if upper == "N5"@ {
            JLPTLevel::N5
        } else if upper == "N4"@ {
            JLPTLevel::N4
        } else if upper == "N3"@ {
            JLPTLevel::N3
        } else if upper == "N2"@ {
            JLPTLevel::N2
        } else if upper == "N1"@ {
            JLPTLevel::N1
        } else {
            JLPTLevel::Unknown
        }
    }

    pub fn as_str(&self) -> (name: &str)
        ensures
            name@ == self.label(),
    {
        match self {
            JLPTLevel::N5 => "N5",
            JLPTLevel::N4 => "N4",
            JLPTLevel::N3 => "N3",
            JLPTLevel::N2 => "N2",
            JLPTLevel::N1 => "N1",
            JLPTLevel::Unknown => "?",
        }
    }

    /// Reads a level from its name in upper case, such as `N5`.
    pub fn from_upper(upper: &str) -> (level: JLPTLevel)
        ensures
            level == Self::named(upper@),
    {
        if same_text(upper, "N5") {
            JLPTLevel::N5
        } else if same_text(upper, "N4") {
            JLPTLevel::N4
        } else if same_text(upper, "N3") {
            JLPTLevel::N3
        } else if same_text(upper, "N2") {
            JLPTLevel::N2
        } else if same_text(upper, "N1") {
            JLPTLevel::N1
        } else {
            JLPTLevel::Unknown
        }
    }

    /// Reads a level from its name in either case, such as `N5` or `n5`.
    pub fn from_str(s: &str) -> (level: JLPTLevel)
        ensures
            level == Self::named(uppercase(s@)),
    {
        let upper = to_upper(s);
        Self::from_upper(upper.as_str())
    }
}

/// What the tutor says about one word.
#[derive(Debug, PartialEq, Eq)]
pub struct WordExplanation {
    pub meaning: String,
    pub grammar_notes: Option<String>,
    pub examples: Vec<ExampleSentence>,
    pub jlpt_level: String,
}

/// What a [`WordExplanation`] holds.
pub struct WordExplanationView {
    pub meaning: Seq<char>,
    pub grammar_notes: Option<Seq<char>>,
    pub examples: Seq<ExampleSentenceView>,
    pub jlpt_level: Seq<char>,
}

impl View for WordExplanation {
    type V = WordExplanationView;

    open spec fn view(&self) -> WordExplanationView {
        WordExplanationView {
            meaning: self.meaning@,
            grammar_notes: option_view(self.grammar_notes),
            examples: self.examples.deep_view(),
            jlpt_level: self.jlpt_level@,
        }
    }
}

impl DeepView for WordExplanation {
    type V = WordExplanationView;

    open spec fn deep_view(&self) -> WordExplanationView {
        self@
    }
}

impl ViewEq for WordExplanation {
    fn duplicate(&self) -> (r: Self) {
        WordExplanation {
            meaning: self.meaning.clone(),
            grammar_notes: duplicate_option(&self.grammar_notes),
            examples: duplicate_all(&self.examples),
            jlpt_level: self.jlpt_level.clone(),
        }
    }

    fn same(&self, other: &Self) -> (b: bool) {
        self.meaning == other.meaning && same_option(&self.grammar_notes, &other.grammar_notes)
            && same_all(&self.examples, &other.examples) && self.jlpt_level == other.jlpt_level
    }
}

impl Clone for WordExplanation {
    fn clone(&self) -> (r: Self)
        ensures
            r@ == self@,
    {
        self.duplicate()
    }
}

/// One word of a text, as the tokenizer cut it out.
#[derive(Debug, PartialEq, Eq)]
pub struct WordSegment {
    /// The word as written, in kanji or kana.
    pub surface: String,
    /// Its reading in hiragana.
    pub reading: String,
    /// Its dictionary form.
    pub base_form: String,
    pub explanation: Option<WordExplanation>,
    pub is_selected: bool,
}

/// What a [`WordSegment`] holds.
pub struct WordSegmentView {
    pub surface: Seq<char>,
    pub reading: Seq<char>,
    pub base_form: Seq<char>,
    pub explanation: Option<WordExplanationView>,
    pub is_selected: bool,
}

impl View for WordSegment {
    type V = WordSegmentView;

    open spec fn view(&self) -> WordSegmentView {
        WordSegmentView {
            surface: self.surface@,
            reading: self.reading@,
            base_form: self.base_form@,
            explanation: option_view(self.explanation),
            is_selected: self.is_selected,
        }
    }
}

impl DeepView for WordSegment {
    type V = WordSegmentView;

    open spec fn deep_view(&self) -> WordSegmentView {
        self@
    }
}

impl ViewEq for WordSegment {
    fn duplicate(&self) -> (r: Self) {
        WordSegment {
            surface: self.surface.clone(),
            reading: self.reading.clone(),
            base_form: self.base_form.clone(),
            explanation: duplicate_option(&self.explanation),
            is_selected: self.is_selected,
        }
    }

    fn same(&self, other: &Self) -> (b: bool) {
        self.surface == other.surface && self.reading == other.reading && self.base_form
            == other.base_form && same_option(&self.explanation, &other.explanation)
            && self.is_selected == other.is_selected
    }
}

impl Clone for WordSegment {
    fn clone(&self) -> (r: Self)
        ensures
            r@ == self@,
    {
        self.duplicate()
    }
}

/// A stretch of text with the reading to print above it, if it has one.
#[derive(Debug, PartialEq, Eq)]
pub struct FuriganaSpan {
    pub text: String,
    pub reading: Option<String>,
}

/// What a [`FuriganaSpan`] holds.
pub struct FuriganaSpanView {
    pub text: Seq<char>,
    pub reading: Option<Seq<char>>,
}

impl View for FuriganaSpan {
    type V = FuriganaSpanView;

    open spec fn view(&self) -> FuriganaSpanView {
        FuriganaSpanView { text: self.text@, reading: option_view(self.reading) }
    }
}

impl DeepView for FuriganaSpan {
    type V = FuriganaSpanView;

    open spec fn deep_view(&self) -> FuriganaSpanView {
        self@
    }
}

impl ViewEq for FuriganaSpan {
    fn duplicate(&self) -> (r: Self) {
        FuriganaSpan { text: self.text.clone(), reading: duplicate_option(&self.reading) }
    }

    fn same(&self, other: &Self) -> (b: bool) {
        self.text == other.text && same_option(&self.reading, &other.reading)
    }
}

impl Clone for FuriganaSpan {
    fn clone(&self) -> (r: Self)
        ensures
            r@ == self@,
    {
        self.duplicate()
    }
}

} // verus!
