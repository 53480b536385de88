//! Flashcards and the review state that the scheduler keeps for each.

use crate::models::word::{ExampleSentence, ExampleSentenceView, JLPTLevel};
use crate::time::Timestamp;
use crate::value::{duplicate_all, same_all, ViewEq};
use vstd::prelude::*;

verus! {

/// The ease factor of a card that has never been reviewed, in hundredths: 2.5.
pub const INITIAL_EASE: u32 = 250;

/// The lowest ease factor a card can have, in hundredths: 1.3.
pub const MIN_EASE: u32 = 130;

/// A vocabulary card: a word, how it is read, and what it means.
#[derive(Debug, PartialEq, Eq)]
pub struct VocabularyCard {
    pub kanji: String,
    pub hiragana: String,
    pub romaji: String,
    pub meaning: String,
    pub wrong_answers: Vec<String>,
    pub example_sentences: Vec<ExampleSentence>,
    pub jlpt_level: JLPTLevel,
}

/// What a [`VocabularyCard`] holds.
pub struct VocabularyCardView {
    pub kanji: Seq<char>,
    pub hiragana: Seq<char>,
    pub romaji: Seq<char>,
    pub meaning: Seq<char>,
    pub wrong_answers: Seq<Seq<char>>,
    pub example_sentences: Seq<ExampleSentenceView>,
    pub jlpt_level: JLPTLevel,
}

impl View for VocabularyCard {
    type V = VocabularyCardView;

    open spec fn view(&self) -> VocabularyCardView {
        VocabularyCardView {
            kanji: self.kanji@,
            hiragana: self.hiragana@,
            romaji: self.romaji@,
            meaning: self.meaning@,
            wrong_answers: self.wrong_answers.deep_view(),
            example_sentences: self.example_sentences.deep_view(),
            jlpt_level: self.jlpt_level,
        }
    }
}

impl DeepView for VocabularyCard {
    type V = VocabularyCardView;

    open spec fn deep_view(&self) -> VocabularyCardView {
        self@
    }
}

impl ViewEq for VocabularyCard {
    fn duplicate(&self) -> (r: Self) {
        VocabularyCard {
            kanji: self.kanji.clone(),
            hiragana: self.hiragana.clone(),
            romaji: self.romaji.clone(),
            meaning: self.meaning.clone(),
            wrong_answers: duplicate_all(&self.wrong_answers),
            example_sentences: duplicate_all(&self.example_sentences),
            jlpt_level: self.jlpt_level,
        }
    }

    fn same(&self, other: &Self) -> (b: bool) {
        self.kanji == other.kanji && self.hiragana == other.hiragana && self.romaji == other.romaji
            && self.meaning == other.meaning && same_all(&self.wrong_answers, &other.wrong_answers)
            && same_all(&self.example_sentences, &other.example_sentences) && self.jlpt_level
            == other.jlpt_level
    }
}

impl Clone for VocabularyCard {
    fn clone(&self) -> (r: Self)
        ensures
            r@ == self@,
    {
        self.duplicate()
    }
}

/// A grammar card: a pattern, how it is read, and what it expresses.
#[derive(Debug, PartialEq, Eq)]
pub struct GrammarCard {
    pub pattern: String,
    pub pattern_reading: String,
    pub explanation: String,
    pub wrong_answers: Vec<String>,
    pub example_sentences: Vec<ExampleSentence>,
    pub jlpt_level: JLPTLevel,
}

/// What a [`GrammarCard`] holds.
pub struct GrammarCardView {
    pub pattern: Seq<char>,
    pub pattern_reading: Seq<char>,
    pub explanation: Seq<char>,
    pub wrong_answers: Seq<Seq<char>>,
    pub example_sentences: Seq<ExampleSentenceView>,
    pub jlpt_level: JLPTLevel,
}

impl View for GrammarCard {
    type V = GrammarCardView;

    open spec fn view(&self) -> GrammarCardView {
        GrammarCardView {
            pattern: self.pattern@,
            pattern_reading: self.pattern_reading@,
            explanation: self.explanation@,
            wrong_answers: self.wrong_answers.deep_view(),
            example_sentences: self.example_sentences.deep_view(),
            jlpt_level: self.jlpt_level,
        }
    }
}

impl DeepView for GrammarCard {
    type V = GrammarCardView;

    open spec fn deep_view(&self) -> GrammarCardView {
        self@
    }
}

impl ViewEq for GrammarCard {
    fn duplicate(&self) -> (r: Self) {
        GrammarCard {
            pattern: self.pattern.clone(),
            pattern_reading: self.pattern_reading.clone(),
            explanation: self.explanation.clone(),
            wrong_answers: duplicate_all(&self.wrong_answers),
            example_sentences: duplicate_all(&self.example_sentences),
            jlpt_level: self.jlpt_level,
        }
    }

    fn same(&self, other: &Self) -> (b: bool) {
        self.pattern == other.pattern && self.pattern_reading == other.pattern_reading
            && self.explanation == other.explanation && same_all(
            &self.wrong_answers,
            &other.wrong_answers,
        ) && same_all(&self.example_sentences, &other.example_sentences) && self.jlpt_level
            == other.jlpt_level
    }
}

impl Clone for GrammarCard {
    fn clone(&self) -> (r: Self)
        ensures
            r@ == self@,
    {
        self.duplicate()
    }
}

/// What a flashcard asks about: a word or a grammar pattern.
#[derive(Debug, PartialEq, Eq)]
pub enum CardType {
    Vocabulary(VocabularyCard),
    Grammar(GrammarCard),
}

/// What a [`CardType`] holds.
pub enum CardTypeView {
    Vocabulary(VocabularyCardView),
    Grammar(GrammarCardView),
}

impl CardTypeView {
    /// The answer that counts as right: the meaning of a word, the
    /// explanation of a pattern.
    pub open spec fn correct_answer(self) -> Seq<char> {
        match self {
            CardTypeView::Vocabulary(card) => card.meaning,
            CardTypeView::Grammar(card) => card.explanation,
        }
    }

    pub open spec fn wrong_answers(self) -> Seq<Seq<char>> {
        match self {
            CardTypeView::Vocabulary(card) => card.wrong_answers,
            CardTypeView::Grammar(card) => card.wrong_answers,
        }
    }

    pub open spec fn example_sentences(self) -> Seq<ExampleSentenceView> {
        match self {
            CardTypeView::Vocabulary(card) => card.example_sentences,
            CardTypeView::Grammar(card) => card.example_sentences,
        }
    }

    pub open spec fn jlpt_level(self) -> JLPTLevel {
        match self {
            CardTypeView::Vocabulary(card) => card.jlpt_level,
            CardTypeView::Grammar(card) => card.jlpt_level,
        }
    }
}

impl View for CardType {
    type V = CardTypeView;

    open spec fn view(&self) -> CardTypeView {
        match self {
            CardType::Vocabulary(card) => CardTypeView::Vocabulary(card@),
            CardType::Grammar(card) => CardTypeView::Grammar(card@),
        }
    }
}

impl DeepView for CardType {
    type V = CardTypeView;

    open spec fn deep_view(&self) -> CardTypeView {
        self@
    }
}

impl ViewEq for CardType {
    fn duplicate(&self) -> (r: Self) {
        match self {
            CardType::Vocabulary(card) => CardType::Vocabulary(card.duplicate()),
            CardType::Grammar(card) => CardType::Grammar(card.duplicate()),
        }
    }

    fn same(&self, other: &Self) -> (b: bool) {
        match (self, other) {
            (CardType::Vocabulary(a), CardType::Vocabulary(b)) => a.same(b),
            (CardType::Grammar(a), CardType::Grammar(b)) => a.same(b),
            _ => false,
        }
    }
}

impl Clone for CardType {
    fn clone(&self) -> (r: Self)
        ensures
            r@ == self@,
    {
        self.duplicate()
    }
}

impl CardType {
    /// The answer that counts as right.
    pub fn correct_answer(&self) -> (answer: &str)
        ensures
            answer@ == self@.correct_answer(),
    {
        match self {
            CardType::Vocabulary(card) => card.meaning.as_str(),
            CardType::Grammar(card) => card.explanation.as_str(),
        }
    }

    /// The answers offered beside the right one.
    pub fn wrong_answers(&self) -> (answers: &[String])
        ensures
            answers.deep_view() == self@.wrong_answers(),
    {
        match self {
            CardType::Vocabulary(card) => {
                let answers = card.wrong_answers.as_slice();
                assert(answers.deep_view() =~= card.wrong_answers.deep_view());
                answers
            },
            CardType::Grammar(card) => {
                let answers = card.wrong_answers.as_slice();
                assert(answers.deep_view() =~= card.wrong_answers.deep_view());
                answers
            },
        }
    }

    /// The sentences that show the word or pattern in use.
    pub fn example_sentences(&self) -> (sentences: &[ExampleSentence])
        ensures
            sentences.deep_view() == self@.example_sentences(),
    {
        match self {
            CardType::Vocabulary(card) => {
                let sentences = card.example_sentences.as_slice();
                assert(sentences.deep_view() =~= card.example_sentences.deep_view());
                sentences
            },
            CardType::Grammar(card) => {
                let sentences = card.example_sentences.as_slice();
                assert(sentences.deep_view() =~= card.example_sentences.deep_view());
                sentences
            },
        }
    }

    pub fn jlpt_level(&self) -> (level: JLPTLevel)
        ensures
            level == self@.jlpt_level(),
    {
        match self {
            CardType::Vocabulary(card) => card.jlpt_level,
            CardType::Grammar(card) => card.jlpt_level,
        }
    }
}

/// The review state of one card.
///
/// The ease factor is kept in hundredths, so that 250 stands for 2.5: every
/// step of the schedule moves it by a whole number of hundredths, and the
/// arithmetic stays exact.
#[derive(Debug, Clone, Copy, PartialEq, Eq, Structural)]
pub struct SRSData {
    /// Ease factor in hundredths; the scheduler never leaves it under
    /// [`MIN_EASE`].
    pub ease_factor: u32,
    /// Days between the last review and the next.
    pub interval: u32,
    /// Correct answers in a row.
    pub repetitions: u32,
    /// When the card is due again.
    pub next_review: Timestamp,
    /// Whether the card has never been reviewed.
    pub is_new: bool,
}

impl SRSData {
    /// The state of a card that was just made: never reviewed, due at once.
    pub open spec fn spec_initial(now: Timestamp) -> SRSData {
        SRSData {
            ease_factor: INITIAL_EASE,
            interval: 0,
            repetitions: 0,
            next_review: now,
            is_new: true,
        }
    }

    /// Whether the card is due at `now`: its next review is not later.
    pub open spec fn spec_is_due(self, now: Timestamp) -> bool {
        self.next_review.millis <= now.millis
    }

    /// Whether the state is one that a card can be in: its ease factor is
    /// not under the floor.
    pub open spec fn spec_is_valid(self) -> bool {
        self.ease_factor >= MIN_EASE
    }

    /// Makes a review state from its parts, and refuses one whose ease
    /// factor is under the floor.
    pub fn new(
        ease_factor: u32,
        interval: u32,
        repetitions: u32,
        next_review: Timestamp,
        is_new: bool,
    ) -> (state: Option<SRSData>)
        ensures
            state is Some <==> ease_factor >= MIN_EASE,
            state matches Some(made) ==> made == (SRSData {
                ease_factor,
                interval,
                repetitions,
                next_review,
                is_new,
            }) && made.spec_is_valid(),
    {
        if ease_factor >= MIN_EASE {
            Some(SRSData { ease_factor, interval, repetitions, next_review, is_new })
        } else {
            None
        }
    }

    /// Whether the ease factor is not under the floor.
    pub fn is_valid(&self) -> (b: bool)
        ensures
            b == self.spec_is_valid(),
    {
        self.ease_factor >= MIN_EASE
    }

    /// The state of a card that was just made: never reviewed, due at once.
    pub fn initial(now: Timestamp) -> (state: SRSData)
        ensures
            state == Self::spec_initial(now),
            state.spec_is_valid(),
    {
        SRSData {
            ease_factor: INITIAL_EASE,
            interval: 0,
            repetitions: 0,
            next_review: now,
            is_new: true,
        }
    }

    /// Whether the card is due at `now`.
    pub fn is_due(&self, now: Timestamp) -> (due: bool)
        ensures
            due == self.spec_is_due(now),
    {
        self.next_review.millis <= now.millis
    }
}

/// A flashcard as it is stored: what it asks, which deck it belongs to, and
/// where it stands in the schedule.
#[derive(Debug, PartialEq, Eq)]
pub struct FlashCard {
    /// Identifies the card; never changes once the card is stored.
    pub id: String,
    /// The deck the card belongs to.
    pub deck_id: String,
    pub card_type: CardType,
    pub srs_data: SRSData,
    pub created_at: Timestamp,
    pub updated_at: Timestamp,
}

/// What a [`FlashCard`] holds.
pub struct FlashCardView {
    pub id: Seq<char>,
    pub deck_id: Seq<char>,
    pub card_type: CardTypeView,
    pub srs_data: SRSData,
    pub created_at: Timestamp,
    pub updated_at: Timestamp,
}

impl FlashCardView {
    /// A card as it is first stored at `now`.
    pub open spec fn fresh(
        id: Seq<char>,
        deck_id: Seq<char>,
        card_type: CardTypeView,
        now: Timestamp,
    ) -> FlashCardView {
        FlashCardView {
            id,
            deck_id,
            card_type,
            srs_data: SRSData::spec_initial(now),
            created_at: now,
            updated_at: now,
        }
    }

    /// The same card with a new review state, touched at `now`.
    pub open spec fn with_srs(self, srs_data: SRSData, now: Timestamp) -> FlashCardView {
        FlashCardView { srs_data, updated_at: now, ..self }
    }
}

impl View for FlashCard {
    type V = FlashCardView;

    open spec fn view(&self) -> FlashCardView {
        FlashCardView {
            id: self.id@,
            deck_id: self.deck_id@,
            card_type: self.card_type@,
            srs_data: self.srs_data,
            created_at: self.created_at,
            updated_at: self.updated_at,
        }
    }
}

impl DeepView for FlashCard {
    type V = FlashCardView;

    open spec fn deep_view(&self) -> FlashCardView {
        self@
    }
}

impl ViewEq for FlashCard {
    fn duplicate(&self) -> (r: Self) {
        FlashCard {
            id: self.id.clone(),
            deck_id: self.deck_id.clone(),
            card_type: self.card_type.duplicate(),
            srs_data: self.srs_data,
            created_at: self.created_at,
            updated_at: self.updated_at,
        }
    }

    fn same(&self, other: &Self) -> (b: bool) {
        self.id == other.id && self.deck_id == other.deck_id && self.card_type.same(
            &other.card_type,
        ) && self.srs_data == other.srs_data && self.created_at == other.created_at
            && self.updated_at == other.updated_at
    }
}

impl Clone for FlashCard {
    fn clone(&self) -> (r: Self)
        ensures
            r@ == self@,
    {
        self.duplicate()
    }
}

impl FlashCard {
    /// A card as it is first stored: never reviewed, due at `now`, created
    /// and last touched at `now`.
    pub fn fresh(id: String, deck_id: String, card_type: CardType, now: Timestamp) -> (card:
        FlashCard)
        ensures
            card@ == FlashCardView::fresh(id@, deck_id@, card_type@, now),
    {
        FlashCard {
            id,
            deck_id,
            card_type,
            srs_data: SRSData::initial(now),
            created_at: now,
            updated_at: now,
        }
    }

    /// A copy of the card with a new review state, touched at `now`. The
    /// identifier, the deck, the contents and the creation time stay.
    pub fn with_srs(&self, srs_data: SRSData, now: Timestamp) -> (card: FlashCard)
        ensures
            card@ == self@.with_srs(srs_data, now),
    {
        FlashCard {
            id: self.id.clone(),
            deck_id: self.deck_id.clone(),
            card_type: self.card_type.duplicate(),
            srs_data,
            created_at: self.created_at,
            updated_at: now,
        }
    }
}

} // verus!
