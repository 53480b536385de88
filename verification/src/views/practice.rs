//! The practice screen: one flashcard at a time, a question with several
//! answers, and the score so far.
//!
//! The first answer of a card is the right one; the screen that draws the
//! answers decides where to put it.

use crate::components::quiz_state::QuizState;
use crate::models::flashcard::{
    CardType, CardTypeView, GrammarCard, GrammarCardView, VocabularyCard, VocabularyCardView,
};
use crate::models::word::{ExampleSentence, ExampleSentenceView, JLPTLevel};
use vstd::prelude::*;
use vstd::string::StringExecFns;

verus! {

/// What the user can do on the practice screen.
#[derive(Debug, Clone, Copy, PartialEq, Eq, Structural)]
pub enum Message {
    BackToHome,
    ToggleRomaji,
    ToggleExamples,
    SelectAnswer(usize),
    NextCard,
    PreviousCard,
}

/// What the practice screen holds.
pub struct PracticeState {
    pub cards: Seq<CardTypeView>,
    pub current_index: usize,
    pub show_romaji: bool,
    pub show_examples: bool,
    pub quiz_state: QuizState,
    pub score: usize,
    pub total_answered: usize,
}

impl PracticeState {
    /// The screen as it opens on `cards`: the first card, its question open,
    /// nothing answered.
    pub open spec fn opening(cards: Seq<CardTypeView>) -> PracticeState {
        PracticeState {
            cards,
            current_index: 0,
            show_romaji: false,
            show_examples: false,
            quiz_state: QuizState::Question,
            score: 0,
            total_answered: 0,
        }
    }

    /// The state of the question after the answer at `selected` was chosen:
    /// the first answer is the right one.
    pub open spec fn judged(selected: usize) -> QuizState {
        if selected == 0 {
            QuizState::AnswerCorrect
        } else {
            QuizState::AnswerIncorrect { selected, correct: 0 }
        }
    }

    /// Whether there is a card after the current one.
    pub open spec fn has_next(self) -> bool {
        self.current_index + 1 < self.cards.len()
    }

    /// Whether there is a card before the current one.
    pub open spec fn has_previous(self) -> bool {
        self.current_index > 0
    }

    /// The share of right answers among all answers, in percent, rounded
    /// down; zero before the first answer.
    pub open spec fn percent(self) -> int {
        if self.total_answered > 0 {
            (self.score * 100) / (self.total_answered as int)
        } else {
            0
        }
    }

    /// The screen after a message.
    ///
    /// An answer counts only while the question is open: it closes the
    /// question, and it is counted unless the count is full. Moving to
    /// another card opens its question and hides the examples; at either end
    /// of the deck there is no further card to move to.
    pub open spec fn after(self, message: Message) -> PracticeState {
        match message {
            Message::BackToHome => self,
            Message::ToggleRomaji => PracticeState { show_romaji: !self.show_romaji, ..self },
            Message::ToggleExamples => PracticeState {
                show_examples: !self.show_examples,
                ..self
            },
            Message::SelectAnswer(selected) => if self.quiz_state is Question {
                if self.total_answered < usize::MAX {
                    PracticeState {
                        quiz_state: Self::judged(selected),
                        score: if selected == 0 {
                            (self.score + 1) as usize
                        } else {
                            self.score
                        },
                        total_answered: (self.total_answered + 1) as usize,
                        ..self
                    }
                } else {
                    PracticeState { quiz_state: Self::judged(selected), ..self }
                }
            } else {
                self
            },
            Message::NextCard => if self.has_next() {
                PracticeState {
                    current_index: (self.current_index + 1) as usize,
                    quiz_state: QuizState::Question,
                    show_examples: false,
                    ..self
                }
            } else {
                self
            },
            Message::PreviousCard => if self.has_previous() {
                PracticeState {
                    current_index: (self.current_index - 1) as usize,
                    quiz_state: QuizState::Question,
                    show_examples: false,
                    ..self
                }
            } else {
                self
            },
        }
    }

    /// The current card lies in the deck, and no more answers were right
    /// than were given.
    pub open spec fn consistent(self) -> bool {
        &&& self.cards.len() == 0 ==> self.current_index == 0
        &&& self.cards.len() > 0 ==> self.current_index < self.cards.len()
        &&& self.score <= self.total_answered
    }
}

/// No message takes a consistent screen to one that is not: the current card
/// stays in the deck and the score stays within the answers given.
pub proof fn lemma_practice_stays_consistent(state: PracticeState, message: Message)
    requires
        state.consistent(),
    ensures
        state.after(message).consistent(),
        state.after(message).cards == state.cards,
{
}

/// The cards that the screen shows before the user has made any.
pub open spec fn sample_cards() -> Seq<CardTypeView> {
    seq![
        CardTypeView::Vocabulary(
            VocabularyCardView {
                kanji: "食べる"@,
                hiragana: "たべる"@,
                romaji: "taberu"@,
                meaning: "to eat"@,
                wrong_answers: seq!["to drink"@, "to cook"@, "to buy"@],
                example_sentences: seq![
                    ExampleSentenceView {
                        japanese: "朝ごはんを食べます。"@,
                        english: "I eat breakfast."@,
                    },
                    ExampleSentenceView {
                        japanese: "寿司を食べたいです。"@,
                        english: "I want to eat sushi."@,
                    },
                ],
                jlpt_level: JLPTLevel::N5,
            },
        ),
        CardTypeView::Grammar(
            GrammarCardView {
                pattern: "〜てもいい"@,
                pattern_reading: "てもいい"@,
                explanation: "Permission: 'it's okay to...'"@,
                wrong_answers: seq![
                    "Obligation: 'must do'"@,
                    "Prohibition: 'must not'"@,
                    "Suggestion: 'how about'"@,
                ],
                example_sentences: seq![
                    ExampleSentenceView {
                        japanese: "ここで写真を撮ってもいいですか。"@,
                        english: "Is it okay to take pictures here?"@,
                    },
                    ExampleSentenceView {
                        japanese: "窓を開けてもいいですよ。"@,
                        english: "It's okay to open the window."@,
                    },
                ],
                jlpt_level: JLPTLevel::N4,
            },
        ),
        CardTypeView::Vocabulary(
            VocabularyCardView {
                kanji: "勉強"@,
                hiragana: "べんきょう"@,
                romaji: "benkyou"@,
                meaning: "study"@,
                wrong_answers: seq!["work"@, "homework"@, "school"@],
                example_sentences: seq![
                    ExampleSentenceView {
                        japanese: "毎日日本語を勉強しています。"@,
                        english: "I study Japanese every day."@,
                    },
                ],
                jlpt_level: JLPTLevel::N5,
            },
        ),
    ]
}

/// Three texts as a vector.
fn three(a: &str, b: &str, c: &str) -> (r: Vec<String>)
    ensures
        r.deep_view() == seq![a@, b@, c@],
{
    let mut out: Vec<String> = Vec::new();
    out.push(String::from_str(a));
    out.push(String::from_str(b));
    out.push(String::from_str(c));
    assert(out.deep_view() =~= seq![a@, b@, c@]);
    out
}

/// A sentence and its translation.
fn sentence(japanese: &str, english: &str) -> (r: ExampleSentence)
    ensures
        r@ == (ExampleSentenceView { japanese: japanese@, english: english@ }),
{
    ExampleSentence { japanese: String::from_str(japanese), english: String::from_str(english) }
}

/// One sentence as a vector.
fn one_sentence(a: ExampleSentence) -> (r: Vec<ExampleSentence>)
    ensures
        r.deep_view() == seq![a@],
{
    let mut out: Vec<ExampleSentence> = Vec::new();
    out.push(a);
    assert(out.deep_view() =~= seq![a@]);
    out
}

/// Two sentences as a vector.
fn two_sentences(a: ExampleSentence, b: ExampleSentence) -> (r: Vec<ExampleSentence>)
    ensures
        r.deep_view() == seq![a@, b@],
{
    let mut out: Vec<ExampleSentence> = Vec::new();
    out.push(a);
    out.push(b);
    assert(out.deep_view() =~= seq![a@, b@]);
    out
}

/// Builds the cards that the screen shows before the user has made any.
pub fn build_sample_cards() -> (cards: Vec<CardType>)
    ensures
        cards.deep_view() == sample_cards(),
{
    let eat = CardType::Vocabulary(
        VocabularyCard {
            kanji: String::from_str("食べる"),
            hiragana: String::from_str("たべる"),
            romaji: String::from_str("taberu"),
            meaning: String::from_str("to eat"),
            wrong_answers: three("to drink", "to cook", "to buy"),
            example_sentences: two_sentences(
                sentence("朝ごはんを食べます。", "I eat breakfast."),
                sentence("寿司を食べたいです。", "I want to eat sushi."),
            ),
            jlpt_level: JLPTLevel::N5,
        },
    );
    let may = CardType::Grammar(
        GrammarCard {
            pattern: String::from_str("〜てもいい"),
            pattern_reading: String::from_str("てもいい"),
            explanation: String::from_str("Permission: 'it's okay to...'"),
            wrong_answers: three(
                "Obligation: 'must do'",
                "Prohibition: 'must not'",
                "Suggestion: 'how about'",
            ),
            example_sentences: two_sentences(
                sentence("ここで写真を撮ってもいいですか。", "Is it okay to take pictures here?"),
                sentence("窓を開けてもいいですよ。", "It's okay to open the window."),
            ),
            jlpt_level: JLPTLevel::N4,
        },
    );
    let study = CardType::Vocabulary(
        VocabularyCard {
            kanji: String::from_str("勉強"),
            hiragana: String::from_str("べんきょう"),
            romaji: String::from_str("benkyou"),
            meaning: String::from_str("study"),
            wrong_answers: three("work", "homework", "school"),
            example_sentences: one_sentence(
                sentence("毎日日本語を勉強しています。", "I study Japanese every day."),
            ),
            jlpt_level: JLPTLevel::N5,
        },
    );
    let mut cards: Vec<CardType> = Vec::new();
    let ghost first = eat@;
    let ghost second = may@;
    let ghost third = study@;
    cards.push(eat);
    cards.push(may);
    cards.push(study);
    assert(cards.deep_view() =~= seq![first, second, third]);
    cards
}

/// The practice screen.
#[derive(Debug, PartialEq, Eq)]
pub struct PracticeView {
    cards: Vec<CardType>,
    current_index: usize,
    show_romaji: bool,
    show_examples: bool,
    quiz_state: QuizState,
    score: usize,
    total_answered: usize,
}

impl View for PracticeView {
    type V = PracticeState;

    closed spec fn view(&self) -> PracticeState {
        PracticeState {
            cards: self.cards.deep_view(),
            current_index: self.current_index,
            show_romaji: self.show_romaji,
            show_examples: self.show_examples,
            quiz_state: self.quiz_state,
            score: self.score,
            total_answered: self.total_answered,
        }
    }
}

impl Default for PracticeView {
    /// The screen as it opens on the sample cards.
    fn default() -> (view: PracticeView)
        ensures
            view@ == PracticeState::opening(sample_cards()),
    {
        PracticeView::new(build_sample_cards())
    }
}

impl PracticeView {
    #[verifier::type_invariant]
    spec fn well_formed(self) -> bool {
        self@.consistent()
    }

    /// The screen as it opens on `cards`.
    pub fn new(cards: Vec<CardType>) -> (view: PracticeView)
        ensures
            view@ == PracticeState::opening(cards.deep_view()),
    {
        PracticeView {
            cards,
            current_index: 0,
            show_romaji: false,
            show_examples: false,
            quiz_state: QuizState::Question,
            score: 0,
            total_answered: 0,
        }
    }

    /// Takes a message from the user.
    pub fn update(&mut self, message: Message)
        ensures
            final(self)@ == old(self)@.after(message),
            final(self)@.consistent(),
    {
        proof {
            use_type_invariant(&*self);
            assert(self.cards.deep_view().len() == self.cards.len());
        }
        match message {
            Message::BackToHome => {},
            Message::ToggleRomaji => {
                self.show_romaji = !self.show_romaji;
            },
            Message::ToggleExamples => {
                self.show_examples = !self.show_examples;
            },
            Message::SelectAnswer(selected) => {
                if self.quiz_state == QuizState::Question {
                    let counted: bool = self.total_answered < usize::MAX;
                    if counted {
                        self.total_answered = self.total_answered + 1;
                    }
                    if selected == 0 {
                        self.quiz_state = QuizState::AnswerCorrect;
                        if counted {
                            self.score = self.score + 1;
                        }
                    } else {
                        self.quiz_state = QuizState::AnswerIncorrect { selected, correct: 0 };
                    }
                }
            },
            Message::NextCard => {
                if self.current_index < usize::MAX && self.current_index + 1 < self.cards.len() {
                    self.current_index = self.current_index + 1;
                    self.quiz_state = QuizState::Question;
                    self.show_examples = false;
                }
            },
            Message::PreviousCard => {
                if self.current_index > 0 {
                    self.current_index = self.current_index - 1;
                    self.quiz_state = QuizState::Question;
                    self.show_examples = false;
                }
            },
        }
    }

    /// The cards of the deck.
    pub fn cards(&self) -> (cards: &Vec<CardType>)
        ensures
            cards.deep_view() == self@.cards,
    {
        &self.cards
    }

    /// The card on the screen; `None` where the deck is empty.
    pub fn current_card(&self) -> (card: Option<&CardType>)
        ensures
            card is Some <==> self@.cards.len() > 0,
            card matches Some(shown) ==> shown@ == self@.cards[self@.current_index as int],
    {
        proof {
            use_type_invariant(self);
        }
        if self.cards.len() == 0 {
            None
        } else {
            Some(&self.cards[self.current_index])
        }
    }

    /// The position of the card on the screen, counted from zero.
    pub fn current_index(&self) -> (index: usize)
        ensures
            index == self@.current_index,
            self@.cards.len() > 0 ==> index < self@.cards.len(),
    {
        proof {
            use_type_invariant(self);
        }
        self.current_index
    }

    pub fn show_romaji(&self) -> (shown: bool)
        ensures
            shown == self@.show_romaji,
    {
        self.show_romaji
    }

    pub fn show_examples(&self) -> (shown: bool)
        ensures
            shown == self@.show_examples,
    {
        self.show_examples
    }

    pub fn quiz_state(&self) -> (state: QuizState)
        ensures
            state == self@.quiz_state,
    {
        self.quiz_state
    }

    /// How many answers were right.
    pub fn score(&self) -> (score: usize)
        ensures
            score == self@.score,
            score <= self@.total_answered,
    {
        proof {
            use_type_invariant(self);
        }
        self.score
    }

    /// How many answers were given.
    pub fn total_answered(&self) -> (total: usize)
        ensures
            total == self@.total_answered,
    {
        self.total_answered
    }

    /// The share of right answers in percent, rounded down; zero before the
    /// first answer.
    pub fn score_percent(&self) -> (percent: usize)
        ensures
            percent == self@.percent(),
            percent <= 100,
    {
        proof {
            use_type_invariant(self);
        }
        if self.total_answered > 0 {
            let right: u128 = self.score as u128;
            let all: u128 = self.total_answered as u128;
            assert((right * 100) / (all as int) <= 100) by (nonlinear_arith)
                requires
                    0 <= right <= all,
                    all > 0,
            ;
            (right * 100 / all) as usize
        } else {
            0
        }
    }

    /// Whether the user can move on: there is a further card, and the
    /// question of this one was answered.
    pub fn can_go_next(&self) -> (b: bool)
        ensures
            b == (self@.has_next() && !(self@.quiz_state is Question)),
    {
        assert(self.cards.deep_view().len() == self.cards.len());
        self.current_index < usize::MAX && self.current_index + 1 < self.cards.len()
            && self.quiz_state.is_answered()
    }

    /// Whether there is a card to go back to.
    pub fn can_go_previous(&self) -> (b: bool)
        ensures
            b == self@.has_previous(),
    {
        self.current_index > 0
    }
}

} // verus!
