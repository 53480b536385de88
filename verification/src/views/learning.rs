//! The learning screen: a text cut into words, one of which can be selected
//! and explained, and questions to the tutor about the text.
//!
//! A message can call for another: selecting a word that has no explanation
//! yet calls for the explanation to arrive, and moving to the next word calls
//! for that word to be selected. The screen hands the message that follows
//! back to the program, which delivers it.

use crate::models::word::{
    ExampleSentence, ExampleSentenceView, WordExplanation, WordExplanationView, WordSegment,
    WordSegmentView,
};
use crate::text::{enclosed, is_filled, same_text, trimmed};
use crate::value::{option_view, ViewEq};
use vstd::prelude::*;
use vstd::string::StringExecFns;

verus! {

/// Whether an explanation is on its way.
#[derive(Debug, PartialEq, Eq)]
pub enum LoadingState {
    Idle,
    Loading,
    Loaded,
    Error(String),
}

/// What a [`LoadingState`] holds.
pub enum LoadingStateView {
    Idle,
    Loading,
    Loaded,
    Error(Seq<char>),
}

impl View for LoadingState {
    type V = LoadingStateView;

    open spec fn view(&self) -> LoadingStateView {
        match self {
            LoadingState::Idle => LoadingStateView::Idle,
            LoadingState::Loading => LoadingStateView::Loading,
            LoadingState::Loaded => LoadingStateView::Loaded,
            LoadingState::Error(message) => LoadingStateView::Error(message@),
        }
    }
}

impl Clone for LoadingState {
    fn clone(&self) -> (r: Self)
        ensures
            r@ == self@,
    {
        match self {
            LoadingState::Idle => LoadingState::Idle,
            LoadingState::Loading => LoadingState::Loading,
            LoadingState::Loaded => LoadingState::Loaded,
            LoadingState::Error(message) => LoadingState::Error(message.clone()),
        }
    }
}

/// What the user can do on the learning screen, and what the tutor sends
/// back.
#[derive(Debug, PartialEq, Eq)]
pub enum Message {
    BackToHome,
    SelectWord(usize),
    RequestExplanation,
    ExplanationReceived(WordExplanation),
    ExplanationError(String),
    AddToVocabularyFlashcards,
    AddToGrammarFlashcards,
    QuestionInputChanged(String),
    AskQuestion,
    QuestionAnswered(String),
    NextWord,
    PreviousWord,
}

/// What a [`Message`] holds.
pub enum MessageView {
    BackToHome,
    SelectWord(usize),
    RequestExplanation,
    ExplanationReceived(WordExplanationView),
    ExplanationError(Seq<char>),
    AddToVocabularyFlashcards,
    AddToGrammarFlashcards,
    QuestionInputChanged(Seq<char>),
    AskQuestion,
    QuestionAnswered(Seq<char>),
    NextWord,
    PreviousWord,
}

impl View for Message {
    type V = MessageView;

    open spec fn view(&self) -> MessageView {
        match self {
            Message::BackToHome => MessageView::BackToHome,
            Message::SelectWord(index) => MessageView::SelectWord(*index),
            Message::RequestExplanation => MessageView::RequestExplanation,
            Message::ExplanationReceived(explanation) => MessageView::ExplanationReceived(
                explanation@,
            ),
            Message::ExplanationError(error) => MessageView::ExplanationError(error@),
            Message::AddToVocabularyFlashcards => MessageView::AddToVocabularyFlashcards,
            Message::AddToGrammarFlashcards => MessageView::AddToGrammarFlashcards,
            Message::QuestionInputChanged(input) => MessageView::QuestionInputChanged(input@),
            Message::AskQuestion => MessageView::AskQuestion,
            Message::QuestionAnswered(answer) => MessageView::QuestionAnswered(answer@),
            Message::NextWord => MessageView::NextWord,
            Message::PreviousWord => MessageView::PreviousWord,
        }
    }
}

impl DeepView for Message {
    type V = MessageView;

    open spec fn deep_view(&self) -> MessageView {
        self@
    }
}

impl Clone for Message {
    fn clone(&self) -> (r: Self)
        ensures
            r@ == self@,
    {
        match self {
            Message::BackToHome => Message::BackToHome,
            Message::SelectWord(index) => Message::SelectWord(*index),
            Message::RequestExplanation => Message::RequestExplanation,
            Message::ExplanationReceived(explanation) => Message::ExplanationReceived(
                explanation.duplicate(),
            ),
            Message::ExplanationError(error) => Message::ExplanationError(error.clone()),
            Message::AddToVocabularyFlashcards => Message::AddToVocabularyFlashcards,
            Message::AddToGrammarFlashcards => Message::AddToGrammarFlashcards,
            Message::QuestionInputChanged(input) => Message::QuestionInputChanged(input.clone()),
            Message::AskQuestion => Message::AskQuestion,
            Message::QuestionAnswered(answer) => Message::QuestionAnswered(answer.clone()),
            Message::NextWord => Message::NextWord,
            Message::PreviousWord => Message::PreviousWord,
        }
    }
}

/// The explanation that stands in for the tutor's: a real one for the three
/// words of the sample text that have one, and a fixed sentence for every
/// other word.
pub open spec fn sample_explanation(word: Seq<char>) -> WordExplanationView {
    if word == "今日"@ {
        WordExplanationView {
            meaning: "today"@,
            grammar_notes: None,
            examples: seq![
                ExampleSentenceView { japanese: "今日は晴れです。"@, english: "Today is sunny."@ },
            ],
            jlpt_level: "N5"@,
        }
    } else if word == "日本語"@ {
        WordExplanationView {
            meaning: "Japanese language"@,
            grammar_notes: Some("Compound of 日本 (Japan) + 語 (language)"@),
            examples: seq![
                ExampleSentenceView {
                    japanese: "日本語を話せますか。"@,
                    english: "Can you speak Japanese?"@,
                },
            ],
            jlpt_level: "N5"@,
        }
    } else if word == "勉強"@ {
        WordExplanationView {
            meaning: "study"@,
            grammar_notes: Some(
                "Noun that can be used with する to make a verb (勉強する = to study)"@,
            ),
            examples: seq![
                ExampleSentenceView {
                    japanese: "毎日勉強します。"@,
                    english: "I study every day."@,
                },
            ],
            jlpt_level: "N5"@,
        }
    } else {
        WordExplanationView {
            meaning: "Meaning of '"@ + word + "' (simulated)"@,
            grammar_notes: Some(
                "This is a simulated explanation. In the real app, this will come from the AI tutor."@,
            ),
            examples: Seq::<ExampleSentenceView>::empty(),
            jlpt_level: "N5"@,
        }
    }
}

/// The answer that stands in for the tutor's answer to a question.
pub open spec fn simulated_answer(question: Seq<char>) -> Seq<char> {
    "This is a simulated answer to: '"@ + question + "'"@
}

/// The segments with none of them selected.
pub open spec fn deselected(segments: Seq<WordSegmentView>) -> Seq<WordSegmentView> {
    segments.map_values(|segment: WordSegmentView| WordSegmentView { is_selected: false, ..segment })
}

/// What the questions asked so far hold: each question with its answer.
pub open spec fn history_view(history: Seq<(String, String)>) -> Seq<(Seq<char>, Seq<char>)> {
    history.map_values(|entry: (String, String)| (entry.0@, entry.1@))
}

/// What the learning screen holds.
pub struct LearningState {
    pub original_text: Seq<char>,
    pub word_segments: Seq<WordSegmentView>,
    pub selected_word_index: Option<usize>,
    pub loading_state: LoadingStateView,
    pub question_input: Seq<char>,
    pub qa_history: Seq<(Seq<char>, Seq<char>)>,
}

impl LearningState {
    /// The screen as it opens on a text and its segments.
    pub open spec fn opening(original_text: Seq<char>, word_segments: Seq<WordSegmentView>)
        -> LearningState {
        LearningState {
            original_text,
            word_segments,
            selected_word_index: None,
            loading_state: LoadingStateView::Idle,
            question_input: Seq::<char>::empty(),
            qa_history: Seq::<(Seq<char>, Seq<char>)>::empty(),
        }
    }

    /// The screen after the word at `index` was selected, and the message
    /// that follows. Every other word is deselected. A word that has no
    /// explanation yet is marked as loading, and its explanation follows; an
    /// index past the last word selects nothing.
    pub open spec fn select(self, index: usize) -> (LearningState, Option<MessageView>) {
        let cleared = deselected(self.word_segments);
        if index < cleared.len() {
            let chosen = WordSegmentView { is_selected: true, ..cleared[index as int] };
            let selected = LearningState {
                word_segments: cleared.update(index as int, chosen),
                selected_word_index: Some(index),
                ..self
            };
            if chosen.explanation is None {
                (
                    LearningState { loading_state: LoadingStateView::Loading, ..selected },
                    Some(MessageView::ExplanationReceived(sample_explanation(chosen.surface))),
                )
            } else {
                (LearningState { loading_state: LoadingStateView::Loaded, ..selected }, None)
            }
        } else {
            (LearningState { word_segments: cleared, ..self }, None)
        }
    }

    /// The screen after an explanation arrived: the selected word has it.
    pub open spec fn explain(self, explanation: WordExplanationView) -> LearningState {
        match self.selected_word_index {
            Some(index) => if index < self.word_segments.len() {
                LearningState {
                    word_segments: self.word_segments.update(
                        index as int,
                        WordSegmentView {
                            explanation: Some(explanation),
                            ..self.word_segments[index as int]
                        },
                    ),
                    loading_state: LoadingStateView::Loaded,
                    ..self
                }
            } else {
                self
            },
            None => self,
        }
    }

    /// The screen after an answer arrived: it stands beside the last
    /// question.
    pub open spec fn answer(self, answer: Seq<char>) -> LearningState {
        if self.qa_history.len() > 0 {
            LearningState {
                qa_history: self.qa_history.update(
                    self.qa_history.len() - 1,
                    (self.qa_history.last().0, answer),
                ),
                ..self
            }
        } else {
            self
        }
    }

    /// The screen after a message, and the message that follows, if one
    /// does.
    pub open spec fn after(self, message: MessageView) -> (LearningState, Option<MessageView>) {
        match message {
            MessageView::BackToHome => (self, None),
            MessageView::SelectWord(index) => self.select(index),
            MessageView::RequestExplanation => match self.selected_word_index {
                Some(index) => (
                    LearningState { loading_state: LoadingStateView::Loading, ..self },
                    if index < self.word_segments.len() {
                        Some(
                            MessageView::ExplanationReceived(
                                sample_explanation(self.word_segments[index as int].surface),
                            ),
                        )
                    } else {
                        None
                    },
                ),
                None => (self, None),
            },
            MessageView::ExplanationReceived(explanation) => (self.explain(explanation), None),
            MessageView::ExplanationError(error) => (
                LearningState { loading_state: LoadingStateView::Error(error), ..self },
                None,
            ),
            MessageView::AddToVocabularyFlashcards => (self, None),
            MessageView::AddToGrammarFlashcards => (self, None),
            MessageView::QuestionInputChanged(input) => (
                LearningState { question_input: input, ..self },
                None,
            ),
            MessageView::AskQuestion => if trimmed(self.question_input).len() > 0 {
                (
                    LearningState { question_input: Seq::<char>::empty(), ..self },
                    Some(MessageView::QuestionAnswered(simulated_answer(self.question_input))),
                )
            } else {
                (self, None)
            },
            MessageView::QuestionAnswered(answer) => (self.answer(answer), None),
            MessageView::NextWord => match self.selected_word_index {
                Some(index) => if index + 1 < self.word_segments.len() {
                    (self, Some(MessageView::SelectWord((index + 1) as usize)))
                } else {
                    (self, None)
                },
                None => (self, None),
            },
            MessageView::PreviousWord => match self.selected_word_index {
                Some(index) => if index > 0 {
                    (self, Some(MessageView::SelectWord((index - 1) as usize)))
                } else {
                    (self, None)
                },
                None => (self, None),
            },
        }
    }
}

/// No message adds or removes a word, and none changes the text.
pub proof fn lemma_words_stay(state: LearningState, message: MessageView)
    ensures
        state.after(message).0.word_segments.len() == state.word_segments.len(),
        state.after(message).0.original_text == state.original_text,
{
}

/// After a word within the text was selected, it is the only one selected.
pub proof fn lemma_one_word_selected(state: LearningState, index: usize)
    requires
        index < state.word_segments.len(),
    ensures
        state.select(index).0.selected_word_index == Some(index),
        forall|i: int|
            0 <= i < state.word_segments.len() ==> (#[trigger] state.select(
                index,
            ).0.word_segments[i]).is_selected == (i == index),
{
}

/// The segments of the text that the screen shows before the user has saved
/// any: a sentence of seven words.
pub open spec fn sample_segments() -> Seq<WordSegmentView> {
    seq![
        plain_segment("今日"@, "きょう"@, "今日"@),
        plain_segment("は"@, "は"@, "は"@),
        plain_segment("日本語"@, "にほんご"@, "日本語"@),
        plain_segment("を"@, "を"@, "を"@),
        plain_segment("勉強"@, "べんきょう"@, "勉強"@),
        plain_segment("します"@, "します"@, "する"@),
        plain_segment("。"@, "。"@, "。"@),
    ]
}

/// A segment that has no explanation and is not selected.
pub open spec fn plain_segment(surface: Seq<char>, reading: Seq<char>, base_form: Seq<char>)
    -> WordSegmentView {
    WordSegmentView { surface, reading, base_form, explanation: None, is_selected: false }
}

/// A segment that has no explanation and is not selected.
fn segment(surface: &str, reading: &str, base_form: &str) -> (r: WordSegment)
    ensures
        r@ == plain_segment(surface@, reading@, base_form@),
{
    WordSegment {
        surface: String::from_str(surface),
        reading: String::from_str(reading),
        base_form: String::from_str(base_form),
        explanation: None,
        is_selected: false,
    }
}

/// One sentence with its translation, as a vector.
fn one_example(japanese: &str, english: &str) -> (r: Vec<ExampleSentence>)
    ensures
        r.deep_view() == seq![ExampleSentenceView { japanese: japanese@, english: english@ }],
{
    let mut out: Vec<ExampleSentence> = Vec::new();
    out.push(
        ExampleSentence { japanese: String::from_str(japanese), english: String::from_str(english) },
    );
    assert(out.deep_view() =~= seq![
        ExampleSentenceView { japanese: japanese@, english: english@ },
    ]);
    out
}

/// Copies the segments with none of them selected.
fn deselect_all(segments: &Vec<WordSegment>) -> (r: Vec<WordSegment>)
    ensures
        r.deep_view() == deselected(segments.deep_view()),
{
    let mut out: Vec<WordSegment> = Vec::new();
    let mut i: usize = 0;
    while i < segments.len()
        invariant
            i <= segments@.len(),
            out@.len() == i,
            forall|k: int|
                0 <= k < i ==> out@[k]@ == (WordSegmentView {
                    is_selected: false,
                    ..segments@[k]@
                }),
        decreases segments@.len() - i,
    {
        let mut copy = segments[i].duplicate();
        copy.is_selected = false;
        out.push(copy);
        i = i + 1;
    }
    assert(out.deep_view() =~= deselected(segments.deep_view()));
    out
}

/// The learning screen.
#[derive(Debug, PartialEq, Eq)]
pub struct LearningView {
    original_text: String,
    word_segments: Vec<WordSegment>,
    selected_word_index: Option<usize>,
    loading_state: LoadingState,
    question_input: String,
    qa_history: Vec<(String, String)>,
}

impl View for LearningView {
    type V = LearningState;

    closed spec fn view(&self) -> LearningState {
        LearningState {
            original_text: self.original_text@,
            word_segments: self.word_segments.deep_view(),
            selected_word_index: self.selected_word_index,
            loading_state: self.loading_state@,
            question_input: self.question_input@,
            qa_history: history_view(self.qa_history@),
        }
    }
}

impl Default for LearningView {
    /// The screen as it opens on the sample sentence.
    fn default() -> (view: LearningView)
        ensures
            view@ == LearningState::opening("今日は日本語を勉強します。"@, sample_segments()),
    {
        let mut segments: Vec<WordSegment> = Vec::new();
        segments.push(segment("今日", "きょう", "今日"));
        segments.push(segment("は", "は", "は"));
        segments.push(segment("日本語", "にほんご", "日本語"));
        segments.push(segment("を", "を", "を"));
        segments.push(segment("勉強", "べんきょう", "勉強"));
        segments.push(segment("します", "します", "する"));
        segments.push(segment("。", "。", "。"));
        assert(segments.deep_view() =~= sample_segments());
        LearningView::new(String::from_str("今日は日本語を勉強します。"), segments)
    }
}

impl LearningView {
    /// The screen as it opens on a text and its segments.
    pub fn new(original_text: String, word_segments: Vec<WordSegment>) -> (view: LearningView)
        ensures
            view@ == LearningState::opening(original_text@, word_segments.deep_view()),
    {
        let view = LearningView {
            original_text,
            word_segments,
            selected_word_index: None,
            loading_state: LoadingState::Idle,
            question_input: String::new(),
            qa_history: Vec::new(),
        };
        assert(history_view(view.qa_history@) =~= Seq::<(Seq<char>, Seq<char>)>::empty());
        view
    }

    /// The explanation that stands in for the tutor's explanation of `word`.
    pub fn generate_sample_explanation(&self, word: &str) -> (explanation: WordExplanation)
        ensures
            explanation@ == sample_explanation(word@),
    {
        if same_text(word, "今日") {
            WordExplanation {
                meaning: String::from_str("today"),
                grammar_notes: None,
                examples: one_example("今日は晴れです。", "Today is sunny."),
                jlpt_level: String::from_str("N5"),
            }
        } else if same_text(word, "日本語") {
            WordExplanation {
                meaning: String::from_str("Japanese language"),
                grammar_notes: Some(String::from_str("Compound of 日本 (Japan) + 語 (language)")),
                examples: one_example("日本語を話せますか。", "Can you speak Japanese?"),
                jlpt_level: String::from_str("N5"),
            }
        } else if same_text(word, "勉強") {
            WordExplanation {
                meaning: String::from_str("study"),
                grammar_notes: Some(
                    String::from_str(
                        "Noun that can be used with する to make a verb (勉強する = to study)",
                    ),
                ),
                examples: one_example("毎日勉強します。", "I study every day."),
                jlpt_level: String::from_str("N5"),
            }
        } else {
            let examples: Vec<ExampleSentence> = Vec::new();
            assert(examples.deep_view() =~= Seq::<ExampleSentenceView>::empty());
            WordExplanation {
                meaning: enclosed("Meaning of '", word, "' (simulated)"),
                grammar_notes: Some(
                    String::from_str(
                        "This is a simulated explanation. In the real app, this will come from the AI tutor.",
                    ),
                ),
                examples,
                jlpt_level: String::from_str("N5"),
            }
        }
    }

    /// Selects the word at `index`.
    fn select_word(&mut self, index: usize) -> (follow: Option<Message>)
        ensures
            (final(self)@, option_view(follow)) == old(self)@.select(index),
    {
        let mut segments = deselect_all(&self.word_segments);
        if index < segments.len() {
            let mut chosen = segments[index].duplicate();
            chosen.is_selected = true;
            let unexplained: bool = chosen.explanation.is_none();
            let follow: Option<Message> = if unexplained {
                Some(
                    Message::ExplanationReceived(
                        self.generate_sample_explanation(chosen.surface.as_str()),
                    ),
                )
            } else {
                None
            };
            let ghost before = segments.deep_view();
            let ghost marked = chosen@;
            segments.set(index, chosen);
            assert(segments.deep_view() =~= before.update(index as int, marked));
            self.word_segments = segments;
            self.selected_word_index = Some(index);
            if unexplained {
                self.loading_state = LoadingState::Loading;
            } else {
                self.loading_state = LoadingState::Loaded;
            }
            follow
        } else {
            self.word_segments = segments;
            None
        }
    }

    /// Gives the selected word its explanation.
    fn receive_explanation(&mut self, explanation: WordExplanation)
        ensures
            final(self)@ == old(self)@.explain(explanation@),
    {
        match self.selected_word_index {
            Some(index) => {
                if index < self.word_segments.len() {
                    let mut explained = self.word_segments[index].duplicate();
                    let ghost before = self.word_segments.deep_view();
                    explained.explanation = Some(explanation);
                    let ghost marked = explained@;
                    self.word_segments.set(index, explained);
                    assert(self.word_segments.deep_view() =~= before.update(index as int, marked));
                    self.loading_state = LoadingState::Loaded;
                }
            },
            None => {},
        }
    }

    /// Puts an answer beside the last question.
    fn receive_answer(&mut self, answer: String)
        ensures
            final(self)@ == old(self)@.answer(answer@),
    {
        let count: usize = self.qa_history.len();
        if count > 0 {
            let question: String = self.qa_history[count - 1].0.clone();
            let ghost before = history_view(self.qa_history@);
            self.qa_history.set(count - 1, (question, answer));
            assert(history_view(self.qa_history@) =~= before.update(
                count - 1,
                (before.last().0, answer@),
            ));
        }
    }

    /// Takes a message from the user or the tutor, and hands back the
    /// message that follows, if one does.
    pub fn update(&mut self, message: Message) -> (follow: Option<Message>)
        ensures
            (final(self)@, option_view(follow)) == old(self)@.after(message@),
    {
        proof {
            assert(self.word_segments.deep_view().len() == self.word_segments.len());
            assert(forall|i: int|
                0 <= i < self.word_segments.len() ==> self.word_segments.deep_view()[i]
                    == #[trigger] self.word_segments@[i]@);
        }
        match message {
            Message::BackToHome => None,
            Message::SelectWord(index) => self.select_word(index),
            Message::RequestExplanation => {
                match self.selected_word_index {
                    Some(index) => {
                        self.loading_state = LoadingState::Loading;
                        if index < self.word_segments.len() {
                            Some(
                                Message::ExplanationReceived(
                                    self.generate_sample_explanation(
                                        self.word_segments[index].surface.as_str(),
                                    ),
                                ),
                            )
                        } else {
                            None
                        }
                    },
                    None => None,
                }
            },
            Message::ExplanationReceived(explanation) => {
                self.receive_explanation(explanation);
                None
            },
            Message::ExplanationError(error) => {
                self.loading_state = LoadingState::Error(error);
                None
            },
            Message::AddToVocabularyFlashcards => None,
            Message::AddToGrammarFlashcards => None,
            Message::QuestionInputChanged(input) => {
                self.question_input = input;
                None
            },
            Message::AskQuestion => {
                if is_filled(self.question_input.as_str()) {
                    let answer = enclosed(
                        "This is a simulated answer to: '",
                        self.question_input.as_str(),
                        "'",
                    );
                    self.question_input = String::new();
                    Some(Message::QuestionAnswered(answer))
                } else {
                    None
                }
            },
            Message::QuestionAnswered(answer) => {
                self.receive_answer(answer);
                None
            },
            Message::NextWord => {
                match self.selected_word_index {
                    Some(index) => {
                        if index < usize::MAX && index + 1 < self.word_segments.len() {
                            Some(Message::SelectWord(index + 1))
                        } else {
                            None
                        }
                    },
                    None => None,
                }
            },
            Message::PreviousWord => {
                match self.selected_word_index {
                    Some(index) => {
                        if index > 0 {
                            Some(Message::SelectWord(index - 1))
                        } else {
                            None
                        }
                    },
                    None => None,
                }
            },
        }
    }

    /// The text that is being read.
    pub fn original_text(&self) -> (text: &str)
        ensures
            text@ == self@.original_text,
    {
        self.original_text.as_str()
    }

    /// The words of the text.
    pub fn word_segments(&self) -> (segments: &Vec<WordSegment>)
        ensures
            segments.deep_view() == self@.word_segments,
    {
        &self.word_segments
    }

    /// The position of the word that was selected last.
    pub fn selected_word_index(&self) -> (index: Option<usize>)
        ensures
            index == self@.selected_word_index,
    {
        self.selected_word_index
    }

    /// The word that was selected last, if it is a word of the text.
    pub fn selected_segment(&self) -> (segment: Option<&WordSegment>)
        ensures
            segment is Some <==> (self@.selected_word_index matches Some(index) && index
                < self@.word_segments.len()),
            segment matches Some(found) ==> found@ == self@.word_segments[self@.selected_word_index->0 as int],
    {
        match self.selected_word_index {
            Some(index) => {
                if index < self.word_segments.len() {
                    Some(&self.word_segments[index])
                } else {
                    None
                }
            },
            None => None,
        }
    }

    /// Whether an explanation is on its way.
    pub fn loading_state(&self) -> (state: &LoadingState)
        ensures
            state@ == self@.loading_state,
    {
        &self.loading_state
    }

    /// The question that is being typed.
    pub fn question_input(&self) -> (text: &str)
        ensures
            text@ == self@.question_input,
    {
        self.question_input.as_str()
    }

    /// The questions asked so far, each with its answer.
    pub fn qa_history(&self) -> (history: &Vec<(String, String)>)
        ensures
            history_view(history@) == self@.qa_history,
    {
        &self.qa_history
    }
}

} // verus!
