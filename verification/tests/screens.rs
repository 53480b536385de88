use nihonrs::app::{App, AppMode, Message};
use nihonrs::components::quiz_state::QuizState;
use nihonrs::constants;
use nihonrs::models::deck::{DeckInfo, TextInfo};
use nihonrs::models::flashcard::CardType;
use nihonrs::models::word::{ExampleSentence, WordExplanation, WordSegment};
use nihonrs::theme::AppTheme;
use nihonrs::views::home::HomeView;
use nihonrs::views::learning::{LearningView, LoadingState};
use nihonrs::views::practice::{build_sample_cards, PracticeView};
use nihonrs::views::settings::SettingsView;
use nihonrs::views::{home, learning, practice, settings};

#[test]
fn home_screen_keeps_what_is_typed() {
    let mut view = HomeView::default();
    assert_eq!(view.input_text(), "");
    assert!(!view.has_valid_input());
    view.update(home::Message::InputChanged("  \n\t ".to_string()));
    assert_eq!(view.input_text(), "  \n\t ");
    assert!(!view.has_valid_input());
    view.update(home::Message::InputChanged("\u{3000}".to_string()));
    assert!(!view.has_valid_input());
    view.update(home::Message::InputChanged(" 今日は ".to_string()));
    assert!(view.has_valid_input());
    for message in [
        home::Message::SubmitForPractice,
        home::Message::SubmitForLearning,
        home::Message::SelectDeck("d1".to_string()),
        home::Message::SelectText("t1".to_string()),
        home::Message::NavigateToSettings,
    ] {
        view.update(message);
        assert_eq!(view.input_text(), " 今日は ");
    }
}

#[test]
fn home_screen_shows_what_it_is_given() {
    let mut view = HomeView::default();
    assert!(view.decks().is_empty());
    assert!(view.saved_texts().is_empty());
    let deck = DeckInfo { id: "d1".to_string(), name: "Verbs".to_string(), total_cards: 3, due_cards: 2, new_cards: 1 };
    let text = TextInfo {
        id: "t1".to_string(),
        title: "Lesson".to_string(),
        preview: "今日は".to_string(),
        created_at: "2000-01-12 01:02".to_string(),
    };
    view.set_decks(vec![deck.clone()]);
    view.set_saved_texts(vec![text.clone()]);
    assert_eq!(view.decks(), &vec![deck]);
    assert_eq!(view.saved_texts(), &vec![text]);
    assert_eq!(view.input_text(), "");
}

#[test]
fn settings_start_with_the_defaults() {
    let view = SettingsView::default();
    assert_eq!(view.font_size(), 18);
    assert_eq!(view.font_size(), constants::ui::DEFAULT_FONT_SIZE);
    assert_eq!(view.user_profile(), "");
    assert_eq!(view.api_key(), "");
    assert_eq!(view.daily_review_limit(), "20");
    assert_eq!(view.daily_review_limit(), constants::srs::DEFAULT_DAILY_REVIEW_LIMIT.to_string());
    assert_eq!(view.new_cards_per_day(), "10");
    assert_eq!(view.new_cards_per_day(), constants::srs::DEFAULT_NEW_CARDS_PER_DAY.to_string());
    assert!(view.dark_mode());
}

#[test]
fn font_size_stays_in_range() {
    let mut view = SettingsView::default();
    for (asked, set) in [(0u16, 12u16), (11, 12), (12, 12), (20, 20), (32, 32), (33, 32), (u16::MAX, 32)] {
        view.update(settings::Message::FontSizeChanged(asked));
        assert_eq!(view.font_size(), set);
    }
}

#[test]
fn each_settings_message_sets_its_field() {
    let mut view = SettingsView::default();
    view.update(settings::Message::UserProfileChanged("beginner".to_string()));
    view.update(settings::Message::ApiKeyChanged("SECRET-KEY".to_string()));
    view.update(settings::Message::DailyReviewLimitChanged("50".to_string()));
    view.update(settings::Message::NewCardsPerDayChanged("abc".to_string()));
    view.update(settings::Message::DarkModeChanged(false));
    view.update(settings::Message::BackToHome);
    assert_eq!(view.user_profile(), "beginner");
    assert_eq!(view.api_key(), "SECRET-KEY");
    assert_eq!(view.daily_review_limit(), "50");
    assert_eq!(view.new_cards_per_day(), "abc");
    assert!(!view.dark_mode());
    assert_eq!(view.font_size(), 18);
    view.set_dark_mode(true);
    assert!(view.dark_mode());
    assert_eq!(view.clone(), view);
}

#[test]
fn practice_opens_on_the_sample_cards() {
    let view = PracticeView::default();
    assert_eq!(view.cards().len(), 3);
    assert_eq!(view.cards(), &build_sample_cards());
    assert_eq!(view.current_index(), 0);
    assert!(!view.show_romaji());
    assert!(!view.show_examples());
    assert_eq!(view.quiz_state(), QuizState::Question);
    assert_eq!(view.score(), 0);
    assert_eq!(view.total_answered(), 0);
    assert_eq!(view.score_percent(), 0);
    let first = view.current_card().unwrap();
    assert_eq!(first.correct_answer(), "to eat");
    assert_eq!(first.wrong_answers().len(), 3);
    assert_eq!(first.example_sentences().len(), 2);
    match &view.cards()[1] {
        CardType::Grammar(card) => {
            assert_eq!(card.pattern, "〜てもいい");
            assert_eq!(card.explanation, "Permission: 'it's okay to...'");
        }
        CardType::Vocabulary(_) => panic!("the second sample card is a grammar card"),
    }
    assert_eq!(view.cards()[2].correct_answer(), "study");
}

#[test]
fn first_answer_is_the_right_one() {
    let mut view = PracticeView::default();
    view.update(practice::Message::SelectAnswer(0));
    assert_eq!(view.quiz_state(), QuizState::AnswerCorrect);
    assert_eq!((view.score(), view.total_answered()), (1, 1));
    // a second answer to the same question does not count
    view.update(practice::Message::SelectAnswer(2));
    assert_eq!(view.quiz_state(), QuizState::AnswerCorrect);
    assert_eq!((view.score(), view.total_answered()), (1, 1));
    view.update(practice::Message::NextCard);
    assert_eq!(view.quiz_state(), QuizState::Question);
    view.update(practice::Message::SelectAnswer(3));
    assert_eq!(view.quiz_state(), QuizState::AnswerIncorrect { selected: 3, correct: 0 });
    assert_eq!((view.score(), view.total_answered()), (1, 2));
    assert_eq!(view.score_percent(), 50);
    view.update(practice::Message::NextCard);
    view.update(practice::Message::SelectAnswer(1));
    assert_eq!((view.score(), view.total_answered()), (1, 3));
    assert_eq!(view.score_percent(), 33);
}

#[test]
fn practice_moves_within_the_deck() {
    let mut view = PracticeView::default();
    assert!(!view.can_go_previous());
    assert!(!view.can_go_next());
    view.update(practice::Message::PreviousCard);
    assert_eq!(view.current_index(), 0);
    view.update(practice::Message::ToggleExamples);
    view.update(practice::Message::ToggleRomaji);
    assert!(view.show_examples());
    assert!(view.show_romaji());
    view.update(practice::Message::SelectAnswer(0));
    assert!(view.can_go_next());
    view.update(practice::Message::NextCard);
    assert_eq!(view.current_index(), 1);
    assert!(!view.show_examples());
    assert!(view.show_romaji());
    assert!(view.can_go_previous());
    view.update(practice::Message::NextCard);
    assert_eq!(view.current_index(), 2);
    view.update(practice::Message::SelectAnswer(0));
    assert!(!view.can_go_next());
    view.update(practice::Message::NextCard);
    assert_eq!(view.current_index(), 2);
    assert_eq!(view.quiz_state(), QuizState::AnswerCorrect);
    view.update(practice::Message::PreviousCard);
    assert_eq!(view.current_index(), 1);
    assert_eq!(view.quiz_state(), QuizState::Question);
    view.update(practice::Message::ToggleRomaji);
    assert!(!view.show_romaji());
    view.update(practice::Message::BackToHome);
    assert_eq!(view.current_index(), 1);
}

#[test]
fn practice_without_cards_has_nowhere_to_go() {
    let mut view = PracticeView::new(vec![]);
    assert!(view.current_card().is_none());
    view.update(practice::Message::NextCard);
    view.update(practice::Message::PreviousCard);
    assert_eq!(view.current_index(), 0);
    assert!(!view.can_go_next());
    assert!(!view.can_go_previous());
    view.update(practice::Message::SelectAnswer(0));
    assert_eq!((view.score(), view.total_answered()), (1, 1));
    assert_eq!(view.score_percent(), 100);
}

fn surfaces(view: &LearningView) -> Vec<&str> {
    view.word_segments().iter().map(|segment| segment.surface.as_str()).collect()
}

fn selected(view: &LearningView) -> Vec<usize> {
    view.word_segments()
        .iter()
        .enumerate()
        .filter(|(_, segment)| segment.is_selected)
        .map(|(index, _)| index)
        .collect()
}

#[test]
fn learning_opens_on_the_sample_sentence() {
    let view = LearningView::default();
    assert_eq!(view.original_text(), "今日は日本語を勉強します。");
    assert_eq!(surfaces(&view), ["今日", "は", "日本語", "を", "勉強", "します", "。"]);
    assert_eq!(view.word_segments()[0].reading, "きょう");
    assert_eq!(view.word_segments()[5].base_form, "する");
    assert_eq!(view.selected_word_index(), None);
    assert!(view.selected_segment().is_none());
    assert_eq!(view.loading_state(), &LoadingState::Idle);
    assert_eq!(view.question_input(), "");
    assert!(view.qa_history().is_empty());
    assert!(selected(&view).is_empty());
}

#[test]
fn selecting_a_word_calls_for_its_explanation() {
    let mut view = LearningView::default();
    let follow = view.update(learning::Message::SelectWord(0));
    let today = WordExplanation {
        meaning: "today".to_string(),
        grammar_notes: None,
        examples: vec![ExampleSentence {
            japanese: "今日は晴れです。".to_string(),
            english: "Today is sunny.".to_string(),
        }],
        jlpt_level: "N5".to_string(),
    };
    assert_eq!(follow, Some(learning::Message::ExplanationReceived(today.clone())));
    assert_eq!(view.selected_word_index(), Some(0));
    assert_eq!(selected(&view), [0]);
    assert_eq!(view.loading_state(), &LoadingState::Loading);
    assert_eq!(view.update(follow.unwrap()), None);
    assert_eq!(view.loading_state(), &LoadingState::Loaded);
    assert_eq!(view.selected_segment().unwrap().explanation, Some(today));
    // the word is explained now: selecting it again calls for nothing
    assert_eq!(view.update(learning::Message::SelectWord(2)).is_some(), true);
    assert_eq!(selected(&view), [2]);
    assert_eq!(view.update(learning::Message::SelectWord(0)), None);
    assert_eq!(selected(&view), [0]);
    assert_eq!(view.loading_state(), &LoadingState::Loaded);
}

#[test]
fn sample_explanations() {
    let view = LearningView::default();
    assert_eq!(view.generate_sample_explanation("今日").meaning, "today");
    let japanese = view.generate_sample_explanation("日本語");
    assert_eq!(japanese.meaning, "Japanese language");
    assert_eq!(japanese.grammar_notes, Some("Compound of 日本 (Japan) + 語 (language)".to_string()));
    assert_eq!(japanese.examples[0].english, "Can you speak Japanese?");
    let study = view.generate_sample_explanation("勉強");
    assert_eq!(study.meaning, "study");
    assert_eq!(study.examples[0].japanese, "毎日勉強します。");
    let other = view.generate_sample_explanation("は");
    assert_eq!(other.meaning, "Meaning of 'は' (simulated)");
    assert!(other.examples.is_empty());
    assert_eq!(other.jlpt_level, "N5");
    assert!(other.grammar_notes.unwrap().starts_with("This is a simulated explanation."));
}

#[test]
fn selecting_past_the_last_word_selects_nothing() {
    let mut view = LearningView::default();
    assert!(view.update(learning::Message::SelectWord(1)).is_some());
    assert_eq!(view.update(learning::Message::SelectWord(7)), None);
    assert!(selected(&view).is_empty());
    assert_eq!(view.selected_word_index(), Some(1));
    assert_eq!(view.word_segments().len(), 7);
}

#[test]
fn moving_between_words() {
    let mut view = LearningView::default();
    assert_eq!(view.update(learning::Message::NextWord), None);
    assert_eq!(view.update(learning::Message::PreviousWord), None);
    view.update(learning::Message::SelectWord(0));
    assert_eq!(view.update(learning::Message::PreviousWord), None);
    assert_eq!(view.update(learning::Message::NextWord), Some(learning::Message::SelectWord(1)));
    view.update(learning::Message::SelectWord(6));
    assert_eq!(view.update(learning::Message::NextWord), None);
    assert_eq!(view.update(learning::Message::PreviousWord), Some(learning::Message::SelectWord(5)));
    assert_eq!(view.selected_word_index(), Some(6));
}

#[test]
fn requesting_an_explanation() {
    let mut view = LearningView::default();
    assert_eq!(view.update(learning::Message::RequestExplanation), None);
    assert_eq!(view.loading_state(), &LoadingState::Idle);
    view.update(learning::Message::SelectWord(4));
    let follow = view.update(learning::Message::RequestExplanation);
    assert_eq!(view.loading_state(), &LoadingState::Loading);
    match follow {
        Some(learning::Message::ExplanationReceived(explanation)) => {
            assert_eq!(explanation.meaning, "study")
        }
        other => panic!("an explanation should follow, not {:?}", other),
    }
    view.update(learning::Message::ExplanationError("offline".to_string()));
    assert_eq!(view.loading_state(), &LoadingState::Error("offline".to_string()));
}

#[test]
fn explanation_without_a_selected_word_is_dropped() {
    let mut view = LearningView::default();
    let before = view.word_segments().clone();
    let explanation = WordExplanation {
        meaning: "x".to_string(),
        grammar_notes: None,
        examples: vec![],
        jlpt_level: "N1".to_string(),
    };
    assert_eq!(view.update(learning::Message::ExplanationReceived(explanation)), None);
    assert_eq!(view.word_segments(), &before);
    assert_eq!(view.loading_state(), &LoadingState::Idle);
}

#[test]
fn asking_a_question() {
    let mut view = LearningView::default();
    assert_eq!(view.update(learning::Message::AskQuestion), None);
    view.update(learning::Message::QuestionInputChanged("   ".to_string()));
    assert_eq!(view.update(learning::Message::AskQuestion), None);
    assert_eq!(view.question_input(), "   ");
    view.update(learning::Message::QuestionInputChanged("なぜ?".to_string()));
    let follow = view.update(learning::Message::AskQuestion);
    assert_eq!(
        follow,
        Some(learning::Message::QuestionAnswered("This is a simulated answer to: 'なぜ?'".to_string()))
    );
    assert_eq!(view.question_input(), "");
    assert_eq!(view.update(follow.unwrap()), None);
    assert!(view.qa_history().is_empty());
    for message in [
        learning::Message::AddToVocabularyFlashcards,
        learning::Message::AddToGrammarFlashcards,
        learning::Message::BackToHome,
    ] {
        assert_eq!(view.update(message), None);
    }
}

#[test]
fn learning_on_a_given_text() {
    let segment = WordSegment {
        surface: "猫".to_string(),
        reading: "ねこ".to_string(),
        base_form: "猫".to_string(),
        explanation: None,
        is_selected: true,
    };
    let mut view = LearningView::new("猫".to_string(), vec![segment]);
    assert_eq!(view.original_text(), "猫");
    assert_eq!(view.selected_word_index(), None);
    let follow = view.update(learning::Message::SelectWord(0));
    match follow {
        Some(learning::Message::ExplanationReceived(explanation)) => {
            assert_eq!(explanation.meaning, "Meaning of '猫' (simulated)")
        }
        other => panic!("an explanation should follow, not {:?}", other),
    }
    let mut empty = LearningView::new(String::new(), vec![]);
    assert_eq!(empty.update(learning::Message::SelectWord(0)), None);
    assert_eq!(empty.update(learning::Message::NextWord), None);
}

#[test]
fn application_starts_at_home() {
    let app = App::new();
    assert_eq!(app.mode(), AppMode::Home);
    assert_eq!(app.theme(), AppTheme::Dark);
    assert_eq!(app.title(), "NihonRS - Home");
    assert_eq!(app.home_view(), &HomeView::default());
    assert_eq!(app.practice_view(), &PracticeView::default());
    assert_eq!(app.learning_view(), &LearningView::default());
    assert_eq!(app.settings_view(), &SettingsView::default());
}

#[test]
fn application_moves_between_screens() {
    let mut app = App::default();
    assert_eq!(app.update(Message::Home(home::Message::SubmitForPractice)), None);
    assert_eq!(app.mode(), AppMode::Practice);
    assert_eq!(app.title(), "NihonRS - Practice");
    assert_eq!(app.update(Message::Practice(practice::Message::BackToHome)), None);
    assert_eq!(app.mode(), AppMode::Home);
    assert_eq!(app.update(Message::Home(home::Message::SubmitForLearning)), None);
    assert_eq!(app.title(), "NihonRS - Learning");
    assert_eq!(app.update(Message::Learning(learning::Message::BackToHome)), None);
    assert_eq!(app.mode(), AppMode::Home);
    assert_eq!(app.update(Message::Home(home::Message::NavigateToSettings)), None);
    assert_eq!(app.title(), "NihonRS - Settings");
    assert_eq!(app.update(Message::Settings(settings::Message::BackToHome)), None);
    assert_eq!(app.title(), "NihonRS - Home");
    app.navigate_to(AppMode::Learning);
    assert_eq!(app.mode(), AppMode::Learning);
}

#[test]
fn messages_reach_their_screen() {
    let mut app = App::default();
    app.update(Message::Home(home::Message::InputChanged("今日".to_string())));
    assert_eq!(app.home_view().input_text(), "今日");
    app.update(Message::Practice(practice::Message::SelectAnswer(0)));
    assert_eq!(app.practice_view().score(), 1);
    app.update(Message::Settings(settings::Message::FontSizeChanged(99)));
    assert_eq!(app.settings_view().font_size(), 32);
    let follow = app.update(Message::Learning(learning::Message::SelectWord(0)));
    assert!(matches!(follow, Some(Message::Learning(learning::Message::ExplanationReceived(_)))));
    assert_eq!(app.update(follow.unwrap()), None);
    assert_eq!(app.learning_view().loading_state(), &LoadingState::Loaded);
    assert_eq!(app.mode(), AppMode::Home);
}

#[test]
fn dark_mode_switch_sets_the_theme() {
    let mut app = App::default();
    app.update(Message::Settings(settings::Message::DarkModeChanged(false)));
    assert_eq!(app.theme(), AppTheme::Light);
    assert!(!app.settings_view().dark_mode());
    app.update(Message::Settings(settings::Message::DarkModeChanged(true)));
    assert_eq!(app.theme(), AppTheme::Dark);
    assert!(app.settings_view().dark_mode());
    app.apply_theme(false);
    assert_eq!(app.theme(), AppTheme::Light);
    assert!(!app.settings_view().dark_mode());
    app.update(Message::Home(home::Message::NavigateToSettings));
    assert!(!app.settings_view().dark_mode());
    assert_eq!(app.theme(), AppTheme::Light);
}
