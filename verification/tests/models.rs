use nihonrs::components::quiz_state::QuizState;
use nihonrs::constants;
use nihonrs::error::AppError;
use nihonrs::models::deck::{Deck, DeckInfo, LearningText, TextInfo, PREVIEW_CHARS};
use nihonrs::models::flashcard::{CardType, FlashCard, GrammarCard, SRSData, VocabularyCard};
use nihonrs::models::word::{ExampleSentence, JLPTLevel, WordSegment};
use nihonrs::services::database::DatabaseError;
use nihonrs::services::llm::LLMError;
use nihonrs::services::tokenizer::TokenizerError;
use nihonrs::text::{
    enclosed, has_content, is_filled, labelled, same_text, starts_with, truncate_chars,
};
use nihonrs::theme::AppTheme;
use nihonrs::time::Timestamp;
use nihonrs::value::{duplicate_all, same_all, ViewEq};

fn sentence(japanese: &str, english: &str) -> ExampleSentence {
    ExampleSentence { japanese: japanese.to_string(), english: english.to_string() }
}

fn vocabulary() -> CardType {
    CardType::Vocabulary(VocabularyCard {
        kanji: "食べる".to_string(),
        hiragana: "たべる".to_string(),
        romaji: "taberu".to_string(),
        meaning: "to eat".to_string(),
        wrong_answers: vec!["to drink".to_string(), "to cook".to_string()],
        example_sentences: vec![sentence("朝ごはんを食べます。", "I eat breakfast.")],
        jlpt_level: JLPTLevel::N5,
    })
}

fn grammar() -> CardType {
    CardType::Grammar(GrammarCard {
        pattern: "〜てもいい".to_string(),
        pattern_reading: "てもいい".to_string(),
        explanation: "Permission".to_string(),
        wrong_answers: vec!["Obligation".to_string()],
        example_sentences: vec![],
        jlpt_level: JLPTLevel::N4,
    })
}

#[test]
fn level_names() {
    assert_eq!(JLPTLevel::N5.as_str(), "N5");
    assert_eq!(JLPTLevel::N4.as_str(), "N4");
    assert_eq!(JLPTLevel::N3.as_str(), "N3");
    assert_eq!(JLPTLevel::N2.as_str(), "N2");
    assert_eq!(JLPTLevel::N1.as_str(), "N1");
    assert_eq!(JLPTLevel::Unknown.as_str(), "?");
}

#[test]
fn levels_are_read_in_either_case() {
    assert_eq!(JLPTLevel::from_str("N5"), JLPTLevel::N5);
    assert_eq!(JLPTLevel::from_str("n5"), JLPTLevel::N5);
    assert_eq!(JLPTLevel::from_str("n4"), JLPTLevel::N4);
    assert_eq!(JLPTLevel::from_str("N3"), JLPTLevel::N3);
    assert_eq!(JLPTLevel::from_str("n2"), JLPTLevel::N2);
    assert_eq!(JLPTLevel::from_str("n1"), JLPTLevel::N1);
    assert_eq!(JLPTLevel::from_str(""), JLPTLevel::Unknown);
    assert_eq!(JLPTLevel::from_str("N6"), JLPTLevel::Unknown);
    assert_eq!(JLPTLevel::from_str("?"), JLPTLevel::Unknown);
    assert_eq!(JLPTLevel::from_str(" N5"), JLPTLevel::Unknown);
}

#[test]
fn upper_case_names_are_read_exactly() {
    assert_eq!(JLPTLevel::from_upper("N1"), JLPTLevel::N1);
    assert_eq!(JLPTLevel::from_upper("n1"), JLPTLevel::Unknown);
    assert_eq!(JLPTLevel::from_upper("N"), JLPTLevel::Unknown);
    assert_eq!(JLPTLevel::from_upper("N55"), JLPTLevel::Unknown);
}

#[test]
fn level_names_round_trip() {
    for level in [JLPTLevel::N5, JLPTLevel::N4, JLPTLevel::N3, JLPTLevel::N2, JLPTLevel::N1] {
        assert_eq!(JLPTLevel::from_str(level.as_str()), level);
    }
}

#[test]
fn card_answers() {
    let v = vocabulary();
    assert_eq!(v.correct_answer(), "to eat");
    assert_eq!(v.wrong_answers(), ["to drink".to_string(), "to cook".to_string()]);
    assert_eq!(v.example_sentences().len(), 1);
    assert_eq!(v.example_sentences()[0].english, "I eat breakfast.");
    assert_eq!(v.jlpt_level(), JLPTLevel::N5);
    let g = grammar();
    assert_eq!(g.correct_answer(), "Permission");
    assert_eq!(g.wrong_answers(), ["Obligation".to_string()]);
    assert!(g.example_sentences().is_empty());
    assert_eq!(g.jlpt_level(), JLPTLevel::N4);
}

#[test]
fn copies_hold_the_same() {
    let v = vocabulary();
    let copy = v.clone();
    assert_eq!(copy, v);
    assert!(copy.same(&v));
    assert!(!v.same(&grammar()));
    let card = FlashCard::fresh("c1".to_string(), "d1".to_string(), v, Timestamp::from_millis(7));
    let twin = card.duplicate();
    assert_eq!(twin, card);
    assert!(twin.same(&card));
    let mut other = card.clone();
    other.srs_data.interval = 3;
    assert!(!other.same(&card));
    let mut renamed = card.clone();
    renamed.deck_id.push('x');
    assert!(!renamed.same(&card));
}

#[test]
fn vectors_are_copied_and_compared_by_contents() {
    let a = vec!["x".to_string(), "y".to_string()];
    let b = duplicate_all(&a);
    assert_eq!(a, b);
    assert!(same_all(&a, &b));
    assert!(!same_all(&a, &vec!["x".to_string()]));
    assert!(!same_all(&a, &vec!["x".to_string(), "z".to_string()]));
    assert!(same_all::<String>(&vec![], &vec![]));
}

#[test]
fn fresh_card_is_new_and_due() {
    let now = Timestamp::from_millis(1234);
    let card = FlashCard::fresh("c1".to_string(), "d1".to_string(), grammar(), now);
    assert_eq!(card.id, "c1");
    assert_eq!(card.deck_id, "d1");
    assert_eq!(card.card_type, grammar());
    assert_eq!(card.srs_data, SRSData::initial(now));
    assert_eq!(card.created_at, now);
    assert_eq!(card.updated_at, now);
}

#[test]
fn new_review_state_leaves_the_rest() {
    let card = FlashCard::fresh("c1".to_string(), "d1".to_string(), grammar(), Timestamp::from_millis(1));
    let state = SRSData {
        ease_factor: 260,
        interval: 1,
        repetitions: 1,
        next_review: Timestamp::from_millis(99),
        is_new: false,
    };
    let changed = card.with_srs(state, Timestamp::from_millis(50));
    assert_eq!(changed.id, card.id);
    assert_eq!(changed.deck_id, card.deck_id);
    assert_eq!(changed.card_type, card.card_type);
    assert_eq!(changed.created_at, card.created_at);
    assert_eq!(changed.srs_data, state);
    assert_eq!(changed.updated_at, Timestamp::from_millis(50));
}

fn card_due(id: &str, due_at: i64, is_new: bool) -> FlashCard {
    let mut card = FlashCard::fresh(id.to_string(), "d1".to_string(), vocabulary(), Timestamp::from_millis(0));
    card.srs_data.next_review = Timestamp::from_millis(due_at);
    card.srs_data.is_new = is_new;
    card
}

#[test]
fn deck_counts() {
    let deck = Deck::fresh("d1".to_string(), "Verbs".to_string(), "".to_string(), Timestamp::from_millis(0));
    let cards = vec![card_due("a", 10, false), card_due("b", 20, true), card_due("c", 30, false)];
    let info = DeckInfo::summarize(&deck, &cards, Timestamp::from_millis(20));
    assert_eq!(
        info,
        DeckInfo { id: "d1".to_string(), name: "Verbs".to_string(), total_cards: 3, due_cards: 2, new_cards: 1 }
    );
    let none = DeckInfo::summarize(&deck, &vec![], Timestamp::from_millis(20));
    assert_eq!((none.total_cards, none.due_cards, none.new_cards), (0, 0, 0));
    let all = DeckInfo::summarize(&deck, &cards, Timestamp::from_millis(i64::MAX));
    assert_eq!(all.due_cards, 3);
    let early = DeckInfo::summarize(&deck, &cards, Timestamp::from_millis(9));
    assert_eq!(early.due_cards, 0);
    assert_eq!(early.new_cards, 1);
}

fn text_of(body: &str) -> LearningText {
    LearningText {
        id: "t1".to_string(),
        title: "Title".to_string(),
        original_text: body.to_string(),
        tokenized_segments: vec![WordSegment {
            surface: "今日".to_string(),
            reading: "きょう".to_string(),
            base_form: "今日".to_string(),
            explanation: None,
            is_selected: false,
        }],
        created_at: Timestamp::from_millis(0),
        updated_at: Timestamp::from_millis(0),
    }
}

#[test]
fn preview_is_the_first_hundred_characters() {
    assert_eq!(PREVIEW_CHARS, 100);
    let short = TextInfo::project(&text_of("短い文"), "label".to_string());
    assert_eq!(short.preview, "短い文");
    assert_eq!(short.id, "t1");
    assert_eq!(short.title, "Title");
    assert_eq!(short.created_at, "label");
    let exactly: String = "あ".repeat(100);
    assert_eq!(TextInfo::project(&text_of(&exactly), String::new()).preview, exactly);
    let longer: String = "あ".repeat(101);
    let cut = TextInfo::project(&text_of(&longer), String::new());
    assert_eq!(cut.preview, exactly);
    assert_eq!(cut.preview.chars().count(), 100);
    let mixed: String = "aあ".repeat(80);
    let cut = TextInfo::project(&text_of(&mixed), String::new());
    assert_eq!(cut.preview, "aあ".repeat(50));
    assert_eq!(TextInfo::project(&text_of(""), String::new()).preview, "");
}

#[test]
fn preview_leaves_the_text_alone() {
    let longer: String = "あ".repeat(150);
    let text = text_of(&longer);
    let _ = TextInfo::project(&text, String::new());
    assert_eq!(text.original_text, longer);
}

#[test]
fn text_helpers() {
    assert!(starts_with("d10", "d1"));
    assert!(starts_with("d1", "d1"));
    assert!(starts_with("d1", ""));
    assert!(starts_with("", ""));
    assert!(!starts_with("d1", "d10"));
    assert!(!starts_with("d2", "d1"));
    assert!(!starts_with("", "d"));
    assert!(starts_with("日本語", "日本"));
    assert!(!starts_with("日本語", "本"));
    assert!(same_text("abc", "abc"));
    assert!(same_text("", ""));
    assert!(!same_text("abc", "ab"));
    assert!(!same_text("ab", "abc"));
    assert!(!same_text("abc", "abd"));
    assert_eq!(truncate_chars("hello", 2), "he");
    assert_eq!(truncate_chars("hello", 5), "hello");
    assert_eq!(truncate_chars("hello", 9), "hello");
    assert_eq!(truncate_chars("hello", 0), "");
    assert_eq!(truncate_chars("日本語", 2), "日本");
    assert_eq!(labelled("a: ", "b"), "a: b");
    assert_eq!(enclosed("<", "x", ">"), "<x>");
}

#[test]
fn quiz_states() {
    assert!(!QuizState::Question.is_answered());
    assert!(QuizState::AnswerCorrect.is_answered());
    assert!(QuizState::AnswerIncorrect { selected: 2, correct: 0 }.is_answered());
    assert!(!QuizState::Question.is_correct());
    assert!(QuizState::AnswerCorrect.is_correct());
    assert!(!QuizState::AnswerIncorrect { selected: 2, correct: 0 }.is_correct());
}

#[test]
fn themes() {
    assert_eq!(AppTheme::default(), AppTheme::Dark);
    assert_eq!(AppTheme::Dark.toggle(), AppTheme::Light);
    assert_eq!(AppTheme::Light.toggle(), AppTheme::Dark);
    assert_eq!(AppTheme::Dark.toggle().toggle(), AppTheme::Dark);
    assert!(AppTheme::Dark.is_dark());
    assert!(!AppTheme::Light.is_dark());
    assert_eq!(AppTheme::for_dark_mode(true), AppTheme::Dark);
    assert_eq!(AppTheme::for_dark_mode(false), AppTheme::Light);
}

#[test]
fn constants_hold_their_values() {
    assert_eq!(constants::ui::MIN_FONT_SIZE, 12);
    assert_eq!(constants::ui::MAX_FONT_SIZE, 32);
    assert_eq!(constants::ui::DEFAULT_FONT_SIZE, 18);
    assert_eq!(constants::srs::DEFAULT_DAILY_REVIEW_LIMIT, 20);
    assert_eq!(constants::srs::DEFAULT_NEW_CARDS_PER_DAY, 10);
    assert_eq!(constants::app::NAME, "NihonRS");
}

#[test]
fn errors_in_words() {
    assert_eq!(AppError::LLM("x".to_string()).to_string(), "LLM Error: x");
    assert_eq!(AppError::Database("x".to_string()).to_string(), "Database Error: x");
    assert_eq!(AppError::Tokenizer("x".to_string()).to_string(), "Tokenizer Error: x");
    assert_eq!(AppError::Config("x".to_string()).to_string(), "Configuration Error: x");
    assert_eq!(AppError::Validation("x".to_string()).to_string(), "Validation Error: x");
    assert_eq!(AppError::Network("x".to_string()).to_string(), "Network Error: x");
    assert_eq!(AppError::Other("x".to_string()).to_string(), "Error: x");
    assert_eq!(
        DatabaseError::ConnectionError("x".to_string()).to_string(),
        "Database connection error: x"
    );
    assert_eq!(DatabaseError::QueryError("x".to_string()).to_string(), "Query error: x");
    assert_eq!(
        DatabaseError::SerializationError("x".to_string()).to_string(),
        "Serialization error: x"
    );
    assert_eq!(
        LLMError::NotConfigured.to_string(),
        "LLM service not configured. Please add your API key in settings."
    );
    assert_eq!(LLMError::NetworkError("x".to_string()).to_string(), "Network error: x");
    assert_eq!(LLMError::ApiError("x".to_string()).to_string(), "API error: x");
    assert_eq!(LLMError::ParseError("x".to_string()).to_string(), "Parse error: x");
    assert_eq!(
        TokenizerError::InitializationError("x".to_string()).to_string(),
        "Tokenizer initialization error: x"
    );
    assert_eq!(TokenizerError::ParseError("x".to_string()).to_string(), "Parse error: x");
}

#[test]
fn service_errors_become_application_errors() {
    assert_eq!(
        AppError::from(DatabaseError::QueryError("gone".to_string())),
        AppError::Database("Query error: gone".to_string())
    );
    assert_eq!(
        AppError::from(LLMError::ApiError("down".to_string())),
        AppError::LLM("API error: down".to_string())
    );
    assert_eq!(
        AppError::from(TokenizerError::ParseError("bad".to_string())),
        AppError::Tokenizer("Parse error: bad".to_string())
    );
    let converted: AppError = DatabaseError::ConnectionError("x".to_string()).into();
    assert_eq!(converted.to_string(), "Database Error: Database connection error: x");
}

#[test]
fn white_space_is_not_content() {
    assert!(!has_content(""));
    assert!(has_content(" "));
    assert!(has_content("a"));
    assert!(!is_filled(""));
    assert!(!is_filled(" \t\r\n"));
    assert!(!is_filled("\u{3000}\u{a0}"));
    assert!(is_filled(" a "));
    assert!(is_filled("日"));
}

#[test]
fn review_state_under_the_floor_is_refused() {
    let due = Timestamp::from_millis(3);
    assert_eq!(SRSData::new(129, 1, 1, due, false), None);
    assert_eq!(SRSData::new(0, 0, 0, due, true), None);
    assert_eq!(
        SRSData::new(130, 4, 2, due, false),
        Some(SRSData { ease_factor: 130, interval: 4, repetitions: 2, next_review: due, is_new: false })
    );
    assert!(SRSData::new(250, 0, 0, due, true).unwrap().is_valid());
    assert!(SRSData::initial(due).is_valid());
    let low = SRSData { ease_factor: 100, interval: 0, repetitions: 0, next_review: due, is_new: true };
    assert!(!low.is_valid());
}
