use nihonrs::models::deck::{DeckInfo, LearningText, TextInfo};
use nihonrs::models::flashcard::{CardType, FlashCard, SRSData, VocabularyCard};
use nihonrs::models::word::{ExampleSentence, JLPTLevel, WordExplanation, WordSegment};
use nihonrs::services::database::{DatabaseError, DatabaseService};
use nihonrs::srs::{Quality, ReviewOutcome};
use nihonrs::time::{Timestamp, MILLIS_PER_DAY};

fn at(millis: i64) -> Timestamp {
    Timestamp::from_millis(millis)
}

fn word(meaning: &str) -> CardType {
    CardType::Vocabulary(VocabularyCard {
        kanji: "勉強".to_string(),
        hiragana: "べんきょう".to_string(),
        romaji: "benkyou".to_string(),
        meaning: meaning.to_string(),
        wrong_answers: vec!["work".to_string(), "school".to_string()],
        example_sentences: vec![ExampleSentence {
            japanese: "毎日日本語を勉強しています。".to_string(),
            english: "I study Japanese every day.".to_string(),
        }],
        jlpt_level: JLPTLevel::N5,
    })
}

fn service() -> DatabaseService {
    DatabaseService::new_in_memory().expect("a store in memory always opens")
}

fn saved_text(id: &str, body: &str, created: i64) -> LearningText {
    LearningText {
        id: id.to_string(),
        title: "Lesson".to_string(),
        original_text: body.to_string(),
        tokenized_segments: vec![WordSegment {
            surface: "今日".to_string(),
            reading: "きょう".to_string(),
            base_form: "今日".to_string(),
            explanation: Some(WordExplanation {
                meaning: "today".to_string(),
                grammar_notes: None,
                examples: vec![],
                jlpt_level: "N5".to_string(),
            }),
            is_selected: false,
        }],
        created_at: at(created),
        updated_at: at(created),
    }
}

#[test]
fn new_service_is_empty() {
    let db = service();
    assert_eq!(db.load_decks_at(at(0)), Ok(vec![]));
    assert_eq!(db.load_texts(), Ok(vec![]));
    assert_eq!(db.get_deck_cards("d1"), Ok(vec![]));
    assert_eq!(db.get_card("c1"), Ok(None));
    assert_eq!(db.get_text("t1"), Ok(None));
    assert_eq!(db.load_settings("theme"), Ok(None));
    assert_eq!(db.get_cached_response("k"), Ok(None));
}

#[test]
fn saved_card_is_new_and_due() {
    let mut db = service();
    assert_eq!(db.save_card_at("c1".to_string(), "d1".to_string(), word("study"), at(500)), Ok(()));
    let stored = db.get_card("c1").unwrap().unwrap();
    assert_eq!(stored, FlashCard::fresh("c1".to_string(), "d1".to_string(), word("study"), at(500)));
    assert_eq!(stored.srs_data.ease_factor, 250);
    assert_eq!(stored.srs_data.interval, 0);
    assert_eq!(stored.srs_data.repetitions, 0);
    assert_eq!(stored.srs_data.next_review, at(500));
    assert!(stored.srs_data.is_new);
    assert_eq!(stored.created_at, at(500));
    assert_eq!(stored.updated_at, at(500));
}

#[test]
fn card_with_a_taken_identifier_is_refused() {
    let mut db = service();
    assert_eq!(db.save_card_at("c1".to_string(), "d1".to_string(), word("study"), at(1)), Ok(()));
    assert_eq!(
        db.save_card_at("c1".to_string(), "d2".to_string(), word("other"), at(2)),
        Err(DatabaseError::QueryError("Duplicate key: c1".to_string()))
    );
    let stored = db.get_card("c1").unwrap().unwrap();
    assert_eq!(stored.deck_id, "d1");
    assert_eq!(stored.card_type, word("study"));
    assert_eq!(db.get_deck_cards("d").unwrap().len(), 1);
}

#[test]
fn reviews_follow_the_schedule() {
    let mut db = service();
    assert_eq!(db.save_card_at("c1".to_string(), "d1".to_string(), word("study"), at(0)), Ok(()));

    assert_eq!(db.record_review_at("c1", ReviewOutcome::Correct, at(10)), Ok(()));
    let first = db.get_card("c1").unwrap().unwrap();
    assert_eq!(first.srs_data.repetitions, 1);
    assert_eq!(first.srs_data.interval, 1);
    assert_eq!(first.srs_data.ease_factor, 260);
    assert!(!first.srs_data.is_new);
    assert_eq!(first.srs_data.next_review, at(10 + MILLIS_PER_DAY));
    assert_eq!(first.updated_at, at(10));
    assert_eq!(first.created_at, at(0));

    assert_eq!(db.record_review_at("c1", ReviewOutcome::Correct, at(20)), Ok(()));
    let second = db.get_card("c1").unwrap().unwrap();
    assert_eq!(second.srs_data.repetitions, 2);
    assert_eq!(second.srs_data.interval, 6);
    assert_eq!(second.srs_data.ease_factor, 270);
    assert_eq!(second.srs_data.next_review, at(20 + 6 * MILLIS_PER_DAY));

    assert_eq!(db.record_review_at("c1", ReviewOutcome::Incorrect, at(30)), Ok(()));
    let third = db.get_card("c1").unwrap().unwrap();
    assert_eq!(third.srs_data.repetitions, 0);
    assert_eq!(third.srs_data.interval, 1);
    assert_eq!(third.srs_data.ease_factor, 238);
    assert!(third.srs_data.ease_factor < second.srs_data.ease_factor);
    assert!(third.srs_data.ease_factor >= 130);
    assert_eq!(third.updated_at, at(30));

    // what the card asks and where it belongs never moved
    assert_eq!(third.id, "c1");
    assert_eq!(third.deck_id, "d1");
    assert_eq!(third.card_type, word("study"));
    assert_eq!(third.created_at, at(0));
}

#[test]
fn graded_reviews_follow_the_schedule() {
    let mut db = service();
    assert_eq!(db.save_card_at("c1".to_string(), "d1".to_string(), word("study"), at(0)), Ok(()));
    assert_eq!(db.record_grade_at("c1", Quality::Hard, at(10)), Ok(()));
    let stored = db.get_card("c1").unwrap().unwrap();
    assert_eq!(
        stored.srs_data,
        SRSData {
            ease_factor: 236,
            interval: 1,
            repetitions: 1,
            next_review: at(10 + MILLIS_PER_DAY),
            is_new: false,
        }
    );
    assert_eq!(db.record_grade_at("c1", Quality::Blackout, at(20)), Ok(()));
    assert_eq!(db.get_card("c1").unwrap().unwrap().srs_data.ease_factor, 156);
    assert_eq!(db.record_grade_at("c1", Quality::Blackout, at(30)), Ok(()));
    assert_eq!(db.get_card("c1").unwrap().unwrap().srs_data.ease_factor, 130);
}

#[test]
fn review_keeps_the_place_of_the_card() {
    let mut db = service();
    for id in ["a", "b", "c"] {
        assert_eq!(db.save_card_at(id.to_string(), "d1".to_string(), word(id), at(0)), Ok(()));
    }
    assert_eq!(db.record_review_at("b", ReviewOutcome::Correct, at(5)), Ok(()));
    let ids: Vec<String> = db.get_deck_cards("d1").unwrap().into_iter().map(|card| card.id).collect();
    assert_eq!(ids, ["a", "b", "c"]);
    assert!(db.get_card("a").unwrap().unwrap().srs_data.is_new);
    assert!(!db.get_card("b").unwrap().unwrap().srs_data.is_new);
    assert!(db.get_card("c").unwrap().unwrap().srs_data.is_new);
}

#[test]
fn review_of_a_missing_card_changes_nothing() {
    let mut db = service();
    assert_eq!(db.save_card_at("c1".to_string(), "d1".to_string(), word("study"), at(0)), Ok(()));
    let before = db.get_card("c1").unwrap();
    assert_eq!(
        db.record_review_at("ghost", ReviewOutcome::Correct, at(10)),
        Err(DatabaseError::QueryError("Card not found: ghost".to_string()))
    );
    assert_eq!(
        db.record_grade_at("ghost", Quality::Good, at(10)),
        Err(DatabaseError::QueryError("Card not found: ghost".to_string()))
    );
    assert!(matches!(
        db.record_review("ghost", ReviewOutcome::Incorrect),
        Err(DatabaseError::QueryError(_))
    ));
    assert_eq!(db.get_card("ghost"), Ok(None));
    assert_eq!(db.get_card("c1").unwrap(), before);
    assert_eq!(db.get_deck_cards("").unwrap().len(), 1);
}

#[test]
fn review_on_an_empty_store_is_refused() {
    let mut db = service();
    assert!(matches!(
        db.record_review_at("c1", ReviewOutcome::Correct, at(0)),
        Err(DatabaseError::QueryError(_))
    ));
    assert_eq!(db.get_card("c1"), Ok(None));
}

#[test]
fn deck_list_counts_due_and_new_cards() {
    let mut db = service();
    let now = at(1_000_000);
    assert_eq!(db.create_deck_at("d1".to_string(), "Verbs".to_string(), "".to_string(), at(0)), Ok(()));
    // due and new
    assert_eq!(db.save_card_at("a".to_string(), "d1".to_string(), word("a"), at(100)), Ok(()));
    // due, reviewed: answered wrong a day and more ago
    assert_eq!(db.save_card_at("b".to_string(), "d1".to_string(), word("b"), at(100)), Ok(()));
    assert_eq!(
        db.record_review_at("b", ReviewOutcome::Incorrect, at(1_000_000 - MILLIS_PER_DAY)),
        Ok(())
    );
    // not due, reviewed
    assert_eq!(db.save_card_at("c".to_string(), "d1".to_string(), word("c"), at(100)), Ok(()));
    assert_eq!(db.record_review_at("c", ReviewOutcome::Correct, at(999_999)), Ok(()));
    assert_eq!(
        db.load_decks_at(now),
        Ok(vec![DeckInfo {
            id: "d1".to_string(),
            name: "Verbs".to_string(),
            total_cards: 3,
            due_cards: 2,
            new_cards: 1,
        }])
    );
}

#[test]
fn deck_without_cards_counts_zero() {
    let mut db = service();
    assert_eq!(db.create_deck_at("d1".to_string(), "Empty".to_string(), "x".to_string(), at(0)), Ok(()));
    assert_eq!(db.save_card_at("a".to_string(), "other".to_string(), word("a"), at(0)), Ok(()));
    let listed = db.load_decks_at(at(5)).unwrap();
    assert_eq!(listed.len(), 1);
    assert_eq!((listed[0].total_cards, listed[0].due_cards, listed[0].new_cards), (0, 0, 0));
}

#[test]
fn decks_are_listed_in_the_order_they_were_made() {
    let mut db = service();
    for id in ["z", "a", "m"] {
        assert_eq!(db.create_deck_at(id.to_string(), id.to_uppercase(), "".to_string(), at(0)), Ok(()));
    }
    assert_eq!(
        db.create_deck_at("a".to_string(), "again".to_string(), "".to_string(), at(1)),
        Err(DatabaseError::QueryError("Duplicate key: a".to_string()))
    );
    let listed = db.load_decks_at(at(0)).unwrap();
    let names: Vec<&str> = listed.iter().map(|info| info.name.as_str()).collect();
    assert_eq!(names, ["Z", "A", "M"]);
    for info in &listed {
        assert!(info.due_cards <= info.total_cards);
        assert!(info.new_cards <= info.total_cards);
    }
}

#[test]
fn cards_of_a_deck_are_found_by_prefix() {
    let mut db = service();
    assert_eq!(db.save_card_at("a".to_string(), "d1".to_string(), word("a"), at(0)), Ok(()));
    assert_eq!(db.save_card_at("b".to_string(), "d2".to_string(), word("b"), at(0)), Ok(()));
    assert_eq!(db.save_card_at("c".to_string(), "d10".to_string(), word("c"), at(0)), Ok(()));
    let ids = |cards: Vec<FlashCard>| cards.into_iter().map(|card| card.id).collect::<Vec<_>>();
    assert_eq!(ids(db.get_deck_cards("d1").unwrap()), ["a", "c"]);
    assert_eq!(ids(db.get_deck_cards("d2").unwrap()), ["b"]);
    assert_eq!(ids(db.get_deck_cards("d10").unwrap()), ["c"]);
    assert!(db.get_deck_cards("x").unwrap().is_empty());
}

#[test]
fn last_cached_answer_wins() {
    let mut db = service();
    assert_eq!(db.cache_llm_response_at("k", "v1", at(1)), Ok(()));
    assert_eq!(db.get_cached_response("k"), Ok(Some("v1".to_string())));
    assert_eq!(db.cache_llm_response_at("k", "v2", at(2)), Ok(()));
    assert_eq!(db.get_cached_response("k"), Ok(Some("v2".to_string())));
    assert_eq!(db.cache_llm_response_at("other", "x", at(3)), Ok(()));
    assert_eq!(db.get_cached_response("k"), Ok(Some("v2".to_string())));
    assert_eq!(db.get_cached_response("other"), Ok(Some("x".to_string())));
    assert_eq!(db.get_cached_response("missing"), Ok(None));
    assert_eq!(db.cache_llm_response("k", "v3"), Ok(()));
    assert_eq!(db.get_cached_response("k"), Ok(Some("v3".to_string())));
}

#[test]
fn settings_are_upserted() {
    let mut db = service();
    assert_eq!(db.load_settings("theme"), Ok(None));
    assert_eq!(db.save_settings_at("theme", "dark", at(1)), Ok(()));
    assert_eq!(db.load_settings("theme"), Ok(Some("dark".to_string())));
    assert_eq!(db.save_settings("theme", "light"), Ok(()));
    assert_eq!(db.load_settings("theme"), Ok(Some("light".to_string())));
    // a cached answer under the same key is another record
    assert_eq!(db.cache_llm_response_at("theme", "answer", at(2)), Ok(()));
    assert_eq!(db.load_settings("theme"), Ok(Some("light".to_string())));
    assert_eq!(db.get_cached_response("theme"), Ok(Some("answer".to_string())));
}

#[test]
fn texts_are_saved_and_read_back() {
    let mut db = service();
    let text = saved_text("t1", "今日は日本語を勉強します。", 947_638_923_004);
    assert_eq!(db.save_text(text.clone()), Ok(()));
    assert_eq!(db.get_text("t1"), Ok(Some(text.clone())));
    assert_eq!(db.get_text("t2"), Ok(None));
    assert_eq!(
        db.save_text(saved_text("t1", "other", 0)),
        Err(DatabaseError::QueryError("Duplicate key: t1".to_string()))
    );
    assert_eq!(db.get_text("t1"), Ok(Some(text)));
}

#[test]
fn texts_are_listed_with_preview_and_date() {
    let mut db = service();
    let long: String = "日本語".repeat(50);
    assert_eq!(db.save_text(saved_text("t1", &long, 947_638_923_004)), Ok(()));
    assert_eq!(db.save_text(saved_text("t2", "短い", 0)), Ok(()));
    assert_eq!(db.save_text(saved_text("t3", "", 1_700_000_000_000)), Ok(()));
    let first: String = long.chars().take(100).collect();
    assert_eq!(
        db.load_texts(),
        Ok(vec![
            TextInfo {
                id: "t1".to_string(),
                title: "Lesson".to_string(),
                preview: first,
                created_at: "2000-01-12 01:02".to_string(),
            },
            TextInfo {
                id: "t2".to_string(),
                title: "Lesson".to_string(),
                preview: "短い".to_string(),
                created_at: "1970-01-01 00:00".to_string(),
            },
            TextInfo {
                id: "t3".to_string(),
                title: "Lesson".to_string(),
                preview: "".to_string(),
                created_at: "2023-11-14 22:13".to_string(),
            },
        ])
    );
    // the stored text is whole
    assert_eq!(db.get_text("t1").unwrap().unwrap().original_text, long);
}

#[test]
fn text_saved_outside_the_calendar_has_no_date() {
    let mut db = service();
    assert_eq!(db.save_text(saved_text("t1", "x", i64::MAX)), Ok(()));
    assert_eq!(db.load_texts().unwrap()[0].created_at, "");
}

#[test]
fn clock_stamps_what_is_stored() {
    let before = Timestamp::now();
    let mut db = service();
    assert_eq!(db.create_deck("d1".to_string(), "Deck".to_string(), "".to_string()), Ok(()));
    assert_eq!(db.save_card("c1".to_string(), "d1".to_string(), word("study")), Ok(()));
    let card = db.get_card("c1").unwrap().unwrap();
    let after = Timestamp::now();
    // later than the first of January 2024, and between the two readings
    assert!(before.millis > 1_704_067_200_000);
    assert!(before.millis <= card.created_at.millis && card.created_at.millis <= after.millis);
    assert_eq!(card.created_at, card.updated_at);
    assert_eq!(card.srs_data.next_review, card.created_at);
    assert_eq!(db.load_decks().unwrap()[0].due_cards, 1);
    assert_eq!(db.record_review("c1", ReviewOutcome::Correct), Ok(()));
    let reviewed = db.get_card("c1").unwrap().unwrap();
    assert!(reviewed.updated_at.millis >= card.updated_at.millis);
    assert_eq!(reviewed.srs_data.next_review, reviewed.updated_at.plus_days(1));
    assert_eq!(db.load_decks().unwrap()[0].due_cards, 0);
    assert_eq!(db.record_grade("c1", Quality::Good), Ok(()));
    assert_eq!(db.get_card("c1").unwrap().unwrap().srs_data.repetitions, 2);
}

#[test]
fn dates_are_written_to_the_minute() {
    assert_eq!(at(0).minute_label(), Some("1970-01-01 00:00".to_string()));
    assert_eq!(at(59_999).minute_label(), Some("1970-01-01 00:00".to_string()));
    assert_eq!(at(60_000).minute_label(), Some("1970-01-01 00:01".to_string()));
    assert_eq!(at(-1).minute_label(), Some("1969-12-31 23:59".to_string()));
    assert_eq!(at(947_638_923_004).minute_label(), Some("2000-01-12 01:02".to_string()));
    assert_eq!(at(i64::MAX).minute_label(), None);
    assert_eq!(at(i64::MIN).minute_label(), None);
}
