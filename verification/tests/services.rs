use nihonrs::models::word::{ExampleSentence, WordExplanation, WordSegment};
use nihonrs::services::llm::LLMService;
use nihonrs::services::tokenizer::TokenizerService;

#[test]
fn tutor_without_a_key_is_not_configured() {
    let mut tutor = LLMService::new(None, "beginner".to_string());
    assert!(!tutor.is_configured());
    tutor.set_api_key("SECRET-KEY".to_string());
    assert!(tutor.is_configured());
    tutor.set_user_context("advanced".to_string());
    assert!(tutor.is_configured());
    assert!(LLMService::new(Some("k".to_string()), String::new()).is_configured());
}

#[test]
fn tutor_explains_with_fixed_sentences() {
    let tutor = LLMService::new(None, String::new());
    assert_eq!(
        tutor.explain_word("食べます", "たべます", "食べる"),
        Ok(WordExplanation {
            meaning: "Meaning of '食べます'".to_string(),
            grammar_notes: Some("Grammar notes for '食べる'".to_string()),
            examples: vec![ExampleSentence {
                japanese: "食べますの例文".to_string(),
                english: "Example sentence with 食べます".to_string(),
            }],
            jlpt_level: "N5".to_string(),
        })
    );
}

#[test]
fn tutor_answers_with_a_fixed_sentence() {
    let tutor = LLMService::new(None, String::new());
    assert_eq!(
        tutor.answer_question("why は?", "今日は"),
        Ok("Answer to: 'why は?' (with context: 今日は)".to_string())
    );
    assert_eq!(tutor.answer_question("", ""), Ok("Answer to: '' (with context: )".to_string()));
}

fn segment(c: &str) -> WordSegment {
    WordSegment {
        surface: c.to_string(),
        reading: c.to_string(),
        base_form: c.to_string(),
        explanation: None,
        is_selected: false,
    }
}

#[test]
fn tokenizer_cuts_into_characters() {
    let tokenizer = TokenizerService::new().expect("the tokenizer always starts");
    assert_eq!(tokenizer.tokenize(""), Ok(vec![]));
    assert_eq!(tokenizer.tokenize("今日は"), Ok(vec![segment("今"), segment("日"), segment("は")]));
    assert_eq!(tokenizer.tokenize("aあ"), Ok(vec![segment("a"), segment("あ")]));
    assert_eq!(TokenizerService::default().tokenize("x"), Ok(vec![segment("x")]));
}

#[test]
fn tokenizer_has_no_readings_yet() {
    let tokenizer = TokenizerService::new().unwrap();
    assert_eq!(tokenizer.get_furigana("今日は"), Ok(vec![]));
}
