use german_learn::error::AppError;
use german_learn::flashcard::dto::{
    extract_string, keep_text, FlashcardMetadata, FlashcardResponse,
};
use german_learn::model::{PartOfSpeech, ProgressRecord, ReviewStatus, VocabularyEntry};
use german_learn::text::{char_is_space, split_clean, trim};
use serde_json::Value;

fn card_object(members: Vec<(&str, Value)>) -> Value {
    let mut map = serde_json::Map::new();
    for (key, value) in members {
        map.insert(key.to_string(), value);
    }
    Value::Object(map)
}

fn card_text(s: &str) -> Value {
    Value::String(s.to_string())
}

fn card_entry(part: PartOfSpeech, extra: Option<Value>) -> VocabularyEntry {
    VocabularyEntry {
        entry_id: 42,
        word: "Haus".to_string(),
        part_of_speech: part,
        user_owner: None,
        english: Some("house".to_string()),
        meaning: Some("a building".to_string()),
        examples: None,
        themes: Some("home".to_string()),
        source_table: "nouns".to_string(),
        source_created_time: Some(5),
        extra,
    }
}

#[test]
fn card_of_a_new_entry() {
    let card = FlashcardResponse::from_models(card_entry(PartOfSpeech::Noun, None), None);
    assert_eq!(card.entry_id, 42);
    assert_eq!(card.word, "Haus");
    assert_eq!(card.part_of_speech, "noun");
    assert_eq!(card.english.as_deref(), Some("house"));
    assert_eq!(card.meaning.as_deref(), Some("a building"));
    assert_eq!(card.examples, None);
    assert_eq!(card.themes.as_deref(), Some("home"));
    assert_eq!(card.status, None);
    assert_eq!(card.times_seen, 0);
    assert_eq!(card.times_mastered, 0);
    assert_eq!(card.last_seen_at, None);
    assert!(card.metadata.is_none());
}

#[test]
fn card_of_a_reviewed_entry() {
    let progress = ProgressRecord {
        user_id: "u".to_string(),
        entry_id: 42,
        status: ReviewStatus::Mastered,
        times_seen: 4,
        times_mastered: 3,
        last_seen_at: Some(1_500_000),
        created_at: 0,
        updated_at: 1_500_000,
    };
    let card = FlashcardResponse::from_models(card_entry(PartOfSpeech::Verb, None), Some(progress));
    assert_eq!(card.part_of_speech, "verb");
    assert_eq!(card.status.as_deref(), Some("mastered"));
    assert_eq!(card.times_seen, 4);
    assert_eq!(card.times_mastered, 3);
    assert_eq!(card.last_seen_at.as_deref(), Some("1970-01-01T00:00:01.500+00:00"));
}

#[test]
fn card_last_seen_is_rfc3339() {
    let progress = |at: Option<i64>| ProgressRecord {
        user_id: "u".to_string(),
        entry_id: 42,
        status: ReviewStatus::Learning,
        times_seen: 1,
        times_mastered: 0,
        last_seen_at: at,
        created_at: 0,
        updated_at: 0,
    };
    let entry = card_entry(PartOfSpeech::Noun, None);
    let card = FlashcardResponse::for_card(&entry, Some(&progress(Some(0))));
    assert_eq!(card.last_seen_at.as_deref(), Some("1970-01-01T00:00:00+00:00"));
    assert_eq!(card.status.as_deref(), Some("learning"));
    let card = FlashcardResponse::for_card(&entry, Some(&progress(Some(1_662_921_288_000_000))));
    assert_eq!(card.last_seen_at.as_deref(), Some("2022-09-11T18:34:48+00:00"));
    let card = FlashcardResponse::for_card(&entry, Some(&progress(None)));
    assert_eq!(card.last_seen_at, None);
    let card = FlashcardResponse::for_card(&entry, Some(&progress(Some(i64::MAX))));
    assert_eq!(card.last_seen_at, None);
}

#[test]
fn metadata_of_a_noun() {
    let extra = card_object(vec![
        ("gender", card_text(" der ")),
        ("plural", card_text("   ")),
        ("suffix", Value::Bool(true)),
        ("other", card_text("ignored")),
    ]);
    let entry = card_entry(PartOfSpeech::Noun, Some(extra));
    match FlashcardMetadata::from_entry(&entry) {
        Some(FlashcardMetadata::Noun { gender, plural, suffix }) => {
            assert_eq!(gender.as_deref(), Some("der"));
            assert_eq!(plural, None);
            assert_eq!(suffix, None);
        }
        other => panic!("unexpected: {:?}", other),
    }
}

#[test]
fn metadata_of_a_verb() {
    let extra = card_object(vec![
        ("present_form", card_text("geht")),
        ("preterite_form", card_text("ging\n")),
        ("perfect_form", card_text("ist gegangen")),
        ("properties", Value::Null),
    ]);
    let entry = card_entry(PartOfSpeech::Verb, Some(extra));
    match FlashcardMetadata::from_entry(&entry) {
        Some(FlashcardMetadata::Verb {
            present_form,
            preterite_form,
            perfect_form,
            properties,
            noun_form,
        }) => {
            assert_eq!(present_form.as_deref(), Some("geht"));
            assert_eq!(preterite_form.as_deref(), Some("ging"));
            assert_eq!(perfect_form.as_deref(), Some("ist gegangen"));
            assert_eq!(properties, None);
            assert_eq!(noun_form, None);
        }
        other => panic!("unexpected: {:?}", other),
    }
}

#[test]
fn metadata_of_an_adjective_with_forms_as_text() {
    let extra = card_object(vec![
        ("attribute", card_text("steigerbar")),
        ("comparison_forms", card_text("schneller, am schnellsten\u{ff1b} rasch;; ")),
    ]);
    let entry = card_entry(PartOfSpeech::AdjectiveAdverb, Some(extra));
    match FlashcardMetadata::from_entry(&entry) {
        Some(FlashcardMetadata::AdjectiveAdverb { attribute, comparison_forms }) => {
            assert_eq!(attribute.as_deref(), Some("steigerbar"));
            assert_eq!(comparison_forms, vec!["schneller", "am schnellsten", "rasch"]);
        }
        other => panic!("unexpected: {:?}", other),
    }
}

#[test]
fn metadata_of_an_adjective_with_forms_as_array() {
    let extra = card_object(vec![(
        "comparison_forms",
        Value::Array(vec![
            card_text(" besser "),
            Value::from(3),
            card_text(""),
            card_text("am besten"),
            Value::Null,
        ]),
    )]);
    let entry = card_entry(PartOfSpeech::AdjectiveAdverb, Some(extra));
    match FlashcardMetadata::from_entry(&entry) {
        Some(FlashcardMetadata::AdjectiveAdverb { attribute, comparison_forms }) => {
            assert_eq!(attribute, None);
            assert_eq!(comparison_forms, vec!["besser", "am besten"]);
        }
        other => panic!("unexpected: {:?}", other),
    }
}

#[test]
fn metadata_of_an_adjective_without_forms() {
    for extra in [
        card_object(vec![]),
        card_object(vec![("comparison_forms", Value::from(1))]),
        card_object(vec![("comparison_forms", Value::Array(Vec::new()))]),
    ] {
        let entry = card_entry(PartOfSpeech::AdjectiveAdverb, Some(extra));
        match FlashcardMetadata::from_entry(&entry) {
            Some(FlashcardMetadata::AdjectiveAdverb { attribute, comparison_forms }) => {
                assert_eq!(attribute, None);
                assert!(comparison_forms.is_empty());
            }
            other => panic!("unexpected: {:?}", other),
        }
    }
}

#[test]
fn metadata_needs_a_json_object() {
    assert!(FlashcardMetadata::from_entry(&card_entry(PartOfSpeech::Noun, None)).is_none());
    for extra in [Value::Null, card_text("gender"), Value::Array(Vec::new()), Value::from(1)] {
        let entry = card_entry(PartOfSpeech::Noun, Some(extra));
        assert!(FlashcardMetadata::from_entry(&entry).is_none());
    }
    let entry = card_entry(PartOfSpeech::Noun, Some(card_object(vec![])));
    match FlashcardMetadata::from_entry(&entry) {
        Some(FlashcardMetadata::Noun { gender: None, plural: None, suffix: None }) => {}
        other => panic!("unexpected: {:?}", other),
    }
}

#[test]
fn card_carries_the_metadata() {
    let extra = card_object(vec![("gender", card_text("das"))]);
    let card = FlashcardResponse::from_models(card_entry(PartOfSpeech::Noun, Some(extra)), None);
    match card.metadata {
        Some(FlashcardMetadata::Noun { gender, .. }) => assert_eq!(gender.as_deref(), Some("das")),
        other => panic!("unexpected: {:?}", other),
    }
}

#[test]
fn extract_string_reads_text_members_only() {
    let data = card_object(vec![
        ("a", card_text("  x y ")),
        ("b", Value::from(2)),
        ("c", card_text("\t\n")),
    ]);
    assert_eq!(extract_string(&data, "a").as_deref(), Some("x y"));
    assert_eq!(extract_string(&data, "b"), None);
    assert_eq!(extract_string(&data, "c"), None);
    assert_eq!(extract_string(&data, "d"), None);
    assert_eq!(extract_string(&card_text("a"), "a"), None);
}

#[test]
fn keep_text_trims_and_drops_blank() {
    assert_eq!(keep_text(None), None);
    assert_eq!(keep_text(Some("".to_string())), None);
    assert_eq!(keep_text(Some(" \u{a0} ".to_string())), None);
    assert_eq!(keep_text(Some(" a ".to_string())).as_deref(), Some("a"));
}

#[test]
fn trim_removes_unicode_white_space() {
    assert_eq!(trim(""), "");
    assert_eq!(trim("   "), "");
    assert_eq!(trim("abc"), "abc");
    assert_eq!(trim("  a b  "), "a b");
    assert_eq!(trim("\u{3000}\u{2003}\u{85}Wort\u{a0}\r\n\t"), "Wort");
    assert_eq!(trim("\u{200b}x\u{200b}"), "\u{200b}x\u{200b}");
    assert_eq!(trim(" \u{fc}ber "), "\u{fc}ber");
}

#[test]
fn white_space_is_what_std_calls_white_space() {
    let mut code: u32 = 0;
    while code <= 0x11_0000 {
        if let Some(c) = char::from_u32(code) {
            assert_eq!(char_is_space(c), c.is_whitespace(), "U+{:04X}", code);
        }
        code += 1;
    }
}

#[test]
fn trim_agrees_with_std() {
    for s in ["", " ", "a", " a", "a ", "\u{1680}a b\u{2028}", "\u{feff}a", "\n\n\u{3000}"] {
        assert_eq!(trim(s), s.trim());
    }
}

#[test]
fn split_clean_splits_trims_and_drops_empty_pieces() {
    let delims = [',', '\n', ';'];
    assert_eq!(split_clean("", &delims), Vec::<String>::new());
    assert_eq!(split_clean(" , ;\n", &delims), Vec::<String>::new());
    assert_eq!(split_clean("Haus", &delims), vec!["Haus"]);
    assert_eq!(split_clean("Haus, Baum;Tisch\n  Stuhl ,", &delims), vec!["Haus", "Baum", "Tisch", "Stuhl"]);
    assert_eq!(split_clean("a b,c", &delims), vec!["a b", "c"]);
    assert_eq!(split_clean("a,b", &[]), vec!["a,b"]);
}

#[test]
fn errors_have_status_kind_and_message() {
    let cases = vec![
        (AppError::NotFound, 404, "not_found", "resource not found"),
        (AppError::Validation("bad value".to_string()), 400, "validation_error", "bad value"),
        (AppError::Database("down".to_string()), 500, "database_error", "database error"),
        (AppError::Unexpected("boom".to_string()), 500, "unexpected_error", "internal server error"),
        (AppError::Unauthorized, 401, "unauthorized", "unauthorized"),
    ];
    for (error, status, kind, message) in cases {
        assert_eq!(error.status_code(), status);
        assert_eq!(error.kind(), kind);
        assert_eq!(error.message(), message);
    }
}
