use german_learn::error::AppError;
use german_learn::flashcard::dto::{NextCardQuery, ReviewRequest};
use german_learn::flashcard::schedule::{select_next, CardRank};
use german_learn::flashcard::service::{
    normalize_part_of_speech, parse_status_filter, FlashcardService,
};
use german_learn::model::{
    PartOfSpeech, ProgressRecord, ReviewStatus, StatusFilter, VocabularyEntry,
};

fn sched_entry(id: i32, part: PartOfSpeech, owner: Option<&str>, created: Option<i64>) -> VocabularyEntry {
    VocabularyEntry {
        entry_id: id,
        word: format!("word{}", id),
        part_of_speech: part,
        user_owner: owner.map(|o| o.to_string()),
        english: None,
        meaning: None,
        examples: None,
        themes: None,
        source_table: "test".to_string(),
        source_created_time: created,
        extra: None,
    }
}

fn sched_record(user: &str, entry: i32, status: ReviewStatus, seen: i32, mastered: i32) -> ProgressRecord {
    ProgressRecord {
        user_id: user.to_string(),
        entry_id: entry,
        status,
        times_seen: seen,
        times_mastered: mastered,
        last_seen_at: Some(1_000),
        created_at: 1_000,
        updated_at: 1_000,
    }
}

fn sched_query(part: Option<&str>, status: Option<&str>) -> NextCardQuery {
    NextCardQuery {
        part_of_speech: part.map(|p| p.to_string()),
        status: status.map(|s| s.to_string()),
    }
}

#[test]
fn next_card_on_empty_catalog_is_none() {
    let service = FlashcardService::new(Vec::new());
    let card = service.get_next_card("u", NextCardQuery::default()).unwrap();
    assert!(card.is_none());
}

#[test]
fn next_card_prefers_unseen_over_seen() {
    let mut service = FlashcardService::new(vec![
        sched_entry(1, PartOfSpeech::Noun, None, Some(10)),
        sched_entry(2, PartOfSpeech::Noun, None, Some(5)),
    ]);
    assert!(service.restore_progress(sched_record("u", 2, ReviewStatus::Learning, 2, 0)));
    let card = service.get_next_card("u", sched_query(Some("noun"), None)).unwrap().unwrap();
    assert_eq!(card.entry_id, 1);
    assert_eq!(card.status, None);
    assert_eq!(card.times_seen, 0);
    assert_eq!(card.times_mastered, 0);
    assert_eq!(card.last_seen_at, None);
    assert_eq!(card.part_of_speech, "noun");
    assert_eq!(card.word, "word1");
}

#[test]
fn next_card_new_before_seen_once() {
    let mut service = FlashcardService::new(vec![
        sched_entry(1, PartOfSpeech::Verb, None, Some(1)),
        sched_entry(2, PartOfSpeech::Verb, None, Some(2)),
    ]);
    assert!(service.restore_progress(sched_record("u", 1, ReviewStatus::Learning, 1, 0)));
    let card = service.get_next_card("u", NextCardQuery::default()).unwrap().unwrap();
    assert_eq!(card.entry_id, 2);
}

#[test]
fn next_card_holds_back_mastered_by_default() {
    let mut service = FlashcardService::new(vec![
        sched_entry(1, PartOfSpeech::Noun, None, None),
        sched_entry(2, PartOfSpeech::Verb, Some("u"), None),
        sched_entry(3, PartOfSpeech::Verb, Some("someone-else"), None),
    ]);
    assert!(service.restore_progress(sched_record("u", 1, ReviewStatus::Mastered, 1, 1)));
    assert!(service.restore_progress(sched_record("u", 2, ReviewStatus::Mastered, 3, 2)));
    assert!(service.get_next_card("u", NextCardQuery::default()).unwrap().is_none());
    assert!(service.get_next_card("u", sched_query(None, Some("all"))).unwrap().is_none());
    let card = service.get_next_card("u", sched_query(None, Some("mastered"))).unwrap().unwrap();
    assert_eq!(card.entry_id, 1);
    assert_eq!(card.status.as_deref(), Some("mastered"));
}

#[test]
fn next_card_fewest_reviews_first() {
    let mut service = FlashcardService::new(vec![
        sched_entry(1, PartOfSpeech::Noun, None, Some(1)),
        sched_entry(2, PartOfSpeech::Noun, None, Some(2)),
        sched_entry(3, PartOfSpeech::Noun, None, Some(3)),
    ]);
    assert!(service.restore_progress(sched_record("u", 1, ReviewStatus::Learning, 4, 0)));
    assert!(service.restore_progress(sched_record("u", 2, ReviewStatus::Learning, 2, 1)));
    assert!(service.restore_progress(sched_record("u", 3, ReviewStatus::Learning, 3, 0)));
    let card = service.get_next_card("u", NextCardQuery::default()).unwrap().unwrap();
    assert_eq!(card.entry_id, 2);
    assert_eq!(card.times_seen, 2);
    assert_eq!(card.times_mastered, 1);
    assert_eq!(card.status.as_deref(), Some("learning"));
}

#[test]
fn next_card_oldest_entry_first_and_unknown_age_before_all() {
    let service = FlashcardService::new(vec![
        sched_entry(1, PartOfSpeech::Noun, None, Some(300)),
        sched_entry(2, PartOfSpeech::Noun, None, Some(100)),
        sched_entry(3, PartOfSpeech::Noun, None, Some(200)),
    ]);
    let card = service.get_next_card("u", NextCardQuery::default()).unwrap().unwrap();
    assert_eq!(card.entry_id, 2);
    let service = FlashcardService::new(vec![
        sched_entry(1, PartOfSpeech::Noun, None, Some(-5)),
        sched_entry(2, PartOfSpeech::Noun, None, None),
    ]);
    let card = service.get_next_card("u", NextCardQuery::default()).unwrap().unwrap();
    assert_eq!(card.entry_id, 2);
}

#[test]
fn next_card_lowest_id_breaks_ties() {
    let service = FlashcardService::new(vec![
        sched_entry(9, PartOfSpeech::Noun, None, Some(7)),
        sched_entry(4, PartOfSpeech::Noun, None, Some(7)),
        sched_entry(6, PartOfSpeech::Noun, None, Some(7)),
    ]);
    let card = service.get_next_card("u", NextCardQuery::default()).unwrap().unwrap();
    assert_eq!(card.entry_id, 4);
}

#[test]
fn next_card_is_the_same_on_repeated_calls() {
    let mut service = FlashcardService::new(vec![
        sched_entry(3, PartOfSpeech::Noun, None, Some(7)),
        sched_entry(1, PartOfSpeech::Verb, None, Some(7)),
        sched_entry(2, PartOfSpeech::AdjectiveAdverb, None, Some(2)),
    ]);
    assert!(service.restore_progress(sched_record("u", 2, ReviewStatus::Learning, 1, 0)));
    let first = service.get_next_card("u", NextCardQuery::default()).unwrap().unwrap();
    let second = service.get_next_card("u", NextCardQuery::default()).unwrap().unwrap();
    assert_eq!(first.entry_id, 1);
    assert_eq!(second.entry_id, 1);
}

#[test]
fn next_card_sees_global_and_own_entries_only() {
    let service = FlashcardService::new(vec![
        sched_entry(1, PartOfSpeech::Noun, Some("other"), Some(1)),
        sched_entry(2, PartOfSpeech::Noun, Some("me"), Some(2)),
        sched_entry(3, PartOfSpeech::Noun, None, Some(3)),
    ]);
    let card = service.get_next_card("me", NextCardQuery::default()).unwrap().unwrap();
    assert_eq!(card.entry_id, 2);
    let card = service.get_next_card("stranger", NextCardQuery::default()).unwrap().unwrap();
    assert_eq!(card.entry_id, 3);
}

#[test]
fn next_card_progress_of_other_users_does_not_count() {
    let mut service = FlashcardService::new(vec![
        sched_entry(1, PartOfSpeech::Noun, None, Some(1)),
        sched_entry(2, PartOfSpeech::Noun, None, Some(2)),
    ]);
    assert!(service.restore_progress(sched_record("other", 1, ReviewStatus::Mastered, 5, 5)));
    let card = service.get_next_card("me", NextCardQuery::default()).unwrap().unwrap();
    assert_eq!(card.entry_id, 1);
    assert_eq!(card.status, None);
}

#[test]
fn next_card_filters_by_part_of_speech() {
    let service = FlashcardService::new(vec![
        sched_entry(1, PartOfSpeech::Noun, None, Some(1)),
        sched_entry(2, PartOfSpeech::Verb, None, Some(2)),
        sched_entry(3, PartOfSpeech::AdjectiveAdverb, None, Some(3)),
    ]);
    let card = service.get_next_card("u", sched_query(Some(" V "), None)).unwrap().unwrap();
    assert_eq!(card.entry_id, 2);
    assert_eq!(card.part_of_speech, "verb");
    let card = service.get_next_card("u", sched_query(Some("Adverb"), None)).unwrap().unwrap();
    assert_eq!(card.entry_id, 3);
    assert_eq!(card.part_of_speech, "adjective_adverb");
}

#[test]
fn next_card_filters_by_status() {
    let mut service = FlashcardService::new(vec![
        sched_entry(1, PartOfSpeech::Noun, None, Some(1)),
        sched_entry(2, PartOfSpeech::Noun, None, Some(2)),
        sched_entry(3, PartOfSpeech::Noun, None, Some(3)),
    ]);
    assert!(service.restore_progress(sched_record("u", 1, ReviewStatus::Mastered, 2, 2)));
    assert!(service.restore_progress(sched_record("u", 2, ReviewStatus::Learning, 5, 1)));
    let new = service.get_next_card("u", sched_query(None, Some("NEW"))).unwrap().unwrap();
    assert_eq!(new.entry_id, 3);
    let learning = service.get_next_card("u", sched_query(None, Some("learning"))).unwrap().unwrap();
    assert_eq!(learning.entry_id, 2);
    let mastered = service.get_next_card("u", sched_query(None, Some("Mastered"))).unwrap().unwrap();
    assert_eq!(mastered.entry_id, 1);
    let default = service.get_next_card("u", sched_query(None, None)).unwrap().unwrap();
    assert_eq!(default.entry_id, 3);
}

#[test]
fn next_card_rejects_unknown_part_of_speech() {
    let service = FlashcardService::new(vec![sched_entry(1, PartOfSpeech::Noun, None, None)]);
    match service.get_next_card("u", sched_query(Some(" Pronoun "), Some("bogus"))) {
        Err(AppError::Validation(msg)) => assert_eq!(msg, "unsupported part_of_speech 'pronoun'"),
        other => panic!("unexpected: {:?}", other),
    }
}

#[test]
fn next_card_rejects_unknown_status() {
    let service = FlashcardService::new(vec![sched_entry(1, PartOfSpeech::Noun, None, None)]);
    match service.get_next_card("u", sched_query(Some("noun"), Some("Bogus"))) {
        Err(AppError::Validation(msg)) => assert_eq!(msg, "unsupported filter status 'bogus'"),
        other => panic!("unexpected: {:?}", other),
    }
    match service.get_next_card("u", sched_query(None, Some("ALL"))) {
        Err(AppError::Validation(msg)) => assert_eq!(msg, "unsupported filter status 'all'"),
        other => panic!("unexpected: {:?}", other),
    }
    match service.get_next_card("u", sched_query(None, Some(" new"))) {
        Err(AppError::Validation(msg)) => assert_eq!(msg, "unsupported filter status ' new'"),
        other => panic!("unexpected: {:?}", other),
    }
}

#[test]
fn status_filter_is_read_from_the_request() {
    assert_eq!(parse_status_filter(&None).unwrap(), StatusFilter::Unmastered);
    assert_eq!(parse_status_filter(&Some("all".to_string())).unwrap(), StatusFilter::Unmastered);
    assert_eq!(parse_status_filter(&Some("new".to_string())).unwrap(), StatusFilter::New);
    assert_eq!(parse_status_filter(&Some("LEARNING".to_string())).unwrap(), StatusFilter::Learning);
    assert_eq!(parse_status_filter(&Some("mastered".to_string())).unwrap(), StatusFilter::Mastered);
    assert!(parse_status_filter(&Some("".to_string())).is_err());
}

#[test]
fn part_of_speech_is_normalized() {
    for input in ["noun", "n", " Noun ", "N"] {
        assert_eq!(normalize_part_of_speech(input).unwrap(), PartOfSpeech::Noun);
    }
    for input in ["verb", "v", "VERB\n"] {
        assert_eq!(normalize_part_of_speech(input).unwrap(), PartOfSpeech::Verb);
    }
    for input in ["adjective", "adj", "adverb", "adv", "adjective_adverb", "\tADJ"] {
        assert_eq!(normalize_part_of_speech(input).unwrap(), PartOfSpeech::AdjectiveAdverb);
    }
    match normalize_part_of_speech("  Nomen ") {
        Err(AppError::Validation(msg)) => assert_eq!(msg, "unsupported part_of_speech 'nomen'"),
        other => panic!("unexpected: {:?}", other),
    }
    assert!(normalize_part_of_speech("").is_err());
}

#[test]
fn select_next_gives_the_place_in_the_catalog() {
    let entries = vec![
        sched_entry(5, PartOfSpeech::Noun, None, Some(1)),
        sched_entry(6, PartOfSpeech::Verb, None, Some(0)),
        sched_entry(7, PartOfSpeech::Noun, None, Some(0)),
    ];
    let progress = vec![sched_record("u", 7, ReviewStatus::Learning, 1, 0)];
    assert_eq!(select_next(&entries, &progress, "u", Some(PartOfSpeech::Noun), StatusFilter::Unmastered), Some(0));
    assert_eq!(select_next(&entries, &progress, "u", None, StatusFilter::Unmastered), Some(1));
    assert_eq!(select_next(&entries, &progress, "u", None, StatusFilter::Learning), Some(2));
    assert_eq!(select_next(&entries, &progress, "u", None, StatusFilter::Mastered), None);
}

#[test]
fn card_rank_orders_by_exposure_then_age_then_id() {
    let never = CardRank { seen: None, created: Some(9), id: 9 };
    let once = CardRank { seen: Some(1), created: None, id: 1 };
    let twice = CardRank { seen: Some(2), created: None, id: 0 };
    assert!(never.before(&once));
    assert!(once.before(&twice));
    assert!(!twice.before(&once));
    assert!(!never.before(&never));
    let old = CardRank { seen: Some(1), created: Some(1), id: 5 };
    let young = CardRank { seen: Some(1), created: Some(2), id: 4 };
    assert!(once.before(&old));
    assert!(old.before(&young));
    let low = CardRank { seen: Some(1), created: Some(2), id: 3 };
    assert!(low.before(&young));
    assert!(!young.before(&low));
}

#[test]
fn review_then_next_card_moves_on() {
    let mut service = FlashcardService::new(vec![
        sched_entry(1, PartOfSpeech::Noun, None, Some(1)),
        sched_entry(2, PartOfSpeech::Noun, None, Some(2)),
    ]);
    let first = service.get_next_card("u", NextCardQuery::default()).unwrap().unwrap();
    assert_eq!(first.entry_id, 1);
    service
        .record_review("u", 1, ReviewRequest { result: "learning".to_string(), notes: None }, 50)
        .unwrap();
    let second = service.get_next_card("u", NextCardQuery::default()).unwrap().unwrap();
    assert_eq!(second.entry_id, 2);
    service
        .record_review("u", 2, ReviewRequest { result: "mastered".to_string(), notes: None }, 60)
        .unwrap();
    let third = service.get_next_card("u", NextCardQuery::default()).unwrap().unwrap();
    assert_eq!(third.entry_id, 1);
    assert_eq!(third.times_seen, 1);
}
