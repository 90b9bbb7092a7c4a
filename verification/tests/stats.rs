use german_learn::flashcard::dto::ReviewRequest;
use german_learn::flashcard::dto::NextCardQuery;
use german_learn::flashcard::service::FlashcardService;
use german_learn::flashcard::stats::{compute_stats, count_by_status};
use german_learn::model::{PartOfSpeech, ProgressRecord, ReviewStatus, VocabularyEntry};

fn stats_entry(id: i32, part: PartOfSpeech, owner: Option<&str>) -> VocabularyEntry {
    VocabularyEntry {
        entry_id: id,
        word: format!("w{}", id),
        part_of_speech: part,
        user_owner: owner.map(|o| o.to_string()),
        english: None,
        meaning: None,
        examples: None,
        themes: None,
        source_table: "test".to_string(),
        source_created_time: Some(id as i64),
        extra: None,
    }
}

fn stats_record(user: &str, entry: i32, status: ReviewStatus, seen: i32) -> ProgressRecord {
    ProgressRecord {
        user_id: user.to_string(),
        entry_id: entry,
        status,
        times_seen: seen,
        times_mastered: 0,
        last_seen_at: None,
        created_at: 0,
        updated_at: 0,
    }
}

#[test]
fn concrete_scenario_two_nouns() {
    let mut service = FlashcardService::new(vec![
        stats_entry(1, PartOfSpeech::Noun, None),
        stats_entry(2, PartOfSpeech::Noun, None),
    ]);
    assert!(service.restore_progress(ProgressRecord {
        user_id: "u".to_string(),
        entry_id: 2,
        status: ReviewStatus::Learning,
        times_seen: 2,
        times_mastered: 0,
        last_seen_at: Some(5),
        created_at: 1,
        updated_at: 5,
    }));
    let card = service
        .get_next_card(
            "u",
            NextCardQuery { part_of_speech: Some("noun".to_string()), status: None },
        )
        .unwrap()
        .unwrap();
    assert_eq!(card.entry_id, 1);
    let rows_before = service.reviews().len();
    service
        .record_review("u", 1, ReviewRequest { result: "mastered".to_string(), notes: None }, 10)
        .unwrap();
    let record = service
        .progress()
        .iter()
        .find(|r| r.user_id == "u" && r.entry_id == 1)
        .unwrap();
    assert_eq!(record.times_seen, 1);
    assert_eq!(record.times_mastered, 1);
    assert_eq!(record.status, ReviewStatus::Mastered);
    assert_eq!(service.reviews().len(), rows_before + 1);
    let stats = service.get_stats("u");
    assert_eq!(stats.total, 2);
    assert_eq!(stats.mastered, 1);
    assert_eq!(stats.learning, 1);
    assert_eq!(stats.new, 0);
    assert_eq!(stats.per_part_of_speech.len(), 1);
    assert_eq!(stats.per_part_of_speech[0].part_of_speech, "noun");
    assert_eq!(stats.per_part_of_speech[0].total, 2);
    assert_eq!(stats.per_part_of_speech[0].mastered, 1);
    assert_eq!(stats.per_part_of_speech[0].learning, 1);
    assert_eq!(stats.per_part_of_speech[0].new, 0);
}

#[test]
fn stats_of_empty_catalog_are_zero() {
    let service = FlashcardService::new(Vec::new());
    let stats = service.get_stats("u");
    assert_eq!((stats.total, stats.mastered, stats.learning, stats.new), (0, 0, 0, 0));
    assert!(stats.per_part_of_speech.is_empty());
}

#[test]
fn stats_rows_come_in_the_order_of_the_names() {
    let entries = vec![
        stats_entry(1, PartOfSpeech::Verb, None),
        stats_entry(2, PartOfSpeech::Noun, None),
        stats_entry(3, PartOfSpeech::AdjectiveAdverb, None),
        stats_entry(4, PartOfSpeech::Verb, None),
        stats_entry(5, PartOfSpeech::Verb, Some("u")),
        stats_entry(6, PartOfSpeech::Noun, Some("other")),
    ];
    let progress = vec![
        stats_record("u", 1, ReviewStatus::Mastered, 1),
        stats_record("u", 3, ReviewStatus::Learning, 1),
        stats_record("u", 5, ReviewStatus::Learning, 1),
        stats_record("u", 6, ReviewStatus::Mastered, 1),
        stats_record("other", 2, ReviewStatus::Mastered, 1),
    ];
    let stats = compute_stats(&entries, &progress, "u");
    assert_eq!(stats.total, 5);
    assert_eq!(stats.mastered, 1);
    assert_eq!(stats.learning, 2);
    assert_eq!(stats.new, 2);
    let rows: Vec<(&str, u64, u64, u64, u64)> = stats
        .per_part_of_speech
        .iter()
        .map(|r| (r.part_of_speech.as_str(), r.total, r.mastered, r.learning, r.new))
        .collect();
    assert_eq!(
        rows,
        vec![("adjective_adverb", 1, 0, 1, 0), ("noun", 1, 0, 0, 1), ("verb", 3, 1, 1, 1)]
    );
}

#[test]
fn stats_leave_out_parts_of_speech_without_entries() {
    let entries = vec![
        stats_entry(1, PartOfSpeech::Verb, None),
        stats_entry(2, PartOfSpeech::Noun, Some("other")),
    ];
    let stats = compute_stats(&entries, &Vec::new(), "u");
    assert_eq!(stats.total, 1);
    assert_eq!(stats.new, 1);
    assert_eq!(stats.per_part_of_speech.len(), 1);
    assert_eq!(stats.per_part_of_speech[0].part_of_speech, "verb");
    assert_eq!(stats.per_part_of_speech[0].new, 1);
}

#[test]
fn stats_are_consistent() {
    let mut entries = Vec::new();
    let mut progress = Vec::new();
    for id in 0..40 {
        let part = match id % 3 {
            0 => PartOfSpeech::Noun,
            1 => PartOfSpeech::Verb,
            _ => PartOfSpeech::AdjectiveAdverb,
        };
        let owner = if id % 7 == 0 { Some("other") } else if id % 5 == 0 { Some("u") } else { None };
        entries.push(stats_entry(id, part, owner));
        if id % 4 == 1 {
            progress.push(stats_record("u", id, ReviewStatus::Mastered, 2));
        } else if id % 4 == 2 {
            progress.push(stats_record("u", id, ReviewStatus::Learning, 1));
        }
    }
    let stats = compute_stats(&entries, &progress, "u");
    assert_eq!(stats.total, stats.mastered + stats.learning + stats.new);
    let sum = |f: fn(&german_learn::flashcard::dto::PartOfSpeechStats) -> u64| -> u64 {
        stats.per_part_of_speech.iter().map(f).sum()
    };
    assert_eq!(sum(|r| r.total), stats.total);
    assert_eq!(sum(|r| r.mastered), stats.mastered);
    assert_eq!(sum(|r| r.learning), stats.learning);
    assert_eq!(sum(|r| r.new), stats.new);
    for row in &stats.per_part_of_speech {
        assert_eq!(row.total, row.mastered + row.learning + row.new);
        assert!(row.total > 0);
    }
    assert_eq!(stats.total, 34);
}

#[test]
fn count_by_status_counts_one_part_of_speech() {
    let entries = vec![
        stats_entry(1, PartOfSpeech::Verb, None),
        stats_entry(2, PartOfSpeech::Noun, None),
        stats_entry(3, PartOfSpeech::Noun, None),
        stats_entry(4, PartOfSpeech::Noun, None),
    ];
    let progress = vec![
        stats_record("u", 2, ReviewStatus::Mastered, 1),
        stats_record("u", 3, ReviewStatus::Learning, 1),
        stats_record("u", 1, ReviewStatus::Learning, 1),
    ];
    assert_eq!(count_by_status(&entries, &progress, "u", Some(PartOfSpeech::Noun)), (1, 1, 1));
    assert_eq!(count_by_status(&entries, &progress, "u", Some(PartOfSpeech::Verb)), (0, 1, 0));
    assert_eq!(count_by_status(&entries, &progress, "u", None), (1, 2, 1));
    assert_eq!(count_by_status(&entries, &progress, "v", None), (0, 0, 4));
}
