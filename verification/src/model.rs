//! The records that the engine reads and writes: vocabulary entries, the
//! progress of a user on an entry, and the log of reviews.
//!
//! Instants are microseconds since 1970-01-01T00:00:00 UTC. User ids are
//! opaque texts, compared character by character.

use vstd::prelude::*;

verus! {

/// The closed set of parts of speech.
#[derive(Clone, Copy, Debug, PartialEq, Eq, Structural)]
pub enum PartOfSpeech {
    Noun,
    Verb,
    AdjectiveAdverb,
}

impl PartOfSpeech {
    /// The name under which the part of speech is stored and shown.
    pub open spec fn name_text(self) -> Seq<char> {
        match self {
            PartOfSpeech::Noun => "noun"@,
            PartOfSpeech::Verb => "verb"@,
            PartOfSpeech::AdjectiveAdverb => "adjective_adverb"@,
        }
    }

    /// The name of the part of speech.
    pub fn name(self) -> (r: &'static str)
        ensures
            r@ == self.name_text(),
    {
        match self {
            PartOfSpeech::Noun => "noun",
            PartOfSpeech::Verb => "verb",
            PartOfSpeech::AdjectiveAdverb => "adjective_adverb",
        }
    }
}

/// The outcome of a review, which is also the status that a progress
/// record keeps.
#[derive(Clone, Copy, Debug, PartialEq, Eq, Structural)]
pub enum ReviewStatus {
    Mastered,
    Learning,
}

impl ReviewStatus {
    /// The name under which the status is stored and shown.
    pub open spec fn name_text(self) -> Seq<char> {
        match self {
            ReviewStatus::Mastered => "mastered"@,
            ReviewStatus::Learning => "learning"@,
        }
    }

    /// The name of the status.
    pub fn name(self) -> (r: &'static str)
        ensures
            r@ == self.name_text(),
    {
        match self {
            ReviewStatus::Mastered => "mastered",
            ReviewStatus::Learning => "learning",
        }
    }
}

/// Where a user stands on an entry. `New` is the absence of a progress
/// record.
#[derive(Clone, Copy, Debug, PartialEq, Eq, Structural)]
pub enum CardStatus {
    New,
    Learning,
    Mastered,
}

/// Which cards a request for the next card asks for.
#[derive(Clone, Copy, Debug, PartialEq, Eq, Structural)]
pub enum StatusFilter {
    /// No status was given, or `all`: every card that is not mastered.
    Unmastered,
    New,
    Learning,
    Mastered,
}

/// One vocabulary item of the catalog. The engine only reads it.
#[derive(Clone, Debug)]
pub struct VocabularyEntry {
    pub entry_id: i32,
    pub word: String,
    pub part_of_speech: PartOfSpeech,
    /// The user who owns the entry; `None` for an entry that every user sees.
    pub user_owner: Option<String>,
    pub english: Option<String>,
    pub meaning: Option<String>,
    pub examples: Option<String>,
    pub themes: Option<String>,
    pub source_table: String,
    /// When the entry was created, used to order entries of equal exposure.
    pub source_created_time: Option<i64>,
    /// Free-form details, whose shape depends on the part of speech.
    pub extra: Option<serde_json::Value>,
}

/// The progress of one user on one entry.
#[derive(Clone, Debug)]
pub struct ProgressRecord {
    pub user_id: String,
    pub entry_id: i32,
    pub status: ReviewStatus,
    pub times_seen: i32,
    pub times_mastered: i32,
    pub last_seen_at: Option<i64>,
    pub created_at: i64,
    pub updated_at: i64,
}

/// A progress record as the contracts see it.
pub struct ProgressView {
    pub user: Seq<char>,
    pub entry: int,
    pub status: ReviewStatus,
    pub times_seen: int,
    pub times_mastered: int,
    pub last_seen_at: Option<i64>,
    pub created_at: i64,
    pub updated_at: i64,
}

impl View for ProgressRecord {
    type V = ProgressView;

    open spec fn view(&self) -> ProgressView {
        ProgressView {
            user: self.user_id@,
            entry: self.entry_id as int,
            status: self.status,
            times_seen: self.times_seen as int,
            times_mastered: self.times_mastered as int,
            last_seen_at: self.last_seen_at,
            created_at: self.created_at,
            updated_at: self.updated_at,
        }
    }
}

/// One recorded review. Rows of the ledger are never changed.
#[derive(Clone, Debug)]
pub struct ReviewEvent {
    pub user_id: String,
    pub entry_id: i32,
    pub result: ReviewStatus,
    pub notes: Option<String>,
    pub reviewed_at: i64,
}

/// A review as the contracts see it.
pub struct ReviewView {
    pub user: Seq<char>,
    pub entry: int,
    pub result: ReviewStatus,
    pub notes: Option<Seq<char>>,
    pub reviewed_at: i64,
}

impl View for ReviewEvent {
    type V = ReviewView;

    open spec fn view(&self) -> ReviewView {
        ReviewView {
            user: self.user_id@,
            entry: self.entry_id as int,
            result: self.result,
            notes: match self.notes {
                Some(n) => Some(n@),
                None => None,
            },
            reviewed_at: self.reviewed_at,
        }
    }
}

/// The views of a list of progress records, in order.
pub open spec fn progress_views(records: Seq<ProgressRecord>) -> Seq<ProgressView> {
    Seq::new(records.len(), |i: int| records[i]@)
}

/// The views of a list of reviews, in order.
pub open spec fn review_views(events: Seq<ReviewEvent>) -> Seq<ReviewView> {
    Seq::new(events.len(), |i: int| events[i]@)
}

/// Whether `entry` is shown to `user`: it has no owner, or `user` owns it.
pub open spec fn visible_to(entry: VocabularyEntry, user: Seq<char>) -> bool {
    match entry.user_owner {
        None => true,
        Some(owner) => owner@ == user,
    }
}

/// Whether a progress record is the one of `user` on the entry `entry`.
pub open spec fn has_key(record: ProgressView, user: Seq<char>, entry: int) -> bool {
    record.user == user && record.entry == entry
}

/// No two records of the list are about the same user and entry.
pub open spec fn unique_keys(progress: Seq<ProgressView>) -> bool {
    forall|i: int, j: int|
        0 <= i < j < progress.len() ==> !has_key(
            #[trigger] progress[i],
            (#[trigger] progress[j]).user,
            progress[j].entry,
        )
}

/// Every record counts at least as many reviews as masteries, and neither
/// count is negative.
pub open spec fn sane_counts(progress: Seq<ProgressView>) -> bool {
    forall|i: int|
        0 <= i < progress.len() ==> 0 <= (#[trigger] progress[i]).times_mastered
            <= progress[i].times_seen
}

/// Whether the list holds a record of `user` on `entry`.
pub open spec fn has_record(progress: Seq<ProgressView>, user: Seq<char>, entry: int) -> bool {
    exists|i: int| 0 <= i < progress.len() && has_key(#[trigger] progress[i], user, entry)
}

/// The place of a record of `user` on `entry`, where the list holds one.
pub open spec fn record_index(progress: Seq<ProgressView>, user: Seq<char>, entry: int) -> int {
    choose|i: int| 0 <= i < progress.len() && has_key(#[trigger] progress[i], user, entry)
}

/// The record of `user` on `entry`; `None` where the user never reviewed
/// the entry.
pub open spec fn record_of(progress: Seq<ProgressView>, user: Seq<char>, entry: int) -> Option<
    ProgressView,
> {
    if has_record(progress, user, entry) {
        Some(progress[record_index(progress, user, entry)])
    } else {
        None
    }
}

/// Where `user` stands on `entry`.
pub open spec fn card_status(progress: Seq<ProgressView>, user: Seq<char>, entry: int)
    -> CardStatus {
    match record_of(progress, user, entry) {
        None => CardStatus::New,
        Some(record) => if record.status == ReviewStatus::Mastered {
            CardStatus::Mastered
        } else {
            CardStatus::Learning
        },
    }
}

/// The place of the record of `user` on `entry` in `progress`.
pub fn find_progress(progress: &Vec<ProgressRecord>, user_id: &str, entry_id: i32) -> (r: Option<
    usize,
>)
    ensures
        r is Some <==> has_record(progress_views(progress@), user_id@, entry_id as int),
        r matches Some(i) ==> i < progress@.len() && has_key(
            progress@[i as int]@,
            user_id@,
            entry_id as int,
        ),
        r matches Some(i) ==> unique_keys(progress_views(progress@)) ==> record_of(
            progress_views(progress@),
            user_id@,
            entry_id as int,
        ) == Some(progress@[i as int]@),
{
    let ghost views = progress_views(progress@);
    let mut i: usize = 0;
    while i < progress.len()
        invariant
            i <= progress@.len(),
            views == progress_views(progress@),
            forall|j: int| 0 <= j < i ==> !has_key(#[trigger] views[j], user_id@, entry_id as int),
        decreases progress@.len() - i,
    {
        let record = &progress[i];
        if record.entry_id == entry_id && crate::text::text_eq(record.user_id.as_str(), user_id) {
            proof {
                assert(has_key(views[i as int], user_id@, entry_id as int));
                if unique_keys(views) {
                    let k = record_index(views, user_id@, entry_id as int);
                    assert(has_key(views[k], user_id@, entry_id as int));
                    if k < i {
                        assert(!has_key(views[k], views[i as int].user, views[i as int].entry));
                    }
                    if i < k {
                        assert(!has_key(views[i as int], views[k].user, views[k].entry));
                    }
                }
            }
            return Some(i);
        }
        i += 1;
    }
    None
}

} // verus!
