//! The engine as one value: the catalog, the progress store, the review
//! ledger and the known users, with the operations that requests ask for.

use vstd::prelude::*;
use crate::error::AppError;
use crate::flashcard::dto::{
    card_for, FlashcardResponse, NextCardQuery, ReviewRequest, StatsResponse,
};
use crate::flashcard::review::{
    apply_review, lemma_progress_after, progress_after, review_row, seen_count,
};
use crate::flashcard::schedule::{query_of, select_next};
use crate::flashcard::stats::{compute_stats, stats_of};
use crate::model::{
    find_progress, has_key, has_record, progress_views, record_of, review_views, sane_counts,
    unique_keys, PartOfSpeech, ProgressRecord, ProgressView, ReviewEvent, ReviewStatus,
    ReviewView, StatusFilter, VocabularyEntry,
};
use crate::text::{
    lowercase, lowercase_of, normal_form, normalize, opt_text, quoted_message, text_eq, texts,
};

verus! {

/// The outcome that a normalised text stands for.
pub open spec fn status_from(normalized: Seq<char>) -> Option<ReviewStatus> {
    if normalized == "mastered"@ || normalized == "m"@ {
        Some(ReviewStatus::Mastered)
    } else if normalized == "learning"@ || normalized == "l"@ || normalized == "again"@
        || normalized == "review"@ {
        Some(ReviewStatus::Learning)
    } else {
        None
    }
}

/// The part of speech that a normalised text stands for.
pub open spec fn part_from(normalized: Seq<char>) -> Option<PartOfSpeech> {
    if normalized == "noun"@ || normalized == "n"@ {
        Some(PartOfSpeech::Noun)
    } else if normalized == "verb"@ || normalized == "v"@ {
        Some(PartOfSpeech::Verb)
    } else if normalized == "adjective"@ || normalized == "adj"@ || normalized == "adverb"@
        || normalized == "adv"@ || normalized == "adjective_adverb"@ {
        Some(PartOfSpeech::AdjectiveAdverb)
    } else {
        None
    }
}

/// The status filter that a lower-cased text stands for.
pub open spec fn filter_from(lowered: Seq<char>) -> Option<StatusFilter> {
    if lowered == "new"@ {
        Some(StatusFilter::New)
    } else if lowered == "mastered"@ {
        Some(StatusFilter::Mastered)
    } else if lowered == "learning"@ {
        Some(StatusFilter::Learning)
    } else {
        None
    }
}

/// The status filter that a request asks for: held-back mastered cards
/// without a status or with `all` as written, else what the lower-cased
/// text stands for, and `None` for a text that stands for nothing.
pub open spec fn requested_filter(status: Option<Seq<char>>) -> Option<StatusFilter> {
    match status {
        None => Some(StatusFilter::Unmastered),
        Some(s) => if s == "all"@ {
            Some(StatusFilter::Unmastered)
        } else {
            filter_from(lowercase_of(s))
        },
    }
}

/// Whether `e` is a validation failure with the message `prefix`, the
/// rejected `value` and a closing quote.
pub open spec fn rejects(e: AppError, prefix: Seq<char>, value: Seq<char>) -> bool {
    e matches AppError::Validation(msg) && msg@ == prefix + value + "'"@
}

/// The outcome that `normalized` stands for.
pub fn status_from_normalized(normalized: &str) -> (r: Result<ReviewStatus, AppError>)
    ensures
        match r {
            Ok(status) => status_from(normalized@) == Some(status),
            Err(e) => status_from(normalized@) is None && rejects(
                e,
                "unsupported review status '"@,
                normalized@,
            ),
        },
{
    if text_eq(normalized, "mastered") || text_eq(normalized, "m") {
        Ok(ReviewStatus::Mastered)
    } else if text_eq(normalized, "learning") || text_eq(normalized, "l") || text_eq(
        normalized,
        "again",
    ) || text_eq(normalized, "review") {
        Ok(ReviewStatus::Learning)
    } else {
        Err(AppError::Validation(quoted_message("unsupported review status '", normalized)))
    }
}

/// The outcome that `input` stands for, whatever its case and the white
/// space around it.
pub fn normalize_status(input: &str) -> (r: Result<ReviewStatus, AppError>)
    ensures
        match r {
            Ok(status) => status_from(normal_form(input@)) == Some(status),
            Err(e) => status_from(normal_form(input@)) is None && rejects(
                e,
                "unsupported review status '"@,
                normal_form(input@),
            ),
        },
{
    let normalized = normalize(input);
    status_from_normalized(normalized.as_str())
}

/// The part of speech that `normalized` stands for.
pub fn part_from_normalized(normalized: &str) -> (r: Result<PartOfSpeech, AppError>)
    ensures
        match r {
            Ok(part) => part_from(normalized@) == Some(part),
            Err(e) => part_from(normalized@) is None && rejects(
                e,
                "unsupported part_of_speech '"@,
                normalized@,
            ),
        },
{
    if text_eq(normalized, "noun") || text_eq(normalized, "n") {
        Ok(PartOfSpeech::Noun)
    } else if text_eq(normalized, "verb") || text_eq(normalized, "v") {
        Ok(PartOfSpeech::Verb)
    } else if text_eq(normalized, "adjective") || text_eq(normalized, "adj") || text_eq(
        normalized,
        "adverb",
    ) || text_eq(normalized, "adv") || text_eq(normalized, "adjective_adverb") {
        Ok(PartOfSpeech::AdjectiveAdverb)
    } else {
        Err(AppError::Validation(quoted_message("unsupported part_of_speech '", normalized)))
    }
}

/// The part of speech that `input` stands for, whatever its case and the
/// white space around it.
pub fn normalize_part_of_speech(input: &str) -> (r: Result<PartOfSpeech, AppError>)
    ensures
        match r {
            Ok(part) => part_from(normal_form(input@)) == Some(part),
            Err(e) => part_from(normal_form(input@)) is None && rejects(
                e,
                "unsupported part_of_speech '"@,
                normal_form(input@),
            ),
        },
{
    let normalized = normalize(input);
    part_from_normalized(normalized.as_str())
}

/// The status filter that `lowered` stands for.
pub fn filter_from_lowered(lowered: &str) -> (r: Result<StatusFilter, AppError>)
    ensures
        match r {
            Ok(filter) => filter_from(lowered@) == Some(filter),
            Err(e) => filter_from(lowered@) is None && rejects(
                e,
                "unsupported filter status '"@,
                lowered@,
            ),
        },
{
    if text_eq(lowered, "new") {
        Ok(StatusFilter::New)
    } else if text_eq(lowered, "mastered") {
        Ok(StatusFilter::Mastered)
    } else if text_eq(lowered, "learning") {
        Ok(StatusFilter::Learning)
    } else {
        Err(AppError::Validation(quoted_message("unsupported filter status '", lowered)))
    }
}

/// The status filter that a request asks for.
pub fn parse_status_filter(status: &Option<String>) -> (r: Result<StatusFilter, AppError>)
    ensures
        match r {
            Ok(filter) => requested_filter(opt_text(*status)) == Some(filter),
            Err(e) => requested_filter(opt_text(*status)) is None && rejects(
                e,
                "unsupported filter status '"@,
                lowercase_of(status->0@),
            ),
        },
{
    match status {
        None => Ok(StatusFilter::Unmastered),
        Some(s) => {
            if text_eq(s.as_str(), "all") {
                Ok(StatusFilter::Unmastered)
            } else {
                let lowered = lowercase(s.as_str());
                filter_from_lowered(lowered.as_str())
            }
        },
    }
}

/// The part of speech that a request asks for: `Ok(None)` for any.
pub fn parse_part_filter(part: &Option<String>) -> (r: Result<Option<PartOfSpeech>, AppError>)
    ensures
        match r {
            Ok(None) => part is None,
            Ok(Some(p)) => part is Some && part_from(normal_form(part->0@)) == Some(p),
            Err(e) => part is Some && part_from(normal_form(part->0@)) is None && rejects(
                e,
                "unsupported part_of_speech '"@,
                normal_form(part->0@),
            ),
        },
{
    match part {
        None => Ok(None),
        Some(p) => match normalize_part_of_speech(p.as_str()) {
            Ok(found) => Ok(Some(found)),
            Err(e) => Err(e),
        },
    }
}

/// Whether the catalog holds an entry with the id `entry`.
pub open spec fn entry_exists(entries: Seq<VocabularyEntry>, entry: int) -> bool {
    exists|i: int| 0 <= i < entries.len() && (#[trigger] entries[i]).entry_id == entry
}

/// The users after `user` was made known: as before where `user` was
/// known already, else with `user` at the end.
pub open spec fn users_with(users: Seq<Seq<char>>, user: Seq<char>) -> Seq<Seq<char>> {
    if users.contains(user) {
        users
    } else {
        users.push(user)
    }
}

/// The state of the engine as the contracts see it.
pub struct ServiceView {
    pub entries: Seq<VocabularyEntry>,
    pub progress: Seq<ProgressView>,
    pub reviews: Seq<ReviewView>,
    pub users: Seq<Seq<char>>,
}

impl ServiceView {
    /// One progress record for each user and entry, with counts that make
    /// sense, and no user known twice.
    pub open spec fn valid(self) -> bool {
        &&& unique_keys(self.progress)
        &&& sane_counts(self.progress)
        &&& self.users.no_duplicates()
    }

    /// The state after a review by `user` of `entry` with `outcome` at
    /// `now`: the user is known, the progress record is created or
    /// advanced, and the ledger has one more row. The catalog is as it was.
    pub open spec fn reviewed(
        self,
        user: Seq<char>,
        entry: int,
        outcome: ReviewStatus,
        notes: Option<Seq<char>>,
        now: i64,
    ) -> ServiceView {
        ServiceView {
            entries: self.entries,
            progress: progress_after(self.progress, user, entry, outcome, now),
            reviews: self.reviews.push(review_row(user, entry, outcome, notes, now)),
            users: users_with(self.users, user),
        }
    }
}

/// The engine: the catalog it reads, and the stores it keeps.
pub struct FlashcardService {
    entries: Vec<VocabularyEntry>,
    progress: Vec<ProgressRecord>,
    reviews: Vec<ReviewEvent>,
    users: Vec<String>,
}

impl View for FlashcardService {
    type V = ServiceView;

    closed spec fn view(&self) -> ServiceView {
        ServiceView {
            entries: self.entries@,
            progress: progress_views(self.progress@),
            reviews: review_views(self.reviews@),
            users: texts(self.users@),
        }
    }
}

impl FlashcardService {
    /// Whether the stores are in order.
    pub open spec fn wf(&self) -> bool {
        self@.valid()
    }

    /// An engine over the catalog `entries`, with empty stores.
    pub fn new(entries: Vec<VocabularyEntry>) -> (r: Self)
        ensures
            r.wf(),
            r@.entries == entries@,
            r@.progress.len() == 0,
            r@.reviews.len() == 0,
            r@.users.len() == 0,
    {
        FlashcardService { entries, progress: Vec::new(), reviews: Vec::new(), users: Vec::new() }
    }

    /// The catalog.
    pub fn entries(&self) -> (r: &Vec<VocabularyEntry>)
        ensures
            r@ == self@.entries,
    {
        &self.entries
    }

    /// The progress store.
    pub fn progress(&self) -> (r: &Vec<ProgressRecord>)
        ensures
            progress_views(r@) == self@.progress,
    {
        &self.progress
    }

    /// The review ledger, oldest row first.
    pub fn reviews(&self) -> (r: &Vec<ReviewEvent>)
        ensures
            review_views(r@) == self@.reviews,
    {
        &self.reviews
    }

    /// The known users, in the order in which they became known.
    pub fn users(&self) -> (r: &Vec<String>)
        ensures
            texts(r@) == self@.users,
    {
        &self.users
    }

    /// Adds `entry` at the end of the catalog.
    pub fn add_entry(&mut self, entry: VocabularyEntry)
        requires
            old(self).wf(),
        ensures
            final(self).wf(),
            final(self)@ == (ServiceView { entries: old(self)@.entries.push(entry), ..old(self)@ }),
    {
        self.entries.push(entry);
    }

    /// Takes a stored progress record into the progress store. The record
    /// is refused, and `false` returned, where the store holds a record of
    /// the same user and entry already, or where its counts make no sense.
    pub fn restore_progress(&mut self, record: ProgressRecord) -> (r: bool)
        requires
            old(self).wf(),
        ensures
            final(self).wf(),
            r == (!has_record(old(self)@.progress, record@.user, record@.entry) && 0
                <= record@.times_mastered <= record@.times_seen),
            r ==> final(self)@ == (ServiceView {
                progress: old(self)@.progress.push(record@),
                ..old(self)@
            }),
            !r ==> final(self)@ == old(self)@,
    {
        let ghost before = self@.progress;
        if record.times_mastered < 0 || record.times_mastered > record.times_seen {
            return false;
        }
        match find_progress(&self.progress, record.user_id.as_str(), record.entry_id) {
            Some(_) => false,
            None => {
                self.progress.push(record);
                proof {
                    let after = progress_views(self.progress@);
                    assert(after =~= before.push(record@));
                    assert forall|i: int, j: int| 0 <= i < j < after.len() implies !has_key(
                        #[trigger] after[i],
                        (#[trigger] after[j]).user,
                        after[j].entry,
                    ) by {
                        assert(after[i] == before[i]);
                        if j < before.len() {
                            assert(after[j] == before[j]);
                            assert(!has_key(before[i], before[j].user, before[j].entry));
                        } else {
                            assert(!has_key(before[i], record@.user, record@.entry));
                        }
                    }
                    assert forall|i: int| 0 <= i < after.len() implies 0 <= (
                    #[trigger] after[i]).times_mastered <= after[i].times_seen by {
                        if i < before.len() {
                            assert(after[i] == before[i]);
                        }
                    }
                }
                true
            },
        }
    }

    /// How often `user_id` has seen the entry `entry_id`: 0 for a card
    /// never reviewed.
    pub fn times_seen(&self, user_id: &str, entry_id: i32) -> (r: i32)
        requires
            self.wf(),
        ensures
            r == seen_count(self@.progress, user_id@, entry_id as int),
    {
        match find_progress(&self.progress, user_id, entry_id) {
            Some(at) => self.progress[at].times_seen,
            None => 0,
        }
    }

    /// Whether the catalog holds an entry with the id `entry_id`.
    pub fn has_entry(&self, entry_id: i32) -> (r: bool)
        ensures
            r == entry_exists(self@.entries, entry_id as int),
    {
        let mut i: usize = 0;
        while i < self.entries.len()
            invariant
                i <= self.entries@.len(),
                forall|j: int| 0 <= j < i ==> (#[trigger] self.entries@[j]).entry_id != entry_id,
            decreases self.entries@.len() - i,
        {
            if self.entries[i].entry_id == entry_id {
                return true;
            }
            i += 1;
        }
        false
    }

    /// Makes `user_id` known, where it is not known yet.
    fn ensure_user(&mut self, user_id: &str)
        requires
            old(self).wf(),
        ensures
            final(self).wf(),
            final(self)@ == (ServiceView {
                users: users_with(old(self)@.users, user_id@),
                ..old(self)@
            }),
    {
        let ghost before = self@.users;
        let mut i: usize = 0;
        while i < self.users.len()
            invariant
                i <= self.users@.len(),
                *self == *old(self),
                self.wf(),
                before == texts(self.users@),
                forall|j: int| 0 <= j < i ==> #[trigger] before[j] != user_id@,
            decreases self.users@.len() - i,
        {
            if text_eq(self.users[i].as_str(), user_id) {
                assert(before[i as int] == user_id@);
                return ;
            }
            i += 1;
        }
        self.users.push(user_id.to_string());
        assert(texts(self.users@) =~= before.push(user_id@));
    }

    /// The card to present next to `user_id`.
    ///
    /// The part of speech asked for is read first, then the status; the
    /// first that stands for nothing is reported. With both in order, the
    /// answer is the card that the ranking selects among the candidates, or
    /// `None` where there is no candidate.
    pub fn get_next_card(&self, user_id: &str, params: NextCardQuery) -> (r: Result<
        Option<FlashcardResponse>,
        AppError,
    >)
        requires
            self.wf(),
        ensures
            match r {
                Ok(card) => {
                    &&& params.part_of_speech matches Some(p) ==> part_from(normal_form(p@))
                        is Some
                    &&& requested_filter(opt_text(params.status)) is Some
                    &&& ({
                        let q = query_of(
                            self@.entries,
                            self@.progress,
                            user_id@,
                            match params.part_of_speech {
                                Some(p) => part_from(normal_form(p@)),
                                None => None,
                            },
                            requested_filter(opt_text(params.status))->0,
                        );
                        match card {
                            Some(c) => q.has_candidate() && c@ == card_for(
                                q.entries[q.selected()],
                                record_of(
                                    q.progress,
                                    q.user,
                                    q.entries[q.selected()].entry_id as int,
                                ),
                            ),
                            None => !q.has_candidate(),
                        }
                    })
                },
                Err(e) => {
                    ||| params.part_of_speech matches Some(p) && part_from(normal_form(p@))
                        is None && rejects(e, "unsupported part_of_speech '"@, normal_form(p@))
                    ||| (params.part_of_speech matches Some(p) ==> part_from(normal_form(p@))
                        is Some) && requested_filter(opt_text(params.status)) is None && rejects(
                        e,
                        "unsupported filter status '"@,
                        lowercase_of(params.status->0@),
                    )
                },
            },
    {
        let part = match parse_part_filter(&params.part_of_speech) {
            Ok(part) => part,
            Err(e) => {
                return Err(e);
            },
        };
        let filter = match parse_status_filter(&params.status) {
            Ok(filter) => filter,
            Err(e) => {
                return Err(e);
            },
        };
        match select_next(&self.entries, &self.progress, user_id, part, filter) {
            Some(k) => {
                let entry = &self.entries[k];
                let record: Option<&ProgressRecord> = match find_progress(
                    &self.progress,
                    user_id,
                    entry.entry_id,
                ) {
                    Some(at) => Some(&self.progress[at]),
                    None => None,
                };
                Ok(Some(FlashcardResponse::for_card(entry, record)))
            },
            None => Ok(None),
        }
    }

    /// Records a review of `entry_id` by `user_id` at `now`.
    ///
    /// The outcome is read first; a text that stands for no outcome is
    /// reported as a validation failure. An entry that the catalog does not
    /// hold is reported as not found. In both cases nothing changes.
    /// Otherwise the user is made known, the progress record is created or
    /// advanced, and one row is appended to the ledger.
    ///
    /// The counter of the record must have room for one more review.
    pub fn record_review(&mut self, user_id: &str, entry_id: i32, req: ReviewRequest, now: i64) -> (r:
        Result<(), AppError>)
        requires
            old(self).wf(),
            seen_count(old(self)@.progress, user_id@, entry_id as int) < i32::MAX,
        ensures
            final(self).wf(),
            match r {
                Ok(_) => {
                    &&& status_from(normal_form(req.result@)) matches Some(outcome)
                    &&& entry_exists(old(self)@.entries, entry_id as int)
                    &&& final(self)@ == old(self)@.reviewed(
                        user_id@,
                        entry_id as int,
                        outcome,
                        opt_text(req.notes),
                        now,
                    )
                },
                Err(e) => {
                    &&& final(self)@ == old(self)@
                    &&& if status_from(normal_form(req.result@)) is None {
                        rejects(e, "unsupported review status '"@, normal_form(req.result@))
                    } else {
                        !entry_exists(old(self)@.entries, entry_id as int) && e is NotFound
                    }
                },
            },
    {
        let outcome = match normalize_status(req.result.as_str()) {
            Ok(outcome) => outcome,
            Err(e) => {
                return Err(e);
            },
        };
        if !self.has_entry(entry_id) {
            return Err(AppError::NotFound);
        }
        self.ensure_user(user_id);
        proof {
            lemma_progress_after(self@.progress, user_id@, entry_id as int, outcome, now);
        }
        apply_review(
            &mut self.progress,
            &mut self.reviews,
            user_id,
            entry_id,
            outcome,
            req.notes,
            now,
        );
        Ok(())
    }

    /// The statistics of `user_id` over the catalog.
    pub fn get_stats(&self, user_id: &str) -> (r: StatsResponse)
        requires
            self.wf(),
        ensures
            r@ == stats_of(self@.entries, self@.progress, user_id@),
    {
        compute_stats(&self.entries, &self.progress, user_id)
    }
}

} // verus!
