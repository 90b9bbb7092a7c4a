//! What one review does to the stores: the progress record of the user on
//! the entry is created or advanced, and one row is appended to the ledger.

use vstd::prelude::*;
use crate::model::{
    find_progress, has_key, has_record, progress_views, record_index, record_of, review_views,
    sane_counts, unique_keys, ProgressRecord, ProgressView, ReviewEvent, ReviewStatus, ReviewView,
};

verus! {

/// 1 for a review that ended in `Mastered`, 0 for any other.
pub open spec fn mastery_gain(outcome: ReviewStatus) -> int {
    if outcome == ReviewStatus::Mastered {
        1
    } else {
        0
    }
}

/// The record of `user` on `entry` after a review with `outcome` at `now`,
/// given the record before it (`None` for a first review).
pub open spec fn reviewed_record(
    before: Option<ProgressView>,
    user: Seq<char>,
    entry: int,
    outcome: ReviewStatus,
    now: i64,
) -> ProgressView {
    match before {
        Some(record) => ProgressView {
            user: record.user,
            entry: record.entry,
            status: outcome,
            times_seen: record.times_seen + 1,
            times_mastered: record.times_mastered + mastery_gain(outcome),
            last_seen_at: Some(now),
            created_at: record.created_at,
            updated_at: now,
        },
        None => ProgressView {
            user,
            entry,
            status: outcome,
            times_seen: 1,
            times_mastered: mastery_gain(outcome),
            last_seen_at: Some(now),
            created_at: now,
            updated_at: now,
        },
    }
}

/// The progress store after a review: the record of the pair is replaced
/// in its place, or a first record is added at the end. No other record
/// changes.
pub open spec fn progress_after(
    progress: Seq<ProgressView>,
    user: Seq<char>,
    entry: int,
    outcome: ReviewStatus,
    now: i64,
) -> Seq<ProgressView> {
    if has_record(progress, user, entry) {
        let at = record_index(progress, user, entry);
        progress.update(at, reviewed_record(Some(progress[at]), user, entry, outcome, now))
    } else {
        progress.push(reviewed_record(None, user, entry, outcome, now))
    }
}

/// The ledger row of a review.
pub open spec fn review_row(
    user: Seq<char>,
    entry: int,
    outcome: ReviewStatus,
    notes: Option<Seq<char>>,
    now: i64,
) -> ReviewView {
    ReviewView { user, entry, result: outcome, notes, reviewed_at: now }
}

/// How many rows of the ledger are reviews of `entry` by `user`.
pub open spec fn count_reviews(reviews: Seq<ReviewView>, user: Seq<char>, entry: int) -> nat
    decreases reviews.len(),
{
    if reviews.len() == 0 {
        0
    } else {
        let before = count_reviews(reviews.drop_last(), user, entry);
        if reviews.last().user == user && reviews.last().entry == entry {
            before + 1
        } else {
            before
        }
    }
}

/// How often `user` has seen `entry`: 0 without a record.
pub open spec fn seen_count(progress: Seq<ProgressView>, user: Seq<char>, entry: int) -> int {
    match record_of(progress, user, entry) {
        Some(record) => record.times_seen,
        None => 0,
    }
}

/// How often a review of `entry` by `user` ended in `Mastered`: 0 without
/// a record.
pub open spec fn mastered_count(progress: Seq<ProgressView>, user: Seq<char>, entry: int) -> int {
    match record_of(progress, user, entry) {
        Some(record) => record.times_mastered,
        None => 0,
    }
}

/// After a review the store still holds one record for each pair, and the
/// record of the reviewed pair is the advanced one.
pub proof fn lemma_progress_after(
    progress: Seq<ProgressView>,
    user: Seq<char>,
    entry: int,
    outcome: ReviewStatus,
    now: i64,
)
    requires
        unique_keys(progress),
    ensures
        unique_keys(progress_after(progress, user, entry, outcome, now)),
        record_of(progress_after(progress, user, entry, outcome, now), user, entry) == Some(
            reviewed_record(record_of(progress, user, entry), user, entry, outcome, now),
        ),
        sane_counts(progress) ==> sane_counts(progress_after(progress, user, entry, outcome, now)),
{
    let after = progress_after(progress, user, entry, outcome, now);
    if has_record(progress, user, entry) {
        let at = record_index(progress, user, entry);
        let record = reviewed_record(Some(progress[at]), user, entry, outcome, now);
        assert(has_key(progress[at], user, entry));
        assert(after[at] == record);
        assert(has_key(after[at], user, entry));
        assert forall|i: int, j: int| 0 <= i < j < after.len() implies !has_key(
            #[trigger] after[i],
            (#[trigger] after[j]).user,
            after[j].entry,
        ) by {
            assert(after[i].user == progress[i].user && after[i].entry == progress[i].entry);
            assert(after[j].user == progress[j].user && after[j].entry == progress[j].entry);
            assert(!has_key(progress[i], progress[j].user, progress[j].entry));
        }
        let again = record_index(after, user, entry);
        assert(has_key(after[again], user, entry));
        if again < at {
            assert(!has_key(after[again], after[at].user, after[at].entry));
        }
        if at < again {
            assert(!has_key(after[at], after[again].user, after[again].entry));
        }
        if sane_counts(progress) {
            assert forall|i: int| 0 <= i < after.len() implies 0 <= (
            #[trigger] after[i]).times_mastered <= after[i].times_seen by {
                if i != at {
                    assert(after[i] == progress[i]);
                } else {
                    assert(0 <= progress[at].times_mastered <= progress[at].times_seen);
                }
            }
        }
    } else {
        let record = reviewed_record(None, user, entry, outcome, now);
        let last = progress.len() as int;
        assert(after[last] == record);
        assert(has_key(after[last], user, entry));
        assert forall|i: int, j: int| 0 <= i < j < after.len() implies !has_key(
            #[trigger] after[i],
            (#[trigger] after[j]).user,
            after[j].entry,
        ) by {
            assert(after[i] == progress[i]);
            if j < last {
                assert(after[j] == progress[j]);
                assert(!has_key(progress[i], progress[j].user, progress[j].entry));
            } else {
                assert(!has_key(progress[i], user, entry));
            }
        }
        let again = record_index(after, user, entry);
        assert(has_key(after[again], user, entry));
        if again < last {
            assert(after[again] == progress[again]);
            assert(has_key(progress[again], user, entry));
        }
        if sane_counts(progress) {
            assert forall|i: int| 0 <= i < after.len() implies 0 <= (
            #[trigger] after[i]).times_mastered <= after[i].times_seen by {
                if i < last {
                    assert(after[i] == progress[i]);
                }
            }
        }
    }
}

/// Records one review of `entry_id` by `user_id` in both stores.
///
/// The counters of an existing record must have room for one more review.
pub fn apply_review(
    progress: &mut Vec<ProgressRecord>,
    reviews: &mut Vec<ReviewEvent>,
    user_id: &str,
    entry_id: i32,
    outcome: ReviewStatus,
    notes: Option<String>,
    now: i64,
)
    requires
        unique_keys(progress_views(old(progress)@)),
        seen_count(progress_views(old(progress)@), user_id@, entry_id as int) < i32::MAX,
        mastered_count(progress_views(old(progress)@), user_id@, entry_id as int) < i32::MAX,
    ensures
        progress_views(final(progress)@) == progress_after(
            progress_views(old(progress)@),
            user_id@,
            entry_id as int,
            outcome,
            now,
        ),
        review_views(final(reviews)@) == review_views(old(reviews)@).push(
            review_row(
                user_id@,
                entry_id as int,
                outcome,
                match notes {
                    Some(n) => Some(n@),
                    None => None,
                },
                now,
            ),
        ),
        unique_keys(progress_views(final(progress)@)),
{
    let ghost before = progress_views(progress@);
    let ghost ledger = review_views(reviews@);
    let gain: i32 = match outcome {
        ReviewStatus::Mastered => 1,
        ReviewStatus::Learning => 0,
    };
    match find_progress(progress, user_id, entry_id) {
        Some(at) => {
            proof {
                let chosen = record_index(before, user_id@, entry_id as int);
                assert(has_key(before[chosen], user_id@, entry_id as int));
                assert(has_key(before[at as int], user_id@, entry_id as int));
                if chosen < at {
                    assert(!has_key(before[chosen], before[at as int].user, before[at as int].entry));
                }
                if at < chosen {
                    assert(!has_key(before[at as int], before[chosen].user, before[chosen].entry));
                }
            }
            let current = &progress[at];
            let record = ProgressRecord {
                user_id: current.user_id.clone(),
                entry_id: current.entry_id,
                status: outcome,
                times_seen: current.times_seen + 1,
                times_mastered: current.times_mastered + gain,
                last_seen_at: Some(now),
                created_at: current.created_at,
                updated_at: now,
            };
            progress.set(at, record);
            assert(progress_views(progress@) =~= progress_after(
                before,
                user_id@,
                entry_id as int,
                outcome,
                now,
            ));
        },
        None => {
            let record = ProgressRecord {
                user_id: user_id.to_string(),
                entry_id,
                status: outcome,
                times_seen: 1,
                times_mastered: gain,
                last_seen_at: Some(now),
                created_at: now,
                updated_at: now,
            };
            progress.push(record);
            assert(progress_views(progress@) =~= progress_after(
                before,
                user_id@,
                entry_id as int,
                outcome,
                now,
            ));
        },
    }
    let event = ReviewEvent {
        user_id: user_id.to_string(),
        entry_id,
        result: outcome,
        notes,
        reviewed_at: now,
    };
    reviews.push(event);
    proof {
        assert(review_views(reviews@) =~= ledger.push(event@));
        lemma_progress_after(before, user_id@, entry_id as int, outcome, now);
    }
}

} // verus!
