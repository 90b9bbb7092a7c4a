//! What holds of the engine in every state: laws of the scheduler and of
//! the review recorder, proved from the definitions that the contracts of
//! the operations use.

use vstd::prelude::*;
use crate::flashcard::review::{
    count_reviews, lemma_progress_after, mastered_count, mastery_gain, progress_after,
    seen_count,
};
use crate::flashcard::schedule::{query_of, rank_lt, Query};
use crate::flashcard::service::ServiceView;
use crate::model::{
    card_status, has_key, has_record, record_index, record_of, unique_keys, visible_to,
    CardStatus, PartOfSpeech, ProgressView, ReviewStatus, StatusFilter, VocabularyEntry,
};

verus! {

/// The best candidate among the first `n` entries, found by going through
/// them in order.
spec fn best_upto(q: Query, n: nat) -> Option<int>
    decreases n,
{
    if n == 0 {
        None
    } else {
        let before = best_upto(q, (n - 1) as nat);
        if q.is_candidate(n - 1) && (before is None || rank_lt(
            q.rank(n - 1),
            q.rank(before->0),
        )) {
            Some(n - 1)
        } else {
            before
        }
    }
}

proof fn lemma_best_upto(q: Query, n: nat)
    ensures
        match best_upto(q, n) {
            None => forall|j: int| 0 <= j < n ==> !#[trigger] q.is_candidate(j),
            Some(b) => {
                &&& 0 <= b < n
                &&& q.is_candidate(b)
                &&& forall|j: int|
                    0 <= j < n && #[trigger] q.is_candidate(j) ==> !rank_lt(q.rank(j), q.rank(b))
                        && (q.rank(j) == q.rank(b) ==> b <= j)
            },
        },
    decreases n,
{
    if n > 0 {
        lemma_best_upto(q, (n - 1) as nat);
    }
}

/// Where a request has a candidate, one entry is selected, and it is the
/// one that `selected` names.
pub proof fn lemma_selected_exists(q: Query)
    requires
        q.has_candidate(),
    ensures
        q.is_selected(q.selected()),
{
    lemma_best_upto(q, q.entries.len());
    let some = choose|i: int| #[trigger] q.is_candidate(i);
    assert(q.is_candidate(some));
    let best = best_upto(q, q.entries.len());
    assert(best is Some);
    assert(q.is_selected(best->0));
}

/// No mastered card comes back by default: where every entry that the
/// user sees is mastered, a request without a status has no candidate,
/// whatever part of speech it asks for.
pub proof fn law_no_mastered_by_default(
    entries: Seq<VocabularyEntry>,
    progress: Seq<ProgressView>,
    user: Seq<char>,
    part: Option<PartOfSpeech>,
)
    requires
        forall|i: int|
            0 <= i < entries.len() && visible_to(#[trigger] entries[i], user) ==> card_status(
                progress,
                user,
                entries[i].entry_id as int,
            ) == CardStatus::Mastered,
    ensures
        !query_of(entries, progress, user, part, StatusFilter::Unmastered).has_candidate(),
{
    let q = query_of(entries, progress, user, part, StatusFilter::Unmastered);
    assert forall|i: int| !#[trigger] q.is_candidate(i) by {
        if 0 <= i < entries.len() && visible_to(entries[i], user) {
            assert(card_status(progress, user, entries[i].entry_id as int)
                == CardStatus::Mastered);
        }
    }
}

/// New before seen: as long as some candidate was never reviewed by the
/// user, the selected card is one that was never reviewed. A card with a
/// progress record is not presented before every such candidate is gone.
pub proof fn law_new_before_seen(q: Query, fresh: int)
    requires
        q.is_candidate(fresh),
        record_of(q.progress, q.user, q.entries[fresh].entry_id as int) is None,
    ensures
        q.has_candidate(),
        q.is_selected(q.selected()),
        record_of(q.progress, q.user, q.entries[q.selected()].entry_id as int) is None,
{
    lemma_selected_exists(q);
    let k = q.selected();
    assert(!rank_lt(q.rank(fresh), q.rank(k)));
}

/// Of two candidates, the one seen less often is preferred: the selected
/// card has been seen no more often than any candidate with a record.
pub proof fn law_least_seen_first(q: Query, other: int)
    requires
        q.is_candidate(other),
        q.has_candidate(),
    ensures
        match (q.rank(q.selected()).seen, q.rank(other).seen) {
            (Some(chosen), Some(seen)) => chosen <= seen,
            (Some(_), None) => false,
            _ => true,
        },
{
    lemma_selected_exists(q);
    assert(!rank_lt(q.rank(other), q.rank(q.selected())));
}

/// A review of one pair leaves the record of every other pair as it was.
pub proof fn law_review_leaves_others(
    progress: Seq<ProgressView>,
    user: Seq<char>,
    entry: int,
    outcome: ReviewStatus,
    now: i64,
    other_user: Seq<char>,
    other_entry: int,
)
    requires
        unique_keys(progress),
        other_user != user || other_entry != entry,
    ensures
        record_of(progress_after(progress, user, entry, outcome, now), other_user, other_entry)
            == record_of(progress, other_user, other_entry),
{
    let after = progress_after(progress, user, entry, outcome, now);
    lemma_progress_after(progress, user, entry, outcome, now);
    if has_record(progress, user, entry) {
        let at = record_index(progress, user, entry);
        assert(has_key(progress[at], user, entry));
        assert(after[at].user == user && after[at].entry == entry);
    } else {
        assert(after[progress.len() as int].user == user);
        assert(after[progress.len() as int].entry == entry);
    }
    if has_record(progress, other_user, other_entry) {
        let k = record_index(progress, other_user, other_entry);
        assert(has_key(progress[k], other_user, other_entry));
        assert(after[k] == progress[k]);
        assert(has_key(after[k], other_user, other_entry));
        let again = record_index(after, other_user, other_entry);
        assert(has_key(after[again], other_user, other_entry));
        if again < k {
            assert(!has_key(after[again], after[k].user, after[k].entry));
        }
        if k < again {
            assert(!has_key(after[k], after[again].user, after[again].entry));
        }
    } else {
        if has_record(after, other_user, other_entry) {
            let again = record_index(after, other_user, other_entry);
            assert(has_key(after[again], other_user, other_entry));
            if again < progress.len() {
                assert(after[again].user == progress[again].user);
                assert(after[again].entry == progress[again].entry);
                assert(has_key(progress[again], other_user, other_entry));
            }
        }
    }
}

/// One review as the recorder takes it.
pub struct ReviewStep {
    pub outcome: ReviewStatus,
    pub notes: Option<Seq<char>>,
    pub at: i64,
}

/// The state after `user` reviewed `entry` once for each step, in order.
pub open spec fn after_reviews(
    state: ServiceView,
    user: Seq<char>,
    entry: int,
    steps: Seq<ReviewStep>,
) -> ServiceView
    decreases steps.len(),
{
    if steps.len() == 0 {
        state
    } else {
        after_reviews(state, user, entry, steps.drop_last()).reviewed(
            user,
            entry,
            steps.last().outcome,
            steps.last().notes,
            steps.last().at,
        )
    }
}

/// How many of the steps ended in `Mastered`.
pub open spec fn mastered_steps(steps: Seq<ReviewStep>) -> int
    decreases steps.len(),
{
    if steps.len() == 0 {
        0
    } else {
        mastered_steps(steps.drop_last()) + mastery_gain(steps.last().outcome)
    }
}

/// Every review counts once: after a sequence of reviews of one entry by
/// one user, the record has been advanced by the number of reviews, its
/// count of masteries by the number of reviews that ended in `Mastered`,
/// and the ledger holds one more row of the pair for each review. The
/// catalog is untouched and the stores stay in order.
pub proof fn law_reviews_counted(
    state: ServiceView,
    user: Seq<char>,
    entry: int,
    steps: Seq<ReviewStep>,
)
    requires
        state.valid(),
    ensures
        ({
            let end = after_reviews(state, user, entry, steps);
            &&& end.valid()
            &&& end.entries == state.entries
            &&& seen_count(end.progress, user, entry) == seen_count(state.progress, user, entry)
                + steps.len()
            &&& mastered_count(end.progress, user, entry) == mastered_count(
                state.progress,
                user,
                entry,
            ) + mastered_steps(steps)
            &&& count_reviews(end.reviews, user, entry) == count_reviews(
                state.reviews,
                user,
                entry,
            ) + steps.len()
            &&& steps.len() > 0 ==> has_record(end.progress, user, entry)
        }),
    decreases steps.len(),
{
    if steps.len() > 0 {
        let before = after_reviews(state, user, entry, steps.drop_last());
        let step = steps.last();
        law_reviews_counted(state, user, entry, steps.drop_last());
        lemma_progress_after(before.progress, user, entry, step.outcome, step.at);
        let end = before.reviewed(user, entry, step.outcome, step.notes, step.at);
        assert(end.reviews.drop_last() =~= before.reviews);
        assert(end.reviews.last().user == user && end.reviews.last().entry == entry);
    }
}

/// A pair that was never reviewed, reviewed `n` times: the record says
/// `n` reviews, as many masteries as reviews ended in `Mastered`, and the
/// ledger holds exactly `n` rows of the pair.
pub proof fn law_first_reviews(
    state: ServiceView,
    user: Seq<char>,
    entry: int,
    steps: Seq<ReviewStep>,
)
    requires
        state.valid(),
        !has_record(state.progress, user, entry),
        count_reviews(state.reviews, user, entry) == 0,
        steps.len() > 0,
    ensures
        ({
            let end = after_reviews(state, user, entry, steps);
            &&& record_of(end.progress, user, entry) matches Some(record)
            &&& record.times_seen == steps.len()
            &&& record.times_mastered == mastered_steps(steps)
            &&& count_reviews(end.reviews, user, entry) == steps.len()
        }),
{
    law_reviews_counted(state, user, entry, steps);
}

} // verus!
