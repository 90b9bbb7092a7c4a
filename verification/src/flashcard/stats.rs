//! Counts of the cards that a user sees, by status and by part of speech.

use vstd::prelude::*;
use crate::flashcard::dto::{GroupView, PartOfSpeechStats, StatsResponse, StatsView};
use crate::flashcard::schedule::is_visible;
use crate::model::{
    card_status, find_progress, progress_views, unique_keys, visible_to, CardStatus, PartOfSpeech,
    ProgressRecord, ProgressView, ReviewStatus, VocabularyEntry,
};

verus! {

/// Whether the entry at `i` is one that `user` sees, of part of speech
/// `part` (any, where `None`) and of status `status` (any, where `None`).
pub open spec fn counts_in(
    entries: Seq<VocabularyEntry>,
    progress: Seq<ProgressView>,
    user: Seq<char>,
    part: Option<PartOfSpeech>,
    status: Option<CardStatus>,
    i: int,
) -> bool {
    &&& visible_to(entries[i], user)
    &&& (part matches Some(p) ==> entries[i].part_of_speech == p)
    &&& (status matches Some(s) ==> card_status(progress, user, entries[i].entry_id as int) == s)
}

/// How many of the first `n` entries count.
pub open spec fn tally(
    entries: Seq<VocabularyEntry>,
    progress: Seq<ProgressView>,
    user: Seq<char>,
    part: Option<PartOfSpeech>,
    status: Option<CardStatus>,
    n: nat,
) -> nat
    decreases n,
{
    if n == 0 {
        0
    } else {
        tally(entries, progress, user, part, status, (n - 1) as nat) + if counts_in(
            entries,
            progress,
            user,
            part,
            status,
            n - 1,
        ) {
            1nat
        } else {
            0nat
        }
    }
}

/// How many entries of the catalog count.
pub open spec fn count_cards(
    entries: Seq<VocabularyEntry>,
    progress: Seq<ProgressView>,
    user: Seq<char>,
    part: Option<PartOfSpeech>,
    status: Option<CardStatus>,
) -> nat {
    tally(entries, progress, user, part, status, entries.len())
}

/// The counts of the cards of one part of speech.
pub open spec fn group_of(
    entries: Seq<VocabularyEntry>,
    progress: Seq<ProgressView>,
    user: Seq<char>,
    part: PartOfSpeech,
) -> GroupView {
    GroupView {
        part_of_speech: part.name_text(),
        total: count_cards(entries, progress, user, Some(part), None) as int,
        mastered: count_cards(entries, progress, user, Some(part), Some(CardStatus::Mastered))
            as int,
        learning: count_cards(entries, progress, user, Some(part), Some(CardStatus::Learning))
            as int,
        fresh: count_cards(entries, progress, user, Some(part), Some(CardStatus::New)) as int,
    }
}

/// The row of one part of speech: present where the user sees at least one
/// entry of it.
pub open spec fn group_row(
    entries: Seq<VocabularyEntry>,
    progress: Seq<ProgressView>,
    user: Seq<char>,
    part: PartOfSpeech,
) -> Seq<GroupView> {
    if count_cards(entries, progress, user, Some(part), None) > 0 {
        seq![group_of(entries, progress, user, part)]
    } else {
        Seq::empty()
    }
}

/// The statistics of `user`: the counts over all the entries that the user
/// sees, and one row for each part of speech among them, in the order of
/// the names.
pub open spec fn stats_of(
    entries: Seq<VocabularyEntry>,
    progress: Seq<ProgressView>,
    user: Seq<char>,
) -> StatsView {
    StatsView {
        total: count_cards(entries, progress, user, None, None) as int,
        mastered: count_cards(entries, progress, user, None, Some(CardStatus::Mastered)) as int,
        learning: count_cards(entries, progress, user, None, Some(CardStatus::Learning)) as int,
        fresh: count_cards(entries, progress, user, None, Some(CardStatus::New)) as int,
        per_part_of_speech: group_row(entries, progress, user, PartOfSpeech::AdjectiveAdverb)
            + group_row(entries, progress, user, PartOfSpeech::Noun) + group_row(
            entries,
            progress,
            user,
            PartOfSpeech::Verb,
        ),
    }
}

/// The sum of one count over the rows: 0 total, 1 mastered, 2 learning,
/// 3 new.
pub open spec fn sum_rows(rows: Seq<GroupView>, which: int) -> int
    decreases rows.len(),
{
    if rows.len() == 0 {
        0
    } else {
        sum_rows(rows.drop_last(), which) + if which == 0 {
            rows.last().total
        } else if which == 1 {
            rows.last().mastered
        } else if which == 2 {
            rows.last().learning
        } else {
            rows.last().fresh
        }
    }
}

/// Every counted card has exactly one of the three statuses.
pub proof fn lemma_tally_by_status(
    entries: Seq<VocabularyEntry>,
    progress: Seq<ProgressView>,
    user: Seq<char>,
    part: Option<PartOfSpeech>,
    n: nat,
)
    ensures
        tally(entries, progress, user, part, None, n) == tally(
            entries,
            progress,
            user,
            part,
            Some(CardStatus::Mastered),
            n,
        ) + tally(entries, progress, user, part, Some(CardStatus::Learning), n) + tally(
            entries,
            progress,
            user,
            part,
            Some(CardStatus::New),
            n,
        ),
    decreases n,
{
    if n > 0 {
        lemma_tally_by_status(entries, progress, user, part, (n - 1) as nat);
    }
}

/// Every counted card has exactly one of the three parts of speech.
pub proof fn lemma_tally_by_part(
    entries: Seq<VocabularyEntry>,
    progress: Seq<ProgressView>,
    user: Seq<char>,
    status: Option<CardStatus>,
    n: nat,
)
    ensures
        tally(entries, progress, user, None, status, n) == tally(
            entries,
            progress,
            user,
            Some(PartOfSpeech::AdjectiveAdverb),
            status,
            n,
        ) + tally(entries, progress, user, Some(PartOfSpeech::Noun), status, n) + tally(
            entries,
            progress,
            user,
            Some(PartOfSpeech::Verb),
            status,
            n,
        ),
    decreases n,
{
    if n > 0 {
        lemma_tally_by_part(entries, progress, user, status, (n - 1) as nat);
    }
}

/// The sum over rows followed by at most one more row is the sum over
/// the rows plus the sum over the one.
pub proof fn lemma_sum_rows_append(rows: Seq<GroupView>, more: Seq<GroupView>, which: int)
    requires
        more.len() <= 1,
    ensures
        sum_rows(rows + more, which) == sum_rows(rows, which) + sum_rows(more, which),
{
    if more.len() == 0 {
        assert(rows + more =~= rows);
    } else {
        assert((rows + more).drop_last() =~= rows);
        assert((rows + more).last() == more.last());
        assert(more.drop_last() =~= Seq::<GroupView>::empty());
        assert(sum_rows(more.drop_last(), which) == 0);
    }
}

/// The total of the statistics is the sum of its three status counts, and
/// each count is the sum of that count over the rows.
pub proof fn law_stats_consistent(
    entries: Seq<VocabularyEntry>,
    progress: Seq<ProgressView>,
    user: Seq<char>,
)
    ensures
        ({
            let stats = stats_of(entries, progress, user);
            &&& stats.total == stats.mastered + stats.learning + stats.fresh
            &&& sum_rows(stats.per_part_of_speech, 0) == stats.total
            &&& sum_rows(stats.per_part_of_speech, 1) == stats.mastered
            &&& sum_rows(stats.per_part_of_speech, 2) == stats.learning
            &&& sum_rows(stats.per_part_of_speech, 3) == stats.fresh
            &&& forall|i: int|
                0 <= i < stats.per_part_of_speech.len() ==> (
                #[trigger] stats.per_part_of_speech[i]).total == stats.per_part_of_speech[i].mastered
                    + stats.per_part_of_speech[i].learning + stats.per_part_of_speech[i].fresh
        }),
{
    let n = entries.len();
    let stats = stats_of(entries, progress, user);
    let a = group_row(entries, progress, user, PartOfSpeech::AdjectiveAdverb);
    let b = group_row(entries, progress, user, PartOfSpeech::Noun);
    let c = group_row(entries, progress, user, PartOfSpeech::Verb);
    lemma_tally_by_status(entries, progress, user, None, n);
    lemma_tally_by_status(entries, progress, user, Some(PartOfSpeech::AdjectiveAdverb), n);
    lemma_tally_by_status(entries, progress, user, Some(PartOfSpeech::Noun), n);
    lemma_tally_by_status(entries, progress, user, Some(PartOfSpeech::Verb), n);
    lemma_tally_by_part(entries, progress, user, None, n);
    lemma_tally_by_part(entries, progress, user, Some(CardStatus::Mastered), n);
    lemma_tally_by_part(entries, progress, user, Some(CardStatus::Learning), n);
    lemma_tally_by_part(entries, progress, user, Some(CardStatus::New), n);
    assert forall|which: int| 0 <= which <= 3 implies sum_rows(
        #[trigger] stats.per_part_of_speech,
        which,
    ) == sum_rows(a, which) + sum_rows(b, which) + sum_rows(c, which) by {
        lemma_sum_rows_append(a + b, c, which);
        lemma_sum_rows_append(a, b, which);
    }
    assert forall|rows: Seq<GroupView>, which: int| rows.len() == 0 implies #[trigger] sum_rows(
        rows,
        which,
    ) == 0 by {}
    assert forall|rows: Seq<GroupView>, which: int| rows.len() == 1 implies #[trigger] sum_rows(
        rows,
        which,
    ) == sum_rows(rows.drop_last(), which) + if which == 0 {
        rows.last().total
    } else if which == 1 {
        rows.last().mastered
    } else if which == 2 {
        rows.last().learning
    } else {
        rows.last().fresh
    } by {}
    assert(sum_rows(stats.per_part_of_speech, 0) == stats.total);
    assert(sum_rows(stats.per_part_of_speech, 1) == stats.mastered);
    assert(sum_rows(stats.per_part_of_speech, 2) == stats.learning);
    assert(sum_rows(stats.per_part_of_speech, 3) == stats.fresh);
}

/// The three status counts of the cards that `user_id` sees, of part of
/// speech `part` (any, where `None`): mastered, learning, new.
pub fn count_by_status(
    entries: &Vec<VocabularyEntry>,
    progress: &Vec<ProgressRecord>,
    user_id: &str,
    part: Option<PartOfSpeech>,
) -> (r: (u64, u64, u64))
    requires
        unique_keys(progress_views(progress@)),
    ensures
        r.0 == count_cards(
            entries@,
            progress_views(progress@),
            user_id@,
            part,
            Some(CardStatus::Mastered),
        ),
        r.1 == count_cards(
            entries@,
            progress_views(progress@),
            user_id@,
            part,
            Some(CardStatus::Learning),
        ),
        r.2 == count_cards(
            entries@,
            progress_views(progress@),
            user_id@,
            part,
            Some(CardStatus::New),
        ),
        r.0 + r.1 + r.2 == count_cards(entries@, progress_views(progress@), user_id@, part, None),
        r.0 + r.1 + r.2 <= entries@.len() <= usize::MAX,
{
    let ghost views = progress_views(progress@);
    let mut mastered: u64 = 0;
    let mut learning: u64 = 0;
    let mut fresh: u64 = 0;
    let mut i: usize = 0;
    while i < entries.len()
        invariant
            i <= entries@.len(),
            views == progress_views(progress@),
            unique_keys(views),
            mastered == tally(entries@, views, user_id@, part, Some(CardStatus::Mastered), i as nat),
            learning == tally(entries@, views, user_id@, part, Some(CardStatus::Learning), i as nat),
            fresh == tally(entries@, views, user_id@, part, Some(CardStatus::New), i as nat),
            mastered + learning + fresh <= i,
        decreases entries@.len() - i,
    {
        let entry = &entries[i];
        let part_ok = match part {
            None => true,
            Some(p) => entry.part_of_speech == p,
        };
        if part_ok && is_visible(entry, user_id) {
            match find_progress(progress, user_id, entry.entry_id) {
                None => {
                    fresh += 1;
                },
                Some(at) => match progress[at].status {
                    ReviewStatus::Mastered => {
                        mastered += 1;
                    },
                    ReviewStatus::Learning => {
                        learning += 1;
                    },
                },
            }
        }
        i += 1;
    }
    proof {
        lemma_tally_by_status(entries@, views, user_id@, part, entries@.len());
    }
    (mastered, learning, fresh)
}

/// The row of `part` in the statistics of `user_id`, or `None` where the
/// user sees no entry of that part of speech.
pub fn part_stats(
    entries: &Vec<VocabularyEntry>,
    progress: &Vec<ProgressRecord>,
    user_id: &str,
    part: PartOfSpeech,
) -> (r: Option<PartOfSpeechStats>)
    requires
        unique_keys(progress_views(progress@)),
    ensures
        match r {
            Some(row) => group_row(entries@, progress_views(progress@), user_id@, part) == seq![
                row@,
            ],
            None => group_row(entries@, progress_views(progress@), user_id@, part)
                == Seq::<GroupView>::empty(),
        },
{
    let (mastered, learning, fresh) = count_by_status(entries, progress, user_id, Some(part));
    let total = mastered + learning + fresh;
    if total > 0 {
        Some(
            PartOfSpeechStats {
                part_of_speech: part.name().to_string(),
                total,
                mastered,
                learning,
                new: fresh,
            },
        )
    } else {
        None
    }
}

/// The statistics of `user_id` over `entries`.
pub fn compute_stats(
    entries: &Vec<VocabularyEntry>,
    progress: &Vec<ProgressRecord>,
    user_id: &str,
) -> (r: StatsResponse)
    requires
        unique_keys(progress_views(progress@)),
    ensures
        r@ == stats_of(entries@, progress_views(progress@), user_id@),
{
    let (mastered, learning, fresh) = count_by_status(entries, progress, user_id, None);
    let mut rows: Vec<PartOfSpeechStats> = Vec::new();
    let ghost views = progress_views(progress@);
    let ghost a = group_row(entries@, views, user_id@, PartOfSpeech::AdjectiveAdverb);
    let ghost b = group_row(entries@, views, user_id@, PartOfSpeech::Noun);
    let ghost c = group_row(entries@, views, user_id@, PartOfSpeech::Verb);
    match part_stats(entries, progress, user_id, PartOfSpeech::AdjectiveAdverb) {
        Some(row) => {
            rows.push(row);
        },
        None => {},
    }
    assert(Seq::new(rows@.len(), |i: int| rows@[i]@) =~= a);
    match part_stats(entries, progress, user_id, PartOfSpeech::Noun) {
        Some(row) => {
            rows.push(row);
        },
        None => {},
    }
    assert(Seq::new(rows@.len(), |i: int| rows@[i]@) =~= a + b);
    match part_stats(entries, progress, user_id, PartOfSpeech::Verb) {
        Some(row) => {
            rows.push(row);
        },
        None => {},
    }
    assert(Seq::new(rows@.len(), |i: int| rows@[i]@) =~= a + b + c);
    StatsResponse {
        total: mastered + learning + fresh,
        mastered,
        learning,
        new: fresh,
        per_part_of_speech: rows,
    }
}

} // verus!
