//! Which card comes next: the candidates of a request and their ranking.
//!
//! A card is a candidate when the user may see the entry, its part of speech
//! is the one asked for, and its status passes the status filter. Candidates
//! are ranked by exposure (never seen first, then fewest reviews), then by
//! creation time (unknown first, then oldest), then by entry id. The first
//! of the ranking is selected.

use vstd::prelude::*;
use crate::model::{
    card_status, find_progress, progress_views, record_of, unique_keys, visible_to, CardStatus,
    PartOfSpeech, ProgressRecord, ProgressView, ReviewStatus, StatusFilter, VocabularyEntry,
};
use crate::text::text_eq;

verus! {

/// Whether the status filter lets a card of this status through. Without
/// an explicit filter, mastered cards are held back.
pub open spec fn admits(filter: StatusFilter, status: CardStatus) -> bool {
    match filter {
        StatusFilter::Unmastered => status != CardStatus::Mastered,
        StatusFilter::New => status == CardStatus::New,
        StatusFilter::Learning => status == CardStatus::Learning,
        StatusFilter::Mastered => status == CardStatus::Mastered,
    }
}

/// What a card is ranked by.
pub struct Rank {
    /// How often the user has seen the card; `None` for never.
    pub seen: Option<int>,
    /// When the entry was created, where that is known.
    pub created: Option<int>,
    pub id: int,
}

/// `None` comes before every number, and numbers are in their own order.
pub open spec fn opt_lt(a: Option<int>, b: Option<int>) -> bool {
    match (a, b) {
        (None, Some(_)) => true,
        (Some(x), Some(y)) => x < y,
        _ => false,
    }
}

/// Whether a card of rank `a` comes strictly before one of rank `b`.
pub open spec fn rank_lt(a: Rank, b: Rank) -> bool {
    ||| opt_lt(a.seen, b.seen)
    ||| a.seen == b.seen && opt_lt(a.created, b.created)
    ||| a.seen == b.seen && a.created == b.created && a.id < b.id
}

/// A request for the next card, together with the stores it is asked of.
pub struct Query {
    pub entries: Seq<VocabularyEntry>,
    pub progress: Seq<ProgressView>,
    pub user: Seq<char>,
    pub part: Option<PartOfSpeech>,
    pub filter: StatusFilter,
}

impl Query {
    /// Whether the entry at `i` may be presented.
    pub open spec fn is_candidate(self, i: int) -> bool {
        &&& 0 <= i < self.entries.len()
        &&& visible_to(self.entries[i], self.user)
        &&& (self.part matches Some(p) ==> self.entries[i].part_of_speech == p)
        &&& admits(
            self.filter,
            card_status(self.progress, self.user, self.entries[i].entry_id as int),
        )
    }

    /// The rank of the entry at `i`.
    pub open spec fn rank(self, i: int) -> Rank {
        Rank {
            seen: match record_of(self.progress, self.user, self.entries[i].entry_id as int) {
                None => None,
                Some(record) => Some(record.times_seen),
            },
            created: match self.entries[i].source_created_time {
                None => None,
                Some(t) => Some(t as int),
            },
            id: self.entries[i].entry_id as int,
        }
    }

    /// Whether the entry at `k` is the one to present: a candidate that no
    /// candidate comes before, and the earliest in the catalog among the
    /// candidates of its rank.
    pub open spec fn is_selected(self, k: int) -> bool {
        &&& self.is_candidate(k)
        &&& forall|j: int| #[trigger]
            self.is_candidate(j) ==> !rank_lt(self.rank(j), self.rank(k)) && (self.rank(j)
                == self.rank(k) ==> k <= j)
    }

    /// Whether the request has any candidate.
    pub open spec fn has_candidate(self) -> bool {
        exists|i: int| #[trigger] self.is_candidate(i)
    }

    /// The place of the card to present, where there is a candidate.
    pub open spec fn selected(self) -> int {
        choose|k: int| self.is_selected(k)
    }
}

/// The request of `user` for a card of part of speech `part` (any, where
/// `None`) and of a status that `filter` admits.
pub open spec fn query_of(
    entries: Seq<VocabularyEntry>,
    progress: Seq<ProgressView>,
    user: Seq<char>,
    part: Option<PartOfSpeech>,
    filter: StatusFilter,
) -> Query {
    Query { entries, progress, user, part, filter }
}

/// At most one entry is selected.
pub proof fn lemma_selected_unique(q: Query, a: int, b: int)
    requires
        q.is_selected(a),
        q.is_selected(b),
    ensures
        a == b,
{
    assert(q.is_candidate(a));
    assert(q.is_candidate(b));
}

/// The rank of a card in executable form.
#[derive(Clone, Copy, Debug)]
pub struct CardRank {
    pub seen: Option<i32>,
    pub created: Option<i64>,
    pub id: i32,
}

impl View for CardRank {
    type V = Rank;

    open spec fn view(&self) -> Rank {
        Rank {
            seen: match self.seen {
                None => None,
                Some(n) => Some(n as int),
            },
            created: match self.created {
                None => None,
                Some(t) => Some(t as int),
            },
            id: self.id as int,
        }
    }
}

impl CardRank {
    /// Whether a card of this rank comes strictly before one of rank `other`.
    pub fn before(&self, other: &CardRank) -> (r: bool)
        ensures
            r == rank_lt(self@, other@),
    {
        let seen_lt = match (self.seen, other.seen) {
            (None, Some(_)) => true,
            (Some(x), Some(y)) => x < y,
            _ => false,
        };
        let seen_eq = match (self.seen, other.seen) {
            (None, None) => true,
            (Some(x), Some(y)) => x == y,
            _ => false,
        };
        let created_lt = match (self.created, other.created) {
            (None, Some(_)) => true,
            (Some(x), Some(y)) => x < y,
            _ => false,
        };
        let created_eq = match (self.created, other.created) {
            (None, None) => true,
            (Some(x), Some(y)) => x == y,
            _ => false,
        };
        seen_lt || (seen_eq && created_lt) || (seen_eq && created_eq && self.id < other.id)
    }
}

/// Whether `user_id` may see `entry`.
pub fn is_visible(entry: &VocabularyEntry, user_id: &str) -> (r: bool)
    ensures
        r == visible_to(*entry, user_id@),
{
    match &entry.user_owner {
        None => true,
        Some(owner) => text_eq(owner.as_str(), user_id),
    }
}

/// Whether `filter` admits a card whose progress record is `record`.
pub fn filter_admits(filter: StatusFilter, record: Option<&ProgressRecord>) -> (r: bool)
    ensures
        r == admits(
            filter,
            match record {
                None => CardStatus::New,
                Some(p) => if p.status == ReviewStatus::Mastered {
                    CardStatus::Mastered
                } else {
                    CardStatus::Learning
                },
            },
        ),
{
    match record {
        None => match filter {
            StatusFilter::Unmastered => true,
            StatusFilter::New => true,
            _ => false,
        },
        Some(p) => match p.status {
            ReviewStatus::Mastered => match filter {
                StatusFilter::Mastered => true,
                _ => false,
            },
            ReviewStatus::Learning => match filter {
                StatusFilter::Unmastered => true,
                StatusFilter::Learning => true,
                _ => false,
            },
        },
    }
}

/// The place in `entries` of the card to present to `user_id`, or `None`
/// where the request has no candidate.
pub fn select_next(
    entries: &Vec<VocabularyEntry>,
    progress: &Vec<ProgressRecord>,
    user_id: &str,
    part: Option<PartOfSpeech>,
    filter: StatusFilter,
) -> (r: Option<usize>)
    requires
        unique_keys(progress_views(progress@)),
    ensures
        r is Some <==> query_of(
            entries@,
            progress_views(progress@),
            user_id@,
            part,
            filter,
        ).has_candidate(),
        r matches Some(k) ==> query_of(
            entries@,
            progress_views(progress@),
            user_id@,
            part,
            filter,
        ).is_selected(k as int),
        r matches Some(k) ==> k == query_of(
            entries@,
            progress_views(progress@),
            user_id@,
            part,
            filter,
        ).selected(),
{
    let ghost q = query_of(entries@, progress_views(progress@), user_id@, part, filter);
    let mut best: Option<usize> = None;
    let mut best_rank = CardRank { seen: None, created: None, id: 0 };
    let mut i: usize = 0;
    while i < entries.len()
        invariant
            i <= entries@.len(),
            q == query_of(entries@, progress_views(progress@), user_id@, part, filter),
            unique_keys(progress_views(progress@)),
            best is None ==> forall|j: int| 0 <= j < i ==> !#[trigger] q.is_candidate(j),
            best matches Some(b) ==> b < i && q.is_candidate(b as int) && best_rank@ == q.rank(
                b as int,
            ),
            best matches Some(b) ==> forall|j: int|
                0 <= j < i && #[trigger] q.is_candidate(j) ==> !rank_lt(
                    q.rank(j),
                    q.rank(b as int),
                ) && (q.rank(j) == q.rank(b as int) ==> b <= j),
        decreases entries@.len() - i,
    {
        let entry = &entries[i];
        let part_ok = match part {
            None => true,
            Some(p) => entry.part_of_speech == p,
        };
        if part_ok && is_visible(entry, user_id) {
            let found = find_progress(progress, user_id, entry.entry_id);
            let record: Option<&ProgressRecord> = match found {
                Some(at) => Some(&progress[at]),
                None => None,
            };
            let rank = CardRank {
                seen: match record {
                    Some(p) => Some(p.times_seen),
                    None => None,
                },
                created: entry.source_created_time,
                id: entry.entry_id,
            };
            assert(rank@ == q.rank(i as int));
            if filter_admits(filter, record) {
                assert(q.is_candidate(i as int));
                let better = match best {
                    None => true,
                    Some(_) => rank.before(&best_rank),
                };
                if better {
                    best = Some(i);
                    best_rank = rank;
                }
            } else {
                assert(!q.is_candidate(i as int));
            }
        } else {
            assert(!q.is_candidate(i as int));
        }
        i += 1;
    }
    proof {
        match best {
            Some(b) => {
                assert(q.is_selected(b as int));
                lemma_selected_unique(q, b as int, q.selected());
            },
            None => {
                assert forall|j: int| !#[trigger] q.is_candidate(j) by {}
            },
        }
    }
    best
}

} // verus!
