//! The check-in ledger: at most one row for each user and day. A second
//! check-in on a day changes nothing.

use vstd::prelude::*;
use crate::checkin::status::{
    compute_status, renderable, status_of, summary_of, CheckinStatus,
};
use crate::text::text_eq;

verus! {

/// One check-in: the user was present on the day.
#[derive(Debug)]
pub struct CheckinEvent {
    pub user_id: String,
    pub day: i32,
    pub checked_at: i64,
}

/// A check-in as the contracts see it.
pub struct CheckinView {
    pub user: Seq<char>,
    pub day: i32,
    pub checked_at: i64,
}

impl View for CheckinEvent {
    type V = CheckinView;

    open spec fn view(&self) -> CheckinView {
        CheckinView { user: self.user_id@, day: self.day, checked_at: self.checked_at }
    }
}

/// The views of a list of check-ins, in order.
pub open spec fn row_views(rows: Seq<CheckinEvent>) -> Seq<CheckinView> {
    Seq::new(rows.len(), |i: int| rows[i]@)
}

/// Whether `row` is the check-in of `user` on `day`.
pub open spec fn is_row(row: CheckinView, user: Seq<char>, day: i32) -> bool {
    row.user == user && row.day == day
}

/// Whether the ledger holds a check-in of `user` on `day`.
pub open spec fn has_row(rows: Seq<CheckinView>, user: Seq<char>, day: i32) -> bool {
    exists|i: int| 0 <= i < rows.len() && is_row(#[trigger] rows[i], user, day)
}

/// No two rows are of the same user and day.
pub open spec fn one_row_a_day(rows: Seq<CheckinView>) -> bool {
    forall|i: int, j: int|
        0 <= i < j < rows.len() ==> !is_row(
            #[trigger] rows[i],
            (#[trigger] rows[j]).user,
            rows[j].day,
        )
}

/// How many rows are check-ins of `user` on `day`.
pub open spec fn count_rows(rows: Seq<CheckinView>, user: Seq<char>, day: i32) -> nat
    decreases rows.len(),
{
    if rows.len() == 0 {
        0
    } else {
        count_rows(rows.drop_last(), user, day) + if is_row(rows.last(), user, day) {
            1nat
        } else {
            0nat
        }
    }
}

/// The days on which `user` checked in, in the order of the rows.
pub open spec fn days_of(rows: Seq<CheckinView>, user: Seq<char>) -> Seq<i32>
    decreases rows.len(),
{
    if rows.len() == 0 {
        Seq::empty()
    } else {
        let before = days_of(rows.drop_last(), user);
        if rows.last().user == user {
            before.push(rows.last().day)
        } else {
            before
        }
    }
}

/// The ledger after `user` checked in on `day` at `now`: as before where
/// the user had checked in on that day already, else with one more row.
pub open spec fn checked_in(rows: Seq<CheckinView>, user: Seq<char>, day: i32, now: i64) -> Seq<
    CheckinView,
> {
    if has_row(rows, user, day) {
        rows
    } else {
        rows.push(CheckinView { user, day, checked_at: now })
    }
}

/// A check-in keeps the ledger at one row for each user and day.
pub proof fn lemma_checked_in_keeps_order(
    rows: Seq<CheckinView>,
    user: Seq<char>,
    day: i32,
    now: i64,
)
    requires
        one_row_a_day(rows),
    ensures
        one_row_a_day(checked_in(rows, user, day, now)),
        has_row(checked_in(rows, user, day, now), user, day),
{
    let after = checked_in(rows, user, day, now);
    if !has_row(rows, user, day) {
        let last = rows.len() as int;
        assert(is_row(after[last], user, day));
        assert forall|i: int, j: int| 0 <= i < j < after.len() implies !is_row(
            #[trigger] after[i],
            (#[trigger] after[j]).user,
            after[j].day,
        ) by {
            assert(after[i] == rows[i]);
            if j < last {
                assert(after[j] == rows[j]);
                assert(!is_row(rows[i], rows[j].user, rows[j].day));
            } else {
                assert(!is_row(rows[i], user, day));
            }
        }
    }
}

/// The check-in ledger.
pub struct CheckinLedger {
    rows: Vec<CheckinEvent>,
}

impl View for CheckinLedger {
    type V = Seq<CheckinView>;

    closed spec fn view(&self) -> Seq<CheckinView> {
        row_views(self.rows@)
    }
}

impl CheckinLedger {
    /// Whether the ledger holds at most one row for each user and day.
    pub open spec fn wf(&self) -> bool {
        one_row_a_day(self@)
    }

    /// A ledger without rows.
    pub fn new() -> (r: Self)
        ensures
            r.wf(),
            r@.len() == 0,
    {
        CheckinLedger { rows: Vec::new() }
    }

    /// The rows, oldest first.
    pub fn rows(&self) -> (r: &Vec<CheckinEvent>)
        ensures
            row_views(r@) == self@,
    {
        &self.rows
    }

    /// Whether `user_id` checked in on `day`.
    pub fn is_recorded(&self, user_id: &str, day: i32) -> (r: bool)
        ensures
            r == has_row(self@, user_id@, day),
    {
        let mut i: usize = 0;
        while i < self.rows.len()
            invariant
                i <= self.rows@.len(),
                forall|j: int| 0 <= j < i ==> !is_row(#[trigger] self@[j], user_id@, day),
            decreases self.rows@.len() - i,
        {
            if self.rows[i].day == day && text_eq(self.rows[i].user_id.as_str(), user_id) {
                assert(is_row(self@[i as int], user_id@, day));
                return true;
            }
            i += 1;
        }
        false
    }

    /// Records that `user_id` was present on `day`. A second check-in on
    /// the same day changes nothing, the time of the first included. The
    /// result says whether a row was added.
    pub fn record(&mut self, user_id: &str, day: i32, now: i64) -> (r: bool)
        requires
            old(self).wf(),
        ensures
            final(self).wf(),
            final(self)@ == checked_in(old(self)@, user_id@, day, now),
            r == !has_row(old(self)@, user_id@, day),
    {
        proof {
            lemma_checked_in_keeps_order(self@, user_id@, day, now);
        }
        if self.is_recorded(user_id, day) {
            false
        } else {
            let ghost before = self@;
            self.rows.push(CheckinEvent { user_id: user_id.to_string(), day, checked_at: now });
            assert(self@ =~= before.push(CheckinView { user: user_id@, day, checked_at: now }));
            true
        }
    }

    /// The days on which `user_id` checked in, in the order of the rows.
    pub fn days_for(&self, user_id: &str) -> (r: Vec<i32>)
        ensures
            r@ == days_of(self@, user_id@),
    {
        let mut days: Vec<i32> = Vec::new();
        let mut i: usize = 0;
        assert(self@.take(0) =~= Seq::<CheckinView>::empty());
        while i < self.rows.len()
            invariant
                i <= self.rows@.len(),
                days@ == days_of(self@.take(i as int), user_id@),
            decreases self.rows@.len() - i,
        {
            proof {
                assert(self@.take(i + 1).drop_last() =~= self@.take(i as int));
                assert(self@.take(i + 1).last() == self@[i as int]);
            }
            if text_eq(self.rows[i].user_id.as_str(), user_id) {
                days.push(self.rows[i].day);
            }
            i += 1;
        }
        assert(self@.take(self@.len() as int) =~= self@);
        days
    }

    /// The status of `user_id` on the day `today`, or `None` where one of
    /// its dates cannot be written as text. The ledger is only read.
    pub fn get_status(&self, user_id: &str, today: i32) -> (r: Option<CheckinStatus>)
        ensures
            r is Some <==> renderable(summary_of(days_of(self@, user_id@), today)),
            r matches Some(status) ==> status@ == status_of(
                summary_of(days_of(self@, user_id@), today),
            ),
    {
        let days = self.days_for(user_id);
        compute_status(&days, today)
    }

    /// Records that `user_id` is present on the day `today`, and gives the
    /// status after that; `None` where one of its dates cannot be written
    /// as text. The check-in is recorded either way.
    pub fn post_checkin(&mut self, user_id: &str, today: i32, now: i64) -> (r: Option<
        CheckinStatus,
    >)
        requires
            old(self).wf(),
        ensures
            final(self).wf(),
            final(self)@ == checked_in(old(self)@, user_id@, today, now),
            r is Some <==> renderable(summary_of(days_of(final(self)@, user_id@), today)),
            r matches Some(status) ==> status@ == status_of(
                summary_of(days_of(final(self)@, user_id@), today),
            ),
    {
        let _ = self.record(user_id, today, now);
        self.get_status(user_id, today)
    }
}

} // verus!
