//! What holds of the check-in ledger and of the streak, whatever the
//! ledger holds.

use vstd::prelude::*;
use crate::checkin::ledger::{
    checked_in, count_rows, days_of, has_row, is_row, lemma_checked_in_keeps_order,
    one_row_a_day, CheckinView,
};
use crate::checkin::status::{
    checked_on, run_length, streak_of, summary_of, STREAK_LOOKBACK,
};

verus! {

/// The days of a user are the days of the user's rows.
pub proof fn lemma_days_of_rows(rows: Seq<CheckinView>, user: Seq<char>, day: i32)
    ensures
        checked_on(days_of(rows, user), day as int) <==> has_row(rows, user, day),
    decreases rows.len(),
{
    if rows.len() > 0 {
        let before = rows.drop_last();
        lemma_days_of_rows(before, user, day);
        let days = days_of(rows, user);
        let days_before = days_of(before, user);
        if has_row(rows, user, day) {
            let at = choose|i: int| 0 <= i < rows.len() && is_row(#[trigger] rows[i], user, day);
            if at < before.len() {
                assert(is_row(before[at], user, day));
                let k = choose|i: int|
                    0 <= i < days_before.len() && (#[trigger] days_before[i]) as int == day as int;
                assert(days[k] == days_before[k]);
            } else {
                assert(days[days.len() - 1] == day);
            }
        }
        if checked_on(days, day as int) {
            let k = choose|i: int| 0 <= i < days.len() && (#[trigger] days[i]) as int == day as int;
            if k < days_before.len() {
                assert(days_before[k] == days[k]);
                let at = choose|i: int|
                    0 <= i < before.len() && is_row(#[trigger] before[i], user, day);
                assert(is_row(rows[at], user, day));
            } else {
                assert(is_row(rows[rows.len() - 1], user, day));
            }
        }
    }
}

/// In a ledger in order, a user and day have one row or none.
pub proof fn lemma_count_rows(rows: Seq<CheckinView>, user: Seq<char>, day: i32)
    requires
        one_row_a_day(rows),
    ensures
        count_rows(rows, user, day) == if has_row(rows, user, day) {
            1nat
        } else {
            0nat
        },
    decreases rows.len(),
{
    if rows.len() > 0 {
        let before = rows.drop_last();
        let last = rows.len() - 1;
        assert forall|i: int, j: int| 0 <= i < j < before.len() implies !is_row(
            #[trigger] before[i],
            (#[trigger] before[j]).user,
            before[j].day,
        ) by {
            assert(!is_row(rows[i], rows[j].user, rows[j].day));
        }
        lemma_count_rows(before, user, day);
        if has_row(before, user, day) {
            let at = choose|i: int| 0 <= i < before.len() && is_row(#[trigger] before[i], user, day);
            assert(is_row(rows[at], user, day));
            assert(!is_row(rows[at], rows[last].user, rows[last].day));
        } else if has_row(rows, user, day) {
            let at = choose|i: int| 0 <= i < rows.len() && is_row(#[trigger] rows[i], user, day);
            if at < last {
                assert(is_row(before[at], user, day));
            }
        } else {
            assert(!is_row(rows[last], user, day));
        }
        if is_row(rows[last], user, day) {
            assert(has_row(rows, user, day));
        }
    }
}

/// Checking in is idempotent: a second check-in of a user on a day leaves
/// the ledger as the first left it, with exactly one row of the user and
/// day, and the status says after either that today is checked.
pub proof fn law_checkin_idempotent(
    rows: Seq<CheckinView>,
    user: Seq<char>,
    day: i32,
    first: i64,
    second: i64,
)
    requires
        one_row_a_day(rows),
    ensures
        ({
            let once = checked_in(rows, user, day, first);
            let twice = checked_in(once, user, day, second);
            &&& twice == once
            &&& one_row_a_day(once)
            &&& count_rows(once, user, day) == 1
            &&& summary_of(days_of(once, user), day).today_checked
            &&& summary_of(days_of(twice, user), day).today_checked
        }),
{
    let once = checked_in(rows, user, day, first);
    lemma_checked_in_keeps_order(rows, user, day, first);
    lemma_count_rows(once, user, day);
    lemma_days_of_rows(once, user, day);
}

/// A check-in leaves the days of every other user as they were.
pub proof fn law_checkin_leaves_others(
    rows: Seq<CheckinView>,
    user: Seq<char>,
    day: i32,
    now: i64,
    other: Seq<char>,
)
    requires
        other != user,
    ensures
        days_of(checked_in(rows, user, day, now), other) == days_of(rows, other),
{
    let after = checked_in(rows, user, day, now);
    if !has_row(rows, user, day) {
        assert(after.drop_last() =~= rows);
    }
}

/// Whether the day `back` days before `today` is checked.
pub open spec fn checked_back(days: Seq<i32>, today: int, back: int) -> bool {
    checked_on(days, today - back)
}

/// The streak is `k` where today and the `k - 1` days before it are
/// checked and the day before those is not, as far as the look-back
/// reaches.
pub proof fn law_streak_run(days: Seq<i32>, today: int, k: nat)
    requires
        k <= STREAK_LOOKBACK + 1,
        forall|j: int| 0 <= j < k ==> #[trigger] checked_back(days, today, j),
        k <= STREAK_LOOKBACK ==> !checked_back(days, today, k as int),
    ensures
        streak_of(days, today) == k,
{
    lemma_run_length(days, today, (STREAK_LOOKBACK + 1) as nat, k);
}

proof fn lemma_run_length(days: Seq<i32>, day: int, limit: nat, k: nat)
    requires
        k <= limit,
        forall|j: int| 0 <= j < k ==> #[trigger] checked_back(days, day, j),
        k < limit ==> !checked_back(days, day, k as int),
    ensures
        run_length(days, day, limit) == k,
    decreases limit,
{
    if k > 0 {
        assert(checked_back(days, day, 0));
        assert forall|j: int| 0 <= j < k - 1 implies #[trigger] checked_back(
            days,
            day - 1,
            j,
        ) by {
            assert(checked_back(days, day, j + 1));
        }
        assert(checked_back(days, day - 1, k - 1) == checked_back(days, day, k as int));
        lemma_run_length(days, day - 1, (limit - 1) as nat, (k - 1) as nat);
    } else {
        assert(checked_back(days, day, 0) == checked_on(days, day));
    }
}

/// Three days in a row that end today make a streak of three, where the
/// day before them is not checked.
pub proof fn law_streak_three_days(days: Seq<i32>, today: int)
    requires
        checked_on(days, today),
        checked_on(days, today - 1),
        checked_on(days, today - 2),
        !checked_on(days, today - 3),
    ensures
        streak_of(days, today) == 3,
{
    assert forall|j: int| 0 <= j < 3 implies #[trigger] checked_back(days, today, j) by {
        if j == 0 {
        } else if j == 1 {
        } else {
            assert(j == 2);
        }
    }
    law_streak_run(days, today, 3);
}

/// The streak starts today: without a check-in today it is 0, whatever
/// was checked yesterday.
pub proof fn law_streak_needs_today(days: Seq<i32>, today: int)
    requires
        !checked_on(days, today),
    ensures
        streak_of(days, today) == 0,
{
}

} // verus!
