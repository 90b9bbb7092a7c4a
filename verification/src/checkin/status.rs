//! The status of a user's check-ins, computed from the days on which the
//! user checked in.
//!
//! The status looks at a window of the last 30 days, and the streak looks
//! back at most 120 days before today.

use vstd::prelude::*;
use crate::text::{opt_text, texts};
use crate::timefmt::{day_text, format_day};

verus! {

/// How many days the window of recent days covers, today included.
pub const RECENT_DAYS: usize = 30;

/// How many days before today the streak looks back.
pub const STREAK_LOOKBACK: u64 = 120;

/// Whether `day` is among the checked days.
pub open spec fn checked_on(days: Seq<i32>, day: int) -> bool {
    exists|i: int| 0 <= i < days.len() && (#[trigger] days[i]) as int == day
}

/// How many days in a row are checked, going back from `day`, among at
/// most `limit` days.
pub open spec fn run_length(days: Seq<i32>, day: int, limit: nat) -> nat
    decreases limit,
{
    if limit == 0 || !checked_on(days, day) {
        0
    } else {
        1 + run_length(days, day - 1, (limit - 1) as nat)
    }
}

/// The current streak: the checked days in a row that end today. A day
/// without a check-in ends the count, and so does the end of the look-back.
pub open spec fn streak_of(days: Seq<i32>, today: int) -> nat {
    run_length(days, today, (STREAK_LOOKBACK + 1) as nat)
}

/// How many different days are checked.
pub open spec fn distinct_days(days: Seq<i32>) -> nat {
    days.to_set().len()
}

/// Whether `day` is the latest of the checked days.
pub open spec fn is_latest(days: Seq<i32>, day: i32) -> bool {
    &&& checked_on(days, day as int)
    &&& forall|i: int| 0 <= i < days.len() ==> #[trigger] days[i] <= day
}

/// The latest checked day, or `None` where no day is checked.
pub open spec fn latest_day(days: Seq<i32>) -> Option<i32> {
    if days.len() == 0 {
        None
    } else {
        Some(choose|day: i32| is_latest(days, day))
    }
}

/// The day at place `i` of a window of `len` days that ends today.
pub open spec fn window_day(today: int, len: int, i: int) -> int {
    today - (len - 1) + i
}

/// What the status says before any date is written as text.
pub struct SummaryView {
    pub today: i32,
    pub today_checked: bool,
    pub current_streak: nat,
    pub total_days: nat,
    pub last_day: Option<i32>,
    pub recent: Seq<bool>,
}

/// The summary of the checked days `days` on the day `today`.
pub open spec fn summary_of(days: Seq<i32>, today: i32) -> SummaryView {
    SummaryView {
        today,
        today_checked: checked_on(days, today as int) || latest_day(days) == Some(today),
        current_streak: streak_of(days, today as int),
        total_days: distinct_days(days),
        last_day: latest_day(days),
        recent: Seq::new(
            RECENT_DAYS as nat,
            |i: int| checked_on(days, window_day(today as int, RECENT_DAYS as int, i)),
        ),
    }
}

/// The status of a user's check-ins, with days as numbers.
#[derive(Debug)]
pub struct CheckinSummary {
    pub today: i32,
    pub today_checked: bool,
    pub current_streak: u64,
    pub total_days: u64,
    pub last_day: Option<i32>,
    /// One flag for each day of the window, oldest day first; the last
    /// flag is today's.
    pub recent: Vec<bool>,
}

impl View for CheckinSummary {
    type V = SummaryView;

    open spec fn view(&self) -> SummaryView {
        SummaryView {
            today: self.today,
            today_checked: self.today_checked,
            current_streak: self.current_streak as nat,
            total_days: self.total_days as nat,
            last_day: self.last_day,
            recent: self.recent@,
        }
    }
}

/// Whether `day` is among `days`.
pub fn is_checked(days: &Vec<i32>, day: i64) -> (r: bool)
    ensures
        r == checked_on(days@, day as int),
{
    let mut i: usize = 0;
    while i < days.len()
        invariant
            i <= days@.len(),
            forall|j: int| 0 <= j < i ==> (#[trigger] days@[j]) as int != day,
        decreases days@.len() - i,
    {
        if days[i] as i64 == day {
            return true;
        }
        i += 1;
    }
    false
}

/// The current streak on the day `today`.
pub fn current_streak(days: &Vec<i32>, today: i32) -> (r: u64)
    ensures
        r == streak_of(days@, today as int),
{
    let mut k: u64 = 0;
    while k <= STREAK_LOOKBACK && is_checked(days, today as i64 - k as i64)
        invariant
            k <= STREAK_LOOKBACK + 1,
            streak_of(days@, today as int) == k + run_length(
                days@,
                today - k,
                (STREAK_LOOKBACK + 1 - k) as nat,
            ),
        decreases STREAK_LOOKBACK + 1 - k,
    {
        k += 1;
    }
    k
}

/// Whether the day at place `i` occurs at an earlier place as well.
fn appears_before(days: &Vec<i32>, i: usize) -> (r: bool)
    requires
        i < days@.len(),
    ensures
        r == days@.take(i as int).contains(days@[i as int]),
{
    let mut j: usize = 0;
    while j < i
        invariant
            j <= i < days@.len(),
            forall|k: int| 0 <= k < j ==> days@[k] != days@[i as int],
        decreases i - j,
    {
        if days[j] == days[i] {
            assert(days@.take(i as int)[j as int] == days@[i as int]);
            return true;
        }
        j += 1;
    }
    false
}

/// How many different days are among `days`.
pub fn count_distinct(days: &Vec<i32>) -> (r: u64)
    ensures
        r == distinct_days(days@),
{
    let mut count: u64 = 0;
    let mut i: usize = 0;
    proof {
        assert(days@.take(0).to_set() =~= Set::<i32>::empty());
    }
    while i < days.len()
        invariant
            i <= days@.len(),
            count == days@.take(i as int).to_set().len(),
            count <= i,
        decreases days@.len() - i,
    {
        let seen = appears_before(days, i);
        proof {
            let prefix = days@.take(i as int);
            let day = days@[i as int];
            assert(days@.take(i + 1) =~= prefix.push(day));
            prefix.lemma_push_to_set_commute(day);
            vstd::seq_lib::seq_to_set_is_finite(prefix);
            vstd::set::axiom_set_insert_len(prefix.to_set(), day);
            assert(prefix.to_set().contains(day) == seen);
        }
        if !seen {
            count += 1;
        }
        i += 1;
    }
    assert(days@.take(days@.len() as int) =~= days@);
    count
}

/// The latest of `days`.
pub fn latest(days: &Vec<i32>) -> (r: Option<i32>)
    ensures
        r == latest_day(days@),
{
    if days.len() == 0 {
        return None;
    }
    let mut best: i32 = days[0];
    let mut i: usize = 1;
    while i < days.len()
        invariant
            1 <= i <= days@.len(),
            checked_on(days@, best as int),
            forall|j: int| 0 <= j < i ==> #[trigger] days@[j] <= best,
        decreases days@.len() - i,
    {
        if days[i] > best {
            best = days[i];
        }
        i += 1;
    }
    proof {
        assert(is_latest(days@, best));
        let chosen = choose|day: i32| is_latest(days@, day);
        assert(is_latest(days@, chosen));
        let at = choose|i: int| 0 <= i < days@.len() && (#[trigger] days@[i]) as int == best as int;
        let other = choose|i: int|
            0 <= i < days@.len() && (#[trigger] days@[i]) as int == chosen as int;
        assert(days@[at] <= chosen);
        assert(days@[other] <= best);
    }
    Some(best)
}

/// The flags of the window of recent days that ends on `today`.
pub fn recent_flags(days: &Vec<i32>, today: i32) -> (r: Vec<bool>)
    ensures
        r@ == Seq::new(
            RECENT_DAYS as nat,
            |i: int| checked_on(days@, window_day(today as int, RECENT_DAYS as int, i)),
        ),
{
    let mut flags: Vec<bool> = Vec::new();
    let mut i: usize = 0;
    while i < RECENT_DAYS
        invariant
            i <= RECENT_DAYS,
            flags@.len() == i,
            forall|j: int|
                0 <= j < i ==> flags@[j] == checked_on(
                    days@,
                    window_day(today as int, RECENT_DAYS as int, j),
                ),
        decreases RECENT_DAYS - i,
    {
        let day: i64 = today as i64 - (RECENT_DAYS as i64 - 1) + i as i64;
        flags.push(is_checked(days, day));
        i += 1;
    }
    flags
}

/// The summary of the checked days `days` on the day `today`. The days
/// may come in any order, and a day may occur more than once.
pub fn summarize(days: &Vec<i32>, today: i32) -> (r: CheckinSummary)
    ensures
        r@ == summary_of(days@, today),
{
    let last_day = latest(days);
    let today_checked = is_checked(days, today as i64) || match last_day {
        Some(d) => d == today,
        None => false,
    };
    CheckinSummary {
        today,
        today_checked,
        current_streak: current_streak(days, today),
        total_days: count_distinct(days),
        last_day,
        recent: recent_flags(days, today),
    }
}

/// One day of the window of recent days.
#[derive(Debug)]
pub struct RecentDay {
    pub date: String,
    pub checked: bool,
}

/// One day of the window as the contracts see it.
pub struct RecentDayView {
    pub date: Seq<char>,
    pub checked: bool,
}

/// The status of a user's check-ins, with dates as text.
#[derive(Debug)]
pub struct CheckinStatus {
    pub today_checked: bool,
    pub current_streak: u64,
    pub total_days: u64,
    pub last_date: Option<String>,
    /// The window of recent days, oldest day first.
    pub recent: Vec<RecentDay>,
}

/// The status as the contracts see it.
pub struct StatusView {
    pub today_checked: bool,
    pub current_streak: nat,
    pub total_days: nat,
    pub last_date: Option<Seq<char>>,
    pub recent: Seq<RecentDayView>,
}

impl View for CheckinStatus {
    type V = StatusView;

    open spec fn view(&self) -> StatusView {
        StatusView {
            today_checked: self.today_checked,
            current_streak: self.current_streak as nat,
            total_days: self.total_days as nat,
            last_date: opt_text(self.last_date),
            recent: Seq::new(
                self.recent@.len(),
                |i: int|
                    RecentDayView {
                        date: self.recent@[i].date@,
                        checked: self.recent@[i].checked,
                    },
            ),
        }
    }
}

/// The status that shows `summary` with the given texts for its dates.
pub open spec fn status_with(
    summary: SummaryView,
    last_date: Option<Seq<char>>,
    dates: Seq<Seq<char>>,
) -> StatusView {
    StatusView {
        today_checked: summary.today_checked,
        current_streak: summary.current_streak,
        total_days: summary.total_days,
        last_date,
        recent: Seq::new(
            summary.recent.len(),
            |i: int| RecentDayView { date: dates[i], checked: summary.recent[i] },
        ),
    }
}

/// The text of the day `day`; `None` for a day that chrono has no date
/// for.
pub open spec fn day_label(day: int) -> Option<Seq<char>> {
    if i32::MIN <= day <= i32::MAX {
        day_text(day as i32)
    } else {
        None
    }
}

/// The text of the day at place `i` of the window of `summary`.
pub open spec fn window_label(summary: SummaryView, i: int) -> Option<Seq<char>> {
    day_label(window_day(summary.today as int, summary.recent.len() as int, i))
}

/// Whether every date of `summary` can be written as text.
pub open spec fn renderable(summary: SummaryView) -> bool {
    &&& summary.last_day matches Some(d) ==> day_text(d) is Some
    &&& forall|i: int| 0 <= i < summary.recent.len() ==> (#[trigger] window_label(summary, i)) is Some
}

/// The status that shows `summary`, each date written as text.
pub open spec fn status_of(summary: SummaryView) -> StatusView {
    status_with(
        summary,
        match summary.last_day {
            Some(d) => day_text(d),
            None => None,
        },
        Seq::new(summary.recent.len(), |i: int| window_label(summary, i)->0),
    )
}

impl CheckinStatus {
    /// The status that shows `summary` with `last_date` as the text of its
    /// last day and `dates` as the texts of the days of its window.
    pub fn assemble(summary: &CheckinSummary, last_date: Option<String>, dates: &Vec<String>) -> (r:
        Self)
        requires
            dates@.len() == summary.recent@.len(),
        ensures
            r@ == status_with(summary@, opt_text(last_date), texts(dates@)),
    {
        let n = dates.len();
        let mut recent: Vec<RecentDay> = Vec::new();
        let mut i: usize = 0;
        while i < n
            invariant
                i <= n == dates@.len() == summary.recent@.len(),
                recent@.len() == i,
                forall|j: int|
                    0 <= j < i ==> (#[trigger] recent@[j]).date@ == dates@[j]@
                        && recent@[j].checked == summary.recent@[j],
            decreases n - i,
        {
            recent.push(RecentDay { date: dates[i].clone(), checked: summary.recent[i] });
            i += 1;
        }
        let r = CheckinStatus {
            today_checked: summary.today_checked,
            current_streak: summary.current_streak,
            total_days: summary.total_days,
            last_date,
            recent,
        };
        assert(r@.recent =~= status_with(summary@, opt_text(last_date), texts(dates@)).recent);
        r
    }
}

/// The text of the day `day`, where chrono has a date for it.
pub fn label_day(day: i64) -> (r: Option<String>)
    ensures
        opt_text(r) == day_label(day as int),
{
    if day < i32::MIN as i64 || day > i32::MAX as i64 {
        None
    } else {
        format_day(day as i32)
    }
}

/// The status that shows `summary`, or `None` where one of its dates
/// cannot be written as text.
pub fn render_status(summary: &CheckinSummary) -> (r: Option<CheckinStatus>)
    ensures
        r is Some <==> renderable(summary@),
        r matches Some(status) ==> status@ == status_of(summary@),
{
    let last_date = match summary.last_day {
        Some(d) => {
            let text = format_day(d);
            if text.is_none() {
                return None;
            }
            text
        },
        None => None,
    };
    let n = summary.recent.len();
    let mut dates: Vec<String> = Vec::new();
    let mut i: usize = 0;
    while i < n
        invariant
            i <= n == summary.recent@.len(),
            dates@.len() == i,
            forall|j: int|
                0 <= j < i ==> window_label(summary@, j) == Some(#[trigger] texts(dates@)[j]),
        decreases n - i,
    {
        let back: usize = n - 1 - i;
        if back > 0xffff_ffff {
            assert(window_label(summary@, i as int) is None);
            return None;
        }
        let day: i64 = summary.today as i64 - back as i64;
        assert(day == window_day(summary@.today as int, summary@.recent.len() as int, i as int));
        let ghost before = dates@;
        match label_day(day) {
            Some(text) => {
                dates.push(text);
                proof {
                    assert(texts(dates@) =~= texts(before).push(text@));
                    assert forall|j: int| 0 <= j < i + 1 implies window_label(summary@, j) == Some(
                        #[trigger] texts(dates@)[j],
                    ) by {
                        if j < i {
                            assert(texts(dates@)[j] == texts(before)[j]);
                        }
                    }
                }
            },
            None => {
                assert(window_label(summary@, i as int) is None);
                return None;
            },
        }
        i += 1;
    }
    proof {
        assert forall|j: int| 0 <= j < summary@.recent.len() implies (#[trigger] window_label(
            summary@,
            j,
        )) is Some by {
            assert(window_label(summary@, j) == Some(texts(dates@)[j]));
        }
        assert(texts(dates@) =~= Seq::new(
            summary@.recent.len(),
            |i: int| window_label(summary@, i)->0,
        ));
    }
    Some(CheckinStatus::assemble(summary, last_date, &dates))
}

/// The status of the checked days `days` on the day `today`, or `None`
/// where one of its dates cannot be written as text.
pub fn compute_status(days: &Vec<i32>, today: i32) -> (r: Option<CheckinStatus>)
    ensures
        r is Some <==> renderable(summary_of(days@, today)),
        r matches Some(status) ==> status@ == status_of(summary_of(days@, today)),
{
    let summary = summarize(days, today);
    render_status(&summary)
}

} // verus!
