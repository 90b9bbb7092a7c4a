use german_learn::checkin::ledger::CheckinLedger;
use german_learn::checkin::status::{
    compute_status, count_distinct, current_streak, latest, recent_flags, render_status,
    summarize,
};

const EPOCH_DAY: i32 = 719_163;

#[test]
fn streak_of_three_consecutive_days() {
    let d = EPOCH_DAY + 20_000;
    assert_eq!(current_streak(&vec![d, d - 1, d - 2], d), 3);
    assert_eq!(current_streak(&vec![d - 2, d, d - 1], d), 3);
    assert_eq!(current_streak(&vec![d - 2, d, d - 1, d - 4, d - 5], d), 3);
}

#[test]
fn streak_is_zero_without_a_checkin_today() {
    let d = EPOCH_DAY + 20_000;
    assert_eq!(current_streak(&vec![d - 1], d), 0);
    assert_eq!(current_streak(&vec![d - 1, d - 2, d - 3], d), 0);
    assert_eq!(current_streak(&Vec::new(), d), 0);
}

#[test]
fn streak_stops_at_the_first_gap() {
    let d = 1_000;
    assert_eq!(current_streak(&vec![d], d), 1);
    assert_eq!(current_streak(&vec![d, d - 2, d - 3], d), 1);
    assert_eq!(current_streak(&vec![d, d - 1, d - 3], d), 2);
}

#[test]
fn streak_ignores_days_after_today_and_repeated_days() {
    let d = 1_000;
    assert_eq!(current_streak(&vec![d + 1, d + 2, d, d - 1], d), 2);
    assert_eq!(current_streak(&vec![d, d, d - 1, d - 1, d], d), 2);
}

#[test]
fn streak_looks_back_120_days() {
    let d = 5_000;
    let days: Vec<i32> = (0..200).map(|k| d - k).collect();
    assert_eq!(current_streak(&days, d), 121);
    let days: Vec<i32> = (0..121).map(|k| d - k).collect();
    assert_eq!(current_streak(&days, d), 121);
    let days: Vec<i32> = (0..120).map(|k| d - k).collect();
    assert_eq!(current_streak(&days, d), 120);
}

#[test]
fn streak_near_the_smallest_day() {
    assert_eq!(current_streak(&vec![i32::MIN, i32::MIN + 1], i32::MIN + 1), 2);
    assert_eq!(current_streak(&vec![i32::MIN], i32::MIN), 1);
}

#[test]
fn total_days_counts_distinct_days() {
    assert_eq!(count_distinct(&Vec::new()), 0);
    assert_eq!(count_distinct(&vec![3, 1, 2]), 3);
    assert_eq!(count_distinct(&vec![3, 1, 3, 3, 1]), 2);
}

#[test]
fn last_day_is_the_latest() {
    assert_eq!(latest(&Vec::new()), None);
    assert_eq!(latest(&vec![3, 9, -2]), Some(9));
    assert_eq!(latest(&vec![-7]), Some(-7));
}

#[test]
fn recent_window_has_thirty_days_oldest_first() {
    let d = 10_000;
    let flags = recent_flags(&vec![d, d - 29, d - 30, d - 3, d + 1], d);
    assert_eq!(flags.len(), 30);
    for (i, flag) in flags.iter().enumerate() {
        let expected = i == 29 || i == 0 || i == 26;
        assert_eq!(*flag, expected, "place {}", i);
    }
}

#[test]
fn summary_puts_the_parts_together() {
    let d = 10_000;
    let summary = summarize(&vec![d - 1, d, d - 5, d], d);
    assert_eq!(summary.today, d);
    assert!(summary.today_checked);
    assert_eq!(summary.current_streak, 2);
    assert_eq!(summary.total_days, 3);
    assert_eq!(summary.last_day, Some(d));
    assert_eq!(summary.recent.len(), 30);
    let summary = summarize(&vec![d - 1], d);
    assert!(!summary.today_checked);
    assert_eq!(summary.current_streak, 0);
    assert_eq!(summary.total_days, 1);
    assert_eq!(summary.last_day, Some(d - 1));
}

#[test]
fn status_writes_dates_as_text() {
    let status = compute_status(&vec![EPOCH_DAY, EPOCH_DAY - 1], EPOCH_DAY).unwrap();
    assert!(status.today_checked);
    assert_eq!(status.current_streak, 2);
    assert_eq!(status.total_days, 2);
    assert_eq!(status.last_date.as_deref(), Some("1970-01-01"));
    assert_eq!(status.recent.len(), 30);
    assert_eq!(status.recent[29].date, "1970-01-01");
    assert!(status.recent[29].checked);
    assert_eq!(status.recent[28].date, "1969-12-31");
    assert!(status.recent[28].checked);
    assert_eq!(status.recent[0].date, "1969-12-03");
    assert!(!status.recent[0].checked);
}

#[test]
fn status_without_checkins() {
    let status = compute_status(&Vec::new(), EPOCH_DAY + 59).unwrap();
    assert!(!status.today_checked);
    assert_eq!(status.current_streak, 0);
    assert_eq!(status.total_days, 0);
    assert_eq!(status.last_date, None);
    assert_eq!(status.recent.len(), 30);
    assert_eq!(status.recent[29].date, "1970-03-01");
    assert_eq!(status.recent[0].date, "1970-01-31");
    assert!(status.recent.iter().all(|day| !day.checked));
}

#[test]
fn status_is_none_where_a_date_has_no_text() {
    assert!(compute_status(&Vec::new(), i32::MAX).is_none());
    assert!(compute_status(&Vec::new(), i32::MIN).is_none());
    assert!(compute_status(&vec![i32::MAX], EPOCH_DAY).is_none());
    let summary = summarize(&vec![EPOCH_DAY], EPOCH_DAY);
    assert!(render_status(&summary).is_some());
}

#[test]
fn checkin_twice_keeps_one_row() {
    let mut ledger = CheckinLedger::new();
    let today = EPOCH_DAY + 100;
    let first = ledger.post_checkin("u", today, 11).unwrap();
    let second = ledger.post_checkin("u", today, 22).unwrap();
    assert!(first.today_checked);
    assert!(second.today_checked);
    assert_eq!(first.current_streak, 1);
    assert_eq!(second.current_streak, 1);
    assert_eq!(first.total_days, 1);
    assert_eq!(second.total_days, 1);
    assert_eq!(first.last_date, second.last_date);
    let rows: Vec<_> = ledger
        .rows()
        .iter()
        .filter(|row| row.user_id == "u" && row.day == today)
        .collect();
    assert_eq!(rows.len(), 1);
    assert_eq!(rows[0].checked_at, 11);
    assert_eq!(ledger.rows().len(), 1);
}

#[test]
fn checkins_of_users_are_kept_apart() {
    let mut ledger = CheckinLedger::new();
    let today = EPOCH_DAY + 100;
    assert!(ledger.record("a", today - 1, 1));
    assert!(ledger.record("a", today, 2));
    assert!(ledger.record("b", today, 3));
    assert!(!ledger.record("b", today, 4));
    assert_eq!(ledger.days_for("a"), vec![today - 1, today]);
    assert_eq!(ledger.days_for("b"), vec![today]);
    assert_eq!(ledger.days_for("c"), Vec::<i32>::new());
    assert!(ledger.is_recorded("a", today - 1));
    assert!(!ledger.is_recorded("b", today - 1));
    let a = ledger.get_status("a", today).unwrap();
    let b = ledger.get_status("b", today).unwrap();
    let c = ledger.get_status("c", today).unwrap();
    assert_eq!((a.current_streak, a.total_days), (2, 2));
    assert_eq!((b.current_streak, b.total_days), (1, 1));
    assert_eq!((c.current_streak, c.total_days, c.today_checked), (0, 0, false));
    assert_eq!(ledger.rows().len(), 3);
}

#[test]
fn get_status_does_not_check_in() {
    let mut ledger = CheckinLedger::new();
    let today = EPOCH_DAY + 100;
    assert!(ledger.record("u", today - 1, 1));
    let status = ledger.get_status("u", today).unwrap();
    assert!(!status.today_checked);
    assert_eq!(status.current_streak, 0);
    assert_eq!(status.total_days, 1);
    assert_eq!(status.last_date.as_deref(), Some("1970-04-10"));
    assert_eq!(ledger.rows().len(), 1);
    let status = ledger.post_checkin("u", today, 2).unwrap();
    assert!(status.today_checked);
    assert_eq!(status.current_streak, 2);
    assert_eq!(status.last_date.as_deref(), Some("1970-04-11"));
    assert_eq!(ledger.rows().len(), 2);
}
