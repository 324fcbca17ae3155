use chrono::{Datelike, NaiveDate};
use ncm_tui::daily::{daily_label_of, daily_list_label, daily_recommend_window_at, date_outside_window, expired_cache_files};

fn day(y: i32, m: u32, d: u32) -> i32 {
    NaiveDate::from_ymd_opt(y, m, d).unwrap().num_days_from_ce()
}

#[test]
fn daily_window_starts_today_after_6am() {
    let window = daily_recommend_window_at(day(2025, 1, 15), 6);
    assert_eq!(window.len(), 14);
    assert_eq!(window[0], day(2025, 1, 15));
    assert_eq!(window[13], day(2025, 1, 2));
}

#[test]
fn daily_window_shifts_back_before_6am() {
    let window = daily_recommend_window_at(day(2025, 1, 15), 5);
    assert_eq!(window.len(), 14);
    assert_eq!(window[0], day(2025, 1, 14));
}

#[test]
fn purge_removes_only_files_outside_window() {
    let window = daily_recommend_window_at(day(2025, 1, 15), 12);
    let files = vec![String::from("2025-01-15.json"), String::from("2025-01-01.json"), String::from("not-a-date.json")];
    let expired = expired_cache_files(&files, &window);
    assert_eq!(expired, vec![String::from("2025-01-01.json")]);
}

#[test]
fn window_days_are_consecutive_and_newest_first() {
    let window = daily_recommend_window_at(day(2024, 3, 1), 23);
    for (i, d) in window.iter().enumerate() {
        assert_eq!(*d, day(2024, 3, 1) - i as i32);
    }
    assert_eq!(window[1], day(2024, 2, 29));
}

#[test]
fn dates_outside_the_window_are_detected() {
    let window = daily_recommend_window_at(day(2025, 1, 15), 12);
    assert!(!date_outside_window(Some(day(2025, 1, 2)), &window));
    assert!(date_outside_window(Some(day(2025, 1, 1)), &window));
    assert!(date_outside_window(Some(day(2025, 1, 16)), &window));
    assert!(!date_outside_window(None, &window));
}

#[test]
fn labels_daily_lists_by_month_and_day() {
    assert_eq!(daily_list_label(day(2025, 1, 5)), "每日推荐_01-05");
    assert_eq!(daily_list_label(day(2024, 12, 31)), "每日推荐_12-31");
    assert_eq!(daily_label_of(7, 14), "每日推荐_07-14");
}
