use ncm_tui::api::{is_latest_day, next_page_offset, qr_login_confirmed, record_like, succeeded, tracks_update_code};
use std::collections::HashSet;

#[test]
fn reads_status_codes() {
    assert!(qr_login_confirmed(803));
    assert!(!qr_login_confirmed(802));
    assert_eq!(tracks_update_code(Some(200), Some(502)), Some(200));
    assert_eq!(tracks_update_code(None, Some(502)), Some(502));
    assert!(succeeded(Some(200)));
    assert!(!succeeded(Some(301)));
    assert!(!succeeded(None));
}

#[test]
fn pages_songs_by_the_thousand() {
    assert_eq!(next_page_offset(0, 1000), Some(1000));
    assert_eq!(next_page_offset(1000, 999), None);
    assert_eq!(next_page_offset(2000, 0), None);
}

#[test]
fn keeps_the_liked_songs() {
    let mut liked = HashSet::new();
    record_like(&mut liked, 7, true);
    record_like(&mut liked, 9, true);
    record_like(&mut liked, 7, false);
    assert!(!liked.contains(&7));
    assert!(liked.contains(&9));
}

#[test]
fn the_newest_day_comes_from_its_own_endpoint() {
    let window = vec![739266, 739265];
    assert!(is_latest_day(739266, &window));
    assert!(!is_latest_day(739265, &window));
    assert!(!is_latest_day(739266, &Vec::new()));
}
