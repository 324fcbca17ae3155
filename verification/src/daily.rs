//! The window of daily recommendations that can still be fetched, its cache, and its labels.
//!
//! A calendar day is held as chrono counts it in `Datelike::num_days_from_ce`: 0001-01-01 is
//! day 1, and each following day counts one more.
use vstd::prelude::*;
use chrono::Datelike;
use crate::naming::{dec, dec_chars, file_stem, split_file_name};
use crate::text::{chars_of, push_str, string_of, views};

verus! {

/// The first day chrono can represent (`NaiveDate::MIN`).
pub const MIN_DAY: i32 = -95746129;

/// The last day chrono can represent (`NaiveDate::MAX`).
pub const MAX_DAY: i32 = 95745399;

/// How many days of recommendations the window holds.
pub const DAILY_RECOMMEND_DAYS: usize = 14;

/// The newest day whose recommendation exists at `hour` of `today`: the day's list is
/// generated at 6 o'clock, so before that it is the day before.
pub open spec fn latest_day(today: int, hour: u32) -> int {
    if hour < 6 {
        today - 1
    } else {
        today
    }
}

/// The window of recommendation days at `hour` of `today`, newest first: the latest day and the
/// thirteen days before it.
pub fn daily_recommend_window_at(today: i32, hour: u32) -> (r: Vec<i32>)
    requires
        MIN_DAY + 14 <= today <= MAX_DAY,
    ensures
        r.len() == DAILY_RECOMMEND_DAYS,
        forall|i: int| 0 <= i < DAILY_RECOMMEND_DAYS ==> r@[i] == latest_day(today as int, hour) - i,
{
    let latest = if hour < 6 {
        today - 1
    } else {
        today
    };
    let mut r: Vec<i32> = Vec::new();
    let mut i: usize = 0;
    while i < DAILY_RECOMMEND_DAYS
        invariant
            i <= DAILY_RECOMMEND_DAYS,
            latest == latest_day(today as int, hour),
            MIN_DAY + 13 <= latest,
            r.len() == i,
            forall|j: int| 0 <= j < i ==> r@[j] == latest - j,
        decreases DAILY_RECOMMEND_DAYS - i,
    {
        r.push(latest - i as i32);
        i += 1;
    }
    r
}

/// The day chrono reads from `text` in the date format `format`
/// (`NaiveDate::parse_from_str`), if it reads one.
pub uninterp spec fn parsed_day(text: Seq<char>, format: Seq<char>) -> Option<i32>;

/// The day a cache file stem names in the form `%Y-%m-%d`.
pub open spec fn ymd_day(stem: Seq<char>) -> Option<i32> {
    parsed_day(stem, "%Y-%m-%d"@)
}

/// `chrono::NaiveDate::parse_from_str` of `text` in `format`, the date given by its day number.
/// The contract names the result and states only that a date chrono reads lies within its
/// range; which texts it accepts is not stated.
#[verifier::external_body]
fn parse_day(text: &str, format: &str) -> (r: Option<i32>)
    ensures
        r == parsed_day(text@, format@),
        r matches Some(d) ==> MIN_DAY <= d <= MAX_DAY,
{
    chrono::NaiveDate::parse_from_str(text, format).ok().map(|d| d.num_days_from_ce())
}

/// Whether a cache file for `date` (if its stem named a date) lies outside `window`.
pub fn date_outside_window(date: Option<i32>, window: &Vec<i32>) -> (r: bool)
    ensures
        r == (match date {
            Some(d) => !window@.contains(d),
            None => false,
        }),
{
    match date {
        Some(d) => {
            let mut i: usize = 0;
            while i < window.len()
                invariant
                    i <= window.len(),
                    date == Some(d),
                    forall|j: int| 0 <= j < i ==> window@[j] != d,
                decreases window.len() - i,
            {
                if window[i] == d {
                    assert(window@[i as int] == d);
                    return false;
                }
                i += 1;
            }
            true
        },
        None => false,
    }
}

/// Whether cache file `name` is expired: its stem names a date outside `window`.
pub open spec fn cache_file_expired(name: Seq<char>, window: Seq<i32>) -> bool {
    match ymd_day(file_stem(name)) {
        Some(d) => !window.contains(d),
        None => false,
    }
}

/// The cache files to delete, among the names of the cache directory's entries: those whose stem
/// names a date outside `window`, in their given order.
pub fn expired_cache_files(file_names: &Vec<String>, window: &Vec<i32>) -> (r: Vec<String>)
    ensures
        views(r@) == views(file_names@).filter(|n: Seq<char>| cache_file_expired(n, window@)),
{
    let ghost f = |n: Seq<char>| cache_file_expired(n, window@);
    let mut r: Vec<String> = Vec::new();
    let mut i: usize = 0;
    while i < file_names.len()
        invariant
            i <= file_names.len(),
            f == (|n: Seq<char>| cache_file_expired(n, window@)),
            views(r@) == views(file_names@).take(i as int).filter(f),
        decreases file_names.len() - i,
    {
        proof {
            reveal_with_fuel(Seq::<_>::filter, 1);
            assert(views(file_names@).take(i + 1).drop_last() =~= views(file_names@).take(
                i as int,
            ));
        }
        let name = chars_of(file_names[i].as_str());
        let (stem, _ext) = split_file_name(&name);
        let stem_text = string_of(&stem);
        let date = parse_day(stem_text.as_str(), "%Y-%m-%d");
        if date_outside_window(date, window) {
            let ghost before = r@;
            r.push(file_names[i].clone());
            assert(views(r@) =~= views(before).push(file_names@[i as int]@));
        }
        i += 1;
    }
    assert(views(file_names@).take(file_names.len() as int) =~= views(file_names@));
    r
}

/// The month of a day in chrono's calendar.
pub uninterp spec fn calendar_month(day: i32) -> u32;

/// The day of month of a day in chrono's calendar.
pub uninterp spec fn calendar_day_of_month(day: i32) -> u32;

/// `chrono::Datelike::month` of the date with day number `day`. The contract names the result
/// and states only that it lies in 1 to 12; the calendar is not stated.
#[verifier::external_body]
fn month_of(day: i32) -> (r: u32)
    requires
        MIN_DAY <= day <= MAX_DAY,
    ensures
        r == calendar_month(day),
        1 <= r <= 12,
{
    chrono::NaiveDate::from_num_days_from_ce_opt(day).unwrap().month()
}

/// `chrono::Datelike::day` of the date with day number `day`. The contract names the result and
/// states only that it lies in 1 to 31; the calendar is not stated.
#[verifier::external_body]
fn day_of_month(day: i32) -> (r: u32)
    requires
        MIN_DAY <= day <= MAX_DAY,
    ensures
        r == calendar_day_of_month(day),
        1 <= r <= 31,
{
    chrono::NaiveDate::from_num_days_from_ce_opt(day).unwrap().day()
}

/// `n` written with at least two digits, zero-padded (`%m`, `%d`).
pub open spec fn two_digits(n: nat) -> Seq<char> {
    if n < 10 {
        seq!['0'] + dec(n)
    } else {
        dec(n)
    }
}

/// The label of a daily list: `每日推荐_` followed by month and day as `MM-DD`.
pub open spec fn daily_label(month: u32, day: u32) -> Seq<char> {
    "每日推荐_"@ + two_digits(month as nat) + seq!['-'] + two_digits(day as nat)
}

fn push_two_digits(out: &mut Vec<char>, n: u32)
    ensures
        final(out)@ == old(out)@ + two_digits(n as nat),
{
    if n < 10 {
        out.push('0');
    }
    let mut d = dec_chars(n as u64);
    out.append(&mut d);
}

/// The label of the daily list for month `month` and day `day`.
pub fn daily_label_of(month: u32, day: u32) -> (r: String)
    ensures
        r@ == daily_label(month, day),
{
    let mut out: Vec<char> = Vec::new();
    push_str(&mut out, "每日推荐_");
    push_two_digits(&mut out, month);
    out.push('-');
    push_two_digits(&mut out, day);
    assert(out@ =~= daily_label(month, day));
    string_of(&out)
}

/// The label of the daily list of `day`.
pub fn daily_list_label(day: i32) -> (r: String)
    requires
        MIN_DAY <= day <= MAX_DAY,
    ensures
        r@ == daily_label(calendar_month(day), calendar_day_of_month(day)),
{
    daily_label_of(month_of(day), day_of_month(day))
}

/// The day's list is generated at 6 o'clock: at any hour before 6 the newest day of the window
/// is yesterday, from 6 on it is today; so every hour before 6 sees the window that the evening
/// before saw, and the window moves on by exactly one day at 6.
pub proof fn lemma_window_moves_at_six(today: int, early: u32, late: u32)
    requires
        early < 6,
        6 <= late,
    ensures
        latest_day(today, early) == today - 1,
        latest_day(today, late) == today,
        latest_day(today + 1, early) == latest_day(today, late),
        latest_day(today, late) == latest_day(today, early) + 1,
{
}

} // verus!
