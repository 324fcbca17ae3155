//! What the player decides from the music API's answers: status codes, paging, the liked songs
//! it keeps, and which endpoint serves a day of recommendations.
use vstd::prelude::*;
use std::collections::HashSet;

verus! {

/// The status code of a successful request.
pub const OK_CODE: u64 = 200;

/// The status of a login QR code once the user has confirmed the login on the phone.
pub const QR_LOGIN_CONFIRMED: u64 = 803;

/// How many songs of a songlist one request asks for.
pub const SONGS_PAGE_SIZE: usize = 1000;

/// Whether a QR status code means the login went through (the cookie then comes with it).
pub fn qr_login_confirmed(code: u64) -> (r: bool)
    ensures
        r == (code == QR_LOGIN_CONFIRMED),
{
    code == QR_LOGIN_CONFIRMED
}

/// The status code of a change of a songlist's tracks: the answer wraps it in a body, but a
/// code at the top level counts when the body has none.
pub fn tracks_update_code(body_code: Option<u64>, code: Option<u64>) -> (r: Option<u64>)
    ensures
        r == (match body_code {
            Some(c) => Some(c),
            None => code,
        }),
{
    match body_code {
        Some(c) => Some(c),
        None => code,
    }
}

/// Whether a status code, if the answer had one, reports success.
pub fn succeeded(code: Option<u64>) -> (r: bool)
    ensures
        r == (code == Some(OK_CODE)),
{
    match code {
        Some(c) => c == OK_CODE,
        None => false,
    }
}

/// The offset of the next page of a songlist's songs after a page of `page_len` songs read at
/// `offset`: none once a page comes back empty or short.
pub fn next_page_offset(offset: usize, page_len: usize) -> (r: Option<usize>)
    requires
        page_len >= SONGS_PAGE_SIZE ==> offset + SONGS_PAGE_SIZE <= usize::MAX,
    ensures
        r == (if page_len < SONGS_PAGE_SIZE {
            None
        } else {
            Some((offset + SONGS_PAGE_SIZE) as usize)
        }),
{
    if page_len < SONGS_PAGE_SIZE {
        None
    } else {
        Some(offset + SONGS_PAGE_SIZE)
    }
}

/// Records that the server now has song `song_id` liked (`like`) or not.
pub fn record_like(liked: &mut HashSet<u64>, song_id: u64, like: bool)
    ensures
        final(liked)@ == (if like {
            old(liked)@.insert(song_id)
        } else {
            old(liked)@.remove(song_id)
        }),
{
    if like {
        liked.insert(song_id);
    } else {
        liked.remove(&song_id);
    }
}

/// Whether `day` is the newest day of the recommendation window, which the day's own endpoint
/// serves; older days come from the history endpoint.
pub fn is_latest_day(day: i32, window: &Vec<i32>) -> (r: bool)
    ensures
        r == (window@.len() > 0 && window@[0] == day),
{
    window.len() > 0 && window[0] == day
}

/// Where the songs of a recommendation day come from.
#[derive(Clone, Copy, PartialEq, Eq, Structural, Debug)]
pub enum DailySource {
    /// The day's cache file, which holds songs.
    Cache,
    /// The endpoint of the newest day.
    Latest,
    /// The history endpoint.
    History,
}

/// Where the songs of `day` come from, given how many songs its cache file holds: a cache
/// holding songs is used (an empty one counts as missing); otherwise the newest day of
/// `window` is asked of its own endpoint, and older days of the history.
pub fn daily_source(cached_songs: usize, day: i32, window: &Vec<i32>) -> (r: DailySource)
    ensures
        r == (if cached_songs > 0 {
            DailySource::Cache
        } else if window@.len() > 0 && window@[0] == day {
            DailySource::Latest
        } else {
            DailySource::History
        }),
{
    if cached_songs > 0 {
        DailySource::Cache
    } else if is_latest_day(day, window) {
        DailySource::Latest
    } else {
        DailySource::History
    }
}

/// Liking a song and then unliking it leaves it unliked, and the other songs as they were.
pub proof fn lemma_like_then_unlike(liked: Set<u64>, song_id: u64)
    ensures
        liked.insert(song_id).remove(song_id) == liked.remove(song_id),
        liked.insert(song_id).contains(song_id),
        !liked.remove(song_id).contains(song_id),
{
    assert(liked.insert(song_id).remove(song_id) =~= liked.remove(song_id));
}

} // verus!
