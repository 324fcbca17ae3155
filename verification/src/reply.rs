//! What the library takes from the API's replies: lyrics, songs, songlists, liked songs, the
//! logged-in account and the status codes, each read from the reply body as the player reads it.
use vstd::prelude::*;
use std::collections::HashSet;
use crate::json::{
    as_array, as_bool, as_str, as_u64, deref, get, item, json_array, json_bool, json_get, json_item,
    json_str, json_u64, parse_json, parsed_json, reply_code, Json,
};
use crate::lyrics::{decoded, encode_lyrics, lyric_views, prepared, LyricLine};
use crate::model::{Song, Songlist};
use crate::text::{chars_of, string_of, views};

verus! {

/// Why a reply could not be read.
#[derive(Clone, Copy, PartialEq, Eq, Structural, Debug)]
pub enum ReplyError {
    /// The body is not JSON.
    NotJson,
    /// The reply's status code is not 200 (the code, when there is one).
    Code(Option<u64>),
    /// The reply holds no list of songs where one is expected.
    NoSongs,
    /// The history of a day is empty: that day's recommendation cannot be fetched again.
    NoHistory,
    /// A song of a songlist has no id.
    TrackWithoutId,
    /// The reply of the liked songs holds no list of ids.
    MissingIds,
    /// A field that must be there is missing (the player stops on such a reply).
    Incomplete,
    /// The reply of a song's resource holds no entry.
    NoData,
    /// The song's resource has no URL: the song cannot be fetched.
    Unavailable,
}

/// `s`, or `d` when there is no `s`.
pub open spec fn str_or(s: Option<Seq<char>>, d: Seq<char>) -> Seq<char> {
    match s {
        Some(x) => x,
        None => d,
    }
}

/// `n`, or `d` when there is no `n`.
pub open spec fn u64_or(n: Option<u64>, d: u64) -> u64 {
    match n {
        Some(x) => x,
        None => d,
    }
}

// ---- lines -------------------------------------------------------------------------------

/// The pieces of `cur + s` between newlines (`str::split('\n')` when `cur` is empty).
pub open spec fn split_from(cur: Seq<char>, s: Seq<char>) -> Seq<Seq<char>>
    decreases s.len(),
{
    if s.len() == 0 {
        seq![cur]
    } else if s[0] == '\n' {
        seq![cur] + split_from(Seq::empty(), s.drop_first())
    } else {
        split_from(cur.push(s[0]), s.drop_first())
    }
}

/// The lines of `s`, as `str::split('\n')` gives them.
pub open spec fn split_lines(s: Seq<char>) -> Seq<Seq<char>> {
    split_from(Seq::empty(), s)
}

/// The lines of a text, split at each newline (`str::split('\n')`).
pub fn split_lines_of(text: &str) -> (r: Vec<String>)
    ensures
        views(r@) == split_lines(text@),
{
    let s = chars_of(text);
    let mut out: Vec<String> = Vec::new();
    let mut cur: Vec<char> = Vec::new();
    let mut i: usize = 0;
    assert(s@.skip(0) =~= s@);
    while i < s.len()
        invariant
            i <= s.len(),
            views(out@) + split_from(cur@, s@.skip(i as int)) == split_lines(s@),
        decreases s.len() - i,
    {
        let ghost rest = s@.skip(i as int);
        assert(rest.drop_first() =~= s@.skip(i + 1));
        assert(rest[0] == s@[i as int]);
        if s[i] == '\n' {
            let line = string_of(&cur);
            let ghost before = out@;
            out.push(line);
            assert(views(out@) =~= views(before).push(cur@));
            assert(views(before) + split_from(cur@, rest) =~= views(out@) + split_from(
                Seq::empty(),
                s@.skip(i + 1),
            ));
            cur = Vec::new();
            assert(cur@ =~= Seq::<char>::empty());
        } else {
            cur.push(s[i]);
        }
        i += 1;
    }
    assert(s@.skip(i as int) =~= Seq::<char>::empty());
    let ghost before = out@;
    out.push(string_of(&cur));
    assert(views(out@) =~= views(before) + seq![cur@]);
    out
}

// ---- lyrics ------------------------------------------------------------------------------

/// The text under `key.lyric` of a lyric reply, empty when there is none.
pub open spec fn lyric_text(j: Json, key: Seq<char>) -> Seq<char> {
    str_or(as_str(get(get(Some(j), key), "lyric"@)), Seq::empty())
}

/// The prepared lines of the text under `key.lyric`.
pub open spec fn reply_lines(j: Json, key: Seq<char>) -> Seq<crate::lyrics::TimedView> {
    split_lines(lyric_text(j, key)).map_values(|l: Seq<char>| prepared(l))
}

fn lyric_lines_of(j: &Json, key: &str) -> (r: Vec<String>)
    ensures
        views(r@) == split_lines(lyric_text(*j, key@)),
{
    proof {
        reveal_strlit("lyric");
    }
    let text = json_str(json_get(json_get(Some(j), key), "lyric"));
    match text {
        Some(t) => split_lines_of(t.as_str()),
        None => {
            let e = String::new();
            proof {
                assert(e@ =~= Seq::<char>::empty());
            }
            split_lines_of(e.as_str())
        },
    }
}

proof fn lemma_prepared_views(v: Seq<String>, lines: Seq<Seq<char>>)
    requires
        views(v) == lines,
    ensures
        v.map_values(|l: String| prepared(l@)) == lines.map_values(|l: Seq<char>| prepared(l)),
{
    let a = v.map_values(|l: String| prepared(l@));
    let b = lines.map_values(|l: Seq<char>| prepared(l));
    assert(a =~= b) by {
        assert forall|i: int| 0 <= i < v.len() implies #[trigger] a[i] == b[i] by {
            assert(views(v)[i] == v[i]@);
        }
    }
}

/// The lyrics of a lyric reply: the texts under `lrc.lyric`, `tlyric.lyric` and
/// `romalrc.lyric` (empty when missing), split into lines and decoded by `encode_lyrics`.
/// `None` when the body is not JSON; `Some(None)` when the lines cannot be decoded.
pub fn lyrics_from_response(body: &[u8]) -> (r: Option<Option<Vec<LyricLine>>>)
    ensures
        match parsed_json(body@) {
            None => r is None,
            Some(j) => r matches Some(x) && match x {
                Some(v) => decoded(
                    reply_lines(j, "lrc"@),
                    reply_lines(j, "tlyric"@),
                    reply_lines(j, "romalrc"@),
                ) == Some(lyric_views(v@)),
                None => decoded(
                    reply_lines(j, "lrc"@),
                    reply_lines(j, "tlyric"@),
                    reply_lines(j, "romalrc"@),
                ) is None,
            },
        },
{
    let j = match parse_json(body) {
        Some(j) => j,
        None => return None,
    };
    let lrc = lyric_lines_of(&j, "lrc");
    let tlyric = lyric_lines_of(&j, "tlyric");
    let romalrc = lyric_lines_of(&j, "romalrc");
    proof {
        lemma_prepared_views(lrc@, split_lines(lyric_text(j, "lrc"@)));
        lemma_prepared_views(tlyric@, split_lines(lyric_text(j, "tlyric"@)));
        lemma_prepared_views(romalrc@, split_lines(lyric_text(j, "romalrc"@)));
    }
    Some(encode_lyrics(lrc, tlyric, romalrc))
}

/// The lyric text a lyric file is written with: the text under `lrc.lyric`, when it is there
/// and not blank.
pub open spec fn lyric_file_text_spec(j: Json) -> Option<Seq<char>> {
    let t = lyric_text(j, "lrc"@);
    if crate::text::trim(t).len() == 0 {
        None
    } else {
        Some(t)
    }
}

/// The text of the lyric file to write from a lyric reply: `None` when the body is not JSON,
/// `Some(None)` when the reply has no lyric or only white space.
pub fn lyric_file_text(body: &[u8]) -> (r: Option<Option<String>>)
    ensures
        match parsed_json(body@) {
            None => r is None,
            Some(j) => r matches Some(x) && match x {
                Some(t) => lyric_file_text_spec(j) == Some(t@),
                None => lyric_file_text_spec(j) is None,
            },
        },
{
    proof {
        reveal_strlit("lrc");
        reveal_strlit("lyric");
    }
    let j = match parse_json(body) {
        Some(j) => j,
        None => return None,
    };
    let text = match json_str(json_get(json_get(Some(&j), "lrc"), "lyric")) {
        Some(t) => t,
        None => {
            let e = String::new();
            proof {
                assert(e@ =~= Seq::<char>::empty());
            }
            e
        },
    };
    let trimmed = crate::text::trim_chars(&chars_of(text.as_str()));
    if trimmed.len() == 0 {
        Some(None)
    } else {
        Some(Some(text))
    }
}

// ---- songs -------------------------------------------------------------------------------

/// The id of a track, `track["id"]`.
pub open spec fn track_id(t: Json) -> Option<u64> {
    as_u64(get(Some(t), "id"@))
}

/// Whether `s` is the song a track describes: its id; its name, first singer and album, or
/// `Unknown`; their ids and the duration, or 0; no URL or quality yet; liked when `liked` holds
/// its id.
pub open spec fn is_track_song(s: Song, t: Json, liked: Set<u64>) -> bool {
    let tj = Some(t);
    let ar = item(get(tj, "ar"@), 0);
    let al = get(tj, "al"@);
    &&& track_id(t) == Some(s.id)
    &&& s.name@ == str_or(as_str(get(tj, "name"@)), "Unknown"@)
    &&& s.singer@ == str_or(as_str(get(ar, "name"@)), "Unknown"@)
    &&& s.singer_id == u64_or(as_u64(get(ar, "id"@)), 0)
    &&& s.album@ == str_or(as_str(get(al, "name"@)), "Unknown"@)
    &&& s.album_id == u64_or(as_u64(get(al, "id"@)), 0)
    &&& s.duration == u64_or(as_u64(get(tj, "dt"@)), 0)
    &&& s.song_url is None
    &&& s.quality_level@ == Seq::<char>::empty()
    &&& s.liked == liked.contains(s.id)
}

fn str_or_unknown(s: Option<String>) -> (r: String)
    ensures
        r@ == str_or(
            match s {
                Some(x) => Some(x@),
                None => None,
            },
            "Unknown"@,
        ),
{
    match s {
        Some(x) => x,
        None => String::from_str("Unknown"),
    }
}

/// The song a track describes; `None` for a track without an id.
pub fn parse_track(track: &Json, liked: &HashSet<u64>) -> (r: Option<Song>)
    ensures
        match track_id(*track) {
            None => r is None,
            Some(_) => r matches Some(s) && is_track_song(s, *track, liked@),
        },
{
    proof {
        reveal_strlit("id");
        reveal_strlit("name");
        reveal_strlit("ar");
        reveal_strlit("al");
        reveal_strlit("dt");
    }
    let t = Some(track);
    let id = match json_u64(json_get(t, "id")) {
        Some(id) => id,
        None => return None,
    };
    let ar = json_item(json_get(t, "ar"), 0);
    let al = json_get(t, "al");
    let name = str_or_unknown(json_str(json_get(t, "name")));
    let singer = str_or_unknown(json_str(json_get(ar, "name")));
    let album = str_or_unknown(json_str(json_get(al, "name")));
    let singer_id = match json_u64(json_get(ar, "id")) {
        Some(x) => x,
        None => 0,
    };
    let album_id = match json_u64(json_get(al, "id")) {
        Some(x) => x,
        None => 0,
    };
    let duration = match json_u64(json_get(t, "dt")) {
        Some(x) => x,
        None => 0,
    };
    let quality_level = String::new();
    let liked_song = liked.contains(&id);
    Some(Song {
        name,
        id,
        singer,
        singer_id,
        album,
        album_id,
        duration,
        song_url: None,
        quality_level,
        liked: liked_song,
    })
}

/// The tracks that have an id, in order.
pub open spec fn tracks_with_id(ts: Seq<Json>) -> Seq<Json>
    decreases ts.len(),
{
    if ts.len() == 0 {
        seq![]
    } else if track_id(ts.last()) is Some {
        tracks_with_id(ts.drop_last()).push(ts.last())
    } else {
        tracks_with_id(ts.drop_last())
    }
}

/// Whether `songs` are the songs of the tracks `ts` that have an id, one each, in order.
pub open spec fn songs_of_tracks(songs: Seq<Song>, ts: Seq<Json>, liked: Set<u64>) -> bool {
    let k = tracks_with_id(ts);
    &&& songs.len() == k.len()
    &&& forall|i: int| 0 <= i < k.len() ==> is_track_song(#[trigger] songs[i], k[i], liked)
}

/// The songs of the tracks that have an id, in order (tracks without an id are left out).
pub fn songs_from_tracks(tracks: &Vec<Json>, liked: &HashSet<u64>) -> (r: Vec<Song>)
    ensures
        songs_of_tracks(r@, tracks@, liked@),
{
    let mut r: Vec<Song> = Vec::new();
    let mut i: usize = 0;
    while i < tracks.len()
        invariant
            i <= tracks.len(),
            songs_of_tracks(r@, tracks@.take(i as int), liked@),
        decreases tracks.len() - i,
    {
        let ghost before = r@;
        assert(tracks@.take(i + 1).drop_last() =~= tracks@.take(i as int));
        assert(tracks@.take(i + 1).last() == tracks@[i as int]);
        match parse_track(&tracks[i], liked) {
            Some(s) => {
                r.push(s);
                assert(r@ =~= before.push(s));
            },
            None => {},
        }
        i += 1;
    }
    assert(tracks@.take(tracks.len() as int) =~= tracks@);
    r
}

// ---- song lists of replies ---------------------------------------------------------------

/// Whether the reply `j` says 200.
pub open spec fn ok_reply(j: Json) -> bool {
    reply_code(Some(j)) == Some(200u64)
}

fn code_is_ok(j: &Json) -> (r: bool)
    ensures
        r == ok_reply(*j),
        !r ==> reply_code(Some(*j)) != Some(200u64),
{
    proof {
        reveal_strlit("code");
    }
    match json_u64(json_get(Some(j), "code")) {
        Some(c) => c == 200,
        None => false,
    }
}

fn code_of(j: &Json) -> (r: Option<u64>)
    ensures
        r == reply_code(Some(*j)),
{
    proof {
        reveal_strlit("code");
    }
    json_u64(json_get(Some(j), "code"))
}

/// The songs of the day's recommendation reply: a 200 reply with the tracks under
/// `data.dailySongs`; the tracks without an id are left out.
pub fn daily_songs_from_response(body: &[u8], liked: &HashSet<u64>) -> (r: Result<Vec<Song>, ReplyError>)
    ensures
        match parsed_json(body@) {
            None => r == Err::<Vec<Song>, ReplyError>(ReplyError::NotJson),
            Some(j) => if !ok_reply(j) {
                r == Err::<Vec<Song>, ReplyError>(ReplyError::Code(reply_code(Some(j))))
            } else {
                match as_array(get(get(Some(j), "data"@), "dailySongs"@)) {
                    None => r == Err::<Vec<Song>, ReplyError>(ReplyError::NoSongs),
                    Some(ts) => r matches Ok(v) && songs_of_tracks(v@, ts, liked@),
                }
            },
        },
{
    proof {
        reveal_strlit("data");
        reveal_strlit("dailySongs");
    }
    let j = match parse_json(body) {
        Some(j) => j,
        None => return Err(ReplyError::NotJson),
    };
    if !code_is_ok(&j) {
        return Err(ReplyError::Code(code_of(&j)));
    }
    match json_array(json_get(json_get(Some(&j), "data"), "dailySongs")) {
        Some(ts) => Ok(songs_from_tracks(ts, liked)),
        None => Err(ReplyError::NoSongs),
    }
}

/// The tracks of a day's history reply: `data` itself when it is a list, else `data.songs`.
pub open spec fn history_tracks(j: Json) -> Option<Seq<Json>> {
    match as_array(get(Some(j), "data"@)) {
        Some(ts) => Some(ts),
        None => as_array(get(get(Some(j), "data"@), "songs"@)),
    }
}

/// The songs of a past day's recommendation reply: a 200 reply with its tracks (see
/// `history_tracks`); an empty list means the day cannot be fetched again.
pub fn history_songs_from_response(body: &[u8], liked: &HashSet<u64>) -> (r: Result<Vec<Song>, ReplyError>)
    ensures
        match parsed_json(body@) {
            None => r == Err::<Vec<Song>, ReplyError>(ReplyError::NotJson),
            Some(j) => if !ok_reply(j) {
                r == Err::<Vec<Song>, ReplyError>(ReplyError::Code(reply_code(Some(j))))
            } else {
                match history_tracks(j) {
                    None => r == Err::<Vec<Song>, ReplyError>(ReplyError::NoSongs),
                    Some(ts) => if ts.len() == 0 {
                        r == Err::<Vec<Song>, ReplyError>(ReplyError::NoHistory)
                    } else {
                        r matches Ok(v) && songs_of_tracks(v@, ts, liked@)
                    },
                }
            },
        },
{
    proof {
        reveal_strlit("data");
        reveal_strlit("songs");
    }
    let j = match parse_json(body) {
        Some(j) => j,
        None => return Err(ReplyError::NotJson),
    };
    if !code_is_ok(&j) {
        return Err(ReplyError::Code(code_of(&j)));
    }
    let data = json_get(Some(&j), "data");
    let tracks = match json_array(data) {
        Some(ts) => ts,
        None => match json_array(json_get(data, "songs")) {
            Some(ts) => ts,
            None => return Err(ReplyError::NoSongs),
        },
    };
    if tracks.len() == 0 {
        return Err(ReplyError::NoHistory);
    }
    Ok(songs_from_tracks(tracks, liked))
}

/// Whether every track has an id.
pub open spec fn all_have_ids(ts: Seq<Json>) -> bool {
    forall|i: int| 0 <= i < ts.len() ==> #[trigger] track_id(ts[i]) is Some
}

proof fn lemma_all_kept(ts: Seq<Json>)
    requires
        all_have_ids(ts),
    ensures
        tracks_with_id(ts) == ts,
    decreases ts.len(),
{
    if ts.len() > 0 {
        assert(all_have_ids(ts.drop_last())) by {
            assert forall|i: int| 0 <= i < ts.drop_last().len() implies #[trigger] track_id(
                ts.drop_last()[i],
            ) is Some by {
                assert(ts.drop_last()[i] == ts[i]);
            }
        }
        lemma_all_kept(ts.drop_last());
        assert(track_id(ts[ts.len() - 1]) is Some);
        assert(ts.drop_last().push(ts.last()) =~= ts);
    }
}

/// The songs of one page of a songlist's tracks: a 200 reply with the tracks under `songs`,
/// every one of which must have an id.
pub fn songlist_page_from_response(body: &[u8], liked: &HashSet<u64>) -> (r: Result<Vec<Song>, ReplyError>)
    ensures
        match parsed_json(body@) {
            None => r == Err::<Vec<Song>, ReplyError>(ReplyError::NotJson),
            Some(j) => if !ok_reply(j) {
                r == Err::<Vec<Song>, ReplyError>(ReplyError::Code(reply_code(Some(j))))
            } else {
                match as_array(get(Some(j), "songs"@)) {
                    None => r == Err::<Vec<Song>, ReplyError>(ReplyError::NoSongs),
                    Some(ts) => if all_have_ids(ts) {
                        r matches Ok(v) && v@.len() == ts.len() && forall|i: int|
                            0 <= i < ts.len() ==> is_track_song(#[trigger] v@[i], ts[i], liked@)
                    } else {
                        r == Err::<Vec<Song>, ReplyError>(ReplyError::TrackWithoutId)
                    },
                }
            },
        },
{
    proof {
        reveal_strlit("songs");
        reveal_strlit("id");
    }
    let j = match parse_json(body) {
        Some(j) => j,
        None => return Err(ReplyError::NotJson),
    };
    if !code_is_ok(&j) {
        return Err(ReplyError::Code(code_of(&j)));
    }
    let tracks = match json_array(json_get(Some(&j), "songs")) {
        Some(ts) => ts,
        None => return Err(ReplyError::NoSongs),
    };
    let mut i: usize = 0;
    while i < tracks.len()
        invariant
            i <= tracks.len(),
            parsed_json(body@) == Some(j),
            ok_reply(j),
            as_array(get(Some(j), "songs"@)) == Some(tracks@),
            forall|k: int| 0 <= k < i ==> #[trigger] track_id(tracks@[k]) is Some,
        decreases tracks.len() - i,
    {
        if json_u64(json_get(Some(&tracks[i]), "id")).is_none() {
            assert(track_id(tracks@[i as int]) is None);
            assert(!all_have_ids(tracks@));
            return Err(ReplyError::TrackWithoutId);
        }
        i += 1;
    }
    let songs = songs_from_tracks(tracks, liked);
    proof {
        lemma_all_kept(tracks@);
    }
    Ok(songs)
}

// ---- liked songs and the account ---------------------------------------------------------

/// The numbers among `ts`, in order.
pub open spec fn numbers(ts: Seq<Json>) -> Seq<u64>
    decreases ts.len(),
{
    if ts.len() == 0 {
        seq![]
    } else {
        match as_u64(Some(ts.last())) {
            Some(n) => numbers(ts.drop_last()).push(n),
            None => numbers(ts.drop_last()),
        }
    }
}

/// The ids of the user's liked songs: a 200 reply with a list under `ids`, of which the
/// numbers are taken.
pub fn liked_ids_from_response(body: &[u8]) -> (r: Result<Vec<u64>, ReplyError>)
    ensures
        match parsed_json(body@) {
            None => r == Err::<Vec<u64>, ReplyError>(ReplyError::NotJson),
            Some(j) => if !ok_reply(j) {
                r == Err::<Vec<u64>, ReplyError>(ReplyError::Code(reply_code(Some(j))))
            } else {
                match as_array(get(Some(j), "ids"@)) {
                    None => r == Err::<Vec<u64>, ReplyError>(ReplyError::MissingIds),
                    Some(ts) => r matches Ok(v) && v@ == numbers(ts),
                }
            },
        },
{
    proof {
        reveal_strlit("ids");
    }
    let j = match parse_json(body) {
        Some(j) => j,
        None => return Err(ReplyError::NotJson),
    };
    if !code_is_ok(&j) {
        return Err(ReplyError::Code(code_of(&j)));
    }
    let ids = match json_array(json_get(Some(&j), "ids")) {
        Some(ts) => ts,
        None => return Err(ReplyError::MissingIds),
    };
    let mut r: Vec<u64> = Vec::new();
    let mut i: usize = 0;
    while i < ids.len()
        invariant
            i <= ids.len(),
            r@ == numbers(ids@.take(i as int)),
        decreases ids.len() - i,
    {
        assert(ids@.take(i + 1).drop_last() =~= ids@.take(i as int));
        assert(ids@.take(i + 1).last() == ids@[i as int]);
        match json_u64(Some(&ids[i])) {
            Some(n) => r.push(n),
            None => {},
        }
        i += 1;
    }
    assert(ids@.take(ids.len() as int) =~= ids@);
    Ok(r)
}

/// The logged-in account of a login status reply: `data.profile.userId` and
/// `data.profile.nickname`, when both are there.
pub open spec fn account_of(j: Json) -> Option<(u64, Seq<char>)> {
    let p = get(get(Some(j), "data"@), "profile"@);
    match (as_u64(get(p, "userId"@)), as_str(get(p, "nickname"@))) {
        (Some(id), Some(n)) => Some((id, n)),
        _ => None,
    }
}

/// The logged-in account (its user id and nickname) of a login status reply; `None` when the
/// body is not JSON, `Some(None)` when no account is logged in.
pub fn account_from_response(body: &[u8]) -> (r: Option<Option<(u64, String)>>)
    ensures
        match parsed_json(body@) {
            None => r is None,
            Some(j) => r matches Some(x) && match x {
                Some((id, n)) => account_of(j) == Some((id, n@)),
                None => account_of(j) is None,
            },
        },
{
    proof {
        reveal_strlit("data");
        reveal_strlit("profile");
        reveal_strlit("userId");
        reveal_strlit("nickname");
    }
    let j = match parse_json(body) {
        Some(j) => j,
        None => return None,
    };
    let p = json_get(json_get(Some(&j), "data"), "profile");
    match (json_u64(json_get(p, "userId")), json_str(json_get(p, "nickname"))) {
        (Some(id), Some(n)) => Some(Some((id, n))),
        _ => Some(None),
    }
}

// ---- the user's songlists ----------------------------------------------------------------

/// Whether a playlist of the reply has what the player requires of it: a name and an id.
pub open spec fn playlist_complete(p: Json) -> bool {
    as_str(get(Some(p), "name"@)) is Some && as_u64(get(Some(p), "id"@)) is Some
}

/// Whether `s` is the songlist a playlist of the reply describes: its name and id; its track
/// count, creator nickname, subscription and special type, or 0, empty, false and 0; no songs
/// loaded.
pub open spec fn is_playlist_songlist(s: Songlist, p: Json) -> bool {
    let pj = Some(p);
    &&& as_str(get(pj, "name"@)) == Some(s.name@)
    &&& as_u64(get(pj, "id"@)) == Some(s.id)
    &&& s.songs_count == u64_or(as_u64(get(pj, "trackCount"@)), 0) as usize
    &&& s.creator@ == str_or(as_str(get(get(pj, "creator"@), "nickname"@)), Seq::empty())
    &&& s.subscribed == (as_bool(get(pj, "subscribed"@)) == Some(true))
    &&& s.special_type == u64_or(as_u64(get(pj, "specialType"@)), 0)
    &&& s.songs@.len() == 0
}

/// Whether a songlists reply has what the player requires of it: a code, and when it is 200,
/// the `more` flag and the list of playlists, each complete.
pub open spec fn songlists_reply_complete(j: Json) -> bool {
    &&& reply_code(Some(j)) is Some
    &&& ok_reply(j) ==> {
        &&& as_bool(get(Some(j), "more"@)) is Some
        &&& as_array(get(Some(j), "playlist"@)) matches Some(ps) && forall|i: int|
            0 <= i < ps.len() ==> playlist_complete(#[trigger] ps[i])
    }
}

fn songlist_of_playlist(p: &Json) -> (r: Option<Songlist>)
    ensures
        match r {
            Some(s) => playlist_complete(*p) && is_playlist_songlist(s, *p),
            None => !playlist_complete(*p),
        },
{
    proof {
        reveal_strlit("name");
        reveal_strlit("id");
        reveal_strlit("trackCount");
        reveal_strlit("creator");
        reveal_strlit("nickname");
        reveal_strlit("subscribed");
        reveal_strlit("specialType");
    }
    let pj = Some(p);
    let name = match json_str(json_get(pj, "name")) {
        Some(n) => n,
        None => return None,
    };
    let id = match json_u64(json_get(pj, "id")) {
        Some(id) => id,
        None => return None,
    };
    let count: u64 = match json_u64(json_get(pj, "trackCount")) {
        Some(c) => c,
        None => 0,
    };
    let creator = match json_str(json_get(json_get(pj, "creator"), "nickname")) {
        Some(c) => c,
        None => {
            let e = String::new();
            proof {
                assert(e@ =~= Seq::<char>::empty());
            }
            e
        },
    };
    let subscribed = match json_bool(json_get(pj, "subscribed")) {
        Some(b) => b,
        None => false,
    };
    let special_type = match json_u64(json_get(pj, "specialType")) {
        Some(t) => t,
        None => 0,
    };
    Some(Songlist {
        name,
        id,
        songs_count: count as usize,
        creator,
        subscribed,
        special_type,
        songs: Vec::new(),
    })
}

/// The user's songlists from the user playlist reply: a 200 reply, one songlist per playlist
/// under `playlist`, in order. `Incomplete` when the reply lacks what the player requires (see
/// `songlists_reply_complete`).
pub fn songlists_from_response(body: &[u8]) -> (r: Result<Vec<Songlist>, ReplyError>)
    ensures
        match parsed_json(body@) {
            None => r == Err::<Vec<Songlist>, ReplyError>(ReplyError::NotJson),
            Some(j) => if !songlists_reply_complete(j) {
                r == Err::<Vec<Songlist>, ReplyError>(ReplyError::Incomplete)
            } else if !ok_reply(j) {
                r == Err::<Vec<Songlist>, ReplyError>(ReplyError::Code(reply_code(Some(j))))
            } else {
                r matches Ok(v) && as_array(get(Some(j), "playlist"@)) matches Some(ps) && v@.len()
                    == ps.len() && forall|i: int|
                    0 <= i < ps.len() ==> is_playlist_songlist(#[trigger] v@[i], ps[i])
            },
        },
{
    proof {
        reveal_strlit("more");
        reveal_strlit("playlist");
    }
    let j = match parse_json(body) {
        Some(j) => j,
        None => return Err(ReplyError::NotJson),
    };
    let code = code_of(&j);
    if code.is_none() {
        return Err(ReplyError::Incomplete);
    }
    if !code_is_ok(&j) {
        return Err(ReplyError::Code(code));
    }
    if json_bool(json_get(Some(&j), "more")).is_none() {
        return Err(ReplyError::Incomplete);
    }
    let ps = match json_array(json_get(Some(&j), "playlist")) {
        Some(ps) => ps,
        None => return Err(ReplyError::Incomplete),
    };
    let mut r: Vec<Songlist> = Vec::new();
    let mut i: usize = 0;
    while i < ps.len()
        invariant
            i <= ps.len(),
            parsed_json(body@) == Some(j),
            reply_code(Some(j)) is Some,
            ok_reply(j),
            as_bool(get(Some(j), "more"@)) is Some,
            as_array(get(Some(j), "playlist"@)) == Some(ps@),
            r@.len() == i,
            forall|k: int| 0 <= k < i ==> playlist_complete(#[trigger] ps@[k]),
            forall|k: int| 0 <= k < i ==> is_playlist_songlist(#[trigger] r@[k], ps@[k]),
        decreases ps.len() - i,
    {
        match songlist_of_playlist(&ps[i]) {
            Some(s) => r.push(s),
            None => {
                assert(!playlist_complete(ps@[i as int]));
                assert(!songlists_reply_complete(j));
                return Err(ReplyError::Incomplete);
            },
        }
        i += 1;
    }
    Ok(r)
}

// ---- status replies ----------------------------------------------------------------------

/// The status code and the message of a reply, `code` and `message`; `None` when the body is
/// not JSON.
pub fn reply_status(body: &[u8]) -> (r: Option<(Option<u64>, Option<String>)>)
    ensures
        match parsed_json(body@) {
            None => r is None,
            Some(j) => r matches Some((c, m)) && c == reply_code(Some(j)) && match m {
                Some(t) => as_str(get(Some(j), "message"@)) == Some(t@),
                None => as_str(get(Some(j), "message"@)) is None,
            },
        },
{
    proof {
        reveal_strlit("message");
    }
    let j = match parse_json(body) {
        Some(j) => j,
        None => return None,
    };
    Some((code_of(&j), json_str(json_get(Some(&j), "message"))))
}

/// The status of a change of a songlist's tracks: the code under `body.code`, else `code`
/// (`tracks_update_code`), and the message under `body.message`, else `message`; `None` when
/// the body is not JSON.
pub fn tracks_reply_status(body: &[u8]) -> (r: Option<(Option<u64>, Option<String>)>)
    ensures
        match parsed_json(body@) {
            None => r is None,
            Some(j) => r matches Some((c, m)) && c == (match as_u64(get(get(Some(j), "body"@), "code"@)) {
                Some(x) => Some(x),
                None => reply_code(Some(j)),
            }) && ({
                let bm = as_str(get(get(Some(j), "body"@), "message"@));
                let tm = as_str(get(Some(j), "message"@));
                let want = if bm is Some { bm } else { tm };
                match m {
                    Some(t) => want == Some(t@),
                    None => want is None,
                }
            }),
        },
{
    proof {
        reveal_strlit("body");
        reveal_strlit("code");
        reveal_strlit("message");
    }
    let j = match parse_json(body) {
        Some(j) => j,
        None => return None,
    };
    let inner = json_get(Some(&j), "body");
    let code = crate::api::tracks_update_code(json_u64(json_get(inner, "code")), code_of(&j));
    let message = match json_str(json_get(inner, "message")) {
        Some(m) => Some(m),
        None => json_str(json_get(Some(&j), "message")),
    };
    Some((code, message))
}

/// The status code of the reply to a songlist's creation and the new songlist's id, under
/// `playlist.id`, else `id`; `None` when the body is not JSON.
pub fn created_songlist_reply(body: &[u8]) -> (r: Option<(Option<u64>, Option<u64>)>)
    ensures
        match parsed_json(body@) {
            None => r is None,
            Some(j) => r == Some((reply_code(Some(j)), match as_u64(get(get(Some(j), "playlist"@), "id"@)) {
                Some(x) => Some(x),
                None => as_u64(get(Some(j), "id"@)),
            })),
        },
{
    proof {
        reveal_strlit("playlist");
        reveal_strlit("id");
    }
    let j = match parse_json(body) {
        Some(j) => j,
        None => return None,
    };
    let id = match json_u64(json_get(json_get(Some(&j), "playlist"), "id")) {
        Some(x) => Some(x),
        None => json_u64(json_get(Some(&j), "id")),
    };
    Some((code_of(&j), id))
}

/// The status code of a song availability reply and its `success` flag (false when missing);
/// `None` when the body is not JSON.
pub fn availability_reply(body: &[u8]) -> (r: Option<(Option<u64>, bool)>)
    ensures
        match parsed_json(body@) {
            None => r is None,
            Some(j) => r == Some((reply_code(Some(j)), as_bool(get(Some(j), "success"@)) == Some(true))),
        },
{
    proof {
        reveal_strlit("success");
    }
    let j = match parse_json(body) {
        Some(j) => j,
        None => return None,
    };
    let success = match json_bool(json_get(Some(&j), "success")) {
        Some(b) => b,
        None => false,
    };
    Some((code_of(&j), success))
}

// ---- a song's resource -------------------------------------------------------------------

/// Where a song can be fetched from, and what the server says of it.
#[derive(Clone, Debug)]
pub struct SongResource {
    pub url: String,
    /// The quality level the server serves.
    pub quality_level: String,
    /// The file type the server reports.
    pub file_type: Option<String>,
}

/// The resource of a song at `quality` from the song URL reply: the first entry under `data`,
/// its `url`, its `level` (else `quality`) and its `type`.
pub fn song_resource_from_response(body: &[u8], quality: &str) -> (r: Result<SongResource, ReplyError>)
    ensures
        match parsed_json(body@) {
            None => r == Err::<SongResource, ReplyError>(ReplyError::NotJson),
            Some(j) => {
                let d = item(get(Some(j), "data"@), 0);
                if d is None {
                    r == Err::<SongResource, ReplyError>(ReplyError::NoData)
                } else {
                    match as_str(get(d, "url"@)) {
                        None => r == Err::<SongResource, ReplyError>(ReplyError::Unavailable),
                        Some(u) => r matches Ok(res) && res.url@ == u && res.quality_level@ == str_or(
                            as_str(get(d, "level"@)),
                            quality@,
                        ) && match res.file_type {
                            Some(t) => as_str(get(d, "type"@)) == Some(t@),
                            None => as_str(get(d, "type"@)) is None,
                        },
                    }
                }
            },
        },
{
    proof {
        reveal_strlit("data");
        reveal_strlit("url");
        reveal_strlit("level");
        reveal_strlit("type");
    }
    let j = match parse_json(body) {
        Some(j) => j,
        None => return Err(ReplyError::NotJson),
    };
    let d = json_item(json_get(Some(&j), "data"), 0);
    if d.is_none() {
        return Err(ReplyError::NoData);
    }
    let url = match json_str(json_get(d, "url")) {
        Some(u) => u,
        None => return Err(ReplyError::Unavailable),
    };
    let quality_level = match json_str(json_get(d, "level")) {
        Some(l) => l,
        None => String::from_str(quality),
    };
    Ok(SongResource { url, quality_level, file_type: json_str(json_get(d, "type")) })
}

// ---- login by QR code --------------------------------------------------------------------

/// The key of a new login QR code: a 200 reply whose `data.code` is 200 too, with the key
/// under `data.unikey`.
pub fn qr_key_from_response(body: &[u8]) -> (r: Result<String, ReplyError>)
    ensures
        match parsed_json(body@) {
            None => r == Err::<String, ReplyError>(ReplyError::NotJson),
            Some(j) => {
                let data = get(Some(j), "data"@);
                if !(ok_reply(j) && as_u64(get(data, "code"@)) == Some(200u64)) {
                    r == Err::<String, ReplyError>(ReplyError::Code(reply_code(Some(j))))
                } else {
                    match as_str(get(data, "unikey"@)) {
                        Some(k) => r matches Ok(s) && s@ == k,
                        None => r == Err::<String, ReplyError>(ReplyError::Incomplete),
                    }
                }
            },
        },
{
    proof {
        reveal_strlit("data");
        reveal_strlit("code");
        reveal_strlit("unikey");
    }
    let j = match parse_json(body) {
        Some(j) => j,
        None => return Err(ReplyError::NotJson),
    };
    let data = json_get(Some(&j), "data");
    let data_ok = match json_u64(json_get(data, "code")) {
        Some(c) => c == 200,
        None => false,
    };
    if !(code_is_ok(&j) && data_ok) {
        return Err(ReplyError::Code(code_of(&j)));
    }
    match json_str(json_get(data, "unikey")) {
        Some(k) => Ok(k),
        None => Err(ReplyError::Incomplete),
    }
}

/// The URL of a login QR code: a 200 reply with the URL under `data.qrurl`.
pub fn qr_url_from_response(body: &[u8]) -> (r: Result<String, ReplyError>)
    ensures
        match parsed_json(body@) {
            None => r == Err::<String, ReplyError>(ReplyError::NotJson),
            Some(j) => if !ok_reply(j) {
                r == Err::<String, ReplyError>(ReplyError::Code(reply_code(Some(j))))
            } else {
                match as_str(get(get(Some(j), "data"@), "qrurl"@)) {
                    Some(u) => r matches Ok(s) && s@ == u,
                    None => r == Err::<String, ReplyError>(ReplyError::Incomplete),
                }
            },
        },
{
    proof {
        reveal_strlit("data");
        reveal_strlit("qrurl");
    }
    let j = match parse_json(body) {
        Some(j) => j,
        None => return Err(ReplyError::NotJson),
    };
    if !code_is_ok(&j) {
        return Err(ReplyError::Code(code_of(&j)));
    }
    match json_str(json_get(json_get(Some(&j), "data"), "qrurl")) {
        Some(u) => Ok(u),
        None => Err(ReplyError::Incomplete),
    }
}

/// The status code of a login QR check and the cookie it carries, under `cookie`; `None` when
/// the body is not JSON.
pub fn qr_check_from_response(body: &[u8]) -> (r: Option<(Option<u64>, Option<String>)>)
    ensures
        match parsed_json(body@) {
            None => r is None,
            Some(j) => r matches Some((c, k)) && c == reply_code(Some(j)) && match k {
                Some(t) => as_str(get(Some(j), "cookie"@)) == Some(t@),
                None => as_str(get(Some(j), "cookie"@)) is None,
            },
        },
{
    proof {
        reveal_strlit("cookie");
    }
    let j = match parse_json(body) {
        Some(j) => j,
        None => return None,
    };
    Some((code_of(&j), json_str(json_get(Some(&j), "cookie"))))
}

} // verus!
