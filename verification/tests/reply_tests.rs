use ncm_tui::api::{daily_source, DailySource};
use ncm_tui::json::{json_array, json_get, json_item, json_str, json_u64, Json};
use ncm_tui::reply::{
    account_from_response, availability_reply, created_songlist_reply, daily_songs_from_response,
    history_songs_from_response, liked_ids_from_response, lyric_file_text, lyrics_from_response,
    qr_check_from_response, qr_key_from_response, qr_url_from_response, reply_status,
    song_resource_from_response, songlist_page_from_response, songlists_from_response, split_lines_of,
    tracks_reply_status, ReplyError,
};
use std::collections::HashSet;

fn liked(ids: &[u64]) -> HashSet<u64> {
    ids.iter().copied().collect()
}

#[test]
fn reads_fields_of_a_json_value() {
    let j = Json::Object(vec![
        (String::from("a"), Json::Object(vec![(String::from("b"), Json::Array(vec![Json::Number(Some(1)), Json::Str(String::from("x")), Json::Null]))])),
        (String::from("n"), Json::Number(None)),
        (String::from("s"), Json::Str(String::from("t"))),
    ]);
    let b = json_get(json_get(Some(&j), "a"), "b");
    assert_eq!(json_array(b).map(|a| a.len()), Some(3));
    assert_eq!(json_u64(json_item(b, 0)), Some(1));
    assert!(json_item(b, 3).is_none());
    assert_eq!(json_u64(json_get(Some(&j), "n")), None);
    assert_eq!(json_str(json_get(Some(&j), "s")).as_deref(), Some("t"));
    assert!(json_get(Some(&j), "missing").is_none());
    assert!(json_get(json_get(Some(&j), "s"), "x").is_none());
}

#[test]
fn splits_lines_as_str_split_does() {
    assert_eq!(split_lines_of("a\nb\n"), vec!["a", "b", ""]);
    assert_eq!(split_lines_of(""), vec![""]);
    assert_eq!(split_lines_of("one"), vec!["one"]);
}

#[test]
fn reads_lyrics_from_a_reply() {
    let body = br#"{"lrc":{"lyric":"[00:01.00]hello\n[00:02]world\nno timestamp"},"tlyric":{"lyric":"[00:01.00]\u4f60\u597d"},"romalrc":{"lyric":"x"}}"#;
    let lyrics = lyrics_from_response(body).unwrap().unwrap();
    assert_eq!(lyrics.len(), 2);
    assert_eq!(lyrics[0].timestamp, 1000);
    assert_eq!(lyrics[0].lyric_line, "hello");
    assert_eq!(lyrics[0].trans_lyric_line.as_deref(), Some("你好"));
    assert_eq!(lyrics[1].timestamp, 2000);
    assert!(lyrics_from_response(b"<html>").is_none());
}

#[test]
fn lyric_file_text_skips_blank_lyrics() {
    assert_eq!(lyric_file_text(br#"{"lrc":{"lyric":"[00:01.00]a"}}"#), Some(Some(String::from("[00:01.00]a"))));
    assert_eq!(lyric_file_text(br#"{"lrc":{"lyric":"  \n "}}"#), Some(None));
    assert_eq!(lyric_file_text(br#"{"code":200}"#), Some(None));
    assert_eq!(lyric_file_text(b"{"), None);
}

#[test]
fn reads_songs_of_a_daily_reply_with_defaults() {
    let body = br#"{"code":200,"data":{"dailySongs":[
        {"id":7,"name":"A","ar":[{"id":3,"name":"S"}],"al":{"id":4,"name":"L"},"dt":1000},
        {"name":"no id"},
        {"id":8}
    ]}}"#;
    let songs = daily_songs_from_response(body, &liked(&[8])).unwrap();
    assert_eq!(songs.len(), 2);
    assert_eq!((songs[0].id, songs[0].name.as_str(), songs[0].singer.as_str(), songs[0].singer_id), (7, "A", "S", 3));
    assert_eq!((songs[0].album.as_str(), songs[0].album_id, songs[0].duration, songs[0].liked), ("L", 4, 1000, false));
    assert_eq!((songs[1].id, songs[1].name.as_str(), songs[1].singer.as_str(), songs[1].album.as_str()), (8, "Unknown", "Unknown", "Unknown"));
    assert!(songs[1].liked);
    assert_eq!(songs[1].song_url, None);
    assert_eq!(daily_songs_from_response(br#"{"code":301}"#, &liked(&[])).unwrap_err(), ReplyError::Code(Some(301)));
    assert_eq!(daily_songs_from_response(br#"{"code":200,"data":{}}"#, &liked(&[])).unwrap_err(), ReplyError::NoSongs);
    assert_eq!(daily_songs_from_response(b"x", &liked(&[])).unwrap_err(), ReplyError::NotJson);
}

#[test]
fn reads_history_replies_in_both_shapes() {
    let flat = br#"{"code":200,"data":[{"id":1}]}"#;
    let nested = br#"{"code":200,"data":{"songs":[{"id":2}]}}"#;
    assert_eq!(history_songs_from_response(flat, &liked(&[])).unwrap()[0].id, 1);
    assert_eq!(history_songs_from_response(nested, &liked(&[])).unwrap()[0].id, 2);
    assert_eq!(history_songs_from_response(br#"{"code":200,"data":[]}"#, &liked(&[])).unwrap_err(), ReplyError::NoHistory);
    assert_eq!(history_songs_from_response(br#"{"code":200}"#, &liked(&[])).unwrap_err(), ReplyError::NoSongs);
}

#[test]
fn a_songlist_page_refuses_a_song_without_id() {
    let ok = br#"{"code":200,"songs":[{"id":1},{"id":2}]}"#;
    assert_eq!(songlist_page_from_response(ok, &liked(&[])).unwrap().len(), 2);
    let bad = br#"{"code":200,"songs":[{"id":1},{"name":"x"}]}"#;
    assert_eq!(songlist_page_from_response(bad, &liked(&[])).unwrap_err(), ReplyError::TrackWithoutId);
    assert_eq!(songlist_page_from_response(br#"{"code":200}"#, &liked(&[])).unwrap_err(), ReplyError::NoSongs);
}

#[test]
fn reads_liked_ids_and_the_account() {
    assert_eq!(liked_ids_from_response(br#"{"code":200,"ids":[3,"x",5]}"#).unwrap(), vec![3, 5]);
    assert_eq!(liked_ids_from_response(br#"{"code":200}"#).unwrap_err(), ReplyError::MissingIds);
    let status = br#"{"data":{"profile":{"userId":42,"nickname":"me"}}}"#;
    assert_eq!(account_from_response(status), Some(Some((42, String::from("me")))));
    assert_eq!(account_from_response(br#"{"data":{"profile":null}}"#), Some(None));
}

#[test]
fn reads_songlists_and_refuses_incomplete_ones() {
    let body = br#"{"code":200,"more":false,"playlist":[
        {"name":"mine","id":1,"trackCount":12,"creator":{"nickname":"me"},"subscribed":false,"specialType":5},
        {"name":"theirs","id":2,"subscribed":true}
    ]}"#;
    let lists = songlists_from_response(body).unwrap();
    assert_eq!(lists.len(), 2);
    assert_eq!((lists[0].name.as_str(), lists[0].id, lists[0].songs_count, lists[0].creator.as_str()), ("mine", 1, 12, "me"));
    assert_eq!((lists[0].subscribed, lists[0].special_type), (false, 5));
    assert_eq!((lists[1].songs_count, lists[1].creator.as_str(), lists[1].subscribed, lists[1].special_type), (0, "", true, 0));
    assert_eq!(songlists_from_response(br#"{"code":200,"more":false,"playlist":[{"id":1}]}"#).unwrap_err(), ReplyError::Incomplete);
    assert_eq!(songlists_from_response(br#"{"code":200,"playlist":[]}"#).unwrap_err(), ReplyError::Incomplete);
    assert_eq!(songlists_from_response(br#"{"code":401}"#).unwrap_err(), ReplyError::Code(Some(401)));
    assert_eq!(songlists_from_response(br#"{}"#).unwrap_err(), ReplyError::Incomplete);
}

#[test]
fn reads_status_replies() {
    assert_eq!(reply_status(br#"{"code":301,"message":"nope"}"#), Some((Some(301), Some(String::from("nope")))));
    assert_eq!(tracks_reply_status(br#"{"status":200,"body":{"code":200}}"#), Some((Some(200), None)));
    assert_eq!(tracks_reply_status(br#"{"code":502,"message":"m"}"#), Some((Some(502), Some(String::from("m")))));
    assert_eq!(created_songlist_reply(br#"{"code":200,"playlist":{"id":9}}"#), Some((Some(200), Some(9))));
    assert_eq!(created_songlist_reply(br#"{"code":200,"id":8}"#), Some((Some(200), Some(8))));
    assert_eq!(availability_reply(br#"{"code":200,"success":true}"#), Some((Some(200), true)));
    assert_eq!(availability_reply(br#"{"code":200}"#), Some((Some(200), false)));
    assert_eq!(reply_status(b""), None);
}

#[test]
fn reads_a_song_resource() {
    let r = song_resource_from_response(br#"{"data":[{"url":"http://x/a.flac","level":"lossless","type":"flac"}]}"#, "hires").unwrap();
    assert_eq!((r.url.as_str(), r.quality_level.as_str(), r.file_type.as_deref()), ("http://x/a.flac", "lossless", Some("flac")));
    let r = song_resource_from_response(br#"{"data":[{"url":"u"}]}"#, "hires").unwrap();
    assert_eq!((r.quality_level.as_str(), r.file_type), ("hires", None));
    assert_eq!(song_resource_from_response(br#"{"data":[{"url":null}]}"#, "hires").unwrap_err(), ReplyError::Unavailable);
    assert_eq!(song_resource_from_response(br#"{"data":[]}"#, "hires").unwrap_err(), ReplyError::NoData);
}

#[test]
fn reads_login_qr_replies() {
    assert_eq!(qr_key_from_response(br#"{"code":200,"data":{"code":200,"unikey":"k"}}"#).unwrap(), "k");
    assert_eq!(qr_key_from_response(br#"{"code":200,"data":{"code":400}}"#).unwrap_err(), ReplyError::Code(Some(200)));
    assert_eq!(qr_url_from_response(br#"{"code":200,"data":{"qrurl":"u"}}"#).unwrap(), "u");
    assert_eq!(qr_check_from_response(br#"{"code":803,"cookie":"c"}"#), Some((Some(803), Some(String::from("c")))));
}

#[test]
fn chooses_where_a_day_comes_from() {
    let window = vec![20, 19, 18];
    assert_eq!(daily_source(3, 19, &window), DailySource::Cache);
    assert_eq!(daily_source(0, 20, &window), DailySource::Latest);
    assert_eq!(daily_source(0, 19, &window), DailySource::History);
}
