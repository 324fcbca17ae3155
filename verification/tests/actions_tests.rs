use ncm_tui::actions::{
    checked_file_type, daily_download_request, download_playlist, download_song, load_failed_message,
    playlist_download_request, song_download_request, DownloadResult, DownloadTally,
};
use ncm_tui::actions::{next_download_action, DownloadAction, DownloadEvent};
use ncm_tui::model::{Song, Songlist};

fn song(id: u64, name: &str) -> Song {
    Song {
        name: name.to_string(),
        id,
        singer: String::new(),
        singer_id: 0,
        album: String::new(),
        album_id: 0,
        duration: 0,
        song_url: None,
        quality_level: String::new(),
        liked: false,
    }
}

#[test]
fn labels_download_jobs() {
    let job = download_song(song(1, "晴天"));
    assert_eq!(job.label, "歌曲《晴天》");
    assert_eq!(job.songs.len(), 1);
    let job = download_playlist(String::from("跑步"), vec![song(1, "a"), song(2, "b")]);
    assert_eq!(job.label, "歌单《跑步》");
    assert_eq!(job.songs.iter().map(|s| s.id).collect::<Vec<_>>(), vec![1, 2]);
}

#[test]
fn download_requests_say_what_starts() {
    let (message, job) = song_download_request(Some(song(1, "晴天")));
    assert_eq!(message, "已开始下载歌曲《晴天》");
    assert_eq!(job.unwrap().label, "歌曲《晴天》");
    let (message, job) = song_download_request(None);
    assert_eq!(message, "当前界面没有已选择的歌曲");
    assert!(job.is_none());

    let (message, job) = playlist_download_request(String::from("当前"), Vec::new());
    assert_eq!(message, "当前播放列表为空");
    assert!(job.is_none());
    let (message, job) = playlist_download_request(String::from("当前"), vec![song(1, "a")]);
    assert_eq!(message, "已开始下载歌单《当前》");
    assert_eq!(job.unwrap().label, "歌单《当前》");

    let day = Songlist { name: String::from("每日推荐_01-15"), id: 0, songs_count: 1, creator: String::new(), subscribed: false, special_type: 0, songs: vec![song(1, "a")] };
    assert_eq!(daily_download_request(Some(day.clone())).0, "已开始下载歌单《每日推荐_01-15》");
    let empty = Songlist { songs: Vec::new(), ..day };
    assert_eq!(daily_download_request(Some(empty)).0, "请先在日推屏加载要下载的日推");
    assert_eq!(daily_download_request(None).0, "请先在日推屏加载要下载的日推");
    assert_eq!(load_failed_message("跑步", "timeout"), "下载歌单《跑步》失败：timeout");
}

#[test]
fn tallies_downloads_and_keeps_the_first_error() {
    let mut tally = DownloadTally::new();
    tally.record(Ok(DownloadResult::Downloaded(String::from("/d/a.flac"))));
    tally.record(Err(String::from("song 2 response has no valid file type")));
    tally.record(Ok(DownloadResult::AlreadyExists(String::from("/d/c.flac"))));
    tally.record(Err(String::from("later error")));
    tally.record(Ok(DownloadResult::Downloaded(String::from("/d/e.flac"))));
    assert_eq!((tally.downloaded, tally.existing, tally.failed), (2, 1, 2));
    assert_eq!(
        tally.summary("歌单《跑步》"),
        "歌单《跑步》下载完成：成功 2，已存在 1，失败 2；首个错误：song 2 response has no valid file type"
    );
}

#[test]
fn summary_without_errors_has_no_error_part() {
    let mut tally = DownloadTally::new();
    tally.record(Ok(DownloadResult::AlreadyExists(String::from("x"))));
    assert_eq!(tally.summary("歌曲《晴天》"), "歌曲《晴天》下载完成：成功 0，已存在 1，失败 0");
}

#[test]
fn accepts_only_plain_file_types() {
    assert_eq!(checked_file_type(Some(String::from("flac"))), Some(String::from("flac")));
    assert_eq!(checked_file_type(Some(String::from("mp3"))), Some(String::from("mp3")));
    assert_eq!(checked_file_type(Some(String::new())), None);
    assert_eq!(checked_file_type(Some(String::from("../x"))), None);
    assert_eq!(checked_file_type(Some(String::from("fl ac"))), None);
    assert_eq!(checked_file_type(None), None);
}

#[test]
fn download_steps_follow_the_order_of_a_download() {
    let s = song(42, "晴天");
    let p = "{name}-{id}";
    let next = |e: DownloadEvent| next_download_action(&s, "hires", p, e);
    assert!(matches!(next(DownloadEvent::Started { local: Some(String::from("晴天-42.flac")) }),
        DownloadAction::Finish { ref file_name, already_existed: true } if file_name == "晴天-42.flac"));
    assert!(matches!(next(DownloadEvent::Started { local: None }), DownloadAction::RequestResource));
    assert!(matches!(next(DownloadEvent::ResourceReceived { file_type: Some(String::from("flac")) }),
        DownloadAction::CheckTarget { ref file_name } if file_name == "晴天-42.flac"));
    assert!(matches!(next(DownloadEvent::ResourceReceived { file_type: Some(String::from("fl.ac")) }),
        DownloadAction::Fail(ref m) if m == "song 42 response has no valid file type"));
    assert!(matches!(next(DownloadEvent::ResourceReceived { file_type: None }), DownloadAction::Fail(_)));
    assert!(matches!(next(DownloadEvent::TargetChecked { file_name: String::from("a.flac"), exists: true }),
        DownloadAction::Finish { ref file_name, already_existed: true } if file_name == "a.flac"));
    assert!(matches!(next(DownloadEvent::TargetChecked { file_name: String::from("a.flac"), exists: false }),
        DownloadAction::Transfer { ref file_name, ref part_name } if file_name == "a.flac" && part_name == "a.flac.part"));
    assert!(matches!(next(DownloadEvent::Transferred { file_name: String::from("a.flac"), written: 0 }),
        DownloadAction::Fail(ref m) if m == "song 42 download returned an empty file"));
    assert!(matches!(next(DownloadEvent::Transferred { file_name: String::from("a.flac"), written: 9 }),
        DownloadAction::Rename { ref file_name } if file_name == "a.flac"));
    assert!(matches!(next(DownloadEvent::Renamed { file_name: String::from("a.flac") }),
        DownloadAction::Finish { ref file_name, already_existed: false } if file_name == "a.flac"));
}
