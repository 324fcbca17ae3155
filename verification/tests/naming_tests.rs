use ncm_tui::model::Song;
use ncm_tui::naming::{
    build_download_file_name, downloaded_song_ids_in, file_stem_matches, find_local_song_file,
    find_local_song_with_quality, render_name_pattern, sanitize_file_name, song_id_from_file_stem,
};

fn song(id: u64) -> Song {
    Song {
        name: String::from("Test Song"),
        id,
        singer: String::new(),
        singer_id: 0,
        album: String::new(),
        album_id: 0,
        duration: 0,
        song_url: None,
        quality_level: String::new(),
        liked: false,
    }
}

fn names(list: &[&str]) -> Vec<String> {
    list.iter().map(|s| s.to_string()).collect()
}

#[test]
fn sanitizes_cross_platform_file_names() {
    assert_eq!(sanitize_file_name(" A/\\:*?\"<>|\u{7f}. "), "A__________");
    assert_eq!(sanitize_file_name(" .. "), "song");
}

#[test]
fn builds_download_file_name_from_pattern() {
    let song = Song { name: String::from("晴天"), singer: String::from("周杰伦"), album: String::from("叶惠美"), ..song(42) };
    assert_eq!(
        build_download_file_name(&song, "lossless", "flac", "{name}-{singer}-{album}-{quality}-{id}"),
        "晴天-周杰伦-叶惠美-lossless-42.flac"
    );
    assert_eq!(build_download_file_name(&song, "lossless", "flac", "{id}-{name}"), "42-晴天.flac");
    assert_eq!(render_name_pattern(&song, "lossless", "{name}-Lyric"), "晴天-Lyric");
    assert_eq!(render_name_pattern(&song, "lossless", "{name}-{id}-Lyric"), "晴天-42-Lyric");
}

#[test]
fn collects_downloaded_song_ids_ignoring_parts() {
    let files = names(&["晴天-周杰伦-叶惠美-lossless-42.flac", "43-jymaster-song.flac", "song-a-x-lossless-44.flac.part"]);
    let ids = downloaded_song_ids_in(&files);
    assert!(ids.contains(&42));
    assert!(ids.contains(&43));
    assert!(!ids.contains(&44));
}

#[test]
fn finds_preferred_quality_then_falls_back_and_ignores_parts() {
    let mut files = names(&["song-a-x-standard-42.mp3", "song-a-x-lossless-42.flac", "song-a-x-lossless-42.flac.part"]);
    assert_eq!(find_local_song_file(&files, 42, Some("lossless")), Some(String::from("song-a-x-lossless-42.flac")));
    files.retain(|f| f != "song-a-x-lossless-42.flac");
    assert_eq!(find_local_song_file(&files, 42, Some("lossless")), Some(String::from("song-a-x-standard-42.mp3")));
    files.retain(|f| f != "song-a-x-standard-42.mp3");
    files.push(String::from("42-jymaster-song.flac"));
    assert_eq!(find_local_song_file(&files, 42, Some("jymaster")), Some(String::from("42-jymaster-song.flac")));
}

#[test]
fn skips_existing_song_with_same_quality() {
    let files = names(&["song-a-x-lossless-42.flac"]);
    assert_eq!(find_local_song_with_quality(&files, 42, "lossless"), Some(String::from("song-a-x-lossless-42.flac")));
    assert_eq!(find_local_song_with_quality(&files, 42, "hires"), Some(String::from("song-a-x-lossless-42.flac")));
    assert_eq!(find_local_song_with_quality(&files, 43, "lossless"), None);
}

#[test]
fn sorted_first_name_wins_without_preferred_quality() {
    let files = names(&["b-standard-7.mp3", "a-hires-7.flac", "c-7-x.mp3"]);
    assert_eq!(find_local_song_file(&files, 7, None), Some(String::from("a-hires-7.flac")));
    assert_eq!(find_local_song_file(&files, 8, None), None);
}

#[test]
fn reads_song_ids_from_stems() {
    assert_eq!(song_id_from_file_stem("晴天-周杰伦-叶惠美-lossless-42"), Some(42));
    assert_eq!(song_id_from_file_stem("43-jymaster-song"), Some(43));
    assert_eq!(song_id_from_file_stem("plain"), None);
    assert_eq!(song_id_from_file_stem("+17"), Some(17));
    assert_eq!(song_id_from_file_stem("x-99999999999999999999"), None);
}

#[test]
fn matches_stems_by_id_and_quality() {
    assert!(file_stem_matches("song-a-x-lossless-42", 42, None));
    assert!(file_stem_matches("song-a-x-lossless-42", 42, Some("lossless")));
    assert!(!file_stem_matches("song-a-x-lossless-42", 42, Some("hires")));
    assert!(file_stem_matches("42-jymaster-song", 42, Some("jymaster")));
    assert!(!file_stem_matches("song-142", 42, None));
}

#[test]
fn default_names_are_read_back_as_the_song_id() {
    let tricky = Song { name: String::from("Track-7"), singer: String::from(". /x"), album: String::from("1-2"), ..song(90210) };
    let file = build_download_file_name(&tricky, "hires", "flac", "{name}-{singer}-{album}-{quality}-{id}");
    let stem = file.strip_suffix(".flac").unwrap();
    assert_eq!(song_id_from_file_stem(stem), Some(90210));
    assert!(file_stem_matches(stem, 90210, None));
    let ids = downloaded_song_ids_in(&vec![file]);
    assert!(ids.contains(&90210));
}

#[test]
fn sanitizing_twice_changes_nothing_more() {
    for name in [" A/\\:*?\"<>|\u{7f}. ", " .. ", "", "晴天", ".hidden.", "a\tb", "song"] {
        let once = sanitize_file_name(name);
        assert_eq!(sanitize_file_name(&once), once);
    }
}

#[test]
fn default_downloads_are_found_again_at_their_quality() {
    let tricky = Song { name: String::from("{quality}"), singer: String::from("-lossless-"), album: String::from(". 7"), ..song(31337) };
    let file = build_download_file_name(&tricky, "jymaster", "mp3", "{name}-{singer}-{album}-{quality}-{id}");
    assert!(file.ends_with("-jymaster-31337.mp3"));
    let stem = file.strip_suffix(".mp3").unwrap();
    assert!(file_stem_matches(stem, 31337, Some("jymaster")));
    let other = String::from("31337-other-standard.mp3");
    let found = find_local_song_with_quality(&vec![other.clone(), file.clone()], 31337, "jymaster");
    assert_eq!(found, Some(file));
}

#[test]
fn names_led_by_the_id_are_found_again() {
    let tricky = Song { name: String::from(" ..{id}"), singer: String::from("7"), ..song(271828) };
    let file = build_download_file_name(&tricky, "hires", "flac", "{id}-{name}-{singer}");
    assert!(file.starts_with("271828-"));
    let stem = file.strip_suffix(".flac").unwrap();
    assert!(file_stem_matches(stem, 271828, None));
    let found = find_local_song_file(&vec![String::from("a.flac"), file.clone()], 271828, None);
    assert_eq!(found, Some(file));
}

#[test]
fn songs_of_one_name_share_the_default_lyric_file() {
    let a = Song { name: String::from("晴天"), singer: String::from("周杰伦"), ..song(1) };
    let b = Song { name: String::from("晴天"), singer: String::from("someone"), album: String::from("x"), ..song(2) };
    let la = render_name_pattern(&a, "hires", "{name}-Lyric");
    let lb = render_name_pattern(&b, "lossless", "{name}-Lyric");
    assert_eq!(la, "晴天-Lyric");
    assert_eq!(la, lb);
}
