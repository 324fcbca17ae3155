use ncm_tui::command::Command;
use ncm_tui::model::{Song, Songlist};
use ncm_tui::songlist_edit::{
    adjust_songs_count, collection_message, confirm_song_removal, created_songlist_position, current_playlist_removal,
    daily_songlist, delete_by_name, delete_request, drop_removed_song, find_songlist_by_name, insert_created_songlist,
    like_message, like_target, no_collection_target_message, remove_song_request, remove_songlist, removed_message,
    PendingConfirm,
};

fn song(id: u64, name: &str) -> Song {
    Song {
        name: name.to_string(),
        id,
        singer: String::new(),
        singer_id: 0,
        album: String::new(),
        album_id: 0,
        duration: 0,
        song_url: None,
        quality_level: String::new(),
        liked: false,
    }
}

fn songlist(id: u64, name: &str, subscribed: bool, special_type: u64) -> Songlist {
    Songlist { name: name.to_string(), id, songs_count: 3, creator: String::new(), subscribed, special_type, songs: Vec::new() }
}

#[test]
fn deletion_requests_depend_on_ownership() {
    assert!(matches!(delete_request(&songlist(1, "a", true, 0)), Command::ShowMessage(m) if m == "不能删除收藏的歌单"));
    assert!(matches!(delete_request(&songlist(1, "a", false, 5)), Command::ShowMessage(m) if m == "不能删除「我喜欢的音乐」"));
    assert!(matches!(delete_request(&songlist(1, "a", false, 0)), Command::DeleteSonglistByName(n) if n == "a"));
}

#[test]
fn removal_requests_name_songlist_and_song() {
    let own = songlist(7, "mine", false, 0);
    let s = song(9, "晴天");
    assert!(matches!(
        remove_song_request(&own, Some(&s)),
        Some(Command::RemoveSongFromSonglist { songlist_id: 7, songlist_name, song_id: 9, song_name }) if songlist_name == "mine" && song_name == "晴天"
    ));
    assert!(remove_song_request(&own, None).is_none());
    assert!(matches!(remove_song_request(&songlist(7, "x", true, 0), Some(&s)), Some(Command::ShowMessage(m)) if m == "只能对自建歌单移除歌曲"));
}

#[test]
fn dropping_a_removed_song_updates_the_loaded_songlist() {
    let mut list = songlist(1, "mine", false, 0);
    list.songs = vec![song(1, "a"), song(2, "b"), song(3, "c"), song(2, "b2")];
    let name = drop_removed_song(&mut list, 2);
    assert_eq!(name, "b");
    assert_eq!(list.songs.iter().map(|s| s.id).collect::<Vec<_>>(), vec![1, 3]);
    assert_eq!(list.songs_count, 2);
    assert_eq!(drop_removed_song(&mut list, 42), "");
    assert_eq!(list.songs_count, 1);
    list.songs_count = 0;
    drop_removed_song(&mut list, 1);
    assert_eq!(list.songs_count, 0);
    assert_eq!(removed_message("晴天"), "已从歌单移除：《晴天》");
}

#[test]
fn counts_follow_collection_changes() {
    let mut lists = vec![songlist(1, "a", false, 0), songlist(2, "b", false, 0), songlist(2, "c", false, 0)];
    adjust_songs_count(&mut lists, 2, true);
    assert_eq!(lists.iter().map(|s| s.songs_count).collect::<Vec<_>>(), vec![3, 4, 3]);
    adjust_songs_count(&mut lists, 1, false);
    assert_eq!(lists[0].songs_count, 2);
    adjust_songs_count(&mut lists, 99, true);
    assert_eq!(lists.iter().map(|s| s.songs_count).collect::<Vec<_>>(), vec![2, 4, 3]);
}

#[test]
fn created_songlists_go_after_liked_songs() {
    let mut lists = vec![songlist(1, "喜欢", false, 5), songlist(2, "b", false, 0)];
    assert_eq!(created_songlist_position(&lists), 1);
    insert_created_songlist(&mut lists, String::from("新"), 3, String::from("me"));
    assert_eq!(lists.iter().map(|s| s.id).collect::<Vec<_>>(), vec![1, 3, 2]);
    assert_eq!(lists[1].songs_count, 0);
    assert_eq!(lists[1].creator, "me");
    let mut plain = vec![songlist(2, "b", false, 0)];
    insert_created_songlist(&mut plain, String::from("新"), 3, String::new());
    assert_eq!(plain[0].id, 3);
    remove_songlist(&mut lists, 3);
    assert_eq!(lists.iter().map(|s| s.id).collect::<Vec<_>>(), vec![1, 2]);
}

#[test]
fn deleting_by_name_asks_for_confirmation() {
    let lists = vec![songlist(1, "喜欢", false, 5), songlist(2, "跑步", false, 0), songlist(3, "收藏", true, 0)];
    let (pending, message) = delete_by_name(&lists, "跑步");
    assert!(matches!(pending, Some(PendingConfirm::DeleteSonglist { id: 2, name }) if name == "跑步"));
    assert_eq!(message, "删除歌单《跑步》？[y/N]");
    let (pending, message) = delete_by_name(&lists, "收藏");
    assert!(pending.is_none());
    assert_eq!(message, "不能删除收藏的歌单");
    assert_eq!(delete_by_name(&lists, "喜欢").1, "不能删除「我喜欢的音乐」");
    assert_eq!(delete_by_name(&lists, "无").1, "未找到歌单《无》");
    assert_eq!(find_songlist_by_name(&lists, "喜欢", false), Some(0));
    assert_eq!(find_songlist_by_name(&lists, "喜欢", true), None);
}

#[test]
fn confirmation_and_messages_read_as_shown() {
    let (pending, message) = confirm_song_removal(4, "跑步", 9, String::from("晴天"));
    assert!(matches!(pending, PendingConfirm::RemoveSong { songlist_id: 4, song_id: 9, song_name } if song_name == "晴天"));
    assert_eq!(message, "从《跑步》移除《晴天》？[y/N]");
    assert_eq!(collection_message(true, "晴天", "跑步"), "已收藏：《晴天》→《跑步》");
    assert_eq!(collection_message(false, "晴天", "跑步"), "已取消收藏：《晴天》→《跑步》");
    assert_eq!(no_collection_target_message("x"), "未找到可操作的歌单《x》（仅支持自建歌单）");
    assert!(like_target(None, false));
    assert!(!like_target(None, true));
    assert!(like_target(Some(true), true));
    assert_eq!(like_message(true, "晴天"), "已喜欢：晴天");
    assert_eq!(like_message(false, "晴天"), "已取消喜欢：晴天");
}

#[test]
fn current_playlist_removal_checks_the_songlist() {
    let s = song(9, "晴天");
    assert_eq!(current_playlist_removal(None, None).unwrap_err(), "当前没有已选择的歌曲");
    assert_eq!(current_playlist_removal(Some(&s), None).unwrap_err(), "当前播放列表不支持移除歌曲");
    assert_eq!(current_playlist_removal(Some(&s), Some(&songlist(1, "a", true, 0))).unwrap_err(), "不能从收藏的歌单移除歌曲");
    assert_eq!(current_playlist_removal(Some(&s), Some(&songlist(1, "a", false, 5))).unwrap_err(), "不能从「我喜欢的音乐」移除歌曲");
    assert!(matches!(
        current_playlist_removal(Some(&s), Some(&songlist(1, "a", false, 0))),
        Ok(Command::RemoveSongFromSonglist { songlist_id: 1, song_id: 9, .. })
    ));
}

#[test]
fn daily_lists_play_as_songlists() {
    let list = daily_songlist(String::from("每日推荐_01-15"), vec![song(1, "a"), song(2, "b")]);
    assert_eq!(list.id, 0);
    assert_eq!(list.songs_count, 2);
    assert!(!list.subscribed);
    assert_eq!(list.name, "每日推荐_01-15");
}

#[test]
fn a_cancelled_confirmation_is_dropped() {
    let mut pending = Some(ncm_tui::songlist_edit::PendingConfirm::DeleteSonglist { id: 7, name: String::from("x") });
    assert_eq!(ncm_tui::songlist_edit::cancel_confirmation(&mut pending), "已取消");
    assert!(pending.is_none());
}
