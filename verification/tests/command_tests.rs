use ncm_tui::command::{Command, CommandError, PlayMode, ScreenEnum};

#[test]
fn parses_screen_3() {
    assert!(matches!(Command::parse("screen 3").unwrap(), Command::GotoScreen(ScreenEnum::Daily)));
}

#[test]
fn parses_screen_9() {
    assert!(matches!(Command::parse("screen 9").unwrap(), Command::GotoScreen(ScreenEnum::Settings)));
    assert!(matches!(Command::parse("screen settings").unwrap(), Command::GotoScreen(ScreenEnum::Settings)));
}

#[test]
fn parses_like_commands() {
    assert!(matches!(Command::parse("like").unwrap(), Command::SetSongLiked(Some(true))));
    assert!(matches!(Command::parse("unlike").unwrap(), Command::SetSongLiked(Some(false))));
}

#[test]
fn parses_download_commands_strictly() {
    assert!(matches!(Command::parse("download song").unwrap(), Command::DownloadSong));
    assert!(matches!(Command::parse("download playlist").unwrap(), Command::DownloadPlaylist));
    assert!(Command::parse("download").is_err());
    assert!(Command::parse("download album").is_err());
    assert!(Command::parse("download song extra").is_err());
}

#[test]
fn parses_collect_commands_greedily() {
    assert!(matches!(
        Command::parse("collect 我的 跑步 歌单").unwrap(),
        Command::CollectToSonglist(name) if name == "我的 跑步 歌单"
    ));
    assert!(matches!(
        Command::parse("uncollect 跑步").unwrap(),
        Command::UncollectFromSonglist(name) if name == "跑步"
    ));
    assert!(Command::parse("collect").is_err());
    assert!(Command::parse("uncollect").is_err());
}

#[test]
fn parses_playlist_commands_greedily() {
    assert!(matches!(
        Command::parse("playlist create 新 歌单").unwrap(),
        Command::CreateSonglist(name) if name == "新 歌单"
    ));
    assert!(matches!(
        Command::parse("playlist delete 旧歌单").unwrap(),
        Command::DeleteSonglistByName(name) if name == "旧歌单"
    ));
    assert!(Command::parse("playlist").is_err());
    assert!(Command::parse("playlist create").is_err());
    assert!(Command::parse("playlist rename x").is_err());
}

#[test]
fn parses_remove_command_strictly() {
    assert!(matches!(Command::parse("remove").unwrap(), Command::RemoveFromCurrentPlaylist));
    assert!(Command::parse("remove extra").is_err());
}

#[test]
fn parses_screens_and_aliases() {
    assert!(matches!(Command::parse("screen main").unwrap(), Command::GotoScreen(ScreenEnum::Main)));
    assert!(matches!(Command::parse("screen playlists").unwrap(), Command::GotoScreen(ScreenEnum::Songlists)));
    assert!(matches!(Command::parse("screen 0").unwrap(), Command::GotoScreen(ScreenEnum::Help)));
    assert!(matches!(Command::parse("help").unwrap(), Command::GotoScreen(ScreenEnum::Help)));
    assert!(matches!(Command::parse("l").unwrap(), Command::GotoScreen(ScreenEnum::Login)));
    assert!(matches!(Command::parse("  quit  ").unwrap(), Command::Quit));
    assert!(matches!(Command::parse("").unwrap(), Command::Nop));
    assert!(matches!(Command::parse("screen 5"), Err(CommandError::InvalidScreen(s)) if s == "5"));
    assert!(matches!(Command::parse("screen"), Err(CommandError::MissingScreen)));
}

#[test]
fn parses_volume_and_modes() {
    assert!(matches!(Command::parse("vol 35").unwrap(), Command::SetVolume(v) if v == "35"));
    assert!(matches!(Command::parse("volume 1e2").unwrap(), Command::SetVolume(v) if v == "1e2"));
    assert!(matches!(Command::parse("mute").unwrap(), Command::SetVolume(v) if v == "0"));
    assert!(matches!(Command::parse("vol loud"), Err(CommandError::InvalidVolume)));
    assert!(matches!(Command::parse("vol"), Err(CommandError::MissingVolume)));
    assert!(matches!(Command::parse("mode sr").unwrap(), Command::SwitchPlayMode(PlayMode::SingleRepeat)));
    assert!(matches!(Command::parse("mode shuffle").unwrap(), Command::SwitchPlayMode(PlayMode::Shuffle)));
    assert!(matches!(Command::parse("mode x"), Err(CommandError::InvalidPlayMode(m)) if m == "x"));
}

#[test]
fn parses_searches_and_jumps() {
    assert!(matches!(Command::parse("/ 晴天 周杰伦").unwrap(), Command::SearchForward(k) if k == vec!["晴天", "周杰伦"]));
    assert!(matches!(Command::parse("?").unwrap(), Command::SearchBackward(k) if k.is_empty()));
    assert!(matches!(Command::parse("where this").unwrap(), Command::WhereIsThisSong));
    assert!(Command::parse("where").is_err());
    assert!(matches!(Command::parse("top").unwrap(), Command::GoToTop));
    assert!(matches!(Command::parse("bottom").unwrap(), Command::GoToBottom));
    assert!(matches!(Command::parse("dance"), Err(CommandError::InvalidCommand(c)) if c == "dance"));
}

#[test]
fn error_messages_name_the_problem() {
    assert_eq!(Command::parse("download song extra").unwrap_err().message(), "download: Too many arguments");
    assert_eq!(Command::parse("download album").unwrap_err().message(), "download: Invalid target 'album'");
    assert_eq!(Command::parse("collect").unwrap_err().message(), "collect: Missing argument SONGLIST_NAME");
    assert_eq!(Command::parse("dance").unwrap_err().message(), "Invalid command: dance");
}
