use ncm_tui::command::{Command, ScreenEnum};
use ncm_tui::control::{
    command_for_key, completion_for, editable_songlist_names, filter_candidates, mode_key_action, AppMode, Key,
    KeyAction, ModeKeyAction,
};
use ncm_tui::control::{app_event, forwards_to_screen, login_refusal_message, AppEvent, PlaylistSource};
use ncm_tui::model::Songlist;

fn names() -> Vec<String> {
    vec!["JPOP".to_string(), "跑步精选".to_string(), "去跑步".to_string(), "KTV".to_string()]
}

fn songlist(name: &str, subscribed: bool, special_type: u64) -> Songlist {
    Songlist {
        name: name.to_string(),
        id: 1,
        songs_count: 0,
        creator: String::new(),
        subscribed,
        special_type,
        songs: Vec::new(),
    }
}

#[test]
fn filters_case_insensitively() {
    assert_eq!(filter_candidates("jpop", &names()), vec!["JPOP"]);
    assert_eq!(filter_candidates("K", &names()), vec!["KTV"]);
}

#[test]
fn matches_substring_anywhere() {
    assert_eq!(filter_candidates("跑步", &names()), vec!["跑步精选", "去跑步"]);
}

#[test]
fn ranks_prefix_matches_first() {
    assert_eq!(filter_candidates("跑", &names()), vec!["跑步精选", "去跑步"]);
}

#[test]
fn empty_input_lists_all() {
    assert_eq!(filter_candidates("", &names()).len(), 4);
    assert!(filter_candidates("不存在的歌单", &names()).is_empty());
}

#[test]
fn maps_keys_to_commands() {
    assert!(matches!(command_for_key(Key::Char('j'), false, false), KeyAction::Run(Command::Down)));
    assert!(matches!(command_for_key(Key::Up, false, false), KeyAction::Run(Command::Up)));
    assert!(matches!(command_for_key(Key::Up, false, true), KeyAction::Run(Command::MovePinnedSonglistUp)));
    assert!(matches!(command_for_key(Key::Char('J'), false, true), KeyAction::Run(Command::MovePinnedSonglistDown)));
    assert!(matches!(command_for_key(Key::Enter, true, false), KeyAction::Run(Command::Play)));
    assert!(matches!(command_for_key(Key::Enter, false, false), KeyAction::Run(Command::EnterOrPlay)));
    assert!(matches!(command_for_key(Key::Char('3'), false, false), KeyAction::Run(Command::GotoScreen(ScreenEnum::Daily))));
    assert!(matches!(command_for_key(Key::F(1), false, false), KeyAction::Run(Command::GotoScreen(ScreenEnum::Help))));
    assert!(matches!(command_for_key(Key::F(2), false, false), KeyAction::Run(Command::Nop)));
    assert!(matches!(command_for_key(Key::Char('。'), false, false), KeyAction::Run(Command::NextSong)));
    assert!(matches!(command_for_key(Key::Char('：'), false, false), KeyAction::Run(Command::EnterCommand)));
    assert!(matches!(command_for_key(Key::Char('l'), false, false), KeyAction::Run(Command::SetSongLiked(None))));
    assert!(matches!(command_for_key(Key::Char('c'), false, false), KeyAction::Run(Command::ToggleSonglistView)));
    assert!(matches!(command_for_key(Key::Char('p'), false, false), KeyAction::Run(Command::TogglePinSonglist)));
    assert!(matches!(command_for_key(Key::BackTab, false, false), KeyAction::Run(Command::PrevPanel)));
    assert!(matches!(command_for_key(Key::Char('q'), false, false), KeyAction::Run(Command::Quit)));
    assert!(matches!(command_for_key(Key::Char('/'), false, false), KeyAction::StartSearch { backward: false }));
    assert!(matches!(command_for_key(Key::Char('？'), false, false), KeyAction::StartSearch { backward: true }));
    assert!(matches!(command_for_key(Key::Char('z'), false, false), KeyAction::Run(Command::Nop)));
}

#[test]
fn keys_act_by_mode() {
    let normal = AppMode::Normal;
    let search = AppMode::Search(vec![String::from("x")]);
    let line = AppMode::CommandLine;
    assert_eq!(mode_key_action(true, &line, Key::Char('y'), false, true, false), ModeKeyAction::Confirm);
    assert_eq!(mode_key_action(true, &normal, Key::Char('n'), false, false, false), ModeKeyAction::CancelConfirm);
    assert_eq!(mode_key_action(false, &normal, Key::Char('a'), true, false, false), ModeKeyAction::EditSetting);
    assert_eq!(mode_key_action(false, &normal, Key::Char('a'), false, false, false), ModeKeyAction::MapKey);
    assert_eq!(mode_key_action(false, &search, Key::Char('N'), false, false, false), ModeKeyAction::SearchAgain { backward: true });
    assert_eq!(mode_key_action(false, &search, Key::Enter, false, false, false), ModeKeyAction::NormalThenMapKey);
    assert_eq!(mode_key_action(false, &search, Key::Char('j'), false, false, false), ModeKeyAction::MapKey);
    assert_eq!(mode_key_action(false, &search, Key::Char('x'), false, false, false), ModeKeyAction::Ignore);
    assert_eq!(mode_key_action(false, &search, Key::Esc, false, false, false), ModeKeyAction::BackToNormal);
    assert_eq!(mode_key_action(false, &line, Key::Enter, false, true, false), ModeKeyAction::AcceptCompletion);
    assert_eq!(mode_key_action(false, &line, Key::Enter, false, false, false), ModeKeyAction::RunCommandLine);
    assert_eq!(mode_key_action(false, &line, Key::Esc, false, true, false), ModeKeyAction::CloseCompletion);
    assert_eq!(mode_key_action(false, &line, Key::Tab, false, false, false), ModeKeyAction::Ignore);
    assert_eq!(mode_key_action(false, &line, Key::Down, false, false, false), ModeKeyAction::EditCommandLine);
    assert_eq!(mode_key_action(false, &line, Key::Up, false, true, false), ModeKeyAction::PrevCompletion);
    assert_eq!(mode_key_action(false, &line, Key::Backspace, false, false, true), ModeKeyAction::BackToNormal);
    assert_eq!(mode_key_action(false, &line, Key::Backspace, false, false, false), ModeKeyAction::EditAndComplete);
    assert_eq!(mode_key_action(false, &line, Key::Char('a'), false, false, false), ModeKeyAction::EditAndComplete);
}

#[test]
fn completes_songlist_names_after_command_words() {
    let lists = vec![songlist("跑步精选", false, 0), songlist("我喜欢的音乐", false, 5), songlist("去跑步", false, 0), songlist("收藏夹", true, 0)];
    let own = editable_songlist_names(&lists);
    assert_eq!(own, vec!["跑步精选", "去跑步"]);

    let mut state = completion_for("collect 跑", &own).unwrap();
    assert_eq!(state.prefix, "collect ");
    assert_eq!(state.candidates, vec!["跑步精选", "去跑步"]);
    assert_eq!(state.selected, 0);
    state.select_next();
    assert_eq!(state.completed(), "collect 去跑步");
    state.select_next();
    assert_eq!(state.selected, 0);
    state.select_previous();
    assert_eq!(state.selected, 1);

    assert!(completion_for("playlist delete 去", &own).is_some());
    assert!(completion_for("playlist create 去", &own).is_none());
    assert!(completion_for("collect 不存在", &own).is_none());
    assert_eq!(completion_for("uncollect ", &own).unwrap().candidates.len(), 2);
}

#[test]
fn the_player_routes_commands_by_screen() {
    assert_eq!(app_event(&Command::DownloadPlaylist, ScreenEnum::Daily), AppEvent::DownloadPlaylist(PlaylistSource::LoadedDay));
    assert_eq!(app_event(&Command::DownloadPlaylist, ScreenEnum::Help), AppEvent::DownloadPlaylist(PlaylistSource::Unsupported));
    assert_eq!(app_event(&Command::DownloadSong, ScreenEnum::Settings), AppEvent::DownloadSong { from_screen: false });
    assert_eq!(app_event(&Command::Delete, ScreenEnum::Main), AppEvent::RemoveCursorSong);
    assert_eq!(app_event(&Command::Delete, ScreenEnum::Songlists), AppEvent::Nothing);
    assert_eq!(app_event(&Command::NewOrCollect, ScreenEnum::Songlists), AppEvent::NewOrCollect(true));
    assert_eq!(app_event(&Command::NewOrCollect, ScreenEnum::Daily), AppEvent::NewOrCollect(false));
    assert_eq!(app_event(&Command::NewOrCollect, ScreenEnum::Help), AppEvent::Nothing);
    assert_eq!(app_event(&Command::GotoScreen(ScreenEnum::Login), ScreenEnum::Main), AppEvent::SwitchScreen(ScreenEnum::Login));
    assert!(forwards_to_screen(&Command::Delete));
    assert!(forwards_to_screen(&Command::SongRemovalDone { songlist_id: 1, song_id: 2 }));
    assert!(!forwards_to_screen(&Command::Quit));
    assert_eq!(login_refusal_message(Some("小明")), "正在使用`小明`账号，请先使用`logout`命令登出当前账号");
    assert_eq!(login_refusal_message(None), "请先使用`logout`命令登出当前账号");
}
