use ncm_tui::command::Command;
use ncm_tui::paths::{app_dir, Path};
use ncm_tui::settings::Settings;
use ncm_tui::settings_screen::{cursor_parts, group_header, item_kind, item_label, item_line, FormOutcome, ItemKind, SettingsScreen};

#[test]
fn renders_reversed_cursor_at_edit_position() {
    let (before, cursor, after) = cursor_parts("/abc", 2);
    assert_eq!(before, "/a");
    assert_eq!(cursor, 'b');
    assert_eq!(after, "c");
    let (before, cursor, after) = cursor_parts("/abc", 4);
    assert_eq!((before.as_str(), cursor, after.as_str()), ("/abc", ' ', ""));
}

#[test]
fn lays_out_entries_in_groups() {
    assert_eq!(group_header(0), "API");
    assert_eq!(group_header(2), "播放");
    assert_eq!(group_header(6), "下载");
    assert_eq!((0..7).map(item_line).collect::<Vec<_>>(), vec![1, 2, 4, 6, 7, 8, 9]);
    assert_eq!(item_label(3), "下载目录");
    assert_eq!(item_kind(0), ItemKind::Bool);
    assert_eq!(item_kind(4), ItemKind::Quality);
    assert_eq!(item_kind(5), ItemKind::Text);
}

#[test]
fn settings_screen_cycles_and_edits() {
    let mut form = SettingsScreen::new(Settings::default());
    assert_eq!(form.value(0), "关");
    assert_eq!(form.value(2), "Hi-Res");
    assert!(matches!(form.handle_event(&Command::EnterOrPlay), FormOutcome::Apply));
    assert!(form.settings.use_remote_api);
    assert!(matches!(form.handle_event(&Command::Up), FormOutcome::Handled));
    assert_eq!(form.selected, 6);
    assert!(matches!(form.handle_event(&Command::Down), FormOutcome::Handled));
    assert_eq!(form.selected, 0);

    form.handle_event(&Command::Down);
    form.handle_event(&Command::Down);
    assert!(matches!(form.handle_event(&Command::PrevPanel), FormOutcome::Apply));
    assert_eq!(form.settings.play_quality, "lossless");
    assert!(matches!(form.handle_event(&Command::NextPanel), FormOutcome::Apply));
    assert_eq!(form.settings.play_quality, "hires");

    form.handle_event(&Command::Down);
    assert!(matches!(form.handle_event(&Command::NextPanel), FormOutcome::Unhandled));
    match form.handle_event(&Command::EnterOrPlay) {
        FormOutcome::StartEdit(text) => assert_eq!(text, ""),
        other => panic!("unexpected {:?}", other),
    }
    assert!(form.is_editing());
    assert_eq!(form.status, "编辑中：Enter 确认，Esc 取消");
    assert!(matches!(form.handle_event(&Command::Down), FormOutcome::Unhandled));
    assert!(form.commit_edit(String::from("/music")));
    assert_eq!(form.settings.download_path, "/music");
    assert!(!form.commit_edit(String::from("x")));

    form.handle_event(&Command::EnterOrPlay);
    form.cancel_edit();
    assert!(!form.is_editing());
    assert_eq!(form.status, "已取消编辑");

    form.finish_apply(true, false);
    assert_eq!(form.status, "已保存，但 API 连接失败，请检查配置");
    form.finish_apply(false, false);
    assert_eq!(form.status, "已保存");

    let fresh = Settings::default();
    assert!(form.update_model(fresh));
    assert!(!form.update_model(Settings::default()));
}

#[test]
fn switch_entry_is_on_only_for_on() {
    let mut form = SettingsScreen::new(Settings::default());
    form.set_value(0, String::from("开"));
    assert!(form.settings.use_remote_api);
    form.set_value(0, String::from("on"));
    assert!(!form.settings.use_remote_api);
}

#[test]
fn paths_live_under_their_roots() {
    let paths = Path::from_roots(String::from("/d/app"), String::from("/c/app"), String::from("/k/app"));
    assert!(paths.settings.starts_with("/c/app") && paths.settings.ends_with("settings.json"));
    assert!(paths.downloads.starts_with("/d/app") && paths.downloads.ends_with("downloads"));
    assert!(paths.daily_recommend.starts_with("/k/app") && paths.daily_recommend.ends_with("daily_recommend"));
    assert!(paths.legacy_settings().starts_with("/d/app"));
    assert!(app_dir("/home/u/.config").ends_with("ncm-tui-player"));
}
