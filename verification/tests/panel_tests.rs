use ncm_tui::command::Command;
use ncm_tui::daily_panel::DailyListsPanel;
use ncm_tui::help::{help_page, page_offset, HelpPanel, HelpScreen};
use ncm_tui::model::Songlist;
use ncm_tui::panel::{centered_offset, cursor_down, cursor_up, PanelFocusedStatus};
use ncm_tui::pins::{filtered_with_indices, move_pin, order_with_pins, toggle_pin, SonglistView};
use ncm_tui::screen::{panel_statuses, screen_step, FocusPanel, ScreenAction, ScreenKind};
use ncm_tui::songlists_panel::SonglistsPanel;

fn songlist(id: u64, subscribed: bool) -> Songlist {
    Songlist {
        name: format!("songlist{}", id),
        id,
        songs_count: 0,
        creator: String::new(),
        subscribed,
        special_type: 0,
        songs: Vec::new(),
    }
}

#[test]
fn centers_selection_except_near_boundaries() {
    assert_eq!(centered_offset(2, 20, 7), 0);
    assert_eq!(centered_offset(10, 20, 7), 7);
    assert_eq!(centered_offset(18, 20, 7), 13);
    assert_eq!(centered_offset(3, 5, 7), 0);
    assert_eq!(centered_offset(10, 20, 9), 6);
    assert_eq!(centered_offset(5, 20, 8), 1);
}

#[test]
fn centered_window_always_shows_the_cursor() {
    for rows in 1..30usize {
        for visible in 1..12usize {
            for selected in 0..rows {
                let offset = centered_offset(selected, rows, visible);
                assert!(offset <= selected && selected < offset + visible);
                if rows >= visible {
                    assert!(offset + visible <= rows);
                }
            }
        }
    }
}

#[test]
fn filters_by_view_and_keeps_original_indices() {
    let songlists = vec![songlist(1, false), songlist(2, true), songlist(3, false), songlist(4, true)];

    let created = filtered_with_indices(&songlists, SonglistView::Created);
    assert_eq!(created.iter().map(|(i, s)| (*i, s.id)).collect::<Vec<_>>(), vec![(0, 1), (2, 3)]);

    let subscribed = filtered_with_indices(&songlists, SonglistView::Subscribed);
    assert_eq!(subscribed.iter().map(|(i, s)| (*i, s.id)).collect::<Vec<_>>(), vec![(1, 2), (3, 4)]);
}

#[test]
fn orders_pinned_first_in_pin_order_and_skips_stale_ids() {
    let songlists = vec![songlist(1, false), songlist(2, false), songlist(3, false), songlist(4, false)];
    let filtered = filtered_with_indices(&songlists, SonglistView::Created);

    let ordered = order_with_pins(filtered, &vec![3, 1, 999]);
    assert_eq!(ordered.iter().map(|(_, s)| s.id).collect::<Vec<_>>(), vec![3, 1, 2, 4]);
    assert_eq!(ordered.iter().map(|(i, _)| *i).collect::<Vec<_>>(), vec![2, 0, 1, 3]);
}

#[test]
fn toggle_pin_adds_and_removes() {
    let mut pinned = vec![];
    toggle_pin(&mut pinned, 1);
    toggle_pin(&mut pinned, 2);
    assert_eq!(pinned, vec![1, 2]);
    toggle_pin(&mut pinned, 1);
    assert_eq!(pinned, vec![2]);
}

#[test]
fn toggling_twice_restores_the_pins() {
    let mut pinned = vec![5, 9];
    toggle_pin(&mut pinned, 7);
    toggle_pin(&mut pinned, 7);
    assert_eq!(pinned, vec![5, 9]);
}

#[test]
fn move_pin_swaps_and_rejects_boundaries() {
    let mut pinned = vec![1, 2, 3];
    assert!(move_pin(&mut pinned, 2, true));
    assert_eq!(pinned, vec![2, 1, 3]);
    assert!(move_pin(&mut pinned, 2, false));
    assert_eq!(pinned, vec![1, 2, 3]);
    assert!(!move_pin(&mut pinned, 1, true));
    assert!(!move_pin(&mut pinned, 3, false));
    assert!(!move_pin(&mut pinned, 999, true));
}

#[test]
fn toggle_switches_view_and_clears_cache() {
    let mut panel = SonglistsPanel::new(PanelFocusedStatus::Nop);
    panel.rows.push(String::from("x"));
    let mut pins = Vec::new();

    assert!(panel.handle_event(&Command::ToggleSonglistView, &mut pins));
    assert!(panel.view == SonglistView::Subscribed);
    assert!(panel.rows.is_empty());

    panel.handle_event(&Command::ToggleSonglistView, &mut pins);
    assert!(panel.view == SonglistView::Created);
}

#[test]
fn songlist_panel_rebuilds_with_pins_and_follows_the_pinned_songlist() {
    let all = vec![songlist(1, false), songlist(2, true), songlist(3, false), songlist(4, false)];
    let mut panel = SonglistsPanel::new(PanelFocusedStatus::Inside);
    let mut pins: Vec<u64> = Vec::new();
    assert!(panel.needs_rows());
    panel.rebuild_rows(&all, Some(String::from("me")), &pins);
    assert!(panel.ensure_selection());
    assert_eq!(panel.rows, vec!["songlist1", "songlist3", "songlist4"]);
    assert_eq!(panel.original_indices, vec![0, 2, 3]);
    assert_eq!(panel.username, "me");

    panel.handle_event(&Command::Down, &mut pins);
    panel.handle_event(&Command::Down, &mut pins);
    assert_eq!(panel.get_selected_songlist().unwrap().id, 4);
    assert_eq!(panel.get_selected_songlist_index(), Some(3));

    assert!(panel.handle_event(&Command::TogglePinSonglist, &mut pins));
    assert_eq!(pins, vec![4]);
    assert!(panel.needs_rows());
    panel.rebuild_rows(&all, None, &pins);
    assert_eq!(panel.rows, vec!["↑ songlist4", "songlist1", "songlist3"]);
    assert_eq!(panel.selected, Some(0));
    assert_eq!(panel.pending_select_id, None);

    assert!(panel.handle_event(&Command::MovePinnedSonglistUp, &mut pins));
    assert_eq!(pins, vec![4]);
    assert!(!panel.needs_rows());
    panel.handle_event(&Command::GoToBottom, &mut pins);
    assert_eq!(panel.selected, Some(2));
    panel.handle_event(&Command::Down, &mut pins);
    assert_eq!(panel.selected, Some(2));
    panel.handle_event(&Command::GoToTop, &mut pins);
    panel.handle_event(&Command::Up, &mut pins);
    assert_eq!(panel.selected, Some(0));
}

#[test]
fn daily_panel_loads_and_moves() {
    let mut panel = DailyListsPanel::new(PanelFocusedStatus::Outside);
    assert!(panel.needs_dates());
    assert!(!panel.ensure_selection());
    panel.load_dates(vec![739266, 739265, 739264]);
    assert!(panel.ensure_selection());
    assert_eq!(panel.get_selected_date(), Some(739266));
    assert!(panel.handle_event(&Command::GoToBottom));
    assert_eq!(panel.get_selected_date(), Some(739264));
    panel.handle_event(&Command::Down);
    assert_eq!(panel.selected, Some(2));
    panel.handle_event(&Command::Up);
    assert_eq!(panel.get_selected_date(), Some(739265));
    panel.handle_event(&Command::GoToTop);
    assert_eq!(panel.selected, Some(0));
}

#[test]
fn cursor_moves_like_the_table_state() {
    assert_eq!(cursor_down(Some(3), 5), Some(4));
    assert_eq!(cursor_down(Some(4), 5), Some(4));
    assert_eq!(cursor_down(None, 5), None);
    assert_eq!(cursor_up(Some(0)), Some(0));
    assert_eq!(cursor_up(Some(4)), Some(3));
    assert_eq!(cursor_up(None), Some(usize::MAX));
}

#[test]
fn daily_screen_switches_panels_while_inside() {
    let step = screen_step(ScreenKind::Daily, FocusPanel::ListsInside, &Command::NextPanel);
    assert_eq!(step.focus, FocusPanel::ContentInside);
    assert_eq!(panel_statuses(step.focus).1, PanelFocusedStatus::Inside);

    let step = screen_step(ScreenKind::Daily, step.focus, &Command::PrevPanel);
    assert_eq!(step.focus, FocusPanel::ListsInside);
    assert_eq!(panel_statuses(step.focus).0, PanelFocusedStatus::Inside);
}

#[test]
fn songlists_screen_switches_panels_while_inside() {
    let step = screen_step(ScreenKind::Songlists, FocusPanel::ListsInside, &Command::NextPanel);
    assert_eq!(step.focus, FocusPanel::ContentInside);
    assert_eq!(panel_statuses(step.focus).1, PanelFocusedStatus::Inside);

    let step = screen_step(ScreenKind::Songlists, step.focus, &Command::PrevPanel);
    assert_eq!(step.focus, FocusPanel::ListsInside);
    assert_eq!(panel_statuses(step.focus).0, PanelFocusedStatus::Inside);
}

#[test]
fn screens_route_commands_by_focus() {
    let s = ScreenKind::Songlists;
    assert_eq!(screen_step(s, FocusPanel::ListsOutside, &Command::Down).focus, FocusPanel::ListsInside);
    assert_eq!(screen_step(s, FocusPanel::ListsInside, &Command::Esc).focus, FocusPanel::ListsOutside);
    assert_eq!(screen_step(s, FocusPanel::ListsInside, &Command::EnterOrPlay).action, ScreenAction::LoadSelected);
    assert_eq!(screen_step(s, FocusPanel::ContentInside, &Command::Play).action, ScreenAction::PlayFromSelectedSong);
    assert_eq!(screen_step(s, FocusPanel::ListsInside, &Command::Play).action, ScreenAction::PlaySelectedList);
    let step = screen_step(s, FocusPanel::ContentOutside, &Command::GoToBottom);
    assert_eq!((step.focus, step.action), (FocusPanel::ContentInside, ScreenAction::ToContent));
    assert_eq!(screen_step(s, FocusPanel::ListsInside, &Command::Delete).action, ScreenAction::DeleteSelectedList);
    assert_eq!(screen_step(s, FocusPanel::ContentInside, &Command::Delete).action, ScreenAction::RemoveSelectedSong);
    assert_eq!(screen_step(s, FocusPanel::ListsOutside, &Command::Delete).action, ScreenAction::Unhandled);
    let done = Command::SongRemovalDone { songlist_id: 1, song_id: 2 };
    assert_eq!(screen_step(s, FocusPanel::ContentInside, &done).action, ScreenAction::DropRemovedSong);
    assert_eq!(screen_step(ScreenKind::Daily, FocusPanel::ListsOutside, &Command::Delete).action, ScreenAction::RefuseDelete);
    assert_eq!(screen_step(ScreenKind::Daily, FocusPanel::ListsOutside, &Command::RefreshPlaylist).action, ScreenAction::Unhandled);
    assert_eq!(screen_step(s, FocusPanel::ContentOutside, &Command::Quit).action, ScreenAction::Unhandled);
}

#[test]
fn scroll_overshoot_does_not_panic_and_focus_toggles() {
    let mut screen = HelpScreen::new();
    assert_eq!(screen.focus, HelpPanel::Normal);

    for _ in 0..100 {
        screen.handle_event(&Command::Down);
    }
    for _ in 0..200 {
        screen.handle_event(&Command::Up);
    }
    assert_eq!(screen.normal_scroll, 0);

    screen.handle_event(&Command::NextPanel);
    assert_eq!(screen.focus, HelpPanel::CommandLine);
    screen.handle_event(&Command::Down);
    assert_eq!(screen.cmdline_scroll, 1);
    screen.handle_event(&Command::PrevPanel);
    assert_eq!(screen.focus, HelpPanel::Normal);
}

#[test]
fn help_pages_stop_at_their_last_line() {
    assert_eq!(page_offset(100, 31, 20), (11, 11));
    assert_eq!(page_offset(5, 31, 20), (5, 11));
    assert_eq!(page_offset(5, 10, 20), (0, 0));
    let mut screen = HelpScreen::new();
    assert!(!screen.handle_event(&Command::Quit));
}

#[test]
fn help_pages_align_keys_at_one_column() {
    let normal = help_page(HelpPanel::Normal);
    assert_eq!(normal.len(), 23);
    assert_eq!(normal[0], format!("{:<40}{}", "Up:", "↑ / k"));
    assert_eq!(normal[2], "Play/Pause:                             \u{2423} (Space)");
    assert_eq!(normal[22], "Quit:                                   q");
    let commands = help_page(HelpPanel::CommandLine);
    assert_eq!(commands.len(), 31);
    assert_eq!(commands[0], "Quit:                                   q / quit / exit");
    assert_eq!(commands[2], "|_                                      screen help / main / playlists");
    assert_eq!(commands[30], "Search Backward:                        ? xxx");
}

#[test]
fn pin_and_view_keys_reach_the_songlist_panel() {
    for cmd in [Command::ToggleSonglistView, Command::TogglePinSonglist, Command::MovePinnedSonglistUp, Command::MovePinnedSonglistDown] {
        assert!(ncm_tui::control::forwards_to_screen(&cmd));
        let inside = screen_step(ScreenKind::Songlists, FocusPanel::ListsInside, &cmd);
        assert_eq!(inside.action, ScreenAction::ToLists);
        assert_eq!(inside.focus, FocusPanel::ListsInside);
        assert_eq!(screen_step(ScreenKind::Songlists, FocusPanel::ListsOutside, &cmd).action, ScreenAction::ToLists);
        assert_eq!(screen_step(ScreenKind::Songlists, FocusPanel::ContentInside, &cmd).action, ScreenAction::Unhandled);
        assert_eq!(screen_step(ScreenKind::Daily, FocusPanel::ListsInside, &cmd).action, ScreenAction::Unhandled);
    }
}

#[test]
fn songlist_panel_update_builds_once_and_follows_a_new_pin() {
    let all = vec![songlist(1, false), songlist(2, true), songlist(3, false)];
    let mut panel = SonglistsPanel::new(PanelFocusedStatus::Inside);
    let mut pins: Vec<u64> = Vec::new();
    assert!(panel.update_model(&all, Some(String::from("me")), &pins));
    assert_eq!(panel.rows, vec!["songlist1", "songlist3"]);
    assert_eq!(panel.selected, Some(0));
    assert!(!panel.update_model(&all, None, &pins));
    panel.handle_event(&Command::Down, &mut pins);
    assert!(panel.handle_event(&Command::TogglePinSonglist, &mut pins));
    assert!(panel.update_model(&all, None, &pins));
    assert_eq!(panel.rows, vec!["↑ songlist3", "songlist1"]);
    assert_eq!(panel.selected, Some(0));
    assert_eq!(panel.get_selected_songlist_index(), Some(2));
    assert_eq!(panel.username, "me");
}
