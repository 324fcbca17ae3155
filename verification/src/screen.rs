//! The focus machine of the two-panel screens (songlists and daily recommendations): a list
//! panel on the left, the songs of the chosen list on the right.
use vstd::prelude::*;
use crate::command::Command;
use crate::panel::PanelFocusedStatus;

verus! {

/// Which panel of a two-panel screen has the focus, and whether it is on the panel as a whole
/// or inside it.
#[derive(Clone, Copy, PartialEq, Eq, Structural, Debug)]
pub enum FocusPanel {
    ListsOutside,
    ListsInside,
    ContentOutside,
    ContentInside,
}

/// The two-panel screens.
#[derive(Clone, Copy, PartialEq, Eq, Structural, Debug)]
pub enum ScreenKind {
    /// The user's songlists, and the songs of the loaded one.
    Songlists,
    /// The days of the daily recommendation window, and the songs of the loaded day.
    Daily,
}

/// What a two-panel screen does with a command, besides moving the focus.
#[derive(Clone, Copy, PartialEq, Eq, Structural, Debug)]
pub enum ScreenAction {
    /// Nothing but the focus change.
    Focus,
    /// The command goes to the list panel.
    ToLists,
    /// The command goes to the content panel.
    ToContent,
    /// The list under the cursor is loaded into the content panel.
    LoadSelected,
    /// The loaded list becomes the playlist and plays from the song under the cursor (the
    /// command then goes to the content panel); the main screen is shown again.
    PlayFromSelectedSong,
    /// The list under the cursor becomes the playlist and starts playing (a day is loaded
    /// first); the main screen is shown again.
    PlaySelectedList,
    /// The deletion of the songlist under the cursor is asked for.
    DeleteSelectedList,
    /// The removal of the song under the cursor from the loaded songlist is asked for.
    RemoveSelectedSong,
    /// A song whose removal was confirmed and done is dropped from the loaded songlist.
    DropRemovedSong,
    /// The user is told that daily lists cannot be deleted.
    RefuseDelete,
    /// The screen does not take the command.
    Unhandled,
}

/// The focus after a command, and what else the screen does.
#[derive(Clone, Copy, PartialEq, Eq, Structural, Debug)]
pub struct ScreenStep {
    pub focus: FocusPanel,
    pub action: ScreenAction,
}

/// The focus statuses of the list panel and of the content panel.
pub open spec fn spec_panel_statuses(focus: FocusPanel) -> (PanelFocusedStatus, PanelFocusedStatus) {
    match focus {
        FocusPanel::ListsOutside => (PanelFocusedStatus::Outside, PanelFocusedStatus::Nop),
        FocusPanel::ListsInside => (PanelFocusedStatus::Inside, PanelFocusedStatus::Nop),
        FocusPanel::ContentOutside => (PanelFocusedStatus::Nop, PanelFocusedStatus::Outside),
        FocusPanel::ContentInside => (PanelFocusedStatus::Nop, PanelFocusedStatus::Inside),
    }
}

/// The focus statuses the screen gives its list panel and its content panel.
pub fn panel_statuses(focus: FocusPanel) -> (r: (PanelFocusedStatus, PanelFocusedStatus))
    ensures
        r == spec_panel_statuses(focus),
{
    match focus {
        FocusPanel::ListsOutside => (PanelFocusedStatus::Outside, PanelFocusedStatus::Nop),
        FocusPanel::ListsInside => (PanelFocusedStatus::Inside, PanelFocusedStatus::Nop),
        FocusPanel::ContentOutside => (PanelFocusedStatus::Nop, PanelFocusedStatus::Outside),
        FocusPanel::ContentInside => (PanelFocusedStatus::Nop, PanelFocusedStatus::Inside),
    }
}

/// Whether the focus is on the list panel.
pub open spec fn on_lists(focus: FocusPanel) -> bool {
    focus is ListsOutside || focus is ListsInside
}

/// A step that keeps the focus.
pub open spec fn stay(focus: FocusPanel, action: ScreenAction) -> ScreenStep {
    ScreenStep { focus, action }
}

/// A step that only moves the focus.
pub open spec fn move_to(focus: FocusPanel) -> ScreenStep {
    ScreenStep { focus, action: ScreenAction::Focus }
}

/// The transition table of the two-panel screens.
pub open spec fn spec_screen_step(kind: ScreenKind, focus: FocusPanel, cmd: Command) -> ScreenStep {
    match (cmd, focus) {
        (Command::Esc, FocusPanel::ListsInside) => move_to(FocusPanel::ListsOutside),
        (Command::Esc, FocusPanel::ContentInside) => move_to(FocusPanel::ContentOutside),
        (Command::Down, FocusPanel::ListsOutside) | (Command::Up, FocusPanel::ListsOutside) => move_to(
            FocusPanel::ListsInside,
        ),
        (Command::Down, FocusPanel::ContentOutside) | (Command::Up, FocusPanel::ContentOutside) => move_to(
            FocusPanel::ContentInside,
        ),
        (Command::Down, FocusPanel::ListsInside) | (Command::Up, FocusPanel::ListsInside) => stay(
            focus,
            ScreenAction::ToLists,
        ),
        (Command::Down, FocusPanel::ContentInside) | (Command::Up, FocusPanel::ContentInside) => stay(
            focus,
            ScreenAction::ToContent,
        ),
        (Command::NextPanel, FocusPanel::ListsOutside) => move_to(FocusPanel::ContentOutside),
        (Command::NextPanel, FocusPanel::ListsInside) => move_to(FocusPanel::ContentInside),
        (Command::PrevPanel, FocusPanel::ContentOutside) => move_to(FocusPanel::ListsOutside),
        (Command::PrevPanel, FocusPanel::ContentInside) => move_to(FocusPanel::ListsInside),
        (Command::EnterOrPlay, FocusPanel::ListsOutside) => move_to(FocusPanel::ListsInside),
        (Command::EnterOrPlay, FocusPanel::ContentOutside) => move_to(FocusPanel::ContentInside),
        (Command::EnterOrPlay, FocusPanel::ListsInside) => stay(focus, ScreenAction::LoadSelected),
        (Command::EnterOrPlay, FocusPanel::ContentInside) | (Command::Play, FocusPanel::ContentInside) => stay(
            focus,
            ScreenAction::PlayFromSelectedSong,
        ),
        (Command::Play, FocusPanel::ListsInside) => stay(focus, ScreenAction::PlaySelectedList),
        (Command::GoToTop, _) | (Command::GoToBottom, _) | (Command::SearchForward(_), _) | (
            Command::SearchBackward(_),
            _,
        ) => if on_lists(focus) {
            stay(focus, ScreenAction::ToLists)
        } else {
            stay(FocusPanel::ContentInside, ScreenAction::ToContent)
        },
        (Command::Delete, _) => match kind {
            ScreenKind::Daily => stay(focus, ScreenAction::RefuseDelete),
            ScreenKind::Songlists => match focus {
                FocusPanel::ListsInside => stay(focus, ScreenAction::DeleteSelectedList),
                FocusPanel::ContentInside => stay(focus, ScreenAction::RemoveSelectedSong),
                _ => stay(focus, ScreenAction::Unhandled),
            },
        },
        (Command::SongRemovalDone { .. }, _) => match kind {
            ScreenKind::Songlists => stay(focus, ScreenAction::DropRemovedSong),
            ScreenKind::Daily => stay(focus, ScreenAction::Unhandled),
        },
        (Command::RefreshPlaylist, _) => match kind {
            ScreenKind::Songlists => stay(focus, ScreenAction::ToLists),
            ScreenKind::Daily => stay(focus, ScreenAction::Unhandled),
        },
        (Command::ToggleSonglistView, _) | (Command::TogglePinSonglist, _) | (
            Command::MovePinnedSonglistUp,
            _,
        ) | (Command::MovePinnedSonglistDown, _) => if kind is Songlists && on_lists(focus) {
            stay(focus, ScreenAction::ToLists)
        } else {
            stay(focus, ScreenAction::Unhandled)
        },
        _ => stay(focus, ScreenAction::Unhandled),
    }
}

/// The focus after `cmd` and what the screen does with it.
pub fn screen_step(kind: ScreenKind, focus: FocusPanel, cmd: &Command) -> (r: ScreenStep)
    ensures
        r == spec_screen_step(kind, focus, *cmd),
{
    let lists = match focus {
        FocusPanel::ListsOutside | FocusPanel::ListsInside => true,
        _ => false,
    };
    match (cmd, focus) {
        (Command::Esc, FocusPanel::ListsInside) => ScreenStep {
            focus: FocusPanel::ListsOutside,
            action: ScreenAction::Focus,
        },
        (Command::Esc, FocusPanel::ContentInside) => ScreenStep {
            focus: FocusPanel::ContentOutside,
            action: ScreenAction::Focus,
        },
        (Command::Down, FocusPanel::ListsOutside) | (Command::Up, FocusPanel::ListsOutside) => ScreenStep {
            focus: FocusPanel::ListsInside,
            action: ScreenAction::Focus,
        },
        (Command::Down, FocusPanel::ContentOutside) | (Command::Up, FocusPanel::ContentOutside) => ScreenStep {
            focus: FocusPanel::ContentInside,
            action: ScreenAction::Focus,
        },
        (Command::Down, FocusPanel::ListsInside) | (Command::Up, FocusPanel::ListsInside) => ScreenStep {
            focus,
            action: ScreenAction::ToLists,
        },
        (Command::Down, FocusPanel::ContentInside) | (Command::Up, FocusPanel::ContentInside) => ScreenStep {
            focus,
            action: ScreenAction::ToContent,
        },
        (Command::NextPanel, FocusPanel::ListsOutside) => ScreenStep {
            focus: FocusPanel::ContentOutside,
            action: ScreenAction::Focus,
        },
        (Command::NextPanel, FocusPanel::ListsInside) => ScreenStep {
            focus: FocusPanel::ContentInside,
            action: ScreenAction::Focus,
        },
        (Command::PrevPanel, FocusPanel::ContentOutside) => ScreenStep {
            focus: FocusPanel::ListsOutside,
            action: ScreenAction::Focus,
        },
        (Command::PrevPanel, FocusPanel::ContentInside) => ScreenStep {
            focus: FocusPanel::ListsInside,
            action: ScreenAction::Focus,
        },
        (Command::EnterOrPlay, FocusPanel::ListsOutside) => ScreenStep {
            focus: FocusPanel::ListsInside,
            action: ScreenAction::Focus,
        },
        (Command::EnterOrPlay, FocusPanel::ContentOutside) => ScreenStep {
            focus: FocusPanel::ContentInside,
            action: ScreenAction::Focus,
        },
        (Command::EnterOrPlay, FocusPanel::ListsInside) => ScreenStep {
            focus,
            action: ScreenAction::LoadSelected,
        },
        (Command::EnterOrPlay, FocusPanel::ContentInside) | (Command::Play, FocusPanel::ContentInside) => ScreenStep {
            focus,
            action: ScreenAction::PlayFromSelectedSong,
        },
        (Command::Play, FocusPanel::ListsInside) => ScreenStep {
            focus,
            action: ScreenAction::PlaySelectedList,
        },
        (Command::GoToTop, _) | (Command::GoToBottom, _) | (Command::SearchForward(_), _) | (
            Command::SearchBackward(_),
            _,
        ) => if lists {
            ScreenStep { focus, action: ScreenAction::ToLists }
        } else {
            ScreenStep { focus: FocusPanel::ContentInside, action: ScreenAction::ToContent }
        },
        (Command::Delete, _) => match kind {
            ScreenKind::Daily => ScreenStep { focus, action: ScreenAction::RefuseDelete },
            ScreenKind::Songlists => match focus {
                FocusPanel::ListsInside => ScreenStep {
                    focus,
                    action: ScreenAction::DeleteSelectedList,
                },
                FocusPanel::ContentInside => ScreenStep {
                    focus,
                    action: ScreenAction::RemoveSelectedSong,
                },
                _ => ScreenStep { focus, action: ScreenAction::Unhandled },
            },
        },
        (Command::SongRemovalDone { .. }, _) => match kind {
            ScreenKind::Songlists => ScreenStep { focus, action: ScreenAction::DropRemovedSong },
            ScreenKind::Daily => ScreenStep { focus, action: ScreenAction::Unhandled },
        },
        (Command::RefreshPlaylist, _) => match kind {
            ScreenKind::Songlists => ScreenStep { focus, action: ScreenAction::ToLists },
            ScreenKind::Daily => ScreenStep { focus, action: ScreenAction::Unhandled },
        },
        (Command::ToggleSonglistView, _) | (Command::TogglePinSonglist, _) | (
            Command::MovePinnedSonglistUp,
            _,
        ) | (Command::MovePinnedSonglistDown, _) => match kind {
            ScreenKind::Songlists => if lists {
                ScreenStep { focus, action: ScreenAction::ToLists }
            } else {
                ScreenStep { focus, action: ScreenAction::Unhandled }
            },
            ScreenKind::Daily => ScreenStep { focus, action: ScreenAction::Unhandled },
        },
        _ => ScreenStep { focus, action: ScreenAction::Unhandled },
    }
}

/// Exactly one panel of a two-panel screen has the focus, and it has it inside exactly when
/// the screen's focus is inside.
pub proof fn lemma_one_panel_focused(focus: FocusPanel)
    ensures
        ({
            let (lists, content) = spec_panel_statuses(focus);
            &&& (lists is Nop) != (content is Nop)
            &&& (lists is Nop) == !on_lists(focus)
            &&& (lists is Inside || content is Inside) == (focus is ListsInside
                || focus is ContentInside)
        }),
{
}

/// `Esc` inside a panel leaves it for the panel as a whole; elsewhere the screen does not take
/// it.
pub proof fn lemma_esc_leaves_panel(kind: ScreenKind, focus: FocusPanel)
    ensures
        focus is ListsInside ==> spec_screen_step(kind, focus, Command::Esc) == move_to(
            FocusPanel::ListsOutside,
        ),
        focus is ContentInside ==> spec_screen_step(kind, focus, Command::Esc) == move_to(
            FocusPanel::ContentOutside,
        ),
        !(focus is ListsInside || focus is ContentInside) ==> spec_screen_step(
            kind,
            focus,
            Command::Esc,
        ) == stay(focus, ScreenAction::Unhandled),
{
}

/// `NextPanel` from the list panel and `PrevPanel` back return to where the focus was, inside
/// or outside alike, and so do `PrevPanel` then `NextPanel` from the content panel.
pub proof fn lemma_switch_panels_round_trip(kind: ScreenKind, focus: FocusPanel)
    ensures
        on_lists(focus) ==> spec_screen_step(
            kind,
            spec_screen_step(kind, focus, Command::NextPanel).focus,
            Command::PrevPanel,
        ).focus == focus,
        !on_lists(focus) ==> spec_screen_step(
            kind,
            spec_screen_step(kind, focus, Command::PrevPanel).focus,
            Command::NextPanel,
        ).focus == focus,
        on_lists(focus) ==> !on_lists(spec_screen_step(kind, focus, Command::NextPanel).focus),
{
}

/// A command the screen does not take leaves the focus where it was.
pub proof fn lemma_unhandled_keeps_focus(kind: ScreenKind, focus: FocusPanel, cmd: Command)
    ensures
        spec_screen_step(kind, focus, cmd).action is Unhandled ==> spec_screen_step(
            kind,
            focus,
            cmd,
        ).focus == focus,
{
}

/// On the songlists screen, with the focus on the list panel, the view switch and the pin
/// commands go to the list panel and the focus stays; elsewhere the screen does not take them.
pub proof fn lemma_pin_commands_reach_lists(kind: ScreenKind, focus: FocusPanel, cmd: Command)
    requires
        cmd is ToggleSonglistView || cmd is TogglePinSonglist || cmd is MovePinnedSonglistUp
            || cmd is MovePinnedSonglistDown,
    ensures
        kind is Songlists && on_lists(focus) ==> spec_screen_step(kind, focus, cmd) == stay(
            focus,
            ScreenAction::ToLists,
        ),
        !(kind is Songlists && on_lists(focus)) ==> spec_screen_step(kind, focus, cmd) == stay(
            focus,
            ScreenAction::Unhandled,
        ),
{
}

} // verus!
