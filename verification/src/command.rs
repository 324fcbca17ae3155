//! The player's commands and the parser of the command line.
use vstd::prelude::*;
use crate::float_text::{is_float_chars, is_float_text};
use crate::text::{
    char_views, chars_eq_str, chars_of, is_ws, push_str, slice_chars, split_words, string_of,
    strings_of, trim, trim_chars, views, words,
};

verus! {

/// The screens of the player.
#[derive(Clone, Copy, PartialEq, Eq, Structural, Debug)]
pub enum ScreenEnum {
    Launch,
    Main,
    Songlists,
    Daily,
    Settings,
    Help,
    Login,
}

/// How the player continues after a song ends.
#[derive(Clone, Copy, PartialEq, Eq, Structural, Debug)]
pub enum PlayMode {
    Single,
    SingleRepeat,
    ListRepeat,
    Shuffle,
}

/// A command of the player, typed on the command line, bound to a key, or raised by the
/// player itself.
#[derive(Clone, Debug)]
pub enum Command {
    Quit,
    GotoScreen(ScreenEnum),
    EnterCommand,
    Logout,
    PlayOrPause,
    /// Sets the volume to the given percentage, as typed (a text `f64::from_str` accepts).
    SetVolume(String),
    VolumeUp,
    VolumeDown,
    SwitchPlayMode(PlayMode),
    StartPlay,
    NextSong,
    PrevSong,
    /// Likes or unlikes the song under the cursor; `None` toggles.
    SetSongLiked(Option<bool>),
    SearchForward(Vec<String>),
    SearchBackward(Vec<String>),
    RefreshPlaylist,
    DownloadSong,
    DownloadPlaylist,
    DownloadFinished(String),
    /// Shows a message on the command line.
    ShowMessage(String),
    Down,
    Up,
    NextPanel,
    PrevPanel,
    Esc,
    /// Enters the selected menu, or plays when the selection is a song.
    EnterOrPlay,
    /// Plays the selection; a menu is started from its first song.
    Play,
    /// Collects the current song into the named songlist.
    CollectToSonglist(String),
    /// Removes the current song from the named songlist.
    UncollectFromSonglist(String),
    CreateSonglist(String),
    DeleteSonglistByName(String),
    ToggleSonglistView,
    TogglePinSonglist,
    MovePinnedSonglistUp,
    MovePinnedSonglistDown,
    /// `n`: collect on the main screen, new songlist on the songlist screen.
    NewOrCollect,
    /// `d`: delete or remove, as the focused panel means it.
    Delete,
    /// Asks to remove a song from a songlist (to be confirmed).
    RemoveSongFromSonglist { songlist_id: u64, songlist_name: String, song_id: u64, song_name: String },
    /// A removal was confirmed and done remotely; the screens drop the song locally.
    SongRemovalDone { songlist_id: u64, song_id: u64 },
    /// Removes the song under the cursor from the current playlist (to be confirmed).
    RemoveFromCurrentPlaylist,
    WhereIsThisSong,
    /// Moves the playlist cursor to the song now playing, keeping the panel focus.
    SyncPlaylistCursor,
    GoToTop,
    GoToBottom,
    Nop,
}

/// What the command line parser can produce, with texts as character sequences.
pub enum ParsedView {
    Quit,
    GotoScreen(ScreenEnum),
    Logout,
    SetVolume(Seq<char>),
    SwitchPlayMode(PlayMode),
    NextSong,
    PrevSong,
    SetSongLiked(bool),
    StartPlay,
    RemoveFromCurrentPlaylist,
    DownloadSong,
    DownloadPlaylist,
    CollectToSonglist(Seq<char>),
    UncollectFromSonglist(Seq<char>),
    CreateSonglist(Seq<char>),
    DeleteSonglistByName(Seq<char>),
    WhereIsThisSong,
    GoToTop,
    GoToBottom,
    SearchForward(Seq<Seq<char>>),
    SearchBackward(Seq<Seq<char>>),
    Nop,
    /// Any command the parser never produces.
    Other,
}

impl Command {
    /// The command as the parser's outcome.
    pub open spec fn parsed_view(&self) -> ParsedView {
        match self {
            Command::Quit => ParsedView::Quit,
            Command::GotoScreen(s) => ParsedView::GotoScreen(*s),
            Command::Logout => ParsedView::Logout,
            Command::SetVolume(v) => ParsedView::SetVolume(v@),
            Command::SwitchPlayMode(m) => ParsedView::SwitchPlayMode(*m),
            Command::NextSong => ParsedView::NextSong,
            Command::PrevSong => ParsedView::PrevSong,
            Command::SetSongLiked(Some(b)) => ParsedView::SetSongLiked(*b),
            Command::StartPlay => ParsedView::StartPlay,
            Command::RemoveFromCurrentPlaylist => ParsedView::RemoveFromCurrentPlaylist,
            Command::DownloadSong => ParsedView::DownloadSong,
            Command::DownloadPlaylist => ParsedView::DownloadPlaylist,
            Command::CollectToSonglist(n) => ParsedView::CollectToSonglist(n@),
            Command::UncollectFromSonglist(n) => ParsedView::UncollectFromSonglist(n@),
            Command::CreateSonglist(n) => ParsedView::CreateSonglist(n@),
            Command::DeleteSonglistByName(n) => ParsedView::DeleteSonglistByName(n@),
            Command::WhereIsThisSong => ParsedView::WhereIsThisSong,
            Command::GoToTop => ParsedView::GoToTop,
            Command::GoToBottom => ParsedView::GoToBottom,
            Command::SearchForward(k) => ParsedView::SearchForward(views(k@)),
            Command::SearchBackward(k) => ParsedView::SearchBackward(views(k@)),
            Command::Nop => ParsedView::Nop,
            _ => ParsedView::Other,
        }
    }
}

/// Why a command line could not be parsed.
#[derive(Clone, Debug)]
pub enum CommandError {
    InvalidScreen(String),
    MissingScreen,
    InvalidVolume,
    MissingVolume,
    InvalidPlayMode(String),
    MissingPlayMode,
    RemoveTooManyArguments,
    MissingDownloadTarget,
    InvalidDownloadTarget(String),
    DownloadTooManyArguments,
    MissingCollectName,
    MissingUncollectName,
    MissingCreateName,
    MissingDeleteName,
    InvalidPlaylistAction(String),
    MissingPlaylistAction,
    InvalidWhere(String),
    MissingWhere,
    InvalidCommand(String),
}

/// A parse error with its texts as character sequences.
pub enum ErrorView {
    InvalidScreen(Seq<char>),
    MissingScreen,
    InvalidVolume,
    MissingVolume,
    InvalidPlayMode(Seq<char>),
    MissingPlayMode,
    RemoveTooManyArguments,
    MissingDownloadTarget,
    InvalidDownloadTarget(Seq<char>),
    DownloadTooManyArguments,
    MissingCollectName,
    MissingUncollectName,
    MissingCreateName,
    MissingDeleteName,
    InvalidPlaylistAction(Seq<char>),
    MissingPlaylistAction,
    InvalidWhere(Seq<char>),
    MissingWhere,
    InvalidCommand(Seq<char>),
}

impl CommandError {
    pub open spec fn view(&self) -> ErrorView {
        match self {
            CommandError::InvalidScreen(s) => ErrorView::InvalidScreen(s@),
            CommandError::MissingScreen => ErrorView::MissingScreen,
            CommandError::InvalidVolume => ErrorView::InvalidVolume,
            CommandError::MissingVolume => ErrorView::MissingVolume,
            CommandError::InvalidPlayMode(s) => ErrorView::InvalidPlayMode(s@),
            CommandError::MissingPlayMode => ErrorView::MissingPlayMode,
            CommandError::RemoveTooManyArguments => ErrorView::RemoveTooManyArguments,
            CommandError::MissingDownloadTarget => ErrorView::MissingDownloadTarget,
            CommandError::InvalidDownloadTarget(s) => ErrorView::InvalidDownloadTarget(s@),
            CommandError::DownloadTooManyArguments => ErrorView::DownloadTooManyArguments,
            CommandError::MissingCollectName => ErrorView::MissingCollectName,
            CommandError::MissingUncollectName => ErrorView::MissingUncollectName,
            CommandError::MissingCreateName => ErrorView::MissingCreateName,
            CommandError::MissingDeleteName => ErrorView::MissingDeleteName,
            CommandError::InvalidPlaylistAction(s) => ErrorView::InvalidPlaylistAction(s@),
            CommandError::MissingPlaylistAction => ErrorView::MissingPlaylistAction,
            CommandError::InvalidWhere(s) => ErrorView::InvalidWhere(s@),
            CommandError::MissingWhere => ErrorView::MissingWhere,
            CommandError::InvalidCommand(s) => ErrorView::InvalidCommand(s@),
        }
    }

    /// The text the error is shown with.
    pub open spec fn spec_message(&self) -> Seq<char> {
        match self {
            CommandError::InvalidScreen(s) => "screen: Invalid screen identifier: "@ + s@,
            CommandError::MissingScreen => "screen: Missing argument SCREEN_ID"@,
            CommandError::InvalidVolume => "volume: Invalid argument NUMBER"@,
            CommandError::MissingVolume => "volume: Missing argument NUMBER"@,
            CommandError::InvalidPlayMode(s) => "switch: Invalid play mode identifier: "@ + s@,
            CommandError::MissingPlayMode => "switch: Missing argument PLAY_MODE"@,
            CommandError::RemoveTooManyArguments => "remove: Too many arguments"@,
            CommandError::MissingDownloadTarget => "download: Missing argument song|playlist"@,
            CommandError::InvalidDownloadTarget(s) => "download: Invalid target '"@ + s@ + "'"@,
            CommandError::DownloadTooManyArguments => "download: Too many arguments"@,
            CommandError::MissingCollectName => "collect: Missing argument SONGLIST_NAME"@,
            CommandError::MissingUncollectName => "uncollect: Missing argument SONGLIST_NAME"@,
            CommandError::MissingCreateName => "playlist create: Missing argument SONGLIST_NAME"@,
            CommandError::MissingDeleteName => "playlist delete: Missing argument SONGLIST_NAME"@,
            CommandError::InvalidPlaylistAction(s) => "playlist: Invalid action '"@ + s@ + "'"@,
            CommandError::MissingPlaylistAction => "playlist: Missing argument create|delete"@,
            CommandError::InvalidWhere(s) => "where: Invalid argument '"@ + s@ + "'"@,
            CommandError::MissingWhere => "where: Missing argument"@,
            CommandError::InvalidCommand(s) => "Invalid command: "@ + s@,
        }
    }

    /// The text the error is shown with.
    pub fn message(&self) -> (r: String)
        ensures
            r@ == self.spec_message(),
    {
        let mut out: Vec<char> = Vec::new();
        match self {
            CommandError::InvalidScreen(s) => {
                push_str(&mut out, "screen: Invalid screen identifier: ");
                push_str(&mut out, s.as_str());
            },
            CommandError::MissingScreen => push_str(&mut out, "screen: Missing argument SCREEN_ID"),
            CommandError::InvalidVolume => push_str(&mut out, "volume: Invalid argument NUMBER"),
            CommandError::MissingVolume => push_str(&mut out, "volume: Missing argument NUMBER"),
            CommandError::InvalidPlayMode(s) => {
                push_str(&mut out, "switch: Invalid play mode identifier: ");
                push_str(&mut out, s.as_str());
            },
            CommandError::MissingPlayMode => push_str(&mut out, "switch: Missing argument PLAY_MODE"),
            CommandError::RemoveTooManyArguments => push_str(&mut out, "remove: Too many arguments"),
            CommandError::MissingDownloadTarget => push_str(
                &mut out,
                "download: Missing argument song|playlist",
            ),
            CommandError::InvalidDownloadTarget(s) => {
                push_str(&mut out, "download: Invalid target '");
                push_str(&mut out, s.as_str());
                push_str(&mut out, "'");
            },
            CommandError::DownloadTooManyArguments => push_str(
                &mut out,
                "download: Too many arguments",
            ),
            CommandError::MissingCollectName => push_str(
                &mut out,
                "collect: Missing argument SONGLIST_NAME",
            ),
            CommandError::MissingUncollectName => push_str(
                &mut out,
                "uncollect: Missing argument SONGLIST_NAME",
            ),
            CommandError::MissingCreateName => push_str(
                &mut out,
                "playlist create: Missing argument SONGLIST_NAME",
            ),
            CommandError::MissingDeleteName => push_str(
                &mut out,
                "playlist delete: Missing argument SONGLIST_NAME",
            ),
            CommandError::InvalidPlaylistAction(s) => {
                push_str(&mut out, "playlist: Invalid action '");
                push_str(&mut out, s.as_str());
                push_str(&mut out, "'");
            },
            CommandError::MissingPlaylistAction => push_str(
                &mut out,
                "playlist: Missing argument create|delete",
            ),
            CommandError::InvalidWhere(s) => {
                push_str(&mut out, "where: Invalid argument '");
                push_str(&mut out, s.as_str());
                push_str(&mut out, "'");
            },
            CommandError::MissingWhere => push_str(&mut out, "where: Missing argument"),
            CommandError::InvalidCommand(s) => {
                push_str(&mut out, "Invalid command: ");
                push_str(&mut out, s.as_str());
            },
        }
        string_of(&out)
    }
}

/// The screen a `screen` argument names.
pub open spec fn screen_of(a: Seq<char>) -> Option<ScreenEnum> {
    if a == "1"@ || a == "main"@ {
        Some(ScreenEnum::Main)
    } else if a == "2"@ || a == "playlist"@ || a == "playlists"@ {
        Some(ScreenEnum::Songlists)
    } else if a == "3"@ {
        Some(ScreenEnum::Daily)
    } else if a == "9"@ || a == "settings"@ {
        Some(ScreenEnum::Settings)
    } else if a == "0"@ || a == "help"@ {
        Some(ScreenEnum::Help)
    } else {
        None
    }
}

/// The play mode a `mode` argument names.
pub open spec fn play_mode_of(a: Seq<char>) -> Option<PlayMode> {
    if a == "single"@ {
        Some(PlayMode::Single)
    } else if a == "sr"@ || a == "single-repeat"@ {
        Some(PlayMode::SingleRepeat)
    } else if a == "lr"@ || a == "list-repeat"@ {
        Some(PlayMode::ListRepeat)
    } else if a == "s"@ || a == "shuf"@ || a == "shuffle"@ {
        Some(PlayMode::Shuffle)
    } else {
        None
    }
}

/// The outcome of a `screen` command with words `w`.
pub open spec fn parse_screen(w: Seq<Seq<char>>) -> Result<ParsedView, ErrorView> {
    if w.len() < 2 {
        Err(ErrorView::MissingScreen)
    } else {
        match screen_of(w[1]) {
            Some(s) => Ok(ParsedView::GotoScreen(s)),
            None => Err(ErrorView::InvalidScreen(w[1])),
        }
    }
}

/// The outcome of a `vol`/`volume` command with words `w`.
pub open spec fn parse_volume(w: Seq<Seq<char>>) -> Result<ParsedView, ErrorView> {
    if w.len() < 2 {
        Err(ErrorView::MissingVolume)
    } else if is_float_text(w[1]) {
        Ok(ParsedView::SetVolume(w[1]))
    } else {
        Err(ErrorView::InvalidVolume)
    }
}

/// The outcome of a `mode` command with words `w`.
pub open spec fn parse_mode(w: Seq<Seq<char>>) -> Result<ParsedView, ErrorView> {
    if w.len() < 2 {
        Err(ErrorView::MissingPlayMode)
    } else {
        match play_mode_of(w[1]) {
            Some(m) => Ok(ParsedView::SwitchPlayMode(m)),
            None => Err(ErrorView::InvalidPlayMode(w[1])),
        }
    }
}

/// The outcome of a `download` command with words `w`.
pub open spec fn parse_download(w: Seq<Seq<char>>) -> Result<ParsedView, ErrorView> {
    if w.len() == 1 {
        Err(ErrorView::MissingDownloadTarget)
    } else if w.len() > 2 {
        Err(ErrorView::DownloadTooManyArguments)
    } else if w[1] == "song"@ {
        Ok(ParsedView::DownloadSong)
    } else if w[1] == "playlist"@ {
        Ok(ParsedView::DownloadPlaylist)
    } else {
        Err(ErrorView::InvalidDownloadTarget(w[1]))
    }
}

/// The outcome of a `where` command with words `w`.
pub open spec fn parse_where(w: Seq<Seq<char>>) -> Result<ParsedView, ErrorView> {
    if w.len() < 2 {
        Err(ErrorView::MissingWhere)
    } else if w[1] == "this"@ {
        Ok(ParsedView::WhereIsThisSong)
    } else {
        Err(ErrorView::InvalidWhere(w[1]))
    }
}

/// The outcome of a `playlist` command line `s` with words `w`: the songlist name is all the
/// text after the action word, trimmed.
pub open spec fn parse_playlist(s: Seq<char>, w: Seq<Seq<char>>) -> Result<ParsedView, ErrorView> {
    let rest = trim(s.skip(8));
    // the action word starts `rest`, so it is at least six characters long
    let name = if rest.len() >= 6 {
        trim(rest.skip(6))
    } else {
        seq![]
    };
    if w.len() < 2 {
        Err(ErrorView::MissingPlaylistAction)
    } else if w[1] == "create"@ {
        if name.len() == 0 {
            Err(ErrorView::MissingCreateName)
        } else {
            Ok(ParsedView::CreateSonglist(name))
        }
    } else if w[1] == "delete"@ {
        if name.len() == 0 {
            Err(ErrorView::MissingDeleteName)
        } else {
            Ok(ParsedView::DeleteSonglistByName(name))
        }
    } else {
        Err(ErrorView::InvalidPlaylistAction(w[1]))
    }
}

/// The outcome of parsing command line `s`.
pub open spec fn parse_spec(s: Seq<char>) -> Result<ParsedView, ErrorView> {
    let w = words(s);
    if w.len() == 0 {
        Ok(ParsedView::Nop)
    } else {
        let t = w[0];
        if t == "q"@ || t == "quit"@ || t == "exit"@ {
            Ok(ParsedView::Quit)
        } else if t == "screen"@ {
            parse_screen(w)
        } else if t == "h"@ || t == "help"@ {
            Ok(ParsedView::GotoScreen(ScreenEnum::Help))
        } else if t == "l"@ || t == "login"@ {
            Ok(ParsedView::GotoScreen(ScreenEnum::Login))
        } else if t == "logout"@ {
            Ok(ParsedView::Logout)
        } else if t == "vol"@ || t == "volume"@ {
            parse_volume(w)
        } else if t == "mute"@ {
            Ok(ParsedView::SetVolume("0"@))
        } else if t == "mode"@ {
            parse_mode(w)
        } else if t == "next"@ {
            Ok(ParsedView::NextSong)
        } else if t == "prev"@ || t == "previous"@ {
            Ok(ParsedView::PrevSong)
        } else if t == "like"@ {
            Ok(ParsedView::SetSongLiked(true))
        } else if t == "unlike"@ {
            Ok(ParsedView::SetSongLiked(false))
        } else if t == "start"@ {
            Ok(ParsedView::StartPlay)
        } else if t == "remove"@ {
            if w.len() == 1 {
                Ok(ParsedView::RemoveFromCurrentPlaylist)
            } else {
                Err(ErrorView::RemoveTooManyArguments)
            }
        } else if t == "download"@ {
            parse_download(w)
        } else if t == "collect"@ {
            let name = trim(s.skip(7));
            if name.len() == 0 {
                Err(ErrorView::MissingCollectName)
            } else {
                Ok(ParsedView::CollectToSonglist(name))
            }
        } else if t == "uncollect"@ {
            let name = trim(s.skip(9));
            if name.len() == 0 {
                Err(ErrorView::MissingUncollectName)
            } else {
                Ok(ParsedView::UncollectFromSonglist(name))
            }
        } else if t == "playlist"@ {
            parse_playlist(s, w)
        } else if t == "where"@ {
            parse_where(w)
        } else if t == "top"@ {
            Ok(ParsedView::GoToTop)
        } else if t == "bottom"@ {
            Ok(ParsedView::GoToBottom)
        } else if t == "/"@ {
            Ok(ParsedView::SearchForward(w.skip(1)))
        } else if t == "?"@ {
            Ok(ParsedView::SearchBackward(w.skip(1)))
        } else {
            Err(ErrorView::InvalidCommand(t))
        }
    }
}

/// The command lines the parser accepts without failing: a line whose first word takes the rest
/// of the line as an argument (`collect`, `uncollect`, `playlist`) must not start with white space.
pub open spec fn parse_defined(s: Seq<char>) -> bool {
    let w = words(s);
    w.len() > 0 && (w[0] == "collect"@ || w[0] == "uncollect"@ || w[0] == "playlist"@) ==> !is_ws(
        s[0],
    )
}

/// The parse outcome of a command line, as a view.
pub open spec fn result_view(r: Result<Command, CommandError>) -> Result<ParsedView, ErrorView> {
    match r {
        Ok(c) => Ok(c.parsed_view()),
        Err(e) => Err(e.view()),
    }
}

fn word_is(w: &Vec<char>, lit: &str) -> (r: bool)
    ensures
        r == (w@ == lit@),
{
    chars_eq_str(w, lit)
}

fn parse_screen_words(w: &Vec<Vec<char>>) -> (r: Result<Command, CommandError>)
    requires
        w.len() > 0,
    ensures
        result_view(r) == parse_screen(char_views(w@)),
{
    if w.len() < 2 {
        return Err(CommandError::MissingScreen);
    }
    let a = &w[1];
    if word_is(a, "1") || word_is(a, "main") {
        Ok(Command::GotoScreen(ScreenEnum::Main))
    } else if word_is(a, "2") || word_is(a, "playlist") || word_is(a, "playlists") {
        Ok(Command::GotoScreen(ScreenEnum::Songlists))
    } else if word_is(a, "3") {
        Ok(Command::GotoScreen(ScreenEnum::Daily))
    } else if word_is(a, "9") || word_is(a, "settings") {
        Ok(Command::GotoScreen(ScreenEnum::Settings))
    } else if word_is(a, "0") || word_is(a, "help") {
        Ok(Command::GotoScreen(ScreenEnum::Help))
    } else {
        Err(CommandError::InvalidScreen(string_of(a)))
    }
}

fn parse_mode_words(w: &Vec<Vec<char>>) -> (r: Result<Command, CommandError>)
    requires
        w.len() > 0,
    ensures
        result_view(r) == parse_mode(char_views(w@)),
{
    if w.len() < 2 {
        return Err(CommandError::MissingPlayMode);
    }
    let a = &w[1];
    if word_is(a, "single") {
        Ok(Command::SwitchPlayMode(PlayMode::Single))
    } else if word_is(a, "sr") || word_is(a, "single-repeat") {
        Ok(Command::SwitchPlayMode(PlayMode::SingleRepeat))
    } else if word_is(a, "lr") || word_is(a, "list-repeat") {
        Ok(Command::SwitchPlayMode(PlayMode::ListRepeat))
    } else if word_is(a, "s") || word_is(a, "shuf") || word_is(a, "shuffle") {
        Ok(Command::SwitchPlayMode(PlayMode::Shuffle))
    } else {
        Err(CommandError::InvalidPlayMode(string_of(a)))
    }
}

fn parse_download_words(w: &Vec<Vec<char>>) -> (r: Result<Command, CommandError>)
    requires
        w.len() > 0,
    ensures
        result_view(r) == parse_download(char_views(w@)),
{
    if w.len() == 1 {
        Err(CommandError::MissingDownloadTarget)
    } else if w.len() > 2 {
        Err(CommandError::DownloadTooManyArguments)
    } else if word_is(&w[1], "song") {
        Ok(Command::DownloadSong)
    } else if word_is(&w[1], "playlist") {
        Ok(Command::DownloadPlaylist)
    } else {
        Err(CommandError::InvalidDownloadTarget(string_of(&w[1])))
    }
}

fn parse_where_words(w: &Vec<Vec<char>>) -> (r: Result<Command, CommandError>)
    requires
        w.len() > 0,
    ensures
        result_view(r) == parse_where(char_views(w@)),
{
    if w.len() < 2 {
        Err(CommandError::MissingWhere)
    } else if word_is(&w[1], "this") {
        Ok(Command::WhereIsThisSong)
    } else {
        Err(CommandError::InvalidWhere(string_of(&w[1])))
    }
}

fn parse_volume_words(w: &Vec<Vec<char>>) -> (r: Result<Command, CommandError>)
    requires
        w.len() > 0,
    ensures
        result_view(r) == parse_volume(char_views(w@)),
{
    if w.len() < 2 {
        Err(CommandError::MissingVolume)
    } else if is_float_chars(&w[1]) {
        Ok(Command::SetVolume(string_of(&w[1])))
    } else {
        Err(CommandError::InvalidVolume)
    }
}

/// `trim(s.skip(k))`, for a prefix length `k` within `s`.
fn trimmed_after(s: &Vec<char>, k: usize) -> (r: Vec<char>)
    requires
        k <= s.len(),
    ensures
        r@ == trim(s@.skip(k as int)),
{
    let rest = slice_chars(s, k, s.len());
    assert(rest@ =~= s@.skip(k as int));
    trim_chars(&rest)
}

fn parse_playlist_words(s: &Vec<char>, w: &Vec<Vec<char>>) -> (r: Result<Command, CommandError>)
    requires
        w.len() > 0,
        s.len() >= 8,
    ensures
        result_view(r) == parse_playlist(s@, char_views(w@)),
{
    if w.len() < 2 {
        return Err(CommandError::MissingPlaylistAction);
    }
    let rest = trimmed_after(s, 8);
    if word_is(&w[1], "create") || word_is(&w[1], "delete") {
        let name = if rest.len() >= 6 {
            trimmed_after(&rest, 6)
        } else {
            Vec::new()
        };
        if word_is(&w[1], "create") {
            if name.len() == 0 {
                Err(CommandError::MissingCreateName)
            } else {
                Ok(Command::CreateSonglist(string_of(&name)))
            }
        } else {
            if name.len() == 0 {
                Err(CommandError::MissingDeleteName)
            } else {
                Ok(Command::DeleteSonglistByName(string_of(&name)))
            }
        }
    } else {
        Err(CommandError::InvalidPlaylistAction(string_of(&w[1])))
    }
}

impl Command {
    /// Parses a command line.
    pub fn parse(cmd_str: &str) -> (r: Result<Command, CommandError>)
        requires
            parse_defined(cmd_str@),
        ensures
            result_view(r) == parse_spec(cmd_str@),
    {
        let s = chars_of(cmd_str);
        let w = split_words(&s);
        if w.len() == 0 {
            return Ok(Command::Nop);
        }
        let t = &w[0];
        if word_is(t, "q") || word_is(t, "quit") || word_is(t, "exit") {
            Ok(Command::Quit)
        } else if word_is(t, "screen") {
            parse_screen_words(&w)
        } else if word_is(t, "h") || word_is(t, "help") {
            Ok(Command::GotoScreen(ScreenEnum::Help))
        } else if word_is(t, "l") || word_is(t, "login") {
            Ok(Command::GotoScreen(ScreenEnum::Login))
        } else if word_is(t, "logout") {
            Ok(Command::Logout)
        } else if word_is(t, "vol") || word_is(t, "volume") {
            parse_volume_words(&w)
        } else if word_is(t, "mute") {
            Ok(Command::SetVolume(String::from_str("0")))
        } else if word_is(t, "mode") {
            parse_mode_words(&w)
        } else if word_is(t, "next") {
            Ok(Command::NextSong)
        } else if word_is(t, "prev") || word_is(t, "previous") {
            Ok(Command::PrevSong)
        } else if word_is(t, "like") {
            Ok(Command::SetSongLiked(Some(true)))
        } else if word_is(t, "unlike") {
            Ok(Command::SetSongLiked(Some(false)))
        } else if word_is(t, "start") {
            Ok(Command::StartPlay)
        } else if word_is(t, "remove") {
            if w.len() == 1 {
                Ok(Command::RemoveFromCurrentPlaylist)
            } else {
                Err(CommandError::RemoveTooManyArguments)
            }
        } else if word_is(t, "download") {
            parse_download_words(&w)
        } else if word_is(t, "collect") {
            proof {
                reveal_strlit("collect");
                lemma_leading_word(s@, "collect"@);
            }
            let name = trimmed_after(&s, 7);
            if name.len() == 0 {
                Err(CommandError::MissingCollectName)
            } else {
                Ok(Command::CollectToSonglist(string_of(&name)))
            }
        } else if word_is(t, "uncollect") {
            proof {
                reveal_strlit("uncollect");
                lemma_leading_word(s@, "uncollect"@);
            }
            let name = trimmed_after(&s, 9);
            if name.len() == 0 {
                Err(CommandError::MissingUncollectName)
            } else {
                Ok(Command::UncollectFromSonglist(string_of(&name)))
            }
        } else if word_is(t, "playlist") {
            proof {
                reveal_strlit("playlist");
                lemma_leading_word(s@, "playlist"@);
            }
            parse_playlist_words(&s, &w)
        } else if word_is(t, "where") {
            parse_where_words(&w)
        } else if word_is(t, "top") {
            Ok(Command::GoToTop)
        } else if word_is(t, "bottom") {
            Ok(Command::GoToBottom)
        } else if word_is(t, "/") {
            Ok(Command::SearchForward(strings_of(&w, 1)))
        } else if word_is(t, "?") {
            Ok(Command::SearchBackward(strings_of(&w, 1)))
        } else {
            Err(CommandError::InvalidCommand(string_of(t)))
        }
    }
}

/// When `s` does not start with white space, its first word is a prefix of it.
proof fn lemma_leading_word(s: Seq<char>, lit: Seq<char>)
    requires
        words(s).len() > 0,
        words(s)[0] == lit,
        s.len() > 0 ==> !is_ws(s[0]),
    ensures
        lit.len() <= s.len(),
{
    lemma_first_word_prefix(seq![], s);
}

proof fn lemma_first_word_prefix(cur: Seq<char>, s: Seq<char>)
    requires
        crate::text::words_from(cur, s).len() > 0,
    ensures
        crate::text::words_from(cur, s)[0].len() <= cur.len() + s.len(),
    decreases s.len(),
{
    if s.len() > 0 {
        if is_ws(s[0]) {
            if cur.len() == 0 {
                lemma_first_word_prefix(cur, s.drop_first());
            }
        } else {
            lemma_first_word_prefix(cur.push(s[0]), s.drop_first());
        }
    }
}

proof fn lemma_words_after_word(cur: Seq<char>, p: Seq<char>, rest: Seq<char>)
    requires
        forall|j: int| 0 <= j < p.len() ==> !is_ws(#[trigger] p[j]),
        rest.len() > 0,
        is_ws(rest[0]),
        cur.len() + p.len() > 0,
    ensures
        crate::text::words_from(cur, p + rest) == seq![cur + p] + crate::text::words_from(
            seq![],
            rest.drop_first(),
        ),
    decreases p.len(),
{
    if p.len() == 0 {
        assert(p + rest =~= rest);
        assert(cur + p =~= cur);
    } else {
        let s = p + rest;
        assert(s[0] == p[0]);
        assert(s.drop_first() =~= p.drop_first() + rest);
        lemma_words_after_word(cur.push(p[0]), p.drop_first(), rest);
        assert(cur.push(p[0]) + p.drop_first() =~= cur + p);
    }
}

proof fn lemma_trim_spaced_name(name: Seq<char>)
    requires
        name.len() > 0,
        !is_ws(name[0]),
        !is_ws(name.last()),
    ensures
        trim(seq![' '] + name) == name,
        trim(name) == name,
{
    let s = seq![' '] + name;
    crate::text::lemma_trim_start_skip(s, 1);
    assert(s.subrange(1, s.len() as int) =~= name);
    crate::text::lemma_trim_start_skip(name, 0);
    assert(name.subrange(0, name.len() as int) =~= name);
    crate::text::lemma_trim_end_skip(name, name.len() as int);
    assert(name.subrange(0, name.len() as int) =~= name);
}

/// A command line as completion fills it in (a command word that takes a songlist name, then a
/// name with no white space at its ends) is parsed as that command with exactly that name.
pub proof fn lemma_completed_line_parses(name: Seq<char>)
    requires
        name.len() > 0,
        !is_ws(name[0]),
        !is_ws(name.last()),
    ensures
        parse_defined("collect "@ + name),
        parse_spec("collect "@ + name) == Ok::<ParsedView, ErrorView>(ParsedView::CollectToSonglist(name)),
        parse_defined("uncollect "@ + name),
        parse_spec("uncollect "@ + name) == Ok::<ParsedView, ErrorView>(ParsedView::UncollectFromSonglist(name)),
        parse_defined("playlist delete "@ + name),
        parse_spec("playlist delete "@ + name) == Ok::<ParsedView, ErrorView>(ParsedView::DeleteSonglistByName(name)),
{
    reveal_strlit("q");
    reveal_strlit("quit");
    reveal_strlit("exit");
    reveal_strlit("screen");
    reveal_strlit("h");
    reveal_strlit("help");
    reveal_strlit("l");
    reveal_strlit("login");
    reveal_strlit("logout");
    reveal_strlit("vol");
    reveal_strlit("volume");
    reveal_strlit("mute");
    reveal_strlit("mode");
    reveal_strlit("next");
    reveal_strlit("prev");
    reveal_strlit("previous");
    reveal_strlit("like");
    reveal_strlit("unlike");
    reveal_strlit("start");
    reveal_strlit("remove");
    reveal_strlit("download");
    reveal_strlit("collect");
    reveal_strlit("uncollect");
    reveal_strlit("playlist");
    reveal_strlit("create");
    reveal_strlit("delete");
    reveal_strlit("collect ");
    reveal_strlit("uncollect ");
    reveal_strlit("playlist delete ");
    lemma_trim_spaced_name(name);
    let rest = seq![' '] + name;
    assert(is_ws(' '));
    // collect
    let c = "collect "@ + name;
    assert(c =~= "collect"@ + rest);
    lemma_words_after_word(seq![], "collect"@, rest);
    assert(Seq::<char>::empty() + "collect"@ =~= "collect"@);
    assert(words(c)[0] == "collect"@);
    assert(c.skip(7) =~= rest);
    // uncollect
    let u = "uncollect "@ + name;
    assert(u =~= "uncollect"@ + rest);
    lemma_words_after_word(seq![], "uncollect"@, rest);
    assert(Seq::<char>::empty() + "uncollect"@ =~= "uncollect"@);
    assert(words(u)[0] == "uncollect"@);
    assert(u.skip(9) =~= rest);
    // playlist delete
    let d = "playlist delete "@ + name;
    let tail = "delete"@ + rest;
    assert(d =~= "playlist"@ + (seq![' '] + tail));
    lemma_words_after_word(seq![], "playlist"@, seq![' '] + tail);
    assert(Seq::<char>::empty() + "playlist"@ =~= "playlist"@);
    assert((seq![' '] + tail).drop_first() =~= tail);
    lemma_words_after_word(seq![], "delete"@, rest);
    assert(Seq::<char>::empty() + "delete"@ =~= "delete"@);
    let w = words(d);
    assert(w[0] == "playlist"@);
    assert(w[1] == "delete"@);
    assert(d.skip(8) =~= seq![' '] + tail);
    assert(tail.last() == name.last());
    crate::text::lemma_trim_start_skip(seq![' '] + tail, 1);
    assert((seq![' '] + tail).subrange(1, (tail.len() + 1) as int) =~= tail);
    crate::text::lemma_trim_end_skip(tail, tail.len() as int);
    assert(tail.subrange(0, tail.len() as int) =~= tail);
    assert(trim(d.skip(8)) == tail);
    assert(tail.skip(6) =~= rest);
    assert(trim(tail.skip(6)) == name);
    assert(w.len() >= 2);
    assert(parse_playlist(d, w) == Ok::<ParsedView, ErrorView>(ParsedView::DeleteSonglistByName(name)));
    assert(w[0][1] != "prev"@[1]);
    assert(w[0][1] != "previous"@[1]);
}

proof fn lemma_single_word(cur: Seq<char>, x: Seq<char>)
    requires
        forall|j: int| 0 <= j < x.len() ==> !is_ws(#[trigger] x[j]),
        cur.len() + x.len() > 0,
    ensures
        crate::text::words_from(cur, x) == seq![cur + x],
    decreases x.len(),
{
    if x.len() == 0 {
        assert(cur + x =~= cur);
    } else {
        assert(!is_ws(x[0]));
        lemma_single_word(cur.push(x[0]), x.drop_first());
        assert(cur.push(x[0]) + x.drop_first() =~= cur + x);
    }
}

/// `mode` followed by a word switches to the play mode that word names, and to no other:
/// `single` the single mode; `sr` or `single-repeat` single repeat; `lr` or `list-repeat` list
/// repeat; `s`, `shuf` or `shuffle` shuffle. Any other word is refused as an invalid mode.
pub proof fn lemma_mode_words(x: Seq<char>)
    requires
        x.len() > 0,
        forall|j: int| 0 <= j < x.len() ==> !is_ws(#[trigger] x[j]),
    ensures
        (parse_spec("mode "@ + x) == Ok::<ParsedView, ErrorView>(ParsedView::SwitchPlayMode(PlayMode::Single)))
            <==> x == "single"@,
        (parse_spec("mode "@ + x) == Ok::<ParsedView, ErrorView>(ParsedView::SwitchPlayMode(PlayMode::SingleRepeat)))
            <==> (x == "sr"@ || x == "single-repeat"@),
        (parse_spec("mode "@ + x) == Ok::<ParsedView, ErrorView>(ParsedView::SwitchPlayMode(PlayMode::ListRepeat)))
            <==> (x == "lr"@ || x == "list-repeat"@),
        (parse_spec("mode "@ + x) == Ok::<ParsedView, ErrorView>(ParsedView::SwitchPlayMode(PlayMode::Shuffle)))
            <==> (x == "s"@ || x == "shuf"@ || x == "shuffle"@),
        parse_spec("mode "@ + x) is Err <==> !(x == "single"@ || x == "sr"@ || x == "single-repeat"@
            || x == "lr"@ || x == "list-repeat"@ || x == "s"@ || x == "shuf"@ || x == "shuffle"@),
{
    reveal_strlit("mode ");
    reveal_strlit("mode");
    reveal_strlit("q");
    reveal_strlit("quit");
    reveal_strlit("exit");
    reveal_strlit("screen");
    reveal_strlit("h");
    reveal_strlit("help");
    reveal_strlit("l");
    reveal_strlit("login");
    reveal_strlit("logout");
    reveal_strlit("vol");
    reveal_strlit("volume");
    reveal_strlit("mute");
    reveal_strlit("single");
    reveal_strlit("sr");
    reveal_strlit("single-repeat");
    reveal_strlit("lr");
    reveal_strlit("list-repeat");
    reveal_strlit("s");
    reveal_strlit("shuf");
    reveal_strlit("shuffle");
    let line = "mode "@ + x;
    let rest = seq![' '] + x;
    assert(line =~= "mode"@ + rest);
    assert(is_ws(' '));
    lemma_words_after_word(seq![], "mode"@, rest);
    assert(rest.drop_first() =~= x);
    lemma_single_word(seq![], x);
    assert(Seq::<char>::empty() + x =~= x);
    assert(Seq::<char>::empty() + "mode"@ =~= "mode"@);
    let w = words(line);
    assert(w =~= seq!["mode"@, x]);
    assert(w[0][1] != "mute"@[1]);
    assert(w[0][0] != "screen"@[0] && w[0][0] != "exit"@[0] && w[0][0] != "quit"@[0]);
    assert(w[0][0] != "login"@[0] && w[0][0] != "vol"@[0] && w[0][0] != "help"@[0]);
    assert(parse_spec(line) == parse_mode(w));
}

/// `screen` followed by a word shows the screen that word names, and no other: `1` or `main`
/// the main screen; `2`, `playlist` or `playlists` the songlists; `3` the daily
/// recommendations; `9` or `settings` the settings; `0` or `help` the help. Any other word is
/// refused.
pub proof fn lemma_screen_words(x: Seq<char>)
    requires
        x.len() > 0,
        forall|j: int| 0 <= j < x.len() ==> !is_ws(#[trigger] x[j]),
    ensures
        (parse_spec("screen "@ + x) == Ok::<ParsedView, ErrorView>(ParsedView::GotoScreen(ScreenEnum::Main)))
            <==> (x == "1"@ || x == "main"@),
        (parse_spec("screen "@ + x) == Ok::<ParsedView, ErrorView>(ParsedView::GotoScreen(ScreenEnum::Songlists)))
            <==> (x == "2"@ || x == "playlist"@ || x == "playlists"@),
        (parse_spec("screen "@ + x) == Ok::<ParsedView, ErrorView>(ParsedView::GotoScreen(ScreenEnum::Daily)))
            <==> x == "3"@,
        (parse_spec("screen "@ + x) == Ok::<ParsedView, ErrorView>(ParsedView::GotoScreen(ScreenEnum::Settings)))
            <==> (x == "9"@ || x == "settings"@),
        (parse_spec("screen "@ + x) == Ok::<ParsedView, ErrorView>(ParsedView::GotoScreen(ScreenEnum::Help)))
            <==> (x == "0"@ || x == "help"@),
        parse_spec("screen "@ + x) is Err <==> !(x == "1"@ || x == "main"@ || x == "2"@ || x
            == "playlist"@ || x == "playlists"@ || x == "3"@ || x == "9"@ || x == "settings"@ || x
            == "0"@ || x == "help"@),
{
    reveal_strlit("screen ");
    reveal_strlit("screen");
    reveal_strlit("q");
    reveal_strlit("quit");
    reveal_strlit("exit");
    reveal_strlit("1");
    reveal_strlit("main");
    reveal_strlit("2");
    reveal_strlit("playlist");
    reveal_strlit("playlists");
    reveal_strlit("3");
    reveal_strlit("9");
    reveal_strlit("settings");
    reveal_strlit("0");
    reveal_strlit("help");
    let line = "screen "@ + x;
    let rest = seq![' '] + x;
    assert(line =~= "screen"@ + rest);
    assert(is_ws(' '));
    lemma_words_after_word(seq![], "screen"@, rest);
    assert(rest.drop_first() =~= x);
    lemma_single_word(seq![], x);
    assert(Seq::<char>::empty() + x =~= x);
    assert(Seq::<char>::empty() + "screen"@ =~= "screen"@);
    let w = words(line);
    assert(w =~= seq!["screen"@, x]);
    assert(parse_spec(line) == parse_screen(w));
}

} // verus!
