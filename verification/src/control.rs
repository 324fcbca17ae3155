//! How key presses become commands: the key map of the normal mode, what a key does in the
//! search and command-line modes and while a confirmation is pending, and the completion of
//! songlist names on the command line.
use vstd::prelude::*;
use crate::command::{Command, ScreenEnum};
use crate::model::{Songlist, LIKED_SONGLIST_TYPE};
use crate::text::{
    chars_contains, chars_of, chars_starts_with, concat2, contains, slice_chars, starts_with,
    string_of, views,
};

verus! {

/// A key as the terminal reports it.
#[derive(Clone, Copy, PartialEq, Eq, Structural, Debug)]
pub enum Key {
    Char(char),
    Up,
    Down,
    Left,
    Right,
    Enter,
    Esc,
    Tab,
    BackTab,
    Backspace,
    /// A function key, by its number.
    F(u8),
    Other,
}

/// What a key does in the normal mode.
#[derive(Clone, Debug)]
pub enum KeyAction {
    /// The command is queued.
    Run(Command),
    /// Typing of search keywords starts on the command line, after "/ " (forward) or "? "
    /// (backward).
    StartSearch { backward: bool },
}

/// The command bound to `key` in the normal mode (`alt` and `shift` tell the modifiers held).
pub open spec fn spec_key_command(key: Key, alt: bool, shift: bool) -> Command {
    match key {
        Key::Down => if shift {
            Command::MovePinnedSonglistDown
        } else {
            Command::Down
        },
        Key::Up => if shift {
            Command::MovePinnedSonglistUp
        } else {
            Command::Up
        },
        Key::Enter => if alt {
            Command::Play
        } else {
            Command::EnterOrPlay
        },
        Key::Esc => Command::Esc,
        Key::Right | Key::Tab => Command::NextPanel,
        Key::Left | Key::BackTab => Command::PrevPanel,
        Key::F(n) => if n == 1 {
            Command::GotoScreen(ScreenEnum::Help)
        } else {
            Command::Nop
        },
        Key::Char(c) => spec_char_command(c),
        _ => Command::Nop,
    }
}

/// The command bound to the character key `c`.
pub open spec fn spec_char_command(c: char) -> Command {
    if c == 'j' {
        Command::Down
    } else if c == 'k' {
        Command::Up
    } else if c == 'J' {
        Command::MovePinnedSonglistDown
    } else if c == 'K' {
        Command::MovePinnedSonglistUp
    } else if c == ' ' {
        Command::PlayOrPause
    } else if c == 'l' {
        Command::SetSongLiked(None)
    } else if c == 'h' {
        Command::PrevPanel
    } else if c == '1' {
        Command::GotoScreen(ScreenEnum::Main)
    } else if c == '2' {
        Command::GotoScreen(ScreenEnum::Songlists)
    } else if c == '3' {
        Command::GotoScreen(ScreenEnum::Daily)
    } else if c == '9' {
        Command::GotoScreen(ScreenEnum::Settings)
    } else if c == '0' {
        Command::GotoScreen(ScreenEnum::Help)
    } else if c == '.' || c == '。' || c == '>' {
        Command::NextSong
    } else if c == ',' || c == '，' || c == '<' {
        Command::PrevSong
    } else if c == ':' || c == '：' {
        Command::EnterCommand
    } else if c == '-' {
        Command::VolumeDown
    } else if c == '=' {
        Command::VolumeUp
    } else if c == 'n' {
        Command::NewOrCollect
    } else if c == 'd' {
        Command::Delete
    } else if c == 'c' {
        Command::ToggleSonglistView
    } else if c == 'p' {
        Command::TogglePinSonglist
    } else if c == 'q' {
        Command::Quit
    } else {
        Command::Nop
    }
}

/// Whether `key` starts typing a search.
pub open spec fn spec_search_key(key: Key) -> Option<bool> {
    match key {
        Key::Char(c) => if c == '/' {
            Some(false)
        } else if c == '?' || c == '？' {
            Some(true)
        } else {
            None
        },
        _ => None,
    }
}

/// The command bound to the character key `c`.
fn char_command(c: char) -> (r: Command)
    ensures
        r == spec_char_command(c),
{
    if c == 'j' {
        Command::Down
    } else if c == 'k' {
        Command::Up
    } else if c == 'J' {
        Command::MovePinnedSonglistDown
    } else if c == 'K' {
        Command::MovePinnedSonglistUp
    } else if c == ' ' {
        Command::PlayOrPause
    } else if c == 'l' {
        Command::SetSongLiked(None)
    } else if c == 'h' {
        Command::PrevPanel
    } else if c == '1' {
        Command::GotoScreen(ScreenEnum::Main)
    } else if c == '2' {
        Command::GotoScreen(ScreenEnum::Songlists)
    } else if c == '3' {
        Command::GotoScreen(ScreenEnum::Daily)
    } else if c == '9' {
        Command::GotoScreen(ScreenEnum::Settings)
    } else if c == '0' {
        Command::GotoScreen(ScreenEnum::Help)
    } else if c == '.' || c == '。' || c == '>' {
        Command::NextSong
    } else if c == ',' || c == '，' || c == '<' {
        Command::PrevSong
    } else if c == ':' || c == '：' {
        Command::EnterCommand
    } else if c == '-' {
        Command::VolumeDown
    } else if c == '=' {
        Command::VolumeUp
    } else if c == 'n' {
        Command::NewOrCollect
    } else if c == 'd' {
        Command::Delete
    } else if c == 'c' {
        Command::ToggleSonglistView
    } else if c == 'p' {
        Command::TogglePinSonglist
    } else if c == 'q' {
        Command::Quit
    } else {
        Command::Nop
    }
}

/// What `key` does in the normal mode.
pub fn command_for_key(key: Key, alt: bool, shift: bool) -> (r: KeyAction)
    ensures
        match spec_search_key(key) {
            Some(backward) => r == KeyAction::StartSearch { backward },
            None => r == KeyAction::Run(spec_key_command(key, alt, shift)),
        },
{
    match key {
        Key::Char(c) => if c == '/' {
            KeyAction::StartSearch { backward: false }
        } else if c == '?' || c == '？' {
            KeyAction::StartSearch { backward: true }
        } else {
            KeyAction::Run(char_command(c))
        },
        Key::Down => KeyAction::Run(
            if shift {
                Command::MovePinnedSonglistDown
            } else {
                Command::Down
            },
        ),
        Key::Up => KeyAction::Run(
            if shift {
                Command::MovePinnedSonglistUp
            } else {
                Command::Up
            },
        ),
        Key::Enter => KeyAction::Run(
            if alt {
                Command::Play
            } else {
                Command::EnterOrPlay
            },
        ),
        Key::Esc => KeyAction::Run(Command::Esc),
        Key::Right | Key::Tab => KeyAction::Run(Command::NextPanel),
        Key::Left | Key::BackTab => KeyAction::Run(Command::PrevPanel),
        Key::F(n) => KeyAction::Run(
            if n == 1 {
                Command::GotoScreen(ScreenEnum::Help)
            } else {
                Command::Nop
            },
        ),
        _ => KeyAction::Run(Command::Nop),
    }
}

/// The input modes of the player.
#[derive(Clone, Debug)]
pub enum AppMode {
    Normal,
    /// After a search: `n` and `N` search again with these keywords.
    Search(Vec<String>),
    /// A command (or search keywords) is being typed.
    CommandLine,
}

/// What a key press does, given the mode.
#[derive(Clone, Copy, PartialEq, Eq, Structural, Debug)]
pub enum ModeKeyAction {
    /// The pending confirmation is accepted and its change made.
    Confirm,
    /// The pending confirmation is dropped, and "已取消" shown.
    CancelConfirm,
    /// The key goes to the text field of the settings screen.
    EditSetting,
    /// The key is mapped by `command_for_key`.
    MapKey,
    /// Back to the normal mode, then the key is mapped by `command_for_key`.
    NormalThenMapKey,
    /// Back to the normal mode.
    BackToNormal,
    /// The search runs again with the keywords of the search mode.
    SearchAgain { backward: bool },
    /// The key does nothing.
    Ignore,
    /// The highlighted completion is filled into the command line, and the list closes.
    AcceptCompletion,
    /// The command line is parsed and its command queued.
    RunCommandLine,
    /// The completion list closes.
    CloseCompletion,
    /// The next completion is highlighted.
    NextCompletion,
    /// The previous completion is highlighted.
    PrevCompletion,
    /// The key edits the command line.
    EditCommandLine,
    /// The key edits the command line, and the completions are computed again.
    EditAndComplete,
}

/// The modes without their keywords.
#[derive(Clone, Copy, PartialEq, Eq, Structural, Debug)]
pub enum ModeKind {
    Normal,
    Search,
    CommandLine,
}

/// The kind of `mode`.
pub open spec fn mode_kind(mode: AppMode) -> ModeKind {
    match mode {
        AppMode::Normal => ModeKind::Normal,
        AppMode::Search(_) => ModeKind::Search,
        AppMode::CommandLine => ModeKind::CommandLine,
    }
}

/// What `key` does. `confirming` tells whether a confirmation is pending, `editing_setting`
/// whether the settings screen is shown with an entry being edited, `completing` whether the
/// completion list is open, and `line_empty` whether the command line is empty.
pub open spec fn spec_mode_key_action(
    confirming: bool,
    mode: ModeKind,
    key: Key,
    editing_setting: bool,
    completing: bool,
    line_empty: bool,
) -> ModeKeyAction {
    if confirming {
        if key == Key::Char('y') || key == Key::Char('Y') {
            ModeKeyAction::Confirm
        } else {
            ModeKeyAction::CancelConfirm
        }
    } else {
        match mode {
            ModeKind::Normal => if editing_setting {
                ModeKeyAction::EditSetting
            } else {
                ModeKeyAction::MapKey
            },
            ModeKind::Search => match key {
                Key::Char(c) => if c == 'n' {
                    ModeKeyAction::SearchAgain { backward: false }
                } else if c == 'N' {
                    ModeKeyAction::SearchAgain { backward: true }
                } else if c == ':' {
                    ModeKeyAction::NormalThenMapKey
                } else if c == 'k' || c == 'j' {
                    ModeKeyAction::MapKey
                } else {
                    ModeKeyAction::Ignore
                },
                Key::Esc => ModeKeyAction::BackToNormal,
                Key::Enter => ModeKeyAction::NormalThenMapKey,
                Key::Up | Key::Down => ModeKeyAction::MapKey,
                _ => ModeKeyAction::Ignore,
            },
            ModeKind::CommandLine => match key {
                Key::Enter => if completing {
                    ModeKeyAction::AcceptCompletion
                } else {
                    ModeKeyAction::RunCommandLine
                },
                Key::Esc => if completing {
                    ModeKeyAction::CloseCompletion
                } else {
                    ModeKeyAction::BackToNormal
                },
                Key::Tab => if completing {
                    ModeKeyAction::NextCompletion
                } else {
                    ModeKeyAction::Ignore
                },
                Key::Down => if completing {
                    ModeKeyAction::NextCompletion
                } else {
                    ModeKeyAction::EditCommandLine
                },
                Key::BackTab => if completing {
                    ModeKeyAction::PrevCompletion
                } else {
                    ModeKeyAction::Ignore
                },
                Key::Up => if completing {
                    ModeKeyAction::PrevCompletion
                } else {
                    ModeKeyAction::EditCommandLine
                },
                Key::Backspace => if line_empty {
                    ModeKeyAction::BackToNormal
                } else {
                    ModeKeyAction::EditAndComplete
                },
                _ => ModeKeyAction::EditAndComplete,
            },
        }
    }
}

/// What a key press does in `mode` (see `spec_mode_key_action` for the flags).
pub fn mode_key_action(
    confirming: bool,
    mode: &AppMode,
    key: Key,
    editing_setting: bool,
    completing: bool,
    line_empty: bool,
) -> (r: ModeKeyAction)
    ensures
        r == spec_mode_key_action(
            confirming,
            mode_kind(*mode),
            key,
            editing_setting,
            completing,
            line_empty,
        ),
{
    if confirming {
        return if key == Key::Char('y') || key == Key::Char('Y') {
            ModeKeyAction::Confirm
        } else {
            ModeKeyAction::CancelConfirm
        };
    }
    match mode {
        AppMode::Normal => if editing_setting {
            ModeKeyAction::EditSetting
        } else {
            ModeKeyAction::MapKey
        },
        AppMode::Search(_) => match key {
            Key::Char(c) => if c == 'n' {
                ModeKeyAction::SearchAgain { backward: false }
            } else if c == 'N' {
                ModeKeyAction::SearchAgain { backward: true }
            } else if c == ':' {
                ModeKeyAction::NormalThenMapKey
            } else if c == 'k' || c == 'j' {
                ModeKeyAction::MapKey
            } else {
                ModeKeyAction::Ignore
            },
            Key::Esc => ModeKeyAction::BackToNormal,
            Key::Enter => ModeKeyAction::NormalThenMapKey,
            Key::Up | Key::Down => ModeKeyAction::MapKey,
            _ => ModeKeyAction::Ignore,
        },
        AppMode::CommandLine => match key {
            Key::Enter => if completing {
                ModeKeyAction::AcceptCompletion
            } else {
                ModeKeyAction::RunCommandLine
            },
            Key::Esc => if completing {
                ModeKeyAction::CloseCompletion
            } else {
                ModeKeyAction::BackToNormal
            },
            Key::Tab => if completing {
                ModeKeyAction::NextCompletion
            } else {
                ModeKeyAction::Ignore
            },
            Key::Down => if completing {
                ModeKeyAction::NextCompletion
            } else {
                ModeKeyAction::EditCommandLine
            },
            Key::BackTab => if completing {
                ModeKeyAction::PrevCompletion
            } else {
                ModeKeyAction::Ignore
            },
            Key::Up => if completing {
                ModeKeyAction::PrevCompletion
            } else {
                ModeKeyAction::EditCommandLine
            },
            Key::Backspace => if line_empty {
                ModeKeyAction::BackToNormal
            } else {
                ModeKeyAction::EditAndComplete
            },
            _ => ModeKeyAction::EditAndComplete,
        },
    }
}

/// While a confirmation is pending, `y` accepts it and every other key drops it.
pub proof fn lemma_confirmation_takes_every_key(
    mode: ModeKind,
    key: Key,
    editing_setting: bool,
    completing: bool,
    line_empty: bool,
)
    ensures
        ({
            let a = spec_mode_key_action(true, mode, key, editing_setting, completing, line_empty);
            a is Confirm || a is CancelConfirm
        }),
        spec_mode_key_action(true, mode, Key::Char('y'), editing_setting, completing, line_empty)
            is Confirm,
{
}

/// The lowercase form of `s` (`str::to_lowercase`, by Unicode's case mappings).
pub uninterp spec fn lowercased(s: Seq<char>) -> Seq<char>;

/// `str::to_lowercase`: the lowercase form of `s`. The contract names the result and states
/// only that an empty text stays empty; the Unicode case tables are not written out.
#[verifier::external_body]
fn to_lowercase(s: &str) -> (r: String)
    ensures
        r@ == lowercased(s@),
        s@.len() == 0 ==> r@.len() == 0,
{
    s.to_lowercase()
}

/// The names among `names` whose lowercase form `lowers` begins with `arg`, in order.
pub open spec fn prefix_matches(arg: Seq<char>, names: Seq<Seq<char>>, lowers: Seq<Seq<char>>) -> Seq<
    Seq<char>,
>
    decreases names.len(),
{
    if names.len() == 0 {
        seq![]
    } else {
        let rest = prefix_matches(arg, names.drop_last(), lowers.drop_last());
        if starts_with(lowers[names.len() - 1], arg) {
            rest.push(names.last())
        } else {
            rest
        }
    }
}

/// The names among `names` whose lowercase form holds `arg` further in, in order.
pub open spec fn inner_matches(arg: Seq<char>, names: Seq<Seq<char>>, lowers: Seq<Seq<char>>) -> Seq<
    Seq<char>,
>
    decreases names.len(),
{
    if names.len() == 0 {
        seq![]
    } else {
        let rest = inner_matches(arg, names.drop_last(), lowers.drop_last());
        let lower = lowers[names.len() - 1];
        if !starts_with(lower, arg) && contains(lower, arg) {
            rest.push(names.last())
        } else {
            rest
        }
    }
}

/// The names matching `arg`: those whose lowercase form begins with it first, then those that
/// hold it further in, each group in the given order.
pub open spec fn ranked(arg: Seq<char>, names: Seq<Seq<char>>, lowers: Seq<Seq<char>>) -> Seq<Seq<char>> {
    prefix_matches(arg, names, lowers) + inner_matches(arg, names, lowers)
}

/// Ranks `names` against the lowercase argument `arg`, given the lowercase form of each name:
/// names whose form begins with `arg` first, then those holding it further in, each group in
/// the given order.
pub fn rank_candidates(arg: &Vec<char>, names: &Vec<String>, lowers: &Vec<Vec<char>>) -> (r: Vec<String>)
    requires
        lowers@.len() == names@.len(),
    ensures
        views(r@) == ranked(
            arg@,
            views(names@),
            lowers@.map_values(|l: Vec<char>| l@),
        ),
{
    let ghost ls = lowers@.map_values(|l: Vec<char>| l@);
    let ghost ns = views(names@);
    let mut first: Vec<String> = Vec::new();
    let mut later: Vec<String> = Vec::new();
    let mut i: usize = 0;
    while i < names.len()
        invariant
            i <= names@.len(),
            lowers@.len() == names@.len(),
            ls == lowers@.map_values(|l: Vec<char>| l@),
            ns == views(names@),
            views(first@) == prefix_matches(arg@, ns.take(i as int), ls.take(i as int)),
            views(later@) == inner_matches(arg@, ns.take(i as int), ls.take(i as int)),
        decreases names.len() - i,
    {
        proof {
            assert(ns.take(i + 1).drop_last() =~= ns.take(i as int));
            assert(ls.take(i + 1).drop_last() =~= ls.take(i as int));
            assert(ls.take(i + 1)[i as int] == lowers@[i as int]@);
            assert(ns.take(i + 1).last() == names@[i as int]@);
        }
        let prefix = chars_starts_with(&lowers[i], arg);
        let ghost (f0, l0) = (first@, later@);
        if prefix {
            first.push(names[i].clone());
            assert(views(first@) =~= views(f0).push(names@[i as int]@));
        } else if chars_contains(&lowers[i], arg) {
            later.push(names[i].clone());
            assert(views(later@) =~= views(l0).push(names@[i as int]@));
        }
        i += 1;
    }
    proof {
        assert(ns.take(names@.len() as int) =~= ns);
        assert(ls.take(names@.len() as int) =~= ls);
    }
    let ghost f1 = first@;
    let mut j: usize = 0;
    while j < later.len()
        invariant
            j <= later@.len(),
            views(first@) == views(f1) + views(later@).take(j as int),
        decreases later.len() - j,
    {
        let ghost before = first@;
        first.push(later[j].clone());
        assert(views(first@) =~= views(before).push(later@[j as int]@));
        assert(views(later@).take(j + 1) =~= views(later@).take(j as int).push(later@[j as int]@));
        j += 1;
    }
    assert(views(later@).take(later@.len() as int) =~= views(later@));
    first
}

/// The lowercase forms of `names`.
fn lowercase_all(names: &Vec<String>) -> (r: Vec<Vec<char>>)
    ensures
        r@.len() == names@.len(),
        forall|i: int| 0 <= i < names@.len() ==> #[trigger] r@[i]@ == lowercased(names@[i]@),
{
    let mut r: Vec<Vec<char>> = Vec::new();
    let mut i: usize = 0;
    while i < names.len()
        invariant
            i <= names@.len(),
            r@.len() == i,
            forall|k: int| 0 <= k < i ==> #[trigger] r@[k]@ == lowercased(names@[k]@),
        decreases names.len() - i,
    {
        let lower = to_lowercase(names[i].as_str());
        r.push(chars_of(lower.as_str()));
        i += 1;
    }
    r
}

/// The lowercase forms of the names.
pub open spec fn lowered(names: Seq<Seq<char>>) -> Seq<Seq<char>> {
    names.map_values(|n: Seq<char>| lowercased(n))
}

/// The names matching `arg` regardless of case: those beginning with it first, then those
/// holding it further in, each group in the given order.
pub fn filter_candidates(arg: &str, names: &Vec<String>) -> (r: Vec<String>)
    ensures
        views(r@) == ranked(lowercased(arg@), views(names@), lowered(views(names@))),
{
    let lower_arg = chars_of(to_lowercase(arg).as_str());
    let lowers = lowercase_all(names);
    let r = rank_candidates(&lower_arg, names, &lowers);
    assert(lowers@.map_values(|l: Vec<char>| l@) =~= lowered(views(names@)));
    r
}

/// An empty argument matches every name, in the given order.
pub proof fn lemma_empty_argument_lists_all(names: Seq<Seq<char>>, lowers: Seq<Seq<char>>)
    requires
        lowers.len() == names.len(),
    ensures
        ranked(seq![], names, lowers) == names,
    decreases names.len(),
{
    if names.len() > 0 {
        lemma_empty_argument_lists_all(names.drop_last(), lowers.drop_last());
        assert(lowers[names.len() - 1].subrange(0, 0) =~= Seq::<char>::empty());
        assert(starts_with(lowers[names.len() - 1], seq![]));
        lemma_no_inner_match_for_empty(names, lowers);
        assert(prefix_matches(seq![], names.drop_last(), lowers.drop_last()) =~= names.drop_last());
        assert(names.drop_last().push(names.last()) =~= names);
    }
    assert(inner_matches(seq![], names, lowers) =~= seq![]) by {
        lemma_no_inner_match_for_empty(names, lowers);
    }
}

proof fn lemma_no_inner_match_for_empty(names: Seq<Seq<char>>, lowers: Seq<Seq<char>>)
    requires
        lowers.len() == names.len(),
    ensures
        inner_matches(seq![], names, lowers) == Seq::<Seq<char>>::empty(),
    decreases names.len(),
{
    if names.len() > 0 {
        lemma_no_inner_match_for_empty(names.drop_last(), lowers.drop_last());
        assert(lowers[names.len() - 1].subrange(0, 0) =~= Seq::<char>::empty());
        assert(starts_with(lowers[names.len() - 1], seq![]));
    }
}

/// Every ranked candidate is one of the names, and none is listed more often than it occurs.
pub proof fn lemma_ranked_are_names(arg: Seq<char>, names: Seq<Seq<char>>, lowers: Seq<Seq<char>>)
    requires
        lowers.len() == names.len(),
    ensures
        ranked(arg, names, lowers).len() <= names.len(),
        forall|k: int|
            0 <= k < ranked(arg, names, lowers).len() ==> names.contains(
                #[trigger] ranked(arg, names, lowers)[k],
            ),
    decreases names.len(),
{
    if names.len() > 0 {
        let (n, l) = (names.drop_last(), lowers.drop_last());
        lemma_ranked_are_names(arg, n, l);
        let r = ranked(arg, names, lowers);
        assert forall|k: int| 0 <= k < r.len() implies names.contains(#[trigger] r[k]) by {
            let p = prefix_matches(arg, n, l);
            let q = inner_matches(arg, n, l);
            let rp = ranked(arg, n, l);
            if r[k] == names.last() {
                assert(names[names.len() - 1] == r[k]);
            } else {
                let x = r[k];
                if k < prefix_matches(arg, names, lowers).len() {
                    assert(x == rp[k]);
                } else {
                    let k2 = k - prefix_matches(arg, names, lowers).len();
                    assert(x == inner_matches(arg, names, lowers)[k2]);
                    assert(x == rp[p.len() + k2]);
                }
                assert(n.contains(x));
                let w = choose|w: int| 0 <= w < n.len() && n[w] == x;
                assert(names[w] == x);
            }
        }
    }
}

/// The names of the songlists the user may change (neither subscribed nor "liked songs"), in
/// order: what `collect`, `uncollect` and `playlist delete` can name.
pub open spec fn editable_names(songlists: Seq<Songlist>) -> Seq<Seq<char>> {
    songlists.filter(|s: Songlist| !s.subscribed && s.special_type != LIKED_SONGLIST_TYPE).map_values(
        |s: Songlist| s.name@,
    )
}

/// The names of the songlists the user may change, in order.
pub fn editable_songlist_names(songlists: &Vec<Songlist>) -> (r: Vec<String>)
    ensures
        views(r@) == editable_names(songlists@),
{
    let ghost keep = |s: Songlist| !s.subscribed && s.special_type != LIKED_SONGLIST_TYPE;
    let ghost name_of = |s: Songlist| s.name@;
    let mut r: Vec<String> = Vec::new();
    let mut i: usize = 0;
    while i < songlists.len()
        invariant
            i <= songlists@.len(),
            keep == (|s: Songlist| !s.subscribed && s.special_type != LIKED_SONGLIST_TYPE),
            name_of == (|s: Songlist| s.name@),
            views(r@) == songlists@.take(i as int).filter(keep).map_values(name_of),
        decreases songlists.len() - i,
    {
        proof {
            reveal_with_fuel(Seq::<_>::filter, 1);
            assert(songlists@.take(i + 1).drop_last() =~= songlists@.take(i as int));
        }
        let s = &songlists[i];
        if !s.subscribed && s.special_type != LIKED_SONGLIST_TYPE {
            let ghost before = r@;
            r.push(s.name.clone());
            proof {
                let f = songlists@.take(i as int).filter(keep);
                assert(songlists@.take(i + 1).filter(keep) == f.push(songlists@[i as int]));
                assert(views(r@) =~= views(before).push(s.name@));
                assert(f.push(songlists@[i as int]).map_values(name_of) =~= f.map_values(
                    name_of,
                ).push(s.name@));
            }
        }
        i += 1;
    }
    assert(songlists@.take(songlists@.len() as int) =~= songlists@);
    r
}

/// The command words whose argument is a songlist name, with the space that ends them.
pub open spec fn completion_prefixes() -> Seq<Seq<char>> {
    seq!["collect "@, "uncollect "@, "playlist delete "@]
}

/// The first command word of `completion_prefixes` that `line` begins with.
pub open spec fn completion_prefix_of(line: Seq<char>) -> Option<Seq<char>> {
    if starts_with(line, "collect "@) {
        Some("collect "@)
    } else if starts_with(line, "uncollect "@) {
        Some("uncollect "@)
    } else if starts_with(line, "playlist delete "@) {
        Some("playlist delete "@)
    } else {
        None
    }
}

/// The completion list of the command line: the command word, the candidate names, and the
/// highlighted one.
#[derive(Clone, Debug)]
pub struct CompletionState {
    pub prefix: String,
    pub candidates: Vec<String>,
    pub selected: usize,
}

impl CompletionState {
    /// There is a candidate, and the highlighted one is a candidate.
    pub open spec fn wf(&self) -> bool {
        0 <= self.selected < self.candidates@.len()
    }

    /// Highlights the next candidate, the first after the last.
    pub fn select_next(&mut self)
        requires
            old(self).wf(),
        ensures
            final(self).wf(),
            final(self).selected == (old(self).selected + 1) % (old(self).candidates@.len() as int),
            final(self).candidates@ == old(self).candidates@,
            final(self).prefix@ == old(self).prefix@,
    {
        let n = self.candidates.len();
        self.selected = (self.selected + 1) % n;
    }

    /// Highlights the previous candidate, the last before the first.
    pub fn select_previous(&mut self)
        requires
            old(self).wf(),
            old(self).selected + old(self).candidates@.len() - 1 <= usize::MAX,
        ensures
            final(self).wf(),
            final(self).selected == (old(self).selected + old(self).candidates@.len() - 1) % (old(
                self,
            ).candidates@.len() as int),
            final(self).candidates@ == old(self).candidates@,
            final(self).prefix@ == old(self).prefix@,
    {
        let n = self.candidates.len();
        self.selected = (self.selected + (n - 1)) % n;
        assert(self.selected == (old(self).selected + old(self).candidates@.len() - 1) % (old(
            self,
        ).candidates@.len() as int));
    }

    /// The command line with the highlighted candidate filled in.
    pub fn completed(&self) -> (r: String)
        requires
            self.wf(),
        ensures
            r@ == self.prefix@ + self.candidates@[self.selected as int]@,
    {
        concat2(self.prefix.as_str(), self.candidates[self.selected].as_str())
    }
}

/// Highlighting the next candidate and then the previous one comes back to the first.
pub proof fn lemma_completion_round_trip(selected: int, count: int)
    requires
        0 <= selected < count,
    ensures
        ((selected + 1) % count + count - 1) % count == selected,
        ((selected + count - 1) % count + 1) % count == selected,
{
    vstd::arithmetic::div_mod::lemma_mod_self_0(count);
    if selected + 1 < count {
        vstd::arithmetic::div_mod::lemma_small_mod((selected + 1) as nat, count as nat);
        vstd::arithmetic::div_mod::lemma_mod_add_multiples_vanish(selected, count);
        vstd::arithmetic::div_mod::lemma_small_mod(selected as nat, count as nat);
    } else {
        vstd::arithmetic::div_mod::lemma_small_mod((count - 1) as nat, count as nat);
    }
    if selected > 0 {
        vstd::arithmetic::div_mod::lemma_mod_add_multiples_vanish(selected - 1, count);
        vstd::arithmetic::div_mod::lemma_small_mod((selected - 1) as nat, count as nat);
        vstd::arithmetic::div_mod::lemma_small_mod(selected as nat, count as nat);
    } else {
        vstd::arithmetic::div_mod::lemma_small_mod((count - 1) as nat, count as nat);
    }
}

/// The completion list for the command line `line`: when it begins with a command word that
/// takes a songlist name, the names of `names` (the user's own songlists) matching what
/// follows, ranked; none when nothing matches.
pub fn completion_for(line: &str, names: &Vec<String>) -> (r: Option<CompletionState>)
    ensures
        match completion_prefix_of(line@) {
            None => r is None,
            Some(p) => {
                let c = ranked(
                    lowercased(line@.skip(p.len() as int)),
                    views(names@),
                    lowered(views(names@)),
                );
                if c.len() == 0 {
                    r is None
                } else {
                    r matches Some(s) && s.wf() && s.prefix@ == p && views(s.candidates@) == c
                        && s.selected == 0
                }
            },
        },
{
    let chars = chars_of(line);
    let prefix: &str = if chars_starts_with(&chars, &chars_of("collect ")) {
        "collect "
    } else if chars_starts_with(&chars, &chars_of("uncollect ")) {
        "uncollect "
    } else if chars_starts_with(&chars, &chars_of("playlist delete ")) {
        "playlist delete "
    } else {
        return None;
    };
    let n = prefix.unicode_len();
    let arg = string_of(&slice_chars(&chars, n, chars.len()));
    assert(arg@ =~= line@.skip(prefix@.len() as int));
    let candidates = filter_candidates(arg.as_str(), names);
    if candidates.len() == 0 {
        assert(views(candidates@).len() == 0);
        return None;
    }
    assert(views(candidates@).len() == candidates@.len());
    Some(CompletionState { prefix: String::from_str(prefix), candidates, selected: 0 })
}

/// Where the songs of `DownloadPlaylist` come from on the current screen.
#[derive(Clone, Copy, PartialEq, Eq, Structural, Debug)]
pub enum PlaylistSource {
    /// The current playlist of the player (main screen).
    CurrentPlaylist,
    /// The songlist under the cursor, loaded first (songlist screen).
    SelectedSonglist,
    /// The loaded day of recommendations (daily screen).
    LoadedDay,
    /// The screen has no playlist to download: "当前界面不支持下载歌单".
    Unsupported,
}

/// What the player itself does with a command taken from the queue, before the screen gets
/// it (see `forwards_to_screen`).
#[derive(Clone, Copy, PartialEq, Eq, Structural, Debug)]
pub enum AppEvent {
    Quit,
    /// Show the screen (not the login screen while logged in).
    SwitchScreen(ScreenEnum),
    EnterCommandLine,
    Logout,
    PlayOrPause,
    SetVolume,
    VolumeUp,
    VolumeDown,
    SwitchPlayMode,
    StartPlay,
    NextSong,
    PrevSong,
    /// Like or unlike the current song (`like_target`).
    SetSongLiked,
    /// Download the song under the cursor of the current screen, if it shows songs.
    DownloadSong { from_screen: bool },
    DownloadPlaylist(PlaylistSource),
    /// Show the command's message on the command line.
    ShowMessage,
    /// Collect the current song into (`true`) or remove it from the named songlist.
    Collect(bool),
    CreateSonglist,
    DeleteSonglistByName,
    /// Ask to confirm the removal the command describes (`confirm_song_removal`).
    ConfirmSongRemoval,
    /// Ask to remove the song under the main screen's cursor (`current_playlist_removal`).
    RemoveCursorSong,
    /// Start the command line with the given command word: `true` for "playlist create ",
    /// `false` for "collect " with its completions.
    NewOrCollect(bool),
    /// Enter the search mode with the command's keywords.
    Search,
    /// Nothing for the player itself.
    Nothing,
}

/// Whether a screen shows songs that `DownloadSong` can take.
pub open spec fn shows_songs(screen: ScreenEnum) -> bool {
    screen is Main || screen is Songlists || screen is Daily
}

/// What the player does with `cmd` while `screen` is shown.
pub open spec fn spec_app_event(cmd: Command, screen: ScreenEnum) -> AppEvent {
    match cmd {
        Command::Quit => AppEvent::Quit,
        Command::GotoScreen(s) => AppEvent::SwitchScreen(s),
        Command::EnterCommand => AppEvent::EnterCommandLine,
        Command::Logout => AppEvent::Logout,
        Command::PlayOrPause => AppEvent::PlayOrPause,
        Command::SetVolume(_) => AppEvent::SetVolume,
        Command::VolumeUp => AppEvent::VolumeUp,
        Command::VolumeDown => AppEvent::VolumeDown,
        Command::SwitchPlayMode(_) => AppEvent::SwitchPlayMode,
        Command::StartPlay => AppEvent::StartPlay,
        Command::NextSong => AppEvent::NextSong,
        Command::PrevSong => AppEvent::PrevSong,
        Command::SetSongLiked(_) => AppEvent::SetSongLiked,
        Command::DownloadSong => AppEvent::DownloadSong { from_screen: shows_songs(screen) },
        Command::DownloadPlaylist => AppEvent::DownloadPlaylist(
            match screen {
                ScreenEnum::Main => PlaylistSource::CurrentPlaylist,
                ScreenEnum::Songlists => PlaylistSource::SelectedSonglist,
                ScreenEnum::Daily => PlaylistSource::LoadedDay,
                _ => PlaylistSource::Unsupported,
            },
        ),
        Command::DownloadFinished(_) | Command::ShowMessage(_) => AppEvent::ShowMessage,
        Command::CollectToSonglist(_) => AppEvent::Collect(true),
        Command::UncollectFromSonglist(_) => AppEvent::Collect(false),
        Command::CreateSonglist(_) => AppEvent::CreateSonglist,
        Command::DeleteSonglistByName(_) => AppEvent::DeleteSonglistByName,
        Command::RemoveSongFromSonglist { .. } => AppEvent::ConfirmSongRemoval,
        Command::RemoveFromCurrentPlaylist => AppEvent::RemoveCursorSong,
        Command::Delete => if screen is Main {
            AppEvent::RemoveCursorSong
        } else {
            AppEvent::Nothing
        },
        Command::NewOrCollect => match screen {
            ScreenEnum::Songlists => AppEvent::NewOrCollect(true),
            ScreenEnum::Main | ScreenEnum::Daily => AppEvent::NewOrCollect(false),
            _ => AppEvent::Nothing,
        },
        Command::SearchForward(_) | Command::SearchBackward(_) => AppEvent::Search,
        _ => AppEvent::Nothing,
    }
}

/// What the player does with `cmd` while `screen` is shown.
pub fn app_event(cmd: &Command, screen: ScreenEnum) -> (r: AppEvent)
    ensures
        r == spec_app_event(*cmd, screen),
{
    let song_screen = match screen {
        ScreenEnum::Main | ScreenEnum::Songlists | ScreenEnum::Daily => true,
        _ => false,
    };
    match cmd {
        Command::Quit => AppEvent::Quit,
        Command::GotoScreen(s) => AppEvent::SwitchScreen(*s),
        Command::EnterCommand => AppEvent::EnterCommandLine,
        Command::Logout => AppEvent::Logout,
        Command::PlayOrPause => AppEvent::PlayOrPause,
        Command::SetVolume(_) => AppEvent::SetVolume,
        Command::VolumeUp => AppEvent::VolumeUp,
        Command::VolumeDown => AppEvent::VolumeDown,
        Command::SwitchPlayMode(_) => AppEvent::SwitchPlayMode,
        Command::StartPlay => AppEvent::StartPlay,
        Command::NextSong => AppEvent::NextSong,
        Command::PrevSong => AppEvent::PrevSong,
        Command::SetSongLiked(_) => AppEvent::SetSongLiked,
        Command::DownloadSong => AppEvent::DownloadSong { from_screen: song_screen },
        Command::DownloadPlaylist => AppEvent::DownloadPlaylist(
            match screen {
                ScreenEnum::Main => PlaylistSource::CurrentPlaylist,
                ScreenEnum::Songlists => PlaylistSource::SelectedSonglist,
                ScreenEnum::Daily => PlaylistSource::LoadedDay,
                _ => PlaylistSource::Unsupported,
            },
        ),
        Command::DownloadFinished(_) | Command::ShowMessage(_) => AppEvent::ShowMessage,
        Command::CollectToSonglist(_) => AppEvent::Collect(true),
        Command::UncollectFromSonglist(_) => AppEvent::Collect(false),
        Command::CreateSonglist(_) => AppEvent::CreateSonglist,
        Command::DeleteSonglistByName(_) => AppEvent::DeleteSonglistByName,
        Command::RemoveSongFromSonglist { .. } => AppEvent::ConfirmSongRemoval,
        Command::RemoveFromCurrentPlaylist => AppEvent::RemoveCursorSong,
        Command::Delete => match screen {
            ScreenEnum::Main => AppEvent::RemoveCursorSong,
            _ => AppEvent::Nothing,
        },
        Command::NewOrCollect => match screen {
            ScreenEnum::Songlists => AppEvent::NewOrCollect(true),
            ScreenEnum::Main | ScreenEnum::Daily => AppEvent::NewOrCollect(false),
            _ => AppEvent::Nothing,
        },
        Command::SearchForward(_) | Command::SearchBackward(_) => AppEvent::Search,
        _ => AppEvent::Nothing,
    }
}

/// Whether the command goes on to the screen shown, after the player's own handling: the
/// moves, focus changes and list commands the screens take, the songlist view switch and the
/// pin commands among them.
pub open spec fn spec_forwards_to_screen(cmd: Command) -> bool {
    match cmd {
        Command::Down | Command::Up | Command::NextPanel | Command::PrevPanel | Command::Esc
        | Command::EnterOrPlay | Command::Play | Command::WhereIsThisSong
        | Command::SyncPlaylistCursor | Command::GoToTop | Command::GoToBottom | Command::Delete
        | Command::SongRemovalDone { .. } | Command::SearchForward(_) | Command::SearchBackward(_)
        | Command::RefreshPlaylist | Command::ToggleSonglistView | Command::TogglePinSonglist
        | Command::MovePinnedSonglistUp | Command::MovePinnedSonglistDown => true,
        _ => false,
    }
}

/// Whether the command goes on to the screen shown.
pub fn forwards_to_screen(cmd: &Command) -> (r: bool)
    ensures
        r == spec_forwards_to_screen(*cmd),
{
    match cmd {
        Command::Down | Command::Up | Command::NextPanel | Command::PrevPanel | Command::Esc
        | Command::EnterOrPlay | Command::Play | Command::WhereIsThisSong
        | Command::SyncPlaylistCursor | Command::GoToTop | Command::GoToBottom | Command::Delete
        | Command::SongRemovalDone { .. } | Command::SearchForward(_) | Command::SearchBackward(_)
        | Command::RefreshPlaylist | Command::ToggleSonglistView | Command::TogglePinSonglist
        | Command::MovePinnedSonglistUp | Command::MovePinnedSonglistDown => true,
        _ => false,
    }
}

/// The message shown when the login screen is asked for while an account is logged in.
pub fn login_refusal_message(nickname: Option<&str>) -> (r: String)
    ensures
        r@ == match nickname {
            Some(n) => "正在使用`"@ + n@ + "`账号，请先使用`logout`命令登出当前账号"@,
            None => "请先使用`logout`命令登出当前账号"@,
        },
{
    match nickname {
        Some(n) => crate::text::concat3("正在使用`", n, "`账号，请先使用`logout`命令登出当前账号"),
        None => String::from_str("请先使用`logout`命令登出当前账号"),
    }
}

/// Every command the screens take is one the player itself leaves alone, except `Delete` on
/// the main screen and the searches, which both do something.
pub proof fn lemma_screen_commands_pass_through(cmd: Command, screen: ScreenEnum)
    ensures
        spec_forwards_to_screen(cmd) && !(cmd is Delete) && !(cmd is SearchForward) && !(
        cmd is SearchBackward) ==> spec_app_event(cmd, screen) is Nothing,
{
}

/// In the normal mode exactly one key turns the volume down, `-`, and exactly one turns it up,
/// `=`, whatever modifiers are held; neither starts a search.
pub proof fn lemma_volume_keys(key: Key, alt: bool, shift: bool)
    ensures
        spec_key_command(key, alt, shift) is VolumeDown <==> key == Key::Char('-'),
        spec_key_command(key, alt, shift) is VolumeUp <==> key == Key::Char('='),
        spec_search_key(Key::Char('-')) is None,
        spec_search_key(Key::Char('=')) is None,
{
}

/// Which keys give each command in the normal mode, over all keys and modifiers: the cursor
/// keys and `j`/`k` move, Shift with them or `J`/`K` moves a pinned songlist, the panel keys,
/// Enter (with Alt, play), the screen digits and F1, and the single-letter commands.
pub proof fn lemma_key_map(key: Key, alt: bool, shift: bool)
    ensures
        ({
            let cmd = spec_key_command(key, alt, shift);
            &&& cmd is Down <==> (key == Key::Char('j') || (key == Key::Down && !shift))
            &&& cmd is Up <==> (key == Key::Char('k') || (key == Key::Up && !shift))
            &&& cmd is MovePinnedSonglistDown <==> (key == Key::Char('J') || (key == Key::Down && shift))
            &&& cmd is MovePinnedSonglistUp <==> (key == Key::Char('K') || (key == Key::Up && shift))
            &&& cmd is PlayOrPause <==> key == Key::Char(' ')
            &&& cmd is SetSongLiked <==> key == Key::Char('l')
            &&& cmd is NextSong <==> (key == Key::Char('.') || key == Key::Char('。') || key == Key::Char('>'))
            &&& cmd is PrevSong <==> (key == Key::Char(',') || key == Key::Char('，') || key == Key::Char('<'))
            &&& cmd is EnterCommand <==> (key == Key::Char(':') || key == Key::Char('：'))
            &&& cmd is NewOrCollect <==> key == Key::Char('n')
            &&& cmd is Delete <==> key == Key::Char('d')
            &&& cmd is ToggleSonglistView <==> key == Key::Char('c')
            &&& cmd is TogglePinSonglist <==> key == Key::Char('p')
            &&& cmd is Quit <==> key == Key::Char('q')
            &&& cmd is NextPanel <==> (key == Key::Right || key == Key::Tab)
            &&& cmd is PrevPanel <==> (key == Key::Left || key == Key::BackTab || key == Key::Char('h'))
            &&& cmd is Esc <==> key == Key::Esc
            &&& cmd is Play <==> (key == Key::Enter && alt)
            &&& cmd is EnterOrPlay <==> (key == Key::Enter && !alt)
            &&& cmd == Command::GotoScreen(ScreenEnum::Main) <==> key == Key::Char('1')
            &&& cmd == Command::GotoScreen(ScreenEnum::Songlists) <==> key == Key::Char('2')
            &&& cmd == Command::GotoScreen(ScreenEnum::Daily) <==> key == Key::Char('3')
            &&& cmd == Command::GotoScreen(ScreenEnum::Settings) <==> key == Key::Char('9')
            &&& cmd == Command::GotoScreen(ScreenEnum::Help) <==> (key == Key::Char('0') || key == Key::F(1))
        }),
{
}

} // verus!
