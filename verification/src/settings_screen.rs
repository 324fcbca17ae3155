//! The settings screen: seven entries in three groups (API, playing, downloading), switched
//! or cycled in place, or edited as text.
use vstd::prelude::*;
use crate::command::Command;
use crate::settings::{
    cycle_quality, cycled_quality, display_name, is_quality, lemma_cycle_round_trip, quality_display_name, Settings,
    SettingsView,
};
use crate::text::{chars_eq_str, chars_of, string_of};

verus! {

/// Number of entries on the settings screen.
pub const SETTINGS_ITEM_COUNT: usize = 7;

/// How an entry is changed.
#[derive(Clone, Copy, PartialEq, Eq, Structural, Debug)]
pub enum ItemKind {
    /// Switched on and off.
    Bool,
    /// Cycled through the quality keys.
    Quality,
    /// Edited as text.
    Text,
}

/// How entry `i` is changed: 0 is the remote API switch, 2 and 4 are the playing and the
/// download quality, the others are texts.
pub open spec fn spec_item_kind(i: int) -> ItemKind {
    if i == 0 {
        ItemKind::Bool
    } else if i == 2 || i == 4 {
        ItemKind::Quality
    } else {
        ItemKind::Text
    }
}

/// The labels of the entries.
pub open spec fn item_labels() -> Seq<Seq<char>> {
    seq![
        "使用远程 API"@,
        "远程 API 地址"@,
        "在线播放音质"@,
        "下载目录"@,
        "下载音质"@,
        "歌曲命名模板"@,
        "歌词命名模板"@,
    ]
}

/// The group of entry `i`: 0 for the API entries (0 and 1), 1 for playing (2), 2 for
/// downloading (3 to 6).
pub open spec fn spec_group_of(i: int) -> int {
    if i <= 1 {
        0
    } else if i == 2 {
        1
    } else {
        2
    }
}

/// How entry `i` is changed.
pub fn item_kind(i: usize) -> (r: ItemKind)
    ensures
        r == spec_item_kind(i as int),
{
    if i == 0 {
        ItemKind::Bool
    } else if i == 2 || i == 4 {
        ItemKind::Quality
    } else {
        ItemKind::Text
    }
}

/// The label of entry `i`.
pub fn item_label(i: usize) -> (r: &'static str)
    requires
        i < SETTINGS_ITEM_COUNT,
    ensures
        r@ == item_labels()[i as int],
{
    match i {
        0 => "使用远程 API",
        1 => "远程 API 地址",
        2 => "在线播放音质",
        3 => "下载目录",
        4 => "下载音质",
        5 => "歌曲命名模板",
        _ => "歌词命名模板",
    }
}

/// The title of the group of entry `index`.
pub fn group_header(index: usize) -> (r: &'static str)
    ensures
        r@ == (if index <= 1 {
            "API"@
        } else if index == 2 {
            "播放"@
        } else {
            "下载"@
        }),
{
    if index <= 1 {
        "API"
    } else if index == 2 {
        "播放"
    } else {
        "下载"
    }
}

/// The group of entry `i`.
fn group_of(i: usize) -> (r: usize)
    ensures
        r == spec_group_of(i as int),
{
    if i <= 1 {
        0
    } else if i == 2 {
        1
    } else {
        2
    }
}

/// The line entry `i` is drawn on, each group being headed by a line with its title.
pub fn item_line(i: usize) -> (r: usize)
    requires
        i < SETTINGS_ITEM_COUNT,
    ensures
        r == i + spec_group_of(i as int) + 1,
{
    let mut line: usize = 0;
    let mut index: usize = 0;
    loop
        invariant
            i < SETTINGS_ITEM_COUNT,
            index <= i,
            line == index + (if index == 0 {
                0
            } else {
                spec_group_of(index - 1) + 1
            }),
        decreases i - index,
    {
        if index == 0 || group_of(index) != group_of(index - 1) {
            line += 1;
        }
        if index == i {
            return line;
        }
        line += 1;
        index += 1;
    }
}

/// The text shown for entry `i` of `s`: on or off, a quality by its display name, or the text.
pub open spec fn spec_value(s: SettingsView, i: int) -> Seq<char> {
    if i == 0 {
        if s.use_remote_api {
            "开"@
        } else {
            "关"@
        }
    } else if i == 1 {
        s.remote_api_url
    } else if i == 2 {
        display_name(s.play_quality)
    } else if i == 3 {
        s.download_path
    } else if i == 4 {
        display_name(s.download_quality)
    } else if i == 5 {
        s.download_file_name_pattern
    } else {
        s.download_lyric_name_pattern
    }
}

/// `s` with entry `i` set from `value`: the switch is on exactly for "开", a quality entry
/// takes the key as it is.
pub open spec fn spec_with_value(s: SettingsView, i: int, value: Seq<char>) -> SettingsView {
    if i == 0 {
        SettingsView { use_remote_api: value == "开"@, ..s }
    } else if i == 1 {
        SettingsView { remote_api_url: value, ..s }
    } else if i == 2 {
        SettingsView { play_quality: value, ..s }
    } else if i == 3 {
        SettingsView { download_path: value, ..s }
    } else if i == 4 {
        SettingsView { download_quality: value, ..s }
    } else if i == 5 {
        SettingsView { download_file_name_pattern: value, ..s }
    } else {
        SettingsView { download_lyric_name_pattern: value, ..s }
    }
}

/// `s` after entry `i` is switched or cycled one step (forward or backward); text entries are
/// not changed this way.
pub open spec fn spec_cycled(s: SettingsView, i: int, forward: bool) -> SettingsView {
    match spec_item_kind(i) {
        ItemKind::Bool => SettingsView { use_remote_api: !s.use_remote_api, ..s },
        ItemKind::Quality => if i == 2 {
            SettingsView { play_quality: cycled_quality(s.play_quality, forward), ..s }
        } else {
            SettingsView { download_quality: cycled_quality(s.download_quality, forward), ..s }
        },
        ItemKind::Text => s,
    }
}

/// What the settings screen does with a command.
#[derive(Clone, Debug)]
pub enum FormOutcome {
    /// The screen does not take the command.
    Unhandled,
    /// The command was taken; nothing is to be stored.
    Handled,
    /// An entry changed: the settings are to be stored (and the API checked again if its
    /// entries changed), then `finish_apply` reports how it went.
    Apply,
    /// Editing of the selected entry starts, from this text.
    StartEdit(String),
}

/// How a command moves the settings screen.
pub enum FormMove {
    Ignore,
    Select(int),
    Cycle(bool),
    Edit,
}

/// How `cmd` moves a settings screen whose cursor is on `selected`.
pub open spec fn spec_form_move(selected: int, editing: bool, cmd: Command) -> FormMove {
    if editing {
        FormMove::Ignore
    } else {
        match cmd {
            Command::Up => FormMove::Select((selected + SETTINGS_ITEM_COUNT - 1) % (
            SETTINGS_ITEM_COUNT as int)),
            Command::Down => FormMove::Select((selected + 1) % (SETTINGS_ITEM_COUNT as int)),
            Command::PrevPanel => FormMove::Cycle(false),
            Command::NextPanel => if spec_item_kind(selected) is Text {
                FormMove::Ignore
            } else {
                FormMove::Cycle(true)
            },
            Command::EnterOrPlay => if spec_item_kind(selected) is Text {
                FormMove::Edit
            } else {
                FormMove::Cycle(true)
            },
            _ => FormMove::Ignore,
        }
    }
}

/// The settings screen: the settings being shown, the cursor, the entry being edited and a
/// status line.
#[derive(Clone, Debug)]
pub struct SettingsScreen {
    pub settings: Settings,
    pub selected: usize,
    pub editing: Option<usize>,
    pub status: String,
}

impl SettingsScreen {
    /// The cursor and the entry being edited are entries.
    pub open spec fn wf(&self) -> bool {
        &&& self.selected < SETTINGS_ITEM_COUNT
        &&& self.editing matches Some(e) ==> e < SETTINGS_ITEM_COUNT
    }

    /// A screen showing `settings`, the cursor on the first entry, nothing being edited.
    pub fn new(settings: Settings) -> (r: Self)
        ensures
            r.wf(),
            r.settings@ == settings@,
            r.selected == 0,
            r.editing is None,
            r.status@.len() == 0,
    {
        SettingsScreen { settings, selected: 0, editing: None, status: String::new() }
    }

    /// Whether an entry is being edited.
    pub fn is_editing(&self) -> (r: bool)
        ensures
            r == self.editing is Some,
    {
        self.editing.is_some()
    }

    /// The text shown for entry `index`.
    pub fn value(&self, index: usize) -> (r: String)
        requires
            index < SETTINGS_ITEM_COUNT,
        ensures
            r@ == spec_value(self.settings@, index as int),
    {
        match index {
            0 => if self.settings.use_remote_api {
                String::from_str("开")
            } else {
                String::from_str("关")
            },
            1 => self.settings.remote_api_url.clone(),
            2 => String::from_str(quality_display_name(self.settings.play_quality.as_str())),
            3 => self.settings.download_path.clone(),
            4 => String::from_str(quality_display_name(self.settings.download_quality.as_str())),
            5 => self.settings.download_file_name_pattern.clone(),
            _ => self.settings.download_lyric_name_pattern.clone(),
        }
    }

    /// Sets entry `index` from `value`.
    pub fn set_value(&mut self, index: usize, value: String)
        requires
            index < SETTINGS_ITEM_COUNT,
        ensures
            final(self).settings@ == spec_with_value(old(self).settings@, index as int, value@),
            final(self).selected == old(self).selected,
            final(self).editing == old(self).editing,
            final(self).status@ == old(self).status@,
    {
        match index {
            0 => {
                let on = chars_eq_str(&chars_of(value.as_str()), "开");
                self.settings.use_remote_api = on;
            },
            1 => self.settings.remote_api_url = value,
            2 => self.settings.play_quality = value,
            3 => self.settings.download_path = value,
            4 => self.settings.download_quality = value,
            5 => self.settings.download_file_name_pattern = value,
            _ => self.settings.download_lyric_name_pattern = value,
        }
    }

    /// Switches or cycles the selected entry; returns whether it changed (text entries do
    /// not).
    fn cycle(&mut self, forward: bool) -> (r: bool)
        requires
            old(self).wf(),
        ensures
            r == !(spec_item_kind(old(self).selected as int) is Text),
            final(self).settings@ == spec_cycled(
                old(self).settings@,
                old(self).selected as int,
                forward,
            ),
            final(self).selected == old(self).selected,
            final(self).editing == old(self).editing,
            final(self).status@ == old(self).status@,
    {
        match item_kind(self.selected) {
            ItemKind::Bool => {
                self.settings.use_remote_api = !self.settings.use_remote_api;
                true
            },
            ItemKind::Quality => {
                let next = if self.selected == 2 {
                    cycle_quality(self.settings.play_quality.as_str(), forward)
                } else {
                    cycle_quality(self.settings.download_quality.as_str(), forward)
                };
                self.set_value(self.selected, String::from_str(next));
                true
            },
            ItemKind::Text => false,
        }
    }

    /// Handles a command: nothing while an entry is edited; `Up` and `Down` move the cursor,
    /// wrapping around; `PrevPanel` cycles the selected entry backward, `NextPanel` forward;
    /// `EnterOrPlay` starts editing a text entry and cycles the others forward.
    pub fn handle_event(&mut self, cmd: &Command) -> (r: FormOutcome)
        requires
            old(self).wf(),
        ensures
            final(self).wf(),
            ({
                let mv = spec_form_move(old(self).selected as int, old(self).editing is Some, *cmd);
                let sel = old(self).selected;
                let before = old(self).settings@;
                let after = final(self).settings@;
                let status_kept = final(self).status@ == old(self).status@;
                &&& final(self).editing == (if mv is Edit {
                    Some(sel)
                } else {
                    old(self).editing
                })
                &&& mv is Ignore ==> r is Unhandled && final(self).selected == sel && after
                    == before && status_kept
                &&& mv matches FormMove::Select(k) ==> r is Handled && final(self).selected == k
                    && after == before && status_kept
                &&& mv matches FormMove::Cycle(forward) ==> (if spec_item_kind(sel as int) is Text {
                    r is Handled
                } else {
                    r is Apply
                }) && final(self).selected == sel && after == spec_cycled(
                    before,
                    sel as int,
                    forward,
                ) && status_kept
                &&& mv is Edit ==> (r matches FormOutcome::StartEdit(v) && v@ == spec_value(
                    before,
                    sel as int,
                )) && final(self).selected == sel && after == before && final(self).status@
                    == "编辑中：Enter 确认，Esc 取消"@
            }),
    {
        if self.editing.is_some() {
            return FormOutcome::Unhandled;
        }
        match cmd {
            Command::Up => {
                self.selected = (self.selected + SETTINGS_ITEM_COUNT - 1) % SETTINGS_ITEM_COUNT;
                FormOutcome::Handled
            },
            Command::Down => {
                self.selected = (self.selected + 1) % SETTINGS_ITEM_COUNT;
                FormOutcome::Handled
            },
            Command::PrevPanel => {
                if self.cycle(false) {
                    FormOutcome::Apply
                } else {
                    FormOutcome::Handled
                }
            },
            Command::NextPanel | Command::EnterOrPlay => {
                let enter = match cmd {
                    Command::EnterOrPlay => true,
                    _ => false,
                };
                match item_kind(self.selected) {
                    ItemKind::Text => if enter {
                        let value = self.value(self.selected);
                        self.editing = Some(self.selected);
                        self.status = String::from_str("编辑中：Enter 确认，Esc 取消");
                        FormOutcome::StartEdit(value)
                    } else {
                        FormOutcome::Unhandled
                    },
                    _ => {
                        self.cycle(true);
                        FormOutcome::Apply
                    },
                }
            },
            _ => FormOutcome::Unhandled,
        }
    }

    /// Ends an edit with `text` as the entry's new value; returns whether there was an edit
    /// (the settings are then to be stored).
    pub fn commit_edit(&mut self, text: String) -> (r: bool)
        requires
            old(self).wf(),
        ensures
            final(self).wf(),
            r == old(self).editing is Some,
            final(self).editing is None,
            final(self).settings@ == (match old(self).editing {
                Some(i) => spec_with_value(old(self).settings@, i as int, text@),
                None => old(self).settings@,
            }),
            final(self).selected == old(self).selected,
            final(self).status@ == old(self).status@,
    {
        match self.editing {
            Some(index) => {
                self.editing = None;
                self.set_value(index, text);
                true
            },
            None => false,
        }
    }

    /// Ends an edit without changing the entry.
    pub fn cancel_edit(&mut self)
        requires
            old(self).wf(),
        ensures
            final(self).wf(),
            final(self).editing is None,
            final(self).settings@ == old(self).settings@,
            final(self).selected == old(self).selected,
            final(self).status@ == "已取消编辑"@,
    {
        self.editing = None;
        self.status = String::from_str("已取消编辑");
    }

    /// Reports how storing went: whether the API entries changed and, if so, whether the API
    /// answers.
    pub fn finish_apply(&mut self, api_changed: bool, api_ok: bool)
        requires
            old(self).wf(),
        ensures
            final(self).wf(),
            final(self).status@ == (if !api_changed {
                "已保存"@
            } else if api_ok {
                "已保存，API 连接正常"@
            } else {
                "已保存，但 API 连接失败，请检查配置"@
            }),
            final(self).settings@ == old(self).settings@,
            final(self).selected == old(self).selected,
            final(self).editing == old(self).editing,
    {
        self.status = if !api_changed {
            String::from_str("已保存")
        } else if api_ok {
            String::from_str("已保存，API 连接正常")
        } else {
            String::from_str("已保存，但 API 连接失败，请检查配置")
        };
    }

    /// Takes the settings the player holds now; returns whether they differ from the ones
    /// shown.
    pub fn update_model(&mut self, settings: Settings) -> (r: bool)
        requires
            old(self).wf(),
        ensures
            final(self).wf(),
            r == (settings@ != old(self).settings@),
            final(self).settings@ == settings@,
            final(self).selected == old(self).selected,
            final(self).editing == old(self).editing,
            final(self).status@ == old(self).status@,
    {
        if !settings.same_settings(&self.settings) {
            self.settings = settings;
            true
        } else {
            false
        }
    }
}

/// The three parts of an edited line around the cursor at column `col`: the characters before
/// it, the one under it (a space past the end), and the ones after it.
pub fn cursor_parts(text: &str, col: usize) -> (r: (String, char, String))
    requires
        col < usize::MAX,
    ensures
        r.0@ == text@.take(if col <= text@.len() { col as int } else { text@.len() as int }),
        r.1 == (if col < text@.len() {
            text@[col as int]
        } else {
            ' '
        }),
        r.2@ == (if col < text@.len() {
            text@.skip(col + 1)
        } else {
            Seq::<char>::empty()
        }),
{
    let chars = chars_of(text);
    let n = chars.len();
    let mut before: Vec<char> = Vec::new();
    let mut after: Vec<char> = Vec::new();
    let mut i: usize = 0;
    while i < n
        invariant
            n == chars@.len(),
            chars@ == text@,
            i <= n,
            before@ == text@.take(if col <= i { col as int } else { i as int }),
            after@ == (if col + 1 <= i {
                text@.subrange(col + 1, i as int)
            } else {
                Seq::<char>::empty()
            }),
        decreases n - i,
    {
        if i < col {
            before.push(chars[i]);
        } else if i > col {
            after.push(chars[i]);
        }
        proof {
            if i < col {
                assert(before@ =~= text@.take(i + 1));
            } else if i > col {
                assert(after@ =~= text@.subrange(col + 1, i + 1));
            } else {
                assert(text@.take(col as int) =~= text@.take(col as int));
            }
        }
        i += 1;
    }
    let cursor = if col < n {
        chars[col]
    } else {
        ' '
    };
    proof {
        if col + 1 <= n {
            assert(text@.subrange(col + 1, n as int) =~= text@.skip(col + 1));
        }
    }
    (string_of(&before), cursor, string_of(&after))
}

/// Moving the cursor up and back down returns it to its entry; it never leaves the seven
/// entries.
pub proof fn lemma_form_cursor_round_trip(selected: int)
    requires
        0 <= selected < SETTINGS_ITEM_COUNT,
    ensures
        spec_form_move(selected, false, Command::Up) matches FormMove::Select(k) && 0 <= k
            < SETTINGS_ITEM_COUNT && spec_form_move(k, false, Command::Down) == FormMove::Select(
            selected,
        ),
        spec_form_move(selected, false, Command::Down) matches FormMove::Select(k) && 0 <= k
            < SETTINGS_ITEM_COUNT,
{
}

/// While an entry is edited, the screen takes no command.
pub proof fn lemma_editing_ignores_commands(selected: int, cmd: Command)
    ensures
        spec_form_move(selected, true, cmd) is Ignore,
{
}

/// Switching or cycling an entry one step forward and then one step back restores the
/// settings, as long as the quality it cycles is a known key (an unknown one comes back as the
/// first key).
pub proof fn lemma_cycle_entry_round_trip(s: SettingsView, i: int)
    requires
        0 <= i < SETTINGS_ITEM_COUNT,
        i == 2 ==> is_quality(s.play_quality),
        i == 4 ==> is_quality(s.download_quality),
    ensures
        spec_cycled(spec_cycled(s, i, true), i, false) == s,
        spec_cycled(spec_cycled(s, i, false), i, true) == s,
{
    lemma_cycle_round_trip(s.play_quality);
    lemma_cycle_round_trip(s.download_quality);
}

} // verus!
