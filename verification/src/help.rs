//! The help screen: two scrollable pages, the keys of the normal mode and the commands of the
//! command line.
use vstd::prelude::*;
use crate::command::Command;

verus! {

/// The pages of the help screen.
#[derive(Clone, Copy, PartialEq, Eq, Structural, Debug)]
pub enum HelpPanel {
    Normal,
    CommandLine,
}

/// Which page has the focus, and how far each page is scrolled.
#[derive(Clone, Debug)]
pub struct HelpScreen {
    pub focus: HelpPanel,
    pub normal_scroll: u16,
    pub cmdline_scroll: u16,
}

/// The scroll of the page that has the focus.
pub open spec fn focused_scroll(s: HelpScreen) -> u16 {
    match s.focus {
        HelpPanel::Normal => s.normal_scroll,
        HelpPanel::CommandLine => s.cmdline_scroll,
    }
}

/// The other page.
pub open spec fn other_panel(p: HelpPanel) -> HelpPanel {
    match p {
        HelpPanel::Normal => HelpPanel::CommandLine,
        HelpPanel::CommandLine => HelpPanel::Normal,
    }
}

/// The help screen after `cmd`: `Up` and `Down` scroll the focused page by a line (never above
/// its top), `PrevPanel` and `NextPanel` give the focus to the other page.
pub open spec fn spec_help_step(s: HelpScreen, cmd: Command) -> HelpScreen {
    let scroll = focused_scroll(s);
    let scrolled = match cmd {
        Command::Up => if scroll > 0 {
            (scroll - 1) as u16
        } else {
            0u16
        },
        Command::Down => (scroll + 1) as u16,
        _ => scroll,
    };
    match cmd {
        Command::Up | Command::Down => match s.focus {
            HelpPanel::Normal => HelpScreen { normal_scroll: scrolled, ..s },
            HelpPanel::CommandLine => HelpScreen { cmdline_scroll: scrolled, ..s },
        },
        Command::PrevPanel | Command::NextPanel => HelpScreen { focus: other_panel(s.focus), ..s },
        _ => s,
    }
}

/// Whether the help screen takes `cmd`.
pub open spec fn help_takes(cmd: Command) -> bool {
    cmd is Up || cmd is Down || cmd is PrevPanel || cmd is NextPanel
}

/// The first line a page shows: its scroll, but no further than where its last line reaches
/// the bottom of the `inner_height` lines it is given (the bound taken modulo 2^16, as a
/// `u16`).
pub open spec fn spec_page_offset(scroll: u16, line_count: int, inner_height: int) -> u16 {
    let max_scroll = if line_count >= inner_height {
        line_count - inner_height
    } else {
        0
    };
    let bound = max_scroll % 0x10000;
    if scroll <= bound {
        scroll
    } else {
        bound as u16
    }
}

impl HelpScreen {
    /// The normal-mode page, focused and scrolled to the top.
    pub fn new() -> (r: Self)
        ensures
            r.focus == HelpPanel::Normal,
            r.normal_scroll == 0,
            r.cmdline_scroll == 0,
    {
        HelpScreen { focus: HelpPanel::Normal, normal_scroll: 0, cmdline_scroll: 0 }
    }

    /// Scrolls the focused page on `Up` and `Down` and switches pages on `PrevPanel` and
    /// `NextPanel`; returns whether the command was taken.
    pub fn handle_event(&mut self, cmd: &Command) -> (r: bool)
        requires
            *cmd is Down ==> focused_scroll(*old(self)) < u16::MAX,
        ensures
            r == help_takes(*cmd),
            *final(self) == spec_help_step(*old(self), *cmd),
    {
        match cmd {
            Command::Up => {
                match self.focus {
                    HelpPanel::Normal => self.normal_scroll = self.normal_scroll.saturating_sub(1),
                    HelpPanel::CommandLine => self.cmdline_scroll = self.cmdline_scroll.saturating_sub(
                        1,
                    ),
                }
                true
            },
            Command::Down => {
                match self.focus {
                    HelpPanel::Normal => self.normal_scroll = self.normal_scroll + 1,
                    HelpPanel::CommandLine => self.cmdline_scroll = self.cmdline_scroll + 1,
                }
                true
            },
            Command::PrevPanel | Command::NextPanel => {
                self.focus =
                    match self.focus {
                        HelpPanel::Normal => HelpPanel::CommandLine,
                        HelpPanel::CommandLine => HelpPanel::Normal,
                    };
                true
            },
            _ => false,
        }
    }
}

/// The first line shown of a page of `line_count` lines scrolled by `scroll`, in an area
/// `inner_height` lines high, and how far the page can scroll at most.
pub fn page_offset(scroll: u16, line_count: usize, inner_height: usize) -> (r: (u16, usize))
    ensures
        r.0 == spec_page_offset(scroll, line_count as int, inner_height as int),
        r.1 == (if line_count >= inner_height {
            line_count - inner_height
        } else {
            0
        }),
{
    let max_scroll = line_count.saturating_sub(inner_height);
    let bound = (max_scroll % 0x10000) as u16;
    let offset = if scroll <= bound {
        scroll
    } else {
        bound
    };
    (offset, max_scroll)
}

/// Scrolling down and back up returns the focused page to where it was; scrolling up at the
/// top stays there; the other page is never moved; switching pages twice gives the focus back.
pub proof fn lemma_help_round_trips(s: HelpScreen)
    ensures
        focused_scroll(s) < u16::MAX ==> spec_help_step(
            spec_help_step(s, Command::Down),
            Command::Up,
        ) == s,
        focused_scroll(s) == 0 ==> spec_help_step(s, Command::Up) == s,
        spec_help_step(spec_help_step(s, Command::NextPanel), Command::PrevPanel) == s,
        s.focus is Normal ==> spec_help_step(s, Command::Down).cmdline_scroll == s.cmdline_scroll,
        s.focus is CommandLine ==> spec_help_step(s, Command::Down).normal_scroll
            == s.normal_scroll,
{
}

/// A page is never drawn scrolled past the point where its last line shows, nor past its own
/// scroll.
pub proof fn lemma_page_offset_bounded(scroll: u16, line_count: usize, inner_height: usize)
    requires
        line_count <= u16::MAX,
    ensures
        spec_page_offset(scroll, line_count as int, inner_height as int) <= scroll,
        spec_page_offset(scroll, line_count as int, inner_height as int) + inner_height
            <= line_count || spec_page_offset(scroll, line_count as int, inner_height as int)
            == 0,
{
}


/// The number of entries of the normal-mode help page.
pub const NORMAL_HELP_ENTRIES: usize = 23;

/// The number of entries of the command-line help page.
pub const COMMAND_LINE_HELP_ENTRIES: usize = 31;

/// The column at which the keys of a help entry start.
pub const HELP_LABEL_WIDTH: usize = 40;

/// Entry `i` of the normal-mode help page: what it does, and its keys.
pub open spec fn normal_help_entry(i: int) -> (Seq<char>, Seq<char>) {
    if i == 0 {
        ("Up:"@, "↑ / k"@)
    } else if i == 1 {
        ("Down:"@, "↓ / j"@)
    } else if i == 2 {
        ("Play/Pause:"@, "␣ (Space)"@)
    } else if i == 3 {
        ("Toggle Like Cursor Song:"@, "l"@)
    } else if i == 4 {
        ("Add Highlighted Song To Play Next:"@, "e"@)
    } else if i == 5 {
        ("Previous Panel:"@, "←"@)
    } else if i == 6 {
        ("Next Panel:"@, "→"@)
    } else if i == 7 {
        ("Go To Main Screen:"@, "1"@)
    } else if i == 8 {
        ("Go To Settings Screen:"@, "9"@)
    } else if i == 9 {
        ("Go To Help Screen (Here):"@, "0 / F1"@)
    } else if i == 10 {
        ("Play Next Song:"@, ">"@)
    } else if i == 11 {
        ("Play Previous Song:"@, "<"@)
    } else if i == 12 {
        ("Volume Down 5%:"@, "-"@)
    } else if i == 13 {
        ("Volume Up 5%:"@, "="@)
    } else if i == 14 {
        ("*Switch To Command Line Mode:"@, ":"@)
    } else if i == 15 {
        ("Search Forward:"@, "/"@)
    } else if i == 16 {
        ("Search Backward:"@, "?"@)
    } else if i == 17 {
        ("New Songlist / Collect:"@, "n"@)
    } else if i == 18 {
        ("Delete / Unsubscribe / Remove:"@, "d"@)
    } else if i == 19 {
        ("Switch Created/Subscribed Songlists:"@, "c"@)
    } else if i == 20 {
        ("Pin/Unpin Highlighted Songlist:"@, "p"@)
    } else if i == 21 {
        ("Move Pinned Songlist:"@, "Shift+J/K 或 Shift+↓/↑"@)
    } else {
        ("Quit:"@, "q"@)
    }
}

/// Entry `i` of the command-line help page: what it does, and its commands.
pub open spec fn command_line_help_entry(i: int) -> (Seq<char>, Seq<char>) {
    if i == 0 {
        ("Quit:"@, "q / quit / exit"@)
    } else if i == 1 {
        ("Switch Screen:"@, "screen 0 / 1 / 2 / 3 / 9"@)
    } else if i == 2 {
        ("|_"@, "screen help / main / playlists"@)
    } else if i == 3 {
        ("Go To Settings Screen:"@, "screen settings"@)
    } else if i == 4 {
        ("Go To Help Screen (Here):"@, "h / help"@)
    } else if i == 5 {
        ("Go To Login Screen:"@, "l / login"@)
    } else if i == 6 {
        ("Logout:"@, "logout"@)
    } else if i == 7 {
        ("Set Volume:"@, "vol / volume"@)
    } else if i == 8 {
        ("Mute:"@, "mute"@)
    } else if i == 9 {
        ("Set Play Mode:"@, "mode"@)
    } else if i == 10 {
        ("|_ single play mode:"@, "mode single"@)
    } else if i == 11 {
        ("|_ single repeat mode:"@, "mode sr / single-repeat"@)
    } else if i == 12 {
        ("|_ list repeat mode:"@, "mode lr / list-repeat"@)
    } else if i == 13 {
        ("|_ shuffle mode:"@, "mode s / shuf / shuffle"@)
    } else if i == 14 {
        ("Play Next Song:"@, "next"@)
    } else if i == 15 {
        ("Play Previous Song:"@, "prev / previous"@)
    } else if i == 16 {
        ("Like Cursor Song:"@, "like"@)
    } else if i == 17 {
        ("Unlike Cursor Song:"@, "unlike"@)
    } else if i == 18 {
        ("Start Auto Play:"@, "start"@)
    } else if i == 19 {
        ("Download Selected Song:"@, "download song"@)
    } else if i == 20 {
        ("Download Selected Playlist:"@, "download playlist"@)
    } else if i == 21 {
        ("Jump To Current Song In Playlist:"@, "where this"@)
    } else if i == 22 {
        ("Jump To Top:"@, "top"@)
    } else if i == 23 {
        ("Jump To Bottom:"@, "bottom"@)
    } else if i == 24 {
        ("Collect Cursor Song To Songlist:"@, "collect <歌单名>"@)
    } else if i == 25 {
        ("Uncollect Cursor Song From Songlist:"@, "uncollect <歌单名>"@)
    } else if i == 26 {
        ("Create Songlist:"@, "playlist create <名称>"@)
    } else if i == 27 {
        ("Delete Songlist:"@, "playlist delete <名称>"@)
    } else if i == 28 {
        ("Remove Cursor Song From Playlist:"@, "remove"@)
    } else if i == 29 {
        ("Search Forward:"@, "/ xxx"@)
    } else {
        ("Search Backward:"@, "? xxx"@)
    }
}

fn normal_entry(i: usize) -> (r: (&'static str, &'static str))
    requires
        i < 23,
    ensures
        (r.0@, r.1@) == normal_help_entry(i as int),
{
    match i {
        0 => ("Up:", "↑ / k"),
        1 => ("Down:", "↓ / j"),
        2 => ("Play/Pause:", "␣ (Space)"),
        3 => ("Toggle Like Cursor Song:", "l"),
        4 => ("Add Highlighted Song To Play Next:", "e"),
        5 => ("Previous Panel:", "←"),
        6 => ("Next Panel:", "→"),
        7 => ("Go To Main Screen:", "1"),
        8 => ("Go To Settings Screen:", "9"),
        9 => ("Go To Help Screen (Here):", "0 / F1"),
        10 => ("Play Next Song:", ">"),
        11 => ("Play Previous Song:", "<"),
        12 => ("Volume Down 5%:", "-"),
        13 => ("Volume Up 5%:", "="),
        14 => ("*Switch To Command Line Mode:", ":"),
        15 => ("Search Forward:", "/"),
        16 => ("Search Backward:", "?"),
        17 => ("New Songlist / Collect:", "n"),
        18 => ("Delete / Unsubscribe / Remove:", "d"),
        19 => ("Switch Created/Subscribed Songlists:", "c"),
        20 => ("Pin/Unpin Highlighted Songlist:", "p"),
        21 => ("Move Pinned Songlist:", "Shift+J/K 或 Shift+↓/↑"),
        _ => ("Quit:", "q"),
    }
}

fn command_line_entry(i: usize) -> (r: (&'static str, &'static str))
    requires
        i < 31,
    ensures
        (r.0@, r.1@) == command_line_help_entry(i as int),
{
    match i {
        0 => ("Quit:", "q / quit / exit"),
        1 => ("Switch Screen:", "screen 0 / 1 / 2 / 3 / 9"),
        2 => ("|_", "screen help / main / playlists"),
        3 => ("Go To Settings Screen:", "screen settings"),
        4 => ("Go To Help Screen (Here):", "h / help"),
        5 => ("Go To Login Screen:", "l / login"),
        6 => ("Logout:", "logout"),
        7 => ("Set Volume:", "vol / volume"),
        8 => ("Mute:", "mute"),
        9 => ("Set Play Mode:", "mode"),
        10 => ("|_ single play mode:", "mode single"),
        11 => ("|_ single repeat mode:", "mode sr / single-repeat"),
        12 => ("|_ list repeat mode:", "mode lr / list-repeat"),
        13 => ("|_ shuffle mode:", "mode s / shuf / shuffle"),
        14 => ("Play Next Song:", "next"),
        15 => ("Play Previous Song:", "prev / previous"),
        16 => ("Like Cursor Song:", "like"),
        17 => ("Unlike Cursor Song:", "unlike"),
        18 => ("Start Auto Play:", "start"),
        19 => ("Download Selected Song:", "download song"),
        20 => ("Download Selected Playlist:", "download playlist"),
        21 => ("Jump To Current Song In Playlist:", "where this"),
        22 => ("Jump To Top:", "top"),
        23 => ("Jump To Bottom:", "bottom"),
        24 => ("Collect Cursor Song To Songlist:", "collect <歌单名>"),
        25 => ("Uncollect Cursor Song From Songlist:", "uncollect <歌单名>"),
        26 => ("Create Songlist:", "playlist create <名称>"),
        27 => ("Delete Songlist:", "playlist delete <名称>"),
        28 => ("Remove Cursor Song From Playlist:", "remove"),
        29 => ("Search Forward:", "/ xxx"),
        _ => ("Search Backward:", "? xxx"),
    }
}

/// A help line: the label, spaces up to the key column, then the keys.
pub open spec fn help_line(label: Seq<char>, keys: Seq<char>) -> Seq<char> {
    label + Seq::new(
        if label.len() < HELP_LABEL_WIDTH {
            (HELP_LABEL_WIDTH - label.len()) as nat
        } else {
            0
        },
        |j: int| ' ',
    ) + keys
}

/// The number of entries of a help page.
pub open spec fn help_entry_count(page: HelpPanel) -> nat {
    match page {
        HelpPanel::Normal => NORMAL_HELP_ENTRIES as nat,
        HelpPanel::CommandLine => COMMAND_LINE_HELP_ENTRIES as nat,
    }
}

/// Entry `i` of a help page.
pub open spec fn help_entry(page: HelpPanel, i: int) -> (Seq<char>, Seq<char>) {
    match page {
        HelpPanel::Normal => normal_help_entry(i),
        HelpPanel::CommandLine => command_line_help_entry(i),
    }
}

/// One line of help: `label` padded with spaces to the key column, then `keys`.
pub fn help_line_text(label: &str, keys: &str) -> (r: String)
    ensures
        r@ == help_line(label@, keys@),
{
    let mut out = crate::text::chars_of(label);
    let n = out.len();
    let ghost start = out@;
    let mut k: usize = n;
    while k < HELP_LABEL_WIDTH
        invariant
            n == label@.len(),
            n <= k <= HELP_LABEL_WIDTH || (n > HELP_LABEL_WIDTH && k == n),
            out@ == start + Seq::new((k - n) as nat, |j: int| ' '),
            start == label@,
        decreases HELP_LABEL_WIDTH - k,
    {
        let ghost before = out@;
        out.push(' ');
        assert(out@ =~= start + Seq::new((k + 1 - n) as nat, |j: int| ' '));
        k += 1;
    }
    proof {
        if n < HELP_LABEL_WIDTH {
            assert(k == HELP_LABEL_WIDTH);
        } else {
            assert(k == n);
            assert(Seq::new((k - n) as nat, |j: int| ' ') =~= Seq::new(0, |j: int| ' '));
        }
    }
    crate::text::push_str(&mut out, keys);
    crate::text::string_of(&out)
}

/// The lines of a help page, one per entry.
pub fn help_page(page: HelpPanel) -> (r: Vec<String>)
    ensures
        r@.len() == help_entry_count(page),
        forall|i: int|
            0 <= i < r@.len() ==> #[trigger] r@[i]@ == help_line(help_entry(page, i).0, help_entry(page, i).1),
{
    let count = match page {
        HelpPanel::Normal => NORMAL_HELP_ENTRIES,
        HelpPanel::CommandLine => COMMAND_LINE_HELP_ENTRIES,
    };
    let mut r: Vec<String> = Vec::new();
    let mut i: usize = 0;
    while i < count
        invariant
            count == help_entry_count(page),
            i <= count,
            r@.len() == i,
            forall|j: int|
                0 <= j < i ==> #[trigger] r@[j]@ == help_line(help_entry(page, j).0, help_entry(page, j).1),
        decreases count - i,
    {
        let (label, keys) = match page {
            HelpPanel::Normal => normal_entry(i),
            HelpPanel::CommandLine => command_line_entry(i),
        };
        r.push(help_line_text(label, keys));
        i += 1;
    }
    r
}

} // verus!
