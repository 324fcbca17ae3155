//! The panel listing the days of the daily recommendation window.
use vstd::prelude::*;
use crate::command::Command;
use crate::panel::{cursor_down, cursor_up, spec_cursor_down, spec_cursor_up, PanelFocusedStatus};

verus! {

/// The panel listing the days whose recommendations can be loaded, newest first.
#[derive(Clone, Debug)]
pub struct DailyListsPanel {
    /// Set by the screen that holds the panel; the panel only reads it.
    pub focused_status: PanelFocusedStatus,
    /// The days shown, one row each, as days since the common era (see `daily`).
    pub dates: Vec<i32>,
    /// The cursor row.
    pub selected: Option<usize>,
}

/// Where the cursor of a list of `row_count` rows goes on `cmd`.
pub open spec fn spec_daily_cursor(selected: Option<usize>, row_count: nat, cmd: Command) -> Option<
    usize,
> {
    match cmd {
        Command::Down => spec_cursor_down(selected, row_count as usize),
        Command::Up => spec_cursor_up(selected),
        Command::GoToTop => Some(0usize),
        Command::GoToBottom => Some((row_count - 1) as usize),
        _ => selected,
    }
}

impl DailyListsPanel {
    /// An empty panel with the given focus status.
    pub fn new(focused_status: PanelFocusedStatus) -> (r: Self)
        ensures
            r.focused_status == focused_status,
            r.dates@.len() == 0,
            r.selected is None,
    {
        DailyListsPanel { focused_status, dates: Vec::new(), selected: None }
    }

    /// Whether the rows still have to be built: the window is then fetched, the cache files
    /// outside it are purged, and the days are handed to `load_dates`.
    pub fn needs_dates(&self) -> (r: bool)
        ensures
            r == (self.dates@.len() == 0),
    {
        self.dates.len() == 0
    }

    /// Builds the rows from the days of the window and drops the cursor.
    pub fn load_dates(&mut self, dates: Vec<i32>)
        ensures
            final(self).dates@ == dates@,
            final(self).selected is None,
            final(self).focused_status == old(self).focused_status,
    {
        self.dates = dates;
        self.selected = None;
    }

    /// Puts the cursor on the first row when none is selected and there are rows; returns
    /// whether it did.
    pub fn ensure_selection(&mut self) -> (r: bool)
        ensures
            r == (old(self).selected is None && old(self).dates@.len() > 0),
            final(self).selected == (if r {
                Some(0usize)
            } else {
                old(self).selected
            }),
            final(self).dates@ == old(self).dates@,
            final(self).focused_status == old(self).focused_status,
    {
        if self.selected.is_none() && self.dates.len() > 0 {
            self.selected = Some(0);
            true
        } else {
            false
        }
    }

    /// The day under the cursor.
    pub fn get_selected_date(&self) -> (r: Option<i32>)
        ensures
            r == (match self.selected {
                Some(i) => if i < self.dates@.len() {
                    Some(self.dates@[i as int])
                } else {
                    None
                },
                None => None,
            }),
    {
        match self.selected {
            Some(i) => if i < self.dates.len() {
                Some(self.dates[i])
            } else {
                None
            },
            None => None,
        }
    }

    /// Moves the cursor on `Down`, `Up`, `GoToTop` and `GoToBottom`; every command counts as
    /// handled.
    pub fn handle_event(&mut self, cmd: &Command) -> (r: bool)
        requires
            *cmd is GoToBottom ==> old(self).dates@.len() > 0,
        ensures
            r,
            final(self).selected == spec_daily_cursor(
                old(self).selected,
                old(self).dates@.len(),
                *cmd,
            ),
            final(self).dates@ == old(self).dates@,
            final(self).focused_status == old(self).focused_status,
    {
        match cmd {
            Command::Down => {
                self.selected = cursor_down(self.selected, self.dates.len());
            },
            Command::Up => {
                self.selected = cursor_up(self.selected);
            },
            Command::GoToTop => {
                self.selected = Some(0);
            },
            Command::GoToBottom => {
                self.selected = Some(self.dates.len() - 1);
            },
            _ => {},
        }
        true
    }
}

/// Once the cursor is on a row, no command moves it off the rows.
pub proof fn lemma_daily_cursor_stays(selected: usize, row_count: nat, cmd: Command)
    requires
        selected < row_count,
    ensures
        spec_daily_cursor(Some(selected), row_count, cmd) matches Some(k) && k < row_count,
{
}

} // verus!
