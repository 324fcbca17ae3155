//! The panel listing the user's songlists: the created or the subscribed ones, pinned first.
use vstd::prelude::*;
use crate::command::Command;
use crate::model::Songlist;
use crate::panel::{cursor_down, cursor_up, spec_cursor_down, spec_cursor_up, PanelFocusedStatus};
use crate::pins::{in_view, lemma_ordered_rows_faithful,
    filtered, filtered_with_indices, move_pin, order_with_pins, ordered, pairs, pin_target, position,
    index_of, lemma_index_of_props, swapped, toggle_pin, toggled, toggled_view, SonglistView,
};
use crate::text::{push_str, string_of, views};

verus! {

/// The panel listing the songlists of one view.
#[derive(Clone, Debug)]
pub struct SonglistsPanel {
    /// Set by the screen that holds the panel; the panel only reads it.
    pub focused_status: PanelFocusedStatus,
    /// The nickname of the logged-in account, shown in the title.
    pub username: String,
    pub view: SonglistView,
    /// The songlists shown, in row order.
    pub songlists: Vec<Songlist>,
    /// For each row, the position of its songlist among all the user's songlists.
    pub original_indices: Vec<usize>,
    /// The songlist the cursor follows when the rows are built again after a pin change.
    pub pending_select_id: Option<u64>,
    /// The name shown in each row; empty until the rows are built, and emptied to have them
    /// built again.
    pub rows: Vec<String>,
    /// The cursor row.
    pub selected: Option<usize>,
}

/// The name a row shows: an arrow marks a pinned songlist.
pub open spec fn row_label(s: Songlist, pinned: Seq<u64>) -> Seq<char> {
    if pinned.contains(s.id) {
        "↑ "@ + s.name@
    } else {
        s.name@
    }
}

/// Where the cursor goes on `cmd` in a list of `row_count` rows.
pub open spec fn spec_songlists_cursor(selected: Option<usize>, row_count: nat, cmd: Command) -> Option<
    usize,
> {
    match cmd {
        Command::Down => spec_cursor_down(selected, row_count as usize),
        Command::Up => spec_cursor_up(selected),
        Command::GoToTop => Some(0usize),
        Command::GoToBottom => if row_count > 0 {
            Some((row_count - 1) as usize)
        } else {
            selected
        },
        Command::ToggleSonglistView => None,
        _ => selected,
    }
}

/// Whether `cmd` makes the panel build its rows again.
pub open spec fn clears_rows(cmd: Command, pin_changed: bool) -> bool {
    match cmd {
        Command::ToggleSonglistView | Command::RefreshPlaylist => true,
        Command::TogglePinSonglist | Command::MovePinnedSonglistUp
        | Command::MovePinnedSonglistDown => pin_changed,
        _ => false,
    }
}

/// The label of a row.
fn label_of(songlist: &Songlist, pinned: &Vec<u64>) -> (r: String)
    ensures
        r@ == row_label(*songlist, pinned@),
{
    proof {
        lemma_index_of_props(pinned@, songlist.id);
    }
    if position(pinned, songlist.id).is_some() {
        let mut out: Vec<char> = Vec::new();
        push_str(&mut out, "↑ ");
        push_str(&mut out, songlist.name.as_str());
        string_of(&out)
    } else {
        songlist.name.clone()
    }
}

impl SonglistsPanel {
    /// An empty panel of created songlists with the given focus status.
    pub fn new(focused_status: PanelFocusedStatus) -> (r: Self)
        ensures
            r.focused_status == focused_status,
            r.view == SonglistView::Created,
            r.username@.len() == 0,
            r.songlists@.len() == 0,
            r.original_indices@.len() == 0,
            r.pending_select_id is None,
            r.rows@.len() == 0,
            r.selected is None,
    {
        SonglistsPanel {
            focused_status,
            username: String::new(),
            view: SonglistView::Created,
            songlists: Vec::new(),
            original_indices: Vec::new(),
            pending_select_id: None,
            rows: Vec::new(),
            selected: None,
        }
    }

    /// Whether the rows have to be built (from the player's songlists and the pins of the
    /// settings) by `rebuild_rows`.
    pub fn needs_rows(&self) -> (r: bool)
        ensures
            r == (self.rows@.len() == 0),
    {
        self.rows.len() == 0
    }

    /// Builds the rows: the songlists of the view among `all`, pinned ones first in pin order;
    /// the cursor then follows the songlist a pin change was made on, if it is still shown.
    pub fn rebuild_rows(&mut self, all: &Vec<Songlist>, nickname: Option<String>, pinned: &Vec<u64>)
        ensures
            ({
                let ord = ordered(filtered(all@, old(self).view), pinned@);
                &&& final(self).view == old(self).view
                &&& final(self).focused_status == old(self).focused_status
                &&& final(self).username@ == (match nickname {
                    Some(n) => n@,
                    None => old(self).username@,
                })
                &&& final(self).original_indices@ == ord.map_values(|p: (usize, Songlist)| p.0)
                &&& final(self).songlists@.len() == ord.len()
                &&& forall|i: int|
                    0 <= i < ord.len() ==> #[trigger] final(self).songlists@[i].same_as(&ord[i].1)
                &&& views(final(self).rows@) == ord.map_values(
                    |p: (usize, Songlist)| row_label(p.1, pinned@),
                )
                &&& final(self).pending_select_id is None
                &&& match old(self).pending_select_id {
                    Some(id) => match final(self).selected {
                        Some(k) => k < ord.len() && ord[k as int].1.id == id && forall|j: int|
                            0 <= j < k ==> ord[j].1.id != id,
                        None => forall|j: int| 0 <= j < ord.len() ==> ord[j].1.id != id,
                    },
                    None => final(self).selected is None,
                }
            }),
    {
        if let Some(n) = nickname {
            self.username = n;
        }
        let ghost ord = ordered(filtered(all@, self.view), pinned@);
        let shown = filtered_with_indices(all, self.view);
        let ordered_rows = order_with_pins(shown, pinned);
        assert(pairs(ordered_rows@) == ord);
        let mut indices: Vec<usize> = Vec::new();
        let mut songlists: Vec<Songlist> = Vec::new();
        let mut rows: Vec<String> = Vec::new();
        let mut i: usize = 0;
        while i < ordered_rows.len()
            invariant
                i <= ordered_rows.len(),
                pairs(ordered_rows@) == ord,
                indices@ == ord.take(i as int).map_values(|p: (usize, Songlist)| p.0),
                songlists@.len() == i,
                forall|j: int| 0 <= j < i ==> #[trigger] songlists@[j].same_as(&ord[j].1),
                views(rows@) == ord.take(i as int).map_values(
                    |p: (usize, Songlist)| row_label(p.1, pinned@),
                ),
            decreases ordered_rows.len() - i,
        {
            let (index, songlist) = ordered_rows[i];
            assert(ord[i as int] == (index, *songlist));
            indices.push(index);
            songlists.push(songlist.duplicate());
            let label = label_of(songlist, pinned);
            let ghost before = rows@;
            rows.push(label);
            proof {
                let f = |p: (usize, Songlist)| row_label(p.1, pinned@);
                assert(indices@ =~= ord.take(i + 1).map_values(|p: (usize, Songlist)| p.0));
                assert(views(rows@) =~= views(before).push(rows@[i as int]@));
                assert(ord.take(i + 1).map_values(f) =~= ord.take(i as int).map_values(f).push(
                    f(ord[i as int]),
                ));
            }
            i += 1;
        }
        assert(ord.take(ord.len() as int) =~= ord);
        self.original_indices = indices;
        self.songlists = songlists;
        self.rows = rows;
        self.selected = None;
        if let Some(pending_id) = self.pending_select_id {
            let mut found: Option<usize> = None;
            let mut k: usize = 0;
            while k < self.songlists.len() && found.is_none()
                invariant
                    k <= self.songlists@.len(),
                    self.songlists@.len() == ord.len(),
                    forall|j: int| 0 <= j < ord.len() ==> #[trigger] self.songlists@[j].same_as(
                        &ord[j].1,
                    ),
                    found matches Some(f) ==> f < ord.len() && ord[f as int].1.id == pending_id
                        && forall|j: int| 0 <= j < f ==> ord[j].1.id != pending_id,
                    found is None ==> forall|j: int| 0 <= j < k ==> ord[j].1.id != pending_id,
                decreases self.songlists.len() - k,
            {
                assert(self.songlists@[k as int].same_as(&ord[k as int].1));
                if self.songlists[k].id == pending_id {
                    found = Some(k);
                }
                k += 1;
            }
            self.selected = found;
        }
        self.pending_select_id = None;
    }

    /// Puts the cursor on the first row when none is selected and there are rows; returns
    /// whether it did.
    pub fn ensure_selection(&mut self) -> (r: bool)
        ensures
            r == (old(self).selected is None && old(self).rows@.len() > 0),
            final(self).selected == (if r {
                Some(0usize)
            } else {
                old(self).selected
            }),
            final(self).rows@ == old(self).rows@,
            final(self).songlists@ == old(self).songlists@,
            final(self).original_indices@ == old(self).original_indices@,
            final(self).view == old(self).view,
            final(self).focused_status == old(self).focused_status,
            final(self).pending_select_id == old(self).pending_select_id,
            final(self).username@ == old(self).username@,
    {
        if self.selected.is_none() && self.rows.len() > 0 {
            self.selected = Some(0);
            true
        } else {
            false
        }
    }

    /// Brings the panel up to date: when it has no rows, they are built from `all` (the
    /// player's songlists), `nickname` (the logged-in account's) and `pinned` (the pins of the
    /// current view) as `rebuild_rows` does; then the cursor goes to the first row when none is
    /// selected. Returns whether anything changed.
    pub fn update_model(&mut self, all: &Vec<Songlist>, nickname: Option<String>, pinned: &Vec<u64>) -> (r: bool)
        ensures
            ({
                let ord = ordered(filtered(all@, old(self).view), pinned@);
                if old(self).rows@.len() > 0 {
                    &&& r == (old(self).selected is None)
                    &&& final(self).selected == (if old(self).selected is None {
                        Some(0usize)
                    } else {
                        old(self).selected
                    })
                    &&& final(self).rows@ == old(self).rows@
                    &&& final(self).songlists@ == old(self).songlists@
                    &&& final(self).original_indices@ == old(self).original_indices@
                    &&& final(self).pending_select_id == old(self).pending_select_id
                    &&& final(self).username@ == old(self).username@
                } else {
                    &&& r
                    &&& final(self).username@ == (match nickname {
                        Some(n) => n@,
                        None => old(self).username@,
                    })
                    &&& final(self).original_indices@ == ord.map_values(|p: (usize, Songlist)| p.0)
                    &&& final(self).songlists@.len() == ord.len()
                    &&& forall|i: int|
                        0 <= i < ord.len() ==> #[trigger] final(self).songlists@[i].same_as(&ord[i].1)
                    &&& views(final(self).rows@) == ord.map_values(
                        |p: (usize, Songlist)| row_label(p.1, pinned@),
                    )
                    &&& forall|i: int|
                        0 <= i < final(self).songlists@.len() ==> {
                            let k = #[trigger] final(self).original_indices@[i];
                            &&& k < all@.len()
                            &&& final(self).songlists@[i].same_as(&all@[k as int])
                            &&& in_view(all@[k as int], old(self).view)
                        }
                    &&& final(self).pending_select_id is None
                    &&& match old(self).pending_select_id {
                        Some(id) => if exists|j: int| 0 <= j < ord.len() && #[trigger] ord[j].1.id == id {
                            final(self).selected matches Some(k) && k < ord.len() && ord[k as int].1.id
                                == id && forall|j: int| 0 <= j < k ==> ord[j].1.id != id
                        } else {
                            final(self).selected == (if ord.len() > 0 {
                                Some(0usize)
                            } else {
                                None
                            })
                        },
                        None => final(self).selected == (if ord.len() > 0 {
                            Some(0usize)
                        } else {
                            None
                        }),
                    }
                }
            }),
            final(self).view == old(self).view,
            final(self).focused_status == old(self).focused_status,
    {
        let ghost ord = ordered(filtered(all@, self.view), pinned@);
        if self.rows.len() == 0 {
            self.rebuild_rows(all, nickname, pinned);
            let all_len: usize = all.len();
            proof {
                assert(all@.len() == all_len);
                lemma_ordered_rows_faithful(all@, old(self).view, pinned@);
                assert forall|i: int| 0 <= i < self.songlists@.len() implies {
                    let k = #[trigger] self.original_indices@[i];
                    &&& k < all@.len()
                    &&& self.songlists@[i].same_as(&all@[k as int])
                    &&& in_view(all@[k as int], old(self).view)
                } by {
                    assert(self.original_indices@[i] == ord[i].0);
                    assert(self.songlists@[i].same_as(&ord[i].1));
                }
            }
            let ghost mid = self.selected;
            assert(self.rows@.len() == views(self.rows@).len());
            assert(self.rows@.len() == ord.len());
            self.ensure_selection();
            proof {
                match old(self).pending_select_id {
                    Some(id) => {
                        if let Some(k) = mid {
                            assert(ord[k as int].1.id == id);
                            assert(exists|j: int| 0 <= j < ord.len() && #[trigger] ord[j].1.id == id);
                        } else {
                            assert(!exists|j: int| 0 <= j < ord.len() && #[trigger] ord[j].1.id == id);
                        }
                    },
                    None => {},
                }
            }
            true
        } else {
            self.ensure_selection()
        }
    }

    /// The row of the songlist under the cursor, if the cursor is on one.
    pub open spec fn selected_row(&self) -> Option<int> {
        match self.selected {
            Some(i) => if i < self.songlists@.len() {
                Some(i as int)
            } else {
                None
            },
            None => None,
        }
    }

    /// A copy of the songlist under the cursor.
    pub fn get_selected_songlist(&self) -> (r: Option<Songlist>)
        ensures
            match self.selected_row() {
                Some(i) => r matches Some(s) && s.same_as(&self.songlists@[i]),
                None => r is None,
            },
    {
        match self.selected {
            Some(i) => if i < self.songlists.len() {
                Some(self.songlists[i].duplicate())
            } else {
                None
            },
            None => None,
        }
    }

    /// The position among all the user's songlists of the songlist under the cursor.
    pub fn get_selected_songlist_index(&self) -> (r: Option<usize>)
        ensures
            r == (match self.selected {
                Some(i) => if i < self.original_indices@.len() {
                    Some(self.original_indices@[i as int])
                } else {
                    None
                },
                None => None,
            }),
    {
        match self.selected {
            Some(i) => if i < self.original_indices.len() {
                Some(self.original_indices[i])
            } else {
                None
            },
            None => None,
        }
    }

    /// Whether `cmd` changes the pins `pinned` of the current view: pinning or unpinning the
    /// songlist under the cursor always does; moving it does when a neighbour to swap with is
    /// pinned.
    pub open spec fn pins_changed_by(&self, cmd: Command, pinned: Seq<u64>) -> bool {
        let sel = self.selected_row();
        let id = self.songlists@[sel->0].id;
        match cmd {
            Command::TogglePinSonglist => sel is Some,
            Command::MovePinnedSonglistUp => sel is Some && pin_target(pinned, id, true) is Some,
            Command::MovePinnedSonglistDown => sel is Some && pin_target(pinned, id, false) is Some,
            _ => false,
        }
    }

    /// Handles a command; every command counts as handled, so the result is always `true`.
    /// `pinned` holds the pins of the current view, as the settings have them; they change
    /// exactly when `pins_changed_by` holds, and then the settings are to be stored. The cursor
    /// moves on `Down`, `Up`, `GoToTop` and `GoToBottom`; `ToggleSonglistView` switches the
    /// view; `TogglePinSonglist` pins or unpins the songlist under the cursor, and the
    /// `MovePinnedSonglist` commands move it among the pins; after a pin change the cursor
    /// follows that songlist; `RefreshPlaylist` has the rows built again.
    pub fn handle_event(&mut self, cmd: &Command, pinned: &mut Vec<u64>) -> (handled: bool)
        ensures
            ({
                let sel = old(self).selected_row();
                let id = old(self).songlists@[sel->0].id;
                let pin_changed = old(self).pins_changed_by(*cmd, old(pinned)@);
                &&& handled
                &&& final(pinned)@ == (if !pin_changed {
                    old(pinned)@
                } else {
                    match *cmd {
                        Command::TogglePinSonglist => toggled(old(pinned)@, id),
                        Command::MovePinnedSonglistUp => swapped(
                            old(pinned)@,
                            index_of(old(pinned)@, id)->0,
                            pin_target(old(pinned)@, id, true)->0,
                        ),
                        _ => swapped(
                            old(pinned)@,
                            index_of(old(pinned)@, id)->0,
                            pin_target(old(pinned)@, id, false)->0,
                        ),
                    }
                })
                &&& final(self).pending_select_id == (if pin_changed {
                    Some(id)
                } else {
                    old(self).pending_select_id
                })
                &&& final(self).rows@ == (if clears_rows(*cmd, pin_changed) {
                    Seq::<String>::empty()
                } else {
                    old(self).rows@
                })
                &&& final(self).view == (if *cmd is ToggleSonglistView {
                    toggled_view_spec(old(self).view)
                } else {
                    old(self).view
                })
                &&& final(self).selected == spec_songlists_cursor(
                    old(self).selected,
                    old(self).rows@.len(),
                    *cmd,
                )
                &&& final(self).songlists@ == old(self).songlists@
                &&& final(self).original_indices@ == old(self).original_indices@
                &&& final(self).focused_status == old(self).focused_status
                &&& final(self).username@ == old(self).username@
            }),
    {
        match cmd {
            Command::Down => {
                self.selected = cursor_down(self.selected, self.rows.len());
            },
            Command::Up => {
                self.selected = cursor_up(self.selected);
            },
            Command::GoToTop => {
                self.selected = Some(0);
            },
            Command::GoToBottom => {
                if self.rows.len() > 0 {
                    self.selected = Some(self.rows.len() - 1);
                }
            },
            Command::ToggleSonglistView => {
                self.view = toggled_view(self.view);
                self.rows = Vec::new();
                self.selected = None;
            },
            Command::TogglePinSonglist => {
                match self.selected {
                    Some(i) => if i < self.songlists.len() {
                        let id = self.songlists[i].id;
                        toggle_pin(pinned, id);
                        self.pending_select_id = Some(id);
                        self.rows = Vec::new();
                    },
                    None => {},
                }
            },
            Command::MovePinnedSonglistUp | Command::MovePinnedSonglistDown => {
                let up = match cmd {
                    Command::MovePinnedSonglistUp => true,
                    _ => false,
                };
                match self.selected {
                    Some(i) => if i < self.songlists.len() {
                        let id = self.songlists[i].id;
                        if move_pin(pinned, id, up) {
                            self.pending_select_id = Some(id);
                            self.rows = Vec::new();
                        }
                    },
                    None => {},
                }
            },
            Command::RefreshPlaylist => {
                self.rows = Vec::new();
            },
            _ => {},
        }
        true
    }
}

/// The other view.
pub open spec fn toggled_view_spec(view: SonglistView) -> SonglistView {
    match view {
        SonglistView::Created => SonglistView::Subscribed,
        SonglistView::Subscribed => SonglistView::Created,
    }
}

/// Once the cursor is on a row, only switching the view drops it; no command moves it off the
/// rows.
pub proof fn lemma_songlists_cursor_stays(selected: usize, row_count: nat, cmd: Command)
    requires
        selected < row_count,
    ensures
        !(cmd is ToggleSonglistView) ==> (spec_songlists_cursor(Some(selected), row_count, cmd) matches Some(k)
            && k < row_count),
{
}

} // verus!
