//! What the table panels share: the focus status, the row cursor and the scroll offset that
//! keeps the cursor in the middle of the visible rows.
use vstd::prelude::*;

verus! {

/// Whether a panel has the focus, and whether the focus is on the panel as a whole or inside
/// it.
#[derive(Clone, Copy, PartialEq, Eq, Structural, Debug)]
pub enum PanelFocusedStatus {
    Outside,
    Inside,
    Nop,
}

/// `a - b`, or 0 where `b` is larger.
pub open spec fn sub_or_zero(a: int, b: int) -> int {
    if a >= b {
        a - b
    } else {
        0
    }
}

/// The first visible row when `visible` rows are shown: the cursor sits in the middle, except
/// that the window neither starts before the first row nor ends after the last one.
pub open spec fn spec_centered_offset(selected: int, row_count: int, visible: int) -> int {
    let from_cursor = sub_or_zero(selected, visible / 2);
    let last_start = sub_or_zero(row_count, visible);
    if from_cursor <= last_start {
        from_cursor
    } else {
        last_start
    }
}

/// The scroll offset that centres the cursor, except near the first and the last rows.
pub fn centered_offset(selected: usize, row_count: usize, visible_row_count: usize) -> (r: usize)
    ensures
        r == spec_centered_offset(selected as int, row_count as int, visible_row_count as int),
{
    let from_cursor = selected.saturating_sub(visible_row_count / 2);
    let last_start = row_count.saturating_sub(visible_row_count);
    if from_cursor <= last_start {
        from_cursor
    } else {
        last_start
    }
}

/// The centred window always shows the cursor and never runs past the rows: it starts at or
/// before the selected row and ends after it, ends at the last row or before once there are
/// more rows than fit, starts at the first row when they all fit, and puts the cursor in the
/// middle wherever there are rows enough on both sides.
pub proof fn lemma_centered_window(selected: usize, row_count: usize, visible: usize)
    requires
        selected < row_count,
        visible > 0,
    ensures
        ({
            let offset = spec_centered_offset(selected as int, row_count as int, visible as int);
            &&& 0 <= offset <= selected < offset + visible
            &&& row_count >= visible ==> offset + visible <= row_count
            &&& row_count <= visible ==> offset == 0
            &&& (visible / 2 <= selected && selected - visible / 2 + visible <= row_count) ==> offset
                == selected - visible / 2
        }),
{
}

/// The row selected after the cursor moves down: the next row while there is one (ratatui's
/// `TableState::select_next`, which adds one), otherwise the cursor stays.
pub open spec fn spec_cursor_down(selected: Option<usize>, row_count: usize) -> Option<usize> {
    match selected {
        Some(s) => if s + 1 < row_count {
            Some((s + 1) as usize)
        } else {
            selected
        },
        None => selected,
    }
}

/// Moves the cursor one row down when a next row exists.
pub fn cursor_down(selected: Option<usize>, row_count: usize) -> (r: Option<usize>)
    ensures
        r == spec_cursor_down(selected, row_count),
{
    match selected {
        Some(s) => if s < row_count && s + 1 < row_count {
            Some(s + 1)
        } else {
            selected
        },
        None => selected,
    }
}

/// The row ratatui's `TableState::select_previous` selects: the row before the cursor (the
/// first row stays), or `usize::MAX` when nothing is selected.
pub open spec fn spec_cursor_up(selected: Option<usize>) -> Option<usize> {
    match selected {
        Some(s) => Some(
            if s > 0 {
                (s - 1) as usize
            } else {
                0
            },
        ),
        None => Some(usize::MAX),
    }
}

/// Moves the cursor one row up, as `TableState::select_previous` does.
pub fn cursor_up(selected: Option<usize>) -> (r: Option<usize>)
    ensures
        r == spec_cursor_up(selected),
{
    match selected {
        Some(s) => Some(s.saturating_sub(1)),
        None => Some(usize::MAX),
    }
}

/// Moving the cursor down and back up returns it to its row, and neither move leaves the rows
/// once it is on one.
pub proof fn lemma_cursor_down_up(selected: usize, row_count: usize)
    requires
        selected < row_count,
    ensures
        spec_cursor_down(Some(selected), row_count) matches Some(d) && d < row_count,
        spec_cursor_up(Some(selected)) matches Some(u) && u < row_count,
        selected + 1 < row_count ==> spec_cursor_up(spec_cursor_down(Some(selected), row_count))
            == Some(selected),
{
}

} // verus!
