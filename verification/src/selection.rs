//! The selection of a table: the selected row and column and the first row
//! shown. Moving it is left to ratatui's `TableState`, whose behaviour the
//! wrappers below state.

use vstd::prelude::*;
use ratatui::widgets::TableState;

verus! {

/// Which row and column of a table are selected, and the first row shown.
#[derive(Clone, Copy, PartialEq, Eq, Structural, Debug)]
pub struct Selection {
    pub offset: usize,
    pub selected: Option<usize>,
    pub selected_column: Option<usize>,
}

/// The index after `i`, or the first one when nothing is selected; it
/// saturates at `usize::MAX`.
pub open spec fn next_index(i: Option<usize>) -> usize {
    match i {
        None => 0,
        Some(k) => if k == usize::MAX {
            k
        } else {
            (k + 1) as usize
        },
    }
}

/// The index before `i`, or `usize::MAX` (the last one, once a table has
/// been drawn) when nothing is selected; it saturates at 0.
pub open spec fn previous_index(i: Option<usize>) -> usize {
    match i {
        None => usize::MAX,
        Some(k) => if k == 0 {
            0
        } else {
            (k - 1) as usize
        },
    }
}

/// Runs ratatui's `TableState::select_next` on a table state holding `s`. The
/// contract claims what its source shows: the selected row becomes the one
/// after it (row 0 when none is selected), saturating at `usize::MAX`, and the
/// other two values stay as they were.
#[verifier::external_body]
fn table_select_next(s: Selection) -> (r: Selection)
    ensures
        r == (Selection { selected: Some(next_index(s.selected)), ..s }),
{
    let mut t = TableState::new().with_offset(s.offset).with_selected(s.selected)
        .with_selected_column(s.selected_column);
    t.select_next();
    Selection { offset: t.offset(), selected: t.selected(), selected_column: t.selected_column() }
}

/// Runs ratatui's `TableState::select_previous` on a table state holding `s`.
/// The contract claims what its source shows: the selected row becomes the one
/// before it (`usize::MAX` when none is selected), saturating at 0, and the
/// other two values stay as they were.
#[verifier::external_body]
fn table_select_previous(s: Selection) -> (r: Selection)
    ensures
        r == (Selection { selected: Some(previous_index(s.selected)), ..s }),
{
    let mut t = TableState::new().with_offset(s.offset).with_selected(s.selected)
        .with_selected_column(s.selected_column);
    t.select_previous();
    Selection { offset: t.offset(), selected: t.selected(), selected_column: t.selected_column() }
}

/// Runs ratatui's `TableState::select_next_column` on a table state holding
/// `s`. The contract claims what its source shows: the selected column becomes
/// the one after it (column 0 when none is selected), saturating at
/// `usize::MAX`, and the other two values stay as they were.
#[verifier::external_body]
fn table_select_next_column(s: Selection) -> (r: Selection)
    ensures
        r == (Selection { selected_column: Some(next_index(s.selected_column)), ..s }),
{
    let mut t = TableState::new().with_offset(s.offset).with_selected(s.selected)
        .with_selected_column(s.selected_column);
    t.select_next_column();
    Selection { offset: t.offset(), selected: t.selected(), selected_column: t.selected_column() }
}

/// Runs ratatui's `TableState::select_previous_column` on a table state holding
/// `s`. The contract claims what its source shows: the selected column becomes
/// the one before it (`usize::MAX` when none is selected), saturating at 0, and
/// the other two values stay as they were.
#[verifier::external_body]
fn table_select_previous_column(s: Selection) -> (r: Selection)
    ensures
        r == (Selection { selected_column: Some(previous_index(s.selected_column)), ..s }),
{
    let mut t = TableState::new().with_offset(s.offset).with_selected(s.selected)
        .with_selected_column(s.selected_column);
    t.select_previous_column();
    Selection { offset: t.offset(), selected: t.selected(), selected_column: t.selected_column() }
}

/// The selection after `TableState::select_next`.
pub open spec fn sel_next(s: Selection) -> Selection {
    Selection { selected: Some(next_index(s.selected)), ..s }
}

/// The selection after `TableState::select_previous`.
pub open spec fn sel_previous(s: Selection) -> Selection {
    Selection { selected: Some(previous_index(s.selected)), ..s }
}

/// The selection after `TableState::select_next_column`.
pub open spec fn sel_next_column(s: Selection) -> Selection {
    Selection { selected_column: Some(next_index(s.selected_column)), ..s }
}

/// The selection after `TableState::select_previous_column`.
pub open spec fn sel_previous_column(s: Selection) -> Selection {
    Selection { selected_column: Some(previous_index(s.selected_column)), ..s }
}

impl Selection {
    /// The first row and the first day column selected, nothing scrolled.
    pub open spec fn initial() -> Selection {
        Selection { offset: 0, selected: Some(0), selected_column: Some(1) }
    }

    /// A selection of the first row and the first day column (column 1, next
    /// to the time column), scrolled to the top.
    pub fn new() -> (r: Selection)
        ensures
            r == Selection::initial(),
    {
        Selection { offset: 0, selected: Some(0), selected_column: Some(1) }
    }

    /// Selects the next row (the first one when none is selected).
    pub fn select_next(&mut self)
        ensures
            *final(self) == sel_next(*old(self)),
    {
        *self = table_select_next(*self);
    }

    /// Selects the previous row (`usize::MAX` when none is selected).
    pub fn select_previous(&mut self)
        ensures
            *final(self) == sel_previous(*old(self)),
    {
        *self = table_select_previous(*self);
    }

    /// Selects the next column (the first one when none is selected).
    pub fn select_next_column(&mut self)
        ensures
            *final(self) == sel_next_column(*old(self)),
    {
        *self = table_select_next_column(*self);
    }

    /// Selects the previous column (`usize::MAX` when none is selected).
    pub fn select_previous_column(&mut self)
        ensures
            *final(self) == sel_previous_column(*old(self)),
    {
        *self = table_select_previous_column(*self);
    }
}

} // verus!
