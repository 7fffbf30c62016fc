//! The columns of the timetable: the times, then the five school days.

use vstd::prelude::*;

verus! {

#[derive(Clone, Copy, PartialEq, Eq, Structural, Debug)]
pub enum Column {
    Time,
    Monday,
    Tuesday,
    Wednesday,
    Thursday,
    Friday,
}

/// The number of columns of the timetable.
pub const NUM_COLUMNS: usize = 6;

/// The column at position `i`, counted from the time column at 0.
pub open spec fn column_at(i: int) -> Column {
    if i == 0 {
        Column::Time
    } else if i == 1 {
        Column::Monday
    } else if i == 2 {
        Column::Tuesday
    } else if i == 3 {
        Column::Wednesday
    } else if i == 4 {
        Column::Thursday
    } else {
        Column::Friday
    }
}

impl Column {
    /// The column at position `i`: the time column, then Monday to Friday.
    pub fn from_index(i: usize) -> (c: Column)
        requires
            i < NUM_COLUMNS,
        ensures
            c == column_at(i as int),
    {
        if i == 0 {
            Column::Time
        } else if i == 1 {
            Column::Monday
        } else if i == 2 {
            Column::Tuesday
        } else if i == 3 {
            Column::Wednesday
        } else if i == 4 {
            Column::Thursday
        } else {
            Column::Friday
        }
    }
}

} // verus!
