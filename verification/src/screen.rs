//! What the screen shows, computed from the editor: the rows of the
//! timetable grid, the rows of the settings table, the fields of the lesson
//! pop-up, the mode indicator and the scroll markers. Drawing them is left
//! to the terminal front end.

use vstd::prelude::*;
use crate::app::{read_slot, App, AppModel, NUM_ROWS};
use crate::column::column_at;
use crate::period::period_spans;
use crate::subject::subject_lines;
use crate::text::{decimal2, push_char, push_decimal, StyledSpan};

verus! {

/// What a table cell shows: the text being typed into it, followed by a
/// cursor `_`, or styled text (the lines of a lesson in the grid, the
/// pieces of one line for a period).
pub enum Cell {
    Editing(String),
    Styled(Vec<StyledSpan>),
}

/// A cell as a value.
pub enum CellModel {
    Editing(Seq<char>),
    Styled(Seq<(Seq<char>, bool)>),
}

/// Styled text as values.
pub open spec fn spans_view(v: Seq<StyledSpan>) -> Seq<(Seq<char>, bool)> {
    v.map_values(|s: StyledSpan| s@)
}

impl View for Cell {
    type V = CellModel;

    open spec fn view(&self) -> CellModel {
        match self {
            Cell::Editing(s) => CellModel::Editing(s@),
            Cell::Styled(v) => CellModel::Styled(spans_view(v@)),
        }
    }
}

/// One row of the timetable grid: the period on two lines, the lesson of
/// each school day, and whether the row has the lighter background (rows
/// with an even number).
pub struct GridRow {
    pub time: String,
    pub cells: Vec<Cell>,
    pub even: bool,
}

/// A grid row as a value.
pub struct GridRowModel {
    pub time: Seq<char>,
    pub cells: Seq<CellModel>,
    pub even: bool,
}

impl View for GridRow {
    type V = GridRowModel;

    open spec fn view(&self) -> GridRowModel {
        GridRowModel {
            time: self.time@,
            cells: self.cells@.map_values(|c: Cell| c@),
            even: self.even,
        }
    }
}

/// The text being typed, followed by the cursor `_`.
pub open spec fn with_cursor(buf: Seq<char>) -> Seq<char> {
    buf.push('_')
}

/// Whether the grid draws the text being typed in row `r` (from 0) and
/// column `c` (from 1): a lesson is being typed straight into that cell,
/// with the pop-up closed.
pub open spec fn grid_editing(s: AppModel, r: int, c: int) -> bool {
    &&& s.edit_mode
    &&& s.state_table.selected == Some(r as usize)
    &&& s.state_table.selected_column == Some(c as usize)
    &&& !s.create_popup
}

/// Whether the grid has a slot for every lesson it draws: a time for each
/// of the 11 rows and a slot for each row and school day.
pub open spec fn grid_complete(s: AppModel) -> bool {
    &&& s.times.len() >= NUM_ROWS
    &&& forall|r: int, c: int|
        1 <= r <= NUM_ROWS && 1 <= c < 6 ==> (#[trigger] read_slot(s.content, r, column_at(c)))
            is Some
}

/// The cell of row `r` (from 0) and school-day column `c` (from 1).
pub open spec fn grid_cell(s: AppModel, r: int, c: int) -> CellModel {
    if grid_editing(s, r, c) {
        CellModel::Editing(with_cursor(s.edit_buf))
    } else {
        CellModel::Styled(subject_lines(read_slot(s.content, r + 1, column_at(c)).unwrap()))
    }
}

/// Row `r` (from 0) of the timetable grid.
pub open spec fn grid_row(s: AppModel, r: int) -> GridRowModel {
    GridRowModel {
        time: crate::period::line_period(s.times[r].1),
        cells: Seq::new(5, |k: int| grid_cell(s, r, k + 1)),
        even: (r + 1) % 2 == 0,
    }
}

/// One row of the settings table: the row number on two places, and the
/// period.
pub struct SettingsRow {
    pub label: String,
    pub period: Cell,
}

impl View for SettingsRow {
    type V = (Seq<char>, CellModel);

    open spec fn view(&self) -> (Seq<char>, CellModel) {
        (self.label@, self.period@)
    }
}

/// Row `i` of the settings table.
pub open spec fn settings_row(s: AppModel, i: int) -> (Seq<char>, CellModel) {
    (
        decimal2(s.times[i].0 as nat),
        if s.edit_mode && s.state_settings.selected == Some(i as usize) {
            CellModel::Editing(with_cursor(s.edit_buf))
        } else {
            CellModel::Styled(period_spans(s.times[i].1))
        },
    )
}

/// The value shown for a field of the lesson pop-up: the text being typed
/// with a cursor when this field is being edited, else the field.
pub open spec fn popup_value(s: AppModel, row: usize, field: Seq<char>) -> Seq<char> {
    if s.edit_mode && s.state_create_table.selected == Some(row) {
        with_cursor(s.edit_buf)
    } else {
        field
    }
}

/// The rows of the lesson pop-up: name, room, teacher, and the submit row.
pub open spec fn popup_rows(s: AppModel) -> Seq<(Seq<char>, Seq<char>)> {
    seq![
        ("Name:"@, popup_value(s, 0, s.temp_subject.name)),
        ("Room:"@, popup_value(s, 1, s.temp_subject.room)),
        ("Teacher:"@, popup_value(s, 2, s.temp_subject.teacher)),
        (Seq::empty(), "Submit"@),
    ]
}

/// The rows shown above and below the grid's visible part: the number of
/// two-line rows that fit in an area `height` lines high, once its borders
/// and the header take three lines.
pub open spec fn visible_rows(height: u16) -> int {
    if height >= 3 {
        (height - 3) / 2
    } else {
        0
    }
}

fn cursor_text(buf: &String) -> (r: String)
    ensures
        r@ == with_cursor(buf@),
{
    let mut r = buf.clone();
    push_char(&mut r, '_');
    r
}

impl App {
    fn grid_cell(&self, r: usize, c: usize) -> (cell: Cell)
        requires
            r < NUM_ROWS,
            1 <= c < 6,
            grid_complete(self@),
        ensures
            cell@ == grid_cell(self@, r as int, c as int),
    {
        let editing = self.edit_mode && self.state_table.selected == Some(r)
            && self.state_table.selected_column == Some(c) && !self.create_popup;
        if editing {
            Cell::Editing(cursor_text(&self.edit_buf))
        } else {
            assert(read_slot(self@.content, r + 1, column_at(c as int)) is Some);
            let s = self.get_selected_subject(r, c).unwrap();
            Cell::Styled(s.to_text())
        }
    }

    /// Whether the grid can be drawn (`grid_complete`): a period for each of
    /// the 11 rows and a lesson slot for each row and school day.
    pub fn grid_is_complete(&self) -> (ok: bool)
        ensures
            ok == grid_complete(self@),
    {
        if self.times.len() < NUM_ROWS as usize {
            return false;
        }
        let mut r: usize = 0;
        while r < NUM_ROWS as usize
            invariant
                r <= NUM_ROWS,
                self@.times.len() >= NUM_ROWS,
                forall|rr: int, cc: int|
                    1 <= rr <= r && 1 <= cc < 6 ==> (#[trigger] read_slot(
                        self@.content,
                        rr,
                        column_at(cc),
                    )) is Some,
            decreases NUM_ROWS - r,
        {
            let mut c: usize = 1;
            while c < 6
                invariant
                    r < NUM_ROWS,
                    1 <= c <= 6,
                    forall|rr: int, cc: int|
                        1 <= rr <= r && 1 <= cc < 6 ==> (#[trigger] read_slot(
                            self@.content,
                            rr,
                            column_at(cc),
                        )) is Some,
                    forall|cc: int|
                        1 <= cc < c ==> (#[trigger] read_slot(
                            self@.content,
                            r + 1,
                            column_at(cc),
                        )) is Some,
                decreases 6 - c,
            {
                if self.get_selected_subject(r, c).is_none() {
                    assert(read_slot(self@.content, r + 1, column_at(c as int)) is None);
                    return false;
                }
                c = c + 1;
            }
            r = r + 1;
        }
        true
    }

    /// The rows of the timetable grid, one for each of the 11 lesson rows.
    pub fn grid_rows(&self) -> (rows: Vec<GridRow>)
        requires
            grid_complete(self@),
        ensures
            rows@.len() == NUM_ROWS,
            forall|r: int| 0 <= r < NUM_ROWS ==> (#[trigger] rows@[r])@ == grid_row(self@, r),
    {
        let mut rows: Vec<GridRow> = Vec::new();
        let mut r: usize = 0;
        while r < NUM_ROWS as usize
            invariant
                r <= NUM_ROWS,
                grid_complete(self@),
                rows@.len() == r,
                forall|k: int| 0 <= k < r ==> (#[trigger] rows@[k])@ == grid_row(self@, k),
            decreases NUM_ROWS - r,
        {
            let time = self.times[r].1.to_line_string();
            let mut cells: Vec<Cell> = Vec::new();
            let mut c: usize = 1;
            while c < 6
                invariant
                    r < NUM_ROWS,
                    1 <= c <= 6,
                    grid_complete(self@),
                    cells@.len() == c - 1,
                    forall|k: int|
                        0 <= k < c - 1 ==> (#[trigger] cells@[k])@ == grid_cell(
                            self@,
                            r as int,
                            k + 1,
                        ),
                decreases 6 - c,
            {
                cells.push(self.grid_cell(r, c));
                c = c + 1;
            }
            let row = GridRow { time, cells, even: (r + 1) % 2 == 0 };
            assert(row@.cells =~= grid_row(self@, r as int).cells);
            rows.push(row);
            r = r + 1;
        }
        rows
    }

    /// The rows of the settings table, one for each period.
    pub fn settings_rows(&self) -> (rows: Vec<SettingsRow>)
        ensures
            rows@.len() == self@.times.len(),
            forall|i: int|
                0 <= i < rows@.len() ==> (#[trigger] rows@[i])@ == settings_row(self@, i),
    {
        let mut rows: Vec<SettingsRow> = Vec::new();
        let n = self.times.len();
        let mut i: usize = 0;
        while i < n
            invariant
                n == self.times@.len(),
                i <= n,
                rows@.len() == i,
                forall|k: int| 0 <= k < i ==> (#[trigger] rows@[k])@ == settings_row(self@, k),
            decreases n - i,
        {
            let number = self.times[i].0;
            let mut label = String::new();
            if number < 10 {
                push_char(&mut label, '0');
            }
            push_decimal(&mut label, number as usize);
            proof {
                if number < 10 {
                    assert(label@ =~= decimal2(number as nat));
                }
            }
            let period = if self.edit_mode && self.state_settings.selected == Some(i) {
                Cell::Editing(cursor_text(&self.edit_buf))
            } else {
                Cell::Styled(self.times[i].1.to_text())
            };
            rows.push(SettingsRow { label, period });
            i = i + 1;
        }
        rows
    }

    /// The rows of the lesson pop-up: a label and a value for the name, the
    /// room and the teacher, then the submit row.
    pub fn popup_rows(&self) -> (rows: Vec<(String, String)>)
        ensures
            rows@.map_values(|p: (String, String)| (p.0@, p.1@)) == popup_rows(self@),
    {
        let editing = self.edit_mode;
        let sel = self.state_create_table.selected;
        let name = if editing && sel == Some(0) {
            cursor_text(&self.edit_buf)
        } else {
            self.temp_subject.name.clone()
        };
        let room = if editing && sel == Some(1) {
            cursor_text(&self.edit_buf)
        } else {
            self.temp_subject.room.clone()
        };
        let teacher = if editing && sel == Some(2) {
            cursor_text(&self.edit_buf)
        } else {
            self.temp_subject.teacher.clone()
        };
        let mut rows: Vec<(String, String)> = Vec::new();
        rows.push((String::from_str("Name:"), name));
        rows.push((String::from_str("Room:"), room));
        rows.push((String::from_str("Teacher:"), teacher));
        rows.push((String::new(), String::from_str("Submit")));
        assert(rows@.map_values(|p: (String, String)| (p.0@, p.1@)) =~= popup_rows(self@));
        rows
    }

    /// The mode indicator: `Edit` while something is being typed, else
    /// nothing.
    pub fn info_text(&self) -> (r: String)
        ensures
            r@ == (if self.edit_mode {
                "Edit"@
            } else {
                Seq::empty()
            }),
    {
        if self.edit_mode {
            String::from_str("Edit")
        } else {
            String::new()
        }
    }

    /// Whether the grid, drawn in an area `height` lines high, shows the
    /// markers for rows scrolled out above (`.0`) and below (`.1`).
    pub fn scroll_indicators(&self, height: u16) -> (r: (bool, bool))
        requires
            self.state_table.offset + visible_rows(height) + 1 <= usize::MAX,
        ensures
            r.0 == (self.state_table.offset > 0),
            r.1 == (self.state_table.offset + visible_rows(height) + 1 < self.times@.len()),
    {
        let row_height: u16 = 2;
        let border_lines: u16 = 2;
        let header_lines: u16 = 1;
        let visible = height.saturating_sub(border_lines + header_lines) / row_height;
        let offset = self.state_table.offset;
        let has_above = offset > 0;
        let has_below = offset + visible as usize + 1 < self.times.len();
        (has_above, has_below)
    }
}

} // verus!
