//! The timetable editor: the grid of lessons, the period times, and the
//! state of the tabs, tables and pop-up through which keys edit them.

use vstd::prelude::*;
use crate::column::{column_at, Column, NUM_COLUMNS};
use crate::period::{default_period, Period, PeriodModel};
use crate::selection::Selection;
use crate::subject::{default_subject, Subject, SubjectModel};

verus! {

/// The number of lesson rows of the timetable.
pub const NUM_ROWS: u8 = 11;

/// A lesson slot of the grid as a value: its row number (from 1), its
/// column and its lesson.
pub type SlotModel = (u8, Column, SubjectModel);

/// What the editor holds.
pub struct AppModel {
    pub selected_tab: usize,
    pub save_file: Seq<char>,
    pub times: Seq<(u8, PeriodModel)>,
    pub state_table: Selection,
    pub state_settings: Selection,
    pub edit_mode: bool,
    pub edit_buf: Seq<char>,
    pub content: Seq<SlotModel>,
    pub create_popup: bool,
    pub selected_create_tab: usize,
    pub state_create_table: Selection,
    pub temp_subject: SubjectModel,
    pub index_subjects: Seq<Seq<char>>,
    pub index_rooms: Seq<Seq<char>>,
    pub index_teachers: Seq<Seq<char>>,
    pub color: Seq<char>,
}

/// The period times as values.
pub open spec fn times_view(t: Seq<(u8, Period)>) -> Seq<(u8, PeriodModel)> {
    t.map_values(|e: (u8, Period)| (e.0, e.1@))
}

/// The lesson slots as values.
pub open spec fn content_view(c: Seq<(u8, Column, Subject)>) -> Seq<SlotModel> {
    c.map_values(|e: (u8, Column, Subject)| (e.0, e.1, e.2@))
}

/// A list of strings as values.
pub open spec fn strings_view(v: Seq<String>) -> Seq<Seq<char>> {
    v.map_values(|s: String| s@)
}

/// The row number that the table row `r` stands for: `r as u8 + 1`.
pub open spec fn row_number(r: usize) -> int {
    (r % 256) + 1
}

/// Whether the slot `e` is the one of row `row` in column `col`.
pub open spec fn slot_is(e: SlotModel, row: int, col: Column) -> bool {
    e.0 == row && e.1 == col
}

/// The position of the first slot of row `row` in column `col`.
pub open spec fn find_slot(c: Seq<SlotModel>, row: int, col: Column) -> Option<int>
    decreases c.len(),
{
    if c.len() == 0 {
        None
    } else {
        match find_slot(c.drop_last(), row, col) {
            Some(i) => Some(i),
            None => if slot_is(c.last(), row, col) {
                Some(c.len() - 1)
            } else {
                None
            },
        }
    }
}

/// The lesson in the first slot of row `row` in column `col`, if there is
/// such a slot.
pub open spec fn read_slot(c: Seq<SlotModel>, row: int, col: Column) -> Option<SubjectModel> {
    match find_slot(c, row, col) {
        Some(i) => Some(c[i].2),
        None => None,
    }
}

/// The slots with the lesson of the first slot of row `row` in column `col`
/// replaced by `s`; unchanged when there is no such slot.
pub open spec fn write_slot(c: Seq<SlotModel>, row: int, col: Column, s: SubjectModel) -> Seq<
    SlotModel,
> {
    match find_slot(c, row, col) {
        Some(i) => c.update(i, (c[i].0, c[i].1, s)),
        None => c,
    }
}

/// Where the first slot of a row and column is, if any: it matches, and no
/// earlier slot does.
pub proof fn lemma_find_slot(c: Seq<SlotModel>, row: int, col: Column)
    ensures
        find_slot(c, row, col) matches Some(i) ==> 0 <= i < c.len() && slot_is(c[i], row, col)
            && forall|j: int| 0 <= j < i ==> !slot_is(#[trigger] c[j], row, col),
        find_slot(c, row, col) is None ==> forall|j: int|
            0 <= j < c.len() ==> !slot_is(#[trigger] c[j], row, col),
    decreases c.len(),
{
    if c.len() > 0 {
        lemma_find_slot(c.drop_last(), row, col);
        assert forall|j: int| 0 <= j < c.len() - 1 implies c.drop_last()[j] == c[j] by {}
    }
}

/// The first match of a prefix is the first match of the whole.
proof fn lemma_find_slot_prefix(c: Seq<SlotModel>, k: int, row: int, col: Column)
    requires
        0 <= k <= c.len(),
        find_slot(c.take(k), row, col) is Some,
    ensures
        find_slot(c, row, col) == find_slot(c.take(k), row, col),
    decreases c.len() - k,
{
    if k < c.len() {
        assert(c.take(k + 1).drop_last() =~= c.take(k));
        lemma_find_slot_prefix(c, k + 1, row, col);
    } else {
        assert(c.take(k) =~= c);
    }
}

proof fn lemma_content_view_push(c: Seq<(u8, Column, Subject)>, x: (u8, Column, Subject))
    ensures
        content_view(c.push(x)) == content_view(c).push((x.0, x.1, x.2@)),
{
    assert(content_view(c.push(x)) =~= content_view(c).push((x.0, x.1, x.2@)));
}

proof fn lemma_times_view_push(t: Seq<(u8, Period)>, x: (u8, Period))
    ensures
        times_view(t.push(x)) == times_view(t).push((x.0, x.1@)),
{
    assert(times_view(t.push(x)) =~= times_view(t).push((x.0, x.1@)));
}

/// The period times the editor starts with: rows 1 to 11, all `00:00`.
pub open spec fn initial_times() -> Seq<(u8, PeriodModel)> {
    Seq::new(NUM_ROWS as nat, |k: int| ((k + 1) as u8, default_period()))
}

/// The slots the editor starts with: for each column in order, rows 1 to
/// 11, every lesson empty.
pub open spec fn initial_content() -> Seq<SlotModel> {
    Seq::new(
        (NUM_COLUMNS * NUM_ROWS as usize) as nat,
        |k: int| ((k % 11 + 1) as u8, column_at(k / 11), default_subject()),
    )
}

/// The editor as it starts: the timetable tab, nothing being edited, the
/// first lesson selected, and the save file `save-file.txt`.
pub open spec fn initial_app() -> AppModel {
    AppModel {
        selected_tab: 0,
        save_file: "save-file.txt"@,
        times: initial_times(),
        state_table: Selection::initial(),
        state_settings: Selection::initial(),
        edit_mode: false,
        edit_buf: Seq::empty(),
        content: initial_content(),
        create_popup: false,
        selected_create_tab: 0,
        state_create_table: Selection::initial(),
        temp_subject: default_subject(),
        index_subjects: Seq::empty(),
        index_rooms: Seq::empty(),
        index_teachers: Seq::empty(),
        color: "#00ff00"@,
    }
}

/// What is written to the save file: the period times and the lesson
/// slots.
pub struct SaveData {
    pub times: Vec<(u8, Period)>,
    pub content: Vec<(u8, Column, Subject)>,
}

impl View for SaveData {
    type V = (Seq<(u8, PeriodModel)>, Seq<SlotModel>);

    open spec fn view(&self) -> (Seq<(u8, PeriodModel)>, Seq<SlotModel>) {
        (times_view(self.times@), content_view(self.content@))
    }
}

pub struct App {
    pub selected_tab: usize,
    pub save_file: String,
    pub times: Vec<(u8, Period)>,
    pub state_table: Selection,
    pub state_settings: Selection,
    pub edit_mode: bool,
    pub edit_buf: String,
    pub content: Vec<(u8, Column, Subject)>,
    pub create_popup: bool,
    pub selected_create_tab: usize,
    pub state_create_table: Selection,
    pub temp_subject: Subject,
    pub index_subjects: Vec<String>,
    pub index_rooms: Vec<String>,
    pub index_teachers: Vec<String>,
    pub color: String,
}

impl View for App {
    type V = AppModel;

    open spec fn view(&self) -> AppModel {
        AppModel {
            selected_tab: self.selected_tab,
            save_file: self.save_file@,
            times: times_view(self.times@),
            state_table: self.state_table,
            state_settings: self.state_settings,
            edit_mode: self.edit_mode,
            edit_buf: self.edit_buf@,
            content: content_view(self.content@),
            create_popup: self.create_popup,
            selected_create_tab: self.selected_create_tab,
            state_create_table: self.state_create_table,
            temp_subject: self.temp_subject@,
            index_subjects: strings_view(self.index_subjects@),
            index_rooms: strings_view(self.index_rooms@),
            index_teachers: strings_view(self.index_teachers@),
            color: self.color@,
        }
    }
}

impl App {
    /// The editor as it starts: an empty timetable of 11 rows and the five
    /// school days, all period times `00:00`.
    pub fn new() -> (r: App)
        ensures
            r@ == initial_app(),
    {
        let mut content: Vec<(u8, Column, Subject)> = Vec::new();
        let mut ci: usize = 0;
        while ci < NUM_COLUMNS
            invariant
                ci <= NUM_COLUMNS,
                content_view(content@) == initial_content().take(ci * 11),
            decreases NUM_COLUMNS - ci,
        {
            let column = Column::from_index(ci);
            let mut n: u8 = 1;
            while n <= NUM_ROWS
                invariant
                    ci < NUM_COLUMNS,
                    1 <= n <= NUM_ROWS + 1,
                    column == column_at(ci as int),
                    content_view(content@) == initial_content().take(ci * 11 + n - 1),
                decreases NUM_ROWS + 1 - n,
            {
                let ghost before = content@;
                let d = Subject::default();
                content.push((n, column, d));
                proof {
                    lemma_content_view_push(before, (n, column, d));
                    let k = ci * 11 + n - 1;
                    assert(k % 11 == n - 1) by (nonlinear_arith)
                        requires
                            k == ci * 11 + n - 1,
                            1 <= n <= 11,
                    ;
                    assert(k / 11 == ci) by (nonlinear_arith)
                        requires
                            k == ci * 11 + n - 1,
                            1 <= n <= 11,
                    ;
                    assert(initial_content()[k as int] == (n, column, default_subject()));
                    assert(content_view(content@) =~= initial_content().take(k + 1));
                }
                n = n + 1;
            }
            ci = ci + 1;
        }
        assert(content_view(content@) =~= initial_content());
        let mut times: Vec<(u8, Period)> = Vec::new();
        let mut n: u8 = 1;
        while n <= NUM_ROWS
            invariant
                1 <= n <= NUM_ROWS + 1,
                times_view(times@) == initial_times().take(n - 1),
            decreases NUM_ROWS + 1 - n,
        {
            let ghost before = times@;
            let p = Period::default();
            times.push((n, p));
            proof {
                lemma_times_view_push(before, (n, p));
            }
            assert(initial_times()[n - 1] == (n, default_period()));
            assert(times_view(times@) =~= initial_times().take(n as int));
            n = n + 1;
        }
        assert(times_view(times@) =~= initial_times());
        let save_file = String::from_str("save-file.txt");
        let color = String::from_str("#00ff00");
        let r = App {
            selected_tab: 0,
            save_file,
            times,
            state_table: Selection::new(),
            state_settings: Selection::new(),
            edit_mode: false,
            edit_buf: String::new(),
            content,
            create_popup: false,
            selected_create_tab: 0,
            state_create_table: Selection::new(),
            temp_subject: Subject::default(),
            index_subjects: Vec::new(),
            index_rooms: Vec::new(),
            index_teachers: Vec::new(),
            color,
        };
        assert(r@.index_subjects =~= Seq::<Seq<char>>::empty());
        assert(r@.index_rooms =~= Seq::<Seq<char>>::empty());
        assert(r@.index_teachers =~= Seq::<Seq<char>>::empty());
        r
    }

    /// The lesson of table row `row_idx` (row number `row_idx as u8 + 1`)
    /// in column `col_idx`: the first slot of that row and column, if any.
    pub fn get_selected_subject(&self, row_idx: usize, col_idx: usize) -> (r: Option<&Subject>)
        requires
            col_idx < NUM_COLUMNS,
            row_idx % 256 != 255,
        ensures
            r matches Some(s) ==> read_slot(self@.content, row_number(row_idx), column_at(col_idx as int)) == Some(s@),
            r is None ==> read_slot(self@.content, row_number(row_idx), column_at(col_idx as int)) is None,
    {
        let row_num: u8 = (row_idx % 256) as u8 + 1;
        let column = Column::from_index(col_idx);
        let ghost c = self@.content;
        let ghost row = row_number(row_idx);
        let len = self.content.len();
        let mut i: usize = 0;
        while i < len
            invariant
                len == self.content@.len(),
                c == content_view(self.content@),
                row_num == row,
                row == row_number(row_idx),
                column == column_at(col_idx as int),
                i <= len,
                find_slot(c.take(i as int), row, column) is None,
            decreases len - i,
        {
            assert(c.take(i + 1).drop_last() =~= c.take(i as int));
            assert(c[i as int] == (
                self.content@[i as int].0,
                self.content@[i as int].1,
                self.content@[i as int].2@,
            ));
            assert(c.take(i + 1).last() == c[i as int]);
            if self.content[i].0 == row_num && self.content[i].1 == column {
                proof {
                    assert(find_slot(c.take(i + 1), row, column) == Some(i as int));
                    lemma_find_slot_prefix(c, i + 1, row, column);
                    assert(read_slot(c, row, column) == Some(self.content@[i as int].2@));
                }
                return Some(&self.content[i].2);
            }
            i = i + 1;
        }
        assert(c.take(len as int) =~= c);
        None
    }

    /// Puts `subject` into the first slot of table row `row_idx` (row number
    /// `row_idx as u8 + 1`) in column `col_idx`; nothing changes when there
    /// is no such slot.
    pub fn set_selected_subject(&mut self, row_idx: usize, col_idx: usize, subject: Subject)
        requires
            col_idx < NUM_COLUMNS,
            row_idx % 256 != 255,
        ensures
            final(self)@ == (AppModel {
                content: write_slot(old(self)@.content, row_number(row_idx), column_at(col_idx as int), subject@),
                ..old(self)@
            }),
    {
        let row_num: u8 = (row_idx % 256) as u8 + 1;
        let column = Column::from_index(col_idx);
        let ghost c = self@.content;
        let ghost row = row_number(row_idx);
        let len = self.content.len();
        let mut i: usize = 0;
        while i < len
            invariant
                len == self.content@.len(),
                c == content_view(self.content@),
                self@ == old(self)@,
                row_num == row,
                row == row_number(row_idx),
                column == column_at(col_idx as int),
                i <= len,
                find_slot(c.take(i as int), row, column) is None,
            decreases len - i,
        {
            assert(c.take(i + 1).drop_last() =~= c.take(i as int));
            assert(c[i as int] == (
                self.content@[i as int].0,
                self.content@[i as int].1,
                self.content@[i as int].2@,
            ));
            assert(c.take(i + 1).last() == c[i as int]);
            if self.content[i].0 == row_num && self.content[i].1 == column {
                proof {
                    assert(find_slot(c.take(i + 1), row, column) == Some(i as int));
                    lemma_find_slot_prefix(c, i + 1, row, column);
                }
                self.content.set(i, (row_num, column, subject));
                assert(content_view(self.content@) =~= write_slot(c, row, column, subject@));
                return;
            }
            i = i + 1;
        }
        assert(c.take(len as int) =~= c);
    }

    /// The timetable as it is saved: the period times and the lesson slots.
    pub fn save_data(&self) -> (d: SaveData)
        ensures
            d@ == (self@.times, self@.content),
    {
        let mut times: Vec<(u8, Period)> = Vec::new();
        let mut i: usize = 0;
        while i < self.times.len()
            invariant
                i <= self.times@.len(),
                times_view(times@) == times_view(self.times@).take(i as int),
            decreases self.times@.len() - i,
        {
            let ghost before = times@;
            let e = (self.times[i].0, self.times[i].1.clone());
            times.push(e);
            proof {
                lemma_times_view_push(before, e);
            }
            assert(times_view(times@) =~= times_view(self.times@).take(i + 1));
            i = i + 1;
        }
        assert(times_view(self.times@).take(i as int) =~= times_view(self.times@));
        let mut content: Vec<(u8, Column, Subject)> = Vec::new();
        let mut j: usize = 0;
        while j < self.content.len()
            invariant
                j <= self.content@.len(),
                content_view(content@) == content_view(self.content@).take(j as int),
            decreases self.content@.len() - j,
        {
            let ghost before = content@;
            let e = (self.content[j].0, self.content[j].1, self.content[j].2.clone());
            content.push(e);
            proof {
                lemma_content_view_push(before, e);
            }
            assert(content_view(content@) =~= content_view(self.content@).take(j + 1));
            j = j + 1;
        }
        assert(content_view(self.content@).take(j as int) =~= content_view(self.content@));
        SaveData { times, content }
    }

    /// Replaces the timetable by one that was saved.
    pub fn restore(&mut self, data: SaveData)
        ensures
            final(self)@ == (AppModel { times: data@.0, content: data@.1, ..old(self)@ }),
    {
        self.times = data.times;
        self.content = data.content;
    }
}

} // verus!
