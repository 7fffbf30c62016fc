//! Properties of the timetable that span several functions: what reading
//! back a written period or lesson gives, what writing a lesson does to the
//! grid, what the editor starts with, and what every key keeps.

use vstd::prelude::*;
use crate::period::{
    default_period, display_period, line_period, parse_period, period_spans, zero_time, PeriodModel,
};
use crate::subject::{none_word, parse_subject, SubjectModel};
use crate::text::{count_char, decimal, decimal2, digit_char, is_ws, split_on, trim, trim_end, trim_start};
use crate::app::{
    find_slot, initial_app, initial_content, lemma_find_slot, read_slot, row_number, slot_is,
    write_slot, AppModel, SlotModel, NUM_ROWS,
};
use crate::column::{column_at, Column, NUM_COLUMNS};
use crate::keys::{byte_len, can_step, edit_text, settle_period, step, Key, Outcome};
use crate::screen::{grid_cell, grid_complete, grid_row, popup_rows, settings_row, visible_rows, CellModel};
use crate::selection::Selection;
use crate::subject::{default_subject, subject_lines};
use crate::time_input::is_time_range;
use crate::color::{hex_color, hex_digit_value, Color};

verus! {

proof fn lemma_split_nonempty(s: Seq<char>, sep: char)
    ensures
        split_on(s, sep).len() >= 1,
    decreases s.len(),
{
    if s.len() > 0 {
        lemma_split_nonempty(s.drop_last(), sep);
    }
}

/// Appending text without a separator extends the last piece.
proof fn lemma_split_append(x: Seq<char>, y: Seq<char>, sep: char)
    requires
        !y.contains(sep),
    ensures
        split_on(x + y, sep) == split_on(x, sep).update(
            split_on(x, sep).len() - 1,
            split_on(x, sep).last() + y,
        ),
    decreases y.len(),
{
    lemma_split_nonempty(x, sep);
    let p = split_on(x, sep);
    if y.len() == 0 {
        assert(x + y =~= x);
        assert(p.last() + y =~= p.last());
        assert(p.update(p.len() - 1, p.last() + y) =~= p);
    } else {
        let y0 = y.drop_last();
        assert(!y0.contains(sep)) by {
            if y0.contains(sep) {
                let i = choose|i: int| 0 <= i < y0.len() && y0[i] == sep;
                assert(y[i] == sep);
            }
        }
        lemma_split_append(x, y0, sep);
        assert((x + y).drop_last() =~= x + y0);
        assert((x + y).last() == y.last());
        assert(y[y.len() - 1] == y.last());
        assert(y.last() != sep);
        let q = split_on(x + y0, sep);
        assert(q.last() == p.last() + y0);
        assert(q.last().push(y.last()) =~= p.last() + y);
        assert(q.update(q.len() - 1, q.last().push(y.last())) =~= p.update(
            p.len() - 1,
            p.last() + y,
        ));
    }
}

/// Two sep-free texts joined by one separator split back into the two.
proof fn lemma_split_two(a: Seq<char>, b: Seq<char>, sep: char)
    requires
        !a.contains(sep),
        !b.contains(sep),
    ensures
        split_on(a + seq![sep] + b, sep) == seq![a, b],
{
    let e = Seq::<char>::empty();
    lemma_split_append(e, a, sep);
    assert(e + a =~= a);
    assert(split_on(e, sep) =~= seq![e]);
    assert(e + a =~= a);
    assert(split_on(a, sep) =~= seq![a]);
    let a1 = a + seq![sep];
    assert(a1.drop_last() =~= a);
    assert(split_on(a1, sep) =~= seq![a, e]);
    lemma_split_append(a1, b, sep);
    assert(e + b =~= b);
    assert(split_on(a1 + b, sep) =~= seq![a, b]);
}

/// Reading back a period written on one line gives the same period, when
/// neither time holds a `-` nor starts or ends with whitespace.
pub proof fn period_text_round_trip(p: PeriodModel)
    requires
        !p.first_time.contains('-'),
        !p.second_time.contains('-'),
        trim(p.first_time) == p.first_time,
        trim(p.second_time) == p.second_time,
    ensures
        parse_period(display_period(p)) == Some(p),
{
    lemma_split_two(p.first_time, p.second_time, '-');
}

/// Reading back a lesson written as its name and room on two lines gives
/// that name and room, with the teacher unknown, when neither holds a line
/// break nor starts or ends with whitespace.
pub proof fn subject_text_round_trip(name: Seq<char>, room: Seq<char>)
    requires
        !name.contains('\n'),
        !room.contains('\n'),
        trim(name) == name,
        trim(room) == room,
    ensures
        parse_subject(name + seq!['\n'] + room) == Some(
            SubjectModel { name, room, teacher: none_word() },
        ),
{
    lemma_split_two(name, room, '\n');
}

/// Whether `c2` has the slots of `c1`, each for the same row and column,
/// whatever lessons they hold.
pub open spec fn same_layout(c1: Seq<SlotModel>, c2: Seq<SlotModel>) -> bool {
    &&& c1.len() == c2.len()
    &&& forall|i: int| 0 <= i < c1.len() ==> c1[i].0 == c2[i].0 && c1[i].1 == c2[i].1
}

proof fn lemma_find_slot_at(c: Seq<SlotModel>, row: int, col: Column, i: int)
    requires
        0 <= i < c.len(),
        slot_is(c[i], row, col),
        forall|j: int| 0 <= j < i ==> !slot_is(#[trigger] c[j], row, col),
    ensures
        find_slot(c, row, col) == Some(i),
{
    lemma_find_slot(c, row, col);
    if let Some(k) = find_slot(c, row, col) {
        if k < i {
            assert(!slot_is(c[k], row, col));
        } else if k > i {
            assert(!slot_is(c[i], row, col));
        }
    }
}

proof fn lemma_same_layout_find(c1: Seq<SlotModel>, c2: Seq<SlotModel>, row: int, col: Column)
    requires
        same_layout(c1, c2),
    ensures
        find_slot(c1, row, col) == find_slot(c2, row, col),
{
    lemma_find_slot(c1, row, col);
    lemma_find_slot(c2, row, col);
    assert forall|j: int| 0 <= j < c1.len() implies slot_is(c1[j], row, col) == slot_is(
        c2[j],
        row,
        col,
    ) by {}
    match find_slot(c1, row, col) {
        Some(i) => {
            assert forall|j: int| 0 <= j < i implies !slot_is(#[trigger] c2[j], row, col) by {
                assert(!slot_is(c1[j], row, col));
            }
            lemma_find_slot_at(c2, row, col, i);
        },
        None => {
            if let Some(i) = find_slot(c2, row, col) {
                assert(!slot_is(c1[i], row, col));
            }
        },
    }
}

/// Writing a lesson keeps every slot of the grid in its row and column.
pub proof fn write_keeps_layout(c: Seq<SlotModel>, row: int, col: Column, s: SubjectModel)
    ensures
        same_layout(write_slot(c, row, col, s), c),
{
    lemma_find_slot(c, row, col);
}

/// Reading a lesson back after writing it gives what was written, when the
/// grid has a slot for it.
pub proof fn read_after_write(c: Seq<SlotModel>, row: int, col: Column, s: SubjectModel)
    requires
        find_slot(c, row, col) is Some,
    ensures
        read_slot(write_slot(c, row, col, s), row, col) == Some(s),
{
    write_keeps_layout(c, row, col, s);
    lemma_same_layout_find(write_slot(c, row, col, s), c, row, col);
    lemma_find_slot(c, row, col);
}

/// Writing a lesson leaves the lesson of every other row and column as it
/// was.
pub proof fn write_leaves_others(
    c: Seq<SlotModel>,
    row: int,
    col: Column,
    s: SubjectModel,
    row2: int,
    col2: Column,
)
    requires
        row != row2 || col != col2,
    ensures
        read_slot(write_slot(c, row, col, s), row2, col2) == read_slot(c, row2, col2),
{
    write_keeps_layout(c, row, col, s);
    lemma_same_layout_find(write_slot(c, row, col, s), c, row2, col2);
    lemma_find_slot(c, row, col);
    lemma_find_slot(c, row2, col2);
}

/// The editor starts with an empty lesson in a slot of its own for each of
/// the 11 rows and each column.
pub proof fn initial_grid_has_every_slot(r: int, c: int)
    requires
        1 <= r <= NUM_ROWS,
        0 <= c < NUM_COLUMNS,
    ensures
        find_slot(initial_content(), r, column_at(c)) == Some(c * 11 + r - 1),
        read_slot(initial_content(), r, column_at(c)) == Some(default_subject()),
{
    let ic = initial_content();
    let k = c * 11 + r - 1;
    assert(k / 11 == c && k % 11 == r - 1) by (nonlinear_arith)
        requires
            k == c * 11 + r - 1,
            1 <= r <= 11,
            0 <= c,
    ;
    assert(0 <= k < 66) by (nonlinear_arith)
        requires
            k == c * 11 + r - 1,
            1 <= r <= 11,
            0 <= c < 6,
    ;
    assert forall|j: int| 0 <= j < k implies !slot_is(#[trigger] ic[j], r, column_at(c)) by {
        assert(j / 11 <= c && (j / 11 == c ==> j % 11 < r - 1)) by (nonlinear_arith)
            requires
                0 <= j < k,
                k == c * 11 + r - 1,
                1 <= r <= 11,
                0 <= c,
        ;
        assert(0 <= j / 11 < 6 && 0 <= j % 11 < 11) by (nonlinear_arith)
            requires
                0 <= j < 66,
        ;
    }
    lemma_find_slot_at(ic, r, column_at(c), k);
}

/// The editor starts with a complete grid: a period for each row and a
/// slot for each row and school day.
pub proof fn initial_grid_complete()
    ensures
        grid_complete(initial_app()),
{
    assert forall|r: int, c: int| 1 <= r <= NUM_ROWS && 1 <= c < 6 implies (#[trigger] read_slot(
        initial_app().content,
        r,
        column_at(c),
    )) is Some by {
        initial_grid_has_every_slot(r, c);
    }
}

/// Every key keeps the grid's slots in their rows and columns and the
/// period rows with their numbers: keys change lessons and times, never
/// the layout.
pub proof fn keys_keep_the_layout(s: AppModel, k: Key)
    requires
        can_step(s, k),
    ensures
        same_layout(step(s, k).0.content, s.content),
        step(s, k).0.times.len() == s.times.len(),
        forall|i: int| 0 <= i < s.times.len() ==> (#[trigger] step(s, k).0.times[i]).0 == s.times[i].0,
{
    let c = s.content;
    let t = s.state_table;
    if let (Some(r), Some(cc)) = (t.selected, t.selected_column) {
        write_keeps_layout(c, row_number(r), column_at(cc as int), default_subject());
        write_keeps_layout(c, row_number(r), column_at(cc as int), s.temp_subject);
    }
}

/// The editor stops only on `q` or `Esc` on the main screen, with nothing
/// being typed and the pop-up closed.
pub proof fn quits_only_from_main_screen(s: AppModel, k: Key)
    ensures
        step(s, k).1 == Outcome::Quit <==> (!s.create_popup && !s.edit_mode && (k == Key::Char('q')
            || k == Key::Esc)),
{
}

/// A key that changes the timetable (a lesson or a period time) asks for
/// it to be saved.
pub proof fn changes_are_saved(s: AppModel, k: Key)
    ensures
        step(s, k).1 != Outcome::Save ==> step(s, k).0.content == s.content && step(s, k).0.times
            == s.times,
{
}

/// The tab counters stay within the three tabs of the screen and of the
/// pop-up.
pub proof fn tabs_stay_in_range(s: AppModel, k: Key)
    requires
        s.selected_tab < 3,
        s.selected_create_tab < 3,
    ensures
        step(s, k).0.selected_tab < 3,
        step(s, k).0.selected_create_tab < 3,
{
}

/// Three presses of `Tab` on the main screen, with nothing being typed,
/// come back to the tab they started from.
pub proof fn tab_cycles(s: AppModel)
    requires
        !s.create_popup,
        !s.edit_mode,
        s.selected_tab < 3,
    ensures
        step(step(step(s, Key::Tab).0, Key::Tab).0, Key::Tab).0.selected_tab == s.selected_tab,
        step(step(step(s, Key::Tab).0, Key::Tab).0, Key::Tab).1 == Outcome::Continue,
{
}

/// `c` on the timetable tab empties the selected lesson and asks for the
/// timetable to be saved.
pub proof fn clearing_a_lesson(s: AppModel, r: usize, col: usize)
    requires
        !s.create_popup,
        s.selected_tab == 0,
        s.state_table.selected == Some(r),
        s.state_table.selected_column == Some(col),
        find_slot(s.content, row_number(r), column_at(col as int)) is Some,
    ensures
        read_slot(step(s, Key::Char('c')).0.content, row_number(r), column_at(col as int))
            == Some(default_subject()),
        step(s, Key::Char('c')).1 == Outcome::Save,
{
    read_after_write(s.content, row_number(r), column_at(col as int), default_subject());
}

/// Submitting the lesson pop-up writes its lesson into the selected slot
/// of the grid, closes the pop-up and asks for the timetable to be saved.
pub proof fn submitting_a_lesson(s: AppModel, r: usize, col: usize)
    requires
        s.create_popup,
        !s.edit_mode,
        s.state_create_table.selected == Some(3usize),
        s.state_table.selected == Some(r),
        s.state_table.selected_column == Some(col),
        find_slot(s.content, row_number(r), column_at(col as int)) is Some,
    ensures
        read_slot(step(s, Key::Enter).0.content, row_number(r), column_at(col as int)) == Some(
            s.temp_subject,
        ),
        !step(s, Key::Enter).0.create_popup,
        step(s, Key::Enter).0.temp_subject == default_subject(),
        step(s, Key::Enter).1 == Outcome::Save,
{
    read_after_write(s.content, row_number(r), column_at(col as int), s.temp_subject);
}

/// Starting to edit a period on the settings tab and confirming it without
/// typing anything gives the period back, when its times are trimmed, hold
/// no `-`, the start is not empty, and the end is either the placeholder
/// `00:00` or at least five bytes long without ending in `00:00`.
pub proof fn confirming_an_unchanged_period(p: PeriodModel)
    requires
        p.first_time.len() > 0,
        !p.first_time.contains('-'),
        !p.second_time.contains('-'),
        trim(p.first_time) == p.first_time,
        trim(p.second_time) == p.second_time,
        p.second_time == zero_time() || (p.second_time.len() >= 5 && p.second_time.subrange(
            p.second_time.len() - 5,
            p.second_time.len() as int,
        ) != zero_time() && byte_len(p.second_time) >= 5),
    ensures
        settle_period(parse_period(edit_text(p))) == p,
{
    let e = Seq::<char>::empty();
    assert(vstd::utf8::is_ascii_chars(zero_time()));
    vstd::utf8::is_ascii_chars_encode_utf8(zero_time());
    if p == default_period() {
        assert(split_on(e, '-') =~= seq![e]);
    } else {
        let d = display_period(p);
        if p.second_time == zero_time() {
            assert(d.subrange(d.len() - 5, d.len() as int) =~= zero_time());
            assert(d.take(d.len() - 5) =~= p.first_time + seq!['-'] + e);
            lemma_split_two(p.first_time, e, '-');
            assert(trim(e) =~= e);
        } else {
            let n = p.second_time.len();
            assert(d.subrange(d.len() - 5, d.len() as int) =~= p.second_time.subrange(
                n - 5,
                n as int,
            ));
            period_text_round_trip(p);
        }
    }
}

/// Every key keeps the grid complete: the grid that could be drawn before
/// a key can be drawn after it.
pub proof fn keys_keep_the_grid_complete(s: AppModel, k: Key)
    requires
        can_step(s, k),
        grid_complete(s),
    ensures
        grid_complete(step(s, k).0),
{
    keys_keep_the_layout(s, k);
    let s2 = step(s, k).0;
    assert forall|r: int, c: int| 1 <= r <= NUM_ROWS && 1 <= c < 6 implies (#[trigger] read_slot(
        s2.content,
        r,
        column_at(c),
    )) is Some by {
        assert(read_slot(s.content, r, column_at(c)) is Some);
        lemma_same_layout_find(s2.content, s.content, r, column_at(c));
    }
}

/// The columns, counted from 0, are the time column and then the school
/// days from Monday to Friday, in the order of the grid's header.
pub proof fn columns_in_weekday_order(i: int)
    requires
        0 <= i < NUM_COLUMNS,
    ensures
        column_at(i) == seq![
            Column::Time,
            Column::Monday,
            Column::Tuesday,
            Column::Wednesday,
            Column::Thursday,
            Column::Friday,
        ][i],
{
}

/// Enter on a row of the pop-up that is not being typed into loads that same
/// field of the lesson (`None` as nothing) for typing, and changes nothing
/// else.
pub proof fn opening_a_popup_field(s: AppModel, k: usize)
    requires
        s.create_popup,
        !s.edit_mode,
        k < 3,
        s.state_create_table.selected == Some(k),
    ensures
        ({
            let t = s.temp_subject;
            let f = if k == 0 {
                t.name
            } else if k == 1 {
                t.room
            } else {
                t.teacher
            };
            step(s, Key::Enter).0 == (AppModel {
                edit_buf: if f == none_word() {
                    Seq::empty()
                } else {
                    f
                },
                edit_mode: true,
                ..s
            })
        }),
        step(s, Key::Enter).1 == Outcome::Continue,
{
}

/// Enter on a field of the pop-up that is being typed into stores the typed
/// text in that field (`None` for nothing typed), leaves the other fields
/// as they were, moves to the next row and clears the buffer.
pub proof fn committing_a_popup_field(s: AppModel, k: usize)
    requires
        s.create_popup,
        s.edit_mode,
        k < 3,
        s.state_create_table.selected == Some(k),
    ensures
        ({
            let t = s.temp_subject;
            let v = if s.edit_buf.len() == 0 {
                none_word()
            } else {
                s.edit_buf
            };
            let s2 = step(s, Key::Enter).0;
            &&& s2.temp_subject.name == (if k == 0 {
                v
            } else {
                t.name
            })
            &&& s2.temp_subject.room == (if k == 1 {
                v
            } else {
                t.room
            })
            &&& s2.temp_subject.teacher == (if k == 2 {
                v
            } else {
                t.teacher
            })
            &&& s2.state_create_table.selected == Some((k + 1) as usize)
            &&& s2.edit_buf.len() == 0
            &&& s2.content == s.content
        }),
{
}

/// Opening a field of the pop-up and confirming it without typing gives the
/// lesson back unchanged (for a field that is not empty text), and moves to
/// the next row.
pub proof fn confirming_an_unchanged_field(s: AppModel, k: usize)
    requires
        s.create_popup,
        !s.edit_mode,
        k < 3,
        s.state_create_table.selected == Some(k),
        k == 0 ==> s.temp_subject.name.len() > 0,
        k == 1 ==> s.temp_subject.room.len() > 0,
        k == 2 ==> s.temp_subject.teacher.len() > 0,
    ensures
        step(step(s, Key::Enter).0, Key::Enter).0.temp_subject == s.temp_subject,
        step(step(s, Key::Enter).0, Key::Enter).0.state_create_table.selected == Some(
            (k + 1) as usize,
        ),
        step(step(s, Key::Enter).0, Key::Enter).0.content == s.content,
{
    opening_a_popup_field(s, k);
    let s1 = step(s, Key::Enter).0;
    committing_a_popup_field(s1, k);
}

/// Typing a character into a field of the pop-up and erasing it gives the
/// state back; characters beyond ASCII are ignored.
pub proof fn popup_typing_is_undone_by_backspace(s: AppModel, c: char)
    requires
        s.create_popup,
        s.edit_mode,
    ensures
        c <= '\u{7f}' ==> step(s, Key::Char(c)).0.edit_buf == s.edit_buf.push(c),
        c > '\u{7f}' ==> step(s, Key::Char(c)).0 == s,
        step(step(s, Key::Char(c)).0, Key::Backspace).0 == s || c > '\u{7f}',
{
    assert(s.edit_buf.push(c).drop_last() =~= s.edit_buf);
}

/// Up on the settings tab, with nothing being typed, selects the period row
/// above (staying on the first one), Down the row below, and nothing else
/// changes; Up undoes Down.
pub proof fn arrows_on_the_settings_tab(s: AppModel, i: usize)
    requires
        !s.create_popup,
        !s.edit_mode,
        s.selected_tab == 1,
        s.state_settings.selected == Some(i),
    ensures
        step(s, Key::Up).0 == (AppModel {
            state_settings: Selection {
                selected: Some(if i > 0 {
                    (i - 1) as usize
                } else {
                    0
                }),
                ..s.state_settings
            },
            ..s
        }),
        i < usize::MAX ==> step(s, Key::Down).0 == (AppModel {
            state_settings: Selection { selected: Some((i + 1) as usize), ..s.state_settings },
            ..s
        }),
        i < usize::MAX ==> step(step(s, Key::Down).0, Key::Up).0 == s,
{
}

/// Up and Down on the timetable tab select the row above and below; Right
/// and Left the next and previous school day, never the time column; Up
/// undoes Down and Left undoes Right.
pub proof fn arrows_on_the_timetable_tab(s: AppModel, r: usize, c: usize)
    requires
        !s.create_popup,
        s.selected_tab == 0,
        s.state_table.selected == Some(r),
        s.state_table.selected_column == Some(c),
        1 <= c < usize::MAX,
        r < usize::MAX,
    ensures
        step(s, Key::Down).0 == (AppModel {
            state_table: Selection { selected: Some((r + 1) as usize), ..s.state_table },
            ..s
        }),
        r > 0 ==> step(s, Key::Up).0 == (AppModel {
            state_table: Selection { selected: Some((r - 1) as usize), ..s.state_table },
            ..s
        }),
        step(s, Key::Right).0 == (AppModel {
            state_table: Selection { selected_column: Some((c + 1) as usize), ..s.state_table },
            ..s
        }),
        step(s, Key::Left).0 == (AppModel {
            state_table: Selection {
                selected_column: Some(if c > 1 {
                    (c - 1) as usize
                } else {
                    1
                }),
                ..s.state_table
            },
            ..s
        }),
        step(step(s, Key::Down).0, Key::Up).0 == s,
        step(step(s, Key::Right).0, Key::Left).0 == s,
{
}

/// Up and Down in the pop-up, with nothing being typed, select the row above
/// and below; Up undoes Down.
pub proof fn arrows_in_the_popup(s: AppModel, i: usize)
    requires
        s.create_popup,
        !s.edit_mode,
        s.state_create_table.selected == Some(i),
        i < usize::MAX,
    ensures
        step(s, Key::Down).0 == (AppModel {
            state_create_table: Selection {
                selected: Some((i + 1) as usize),
                ..s.state_create_table
            },
            ..s
        }),
        i > 0 ==> step(s, Key::Up).0 == (AppModel {
            state_create_table: Selection {
                selected: Some((i - 1) as usize),
                ..s.state_create_table
            },
            ..s
        }),
        step(step(s, Key::Down).0, Key::Up).0 == s,
{
}

/// A grid cell shows the text being typed, with a cursor, exactly when a
/// lesson is typed straight into that selected cell with the pop-up closed;
/// otherwise, and in particular while the pop-up is open, it shows the
/// lesson stored in its slot.
pub proof fn grid_cells_show_stored_lessons(s: AppModel, r: int, c: int)
    requires
        0 <= r < NUM_ROWS,
        1 <= c < NUM_COLUMNS,
    ensures
        (s.edit_mode && !s.create_popup && s.state_table.selected == Some(r as usize)
            && s.state_table.selected_column == Some(c as usize)) ==> grid_cell(s, r, c)
            == CellModel::Editing(s.edit_buf.push('_')),
        !(s.edit_mode && !s.create_popup && s.state_table.selected == Some(r as usize)
            && s.state_table.selected_column == Some(c as usize)) ==> grid_cell(s, r, c)
            == CellModel::Styled(subject_lines(read_slot(s.content, r + 1, column_at(c)).unwrap())),
        s.create_popup ==> grid_cell(s, r, c) == CellModel::Styled(
            subject_lines(read_slot(s.content, r + 1, column_at(c)).unwrap()),
        ),
{
}

/// Enter on the timetable tab opens the pop-up on the lesson stored in the
/// selected cell, and starts typing its name when it has none.
pub proof fn opening_a_lesson(s: AppModel, r: usize, c: usize)
    requires
        !s.create_popup,
        s.selected_tab == 0,
        s.state_table.selected == Some(r),
        s.state_table.selected_column == Some(c),
        find_slot(s.content, row_number(r), column_at(c as int)) is Some,
    ensures
        step(s, Key::Enter).0.create_popup,
        read_slot(s.content, row_number(r), column_at(c as int)) == Some(
            step(s, Key::Enter).0.temp_subject,
        ),
        step(s, Key::Enter).0.edit_mode == (s.edit_mode || step(s, Key::Enter).0.temp_subject.name
            == none_word()),
        step(s, Key::Enter).0.content == s.content,
{
}

/// The pieces joined again with `sep` between them.
pub open spec fn join_with(parts: Seq<Seq<char>>, sep: char) -> Seq<char>
    decreases parts.len(),
{
    if parts.len() == 0 {
        Seq::empty()
    } else if parts.len() == 1 {
        parts[0]
    } else {
        join_with(parts.drop_last(), sep) + seq![sep] + parts.last()
    }
}

proof fn lemma_join_update_last(p: Seq<Seq<char>>, x: Seq<char>, sep: char)
    requires
        p.len() >= 1,
    ensures
        join_with(p.update(p.len() - 1, x), sep) == (if p.len() == 1 {
            x
        } else {
            join_with(p.drop_last(), sep) + seq![sep] + x
        }),
{
    let q = p.update(p.len() - 1, x);
    if p.len() > 1 {
        assert(q.drop_last() =~= p.drop_last());
    }
}

/// Splitting on a separator loses nothing: the pieces hold no separator,
/// there is one more of them than separators, and joining them with the
/// separator gives the text back.
pub proof fn splitting_loses_nothing(s: Seq<char>, sep: char)
    ensures
        join_with(split_on(s, sep), sep) == s,
        split_on(s, sep).len() == count_char(s, sep) + 1,
        forall|i: int| 0 <= i < split_on(s, sep).len() ==> !(#[trigger] split_on(s, sep)[i]).contains(sep),
    decreases s.len(),
{
    if s.len() == 0 {
        assert(split_on(s, sep) =~= seq![Seq::<char>::empty()]);
        assert(s =~= Seq::<char>::empty());
        assert forall|i: int| 0 <= i < split_on(s, sep).len() implies !(#[trigger] split_on(s, sep)[i]).contains(sep) by {
            assert(split_on(s, sep)[i] =~= Seq::<char>::empty());
        }
    } else {
        let s0 = s.drop_last();
        let c = s.last();
        splitting_loses_nothing(s0, sep);
        lemma_split_nonempty(s0, sep);
        let p = split_on(s0, sep);
        assert(s0.push(c) =~= s);
        if c == sep {
            assert(split_on(s, sep).drop_last() =~= p);
            assert(join_with(split_on(s, sep), sep) =~= s);
            assert forall|i: int| 0 <= i < split_on(s, sep).len() implies !(#[trigger] split_on(s, sep)[i]).contains(sep) by {
                if i < p.len() {
                    assert(split_on(s, sep)[i] == p[i]);
                } else {
                    assert(split_on(s, sep)[i] =~= Seq::<char>::empty());
                }
            }
        } else {
            lemma_join_update_last(p, p.last().push(c), sep);
            if p.len() == 1 {
                assert(join_with(p, sep) == p[0]);
                assert(p.last().push(c) =~= s);
            } else {
                assert(join_with(p, sep) == join_with(p.drop_last(), sep) + seq![sep] + p.last());
                assert(join_with(p.drop_last(), sep) + seq![sep] + p.last().push(c) =~= s);
            }
            assert forall|i: int| 0 <= i < split_on(s, sep).len() implies !(#[trigger] split_on(s, sep)[i]).contains(sep) by {
                if i < p.len() - 1 {
                    assert(split_on(s, sep)[i] == p[i]);
                } else {
                    let l = p.last().push(c);
                    assert(split_on(s, sep)[i] == l);
                    assert(!p[p.len() - 1].contains(sep));
                    if l.contains(sep) {
                        let j = choose|j: int| 0 <= j < l.len() && l[j] == sep;
                        if j < l.len() - 1 {
                            assert(p.last()[j] == sep);
                        }
                    }
                }
            }
        }
    }
}

proof fn lemma_trim_start(s: Seq<char>)
    ensures
        exists|i: int|
            0 <= i <= s.len() && trim_start(s) == s.skip(i) && (forall|k: int|
                0 <= k < i ==> is_ws(#[trigger] s[k])) && (i < s.len() ==> !is_ws(s[i])),
    decreases s.len(),
{
    if s.len() > 0 && is_ws(s[0]) {
        let t = s.drop_first();
        lemma_trim_start(t);
        let i = choose|i: int|
            0 <= i <= t.len() && trim_start(t) == t.skip(i) && (forall|k: int|
                0 <= k < i ==> is_ws(#[trigger] t[k])) && (i < t.len() ==> !is_ws(t[i]));
        assert(t.skip(i) =~= s.skip(i + 1));
        assert forall|k: int| 0 <= k < i + 1 implies is_ws(#[trigger] s[k]) by {
            if k > 0 {
                assert(s[k] == t[k - 1]);
            }
        }
        assert(i + 1 < s.len() ==> s[i + 1] == t[i]);
    } else {
        assert(s.skip(0) =~= s);
    }
}

proof fn lemma_trim_end(s: Seq<char>)
    ensures
        exists|j: int|
            0 <= j <= s.len() && trim_end(s) == s.take(j) && (forall|k: int|
                j <= k < s.len() ==> is_ws(#[trigger] s[k])) && (j > 0 ==> !is_ws(s[j - 1])),
    decreases s.len(),
{
    if s.len() > 0 && is_ws(s.last()) {
        let t = s.drop_last();
        lemma_trim_end(t);
        let j = choose|j: int|
            0 <= j <= t.len() && trim_end(t) == t.take(j) && (forall|k: int|
                j <= k < t.len() ==> is_ws(#[trigger] t[k])) && (j > 0 ==> !is_ws(t[j - 1]));
        assert(t.take(j) =~= s.take(j));
        assert forall|k: int| j <= k < s.len() implies is_ws(#[trigger] s[k]) by {
            if k < s.len() - 1 {
                assert(s[k] == t[k]);
            }
        }
    } else {
        assert(s.take(s.len() as int) =~= s);
    }
}

/// Trimming keeps a stretch of the text: what it drops before and after is
/// all whitespace, and what it keeps neither starts nor ends with
/// whitespace.
pub proof fn trimming_drops_only_outer_whitespace(s: Seq<char>)
    ensures
        exists|i: int, j: int|
            0 <= i <= j <= s.len() && trim(s) == s.subrange(i, j) && (forall|k: int|
                0 <= k < i ==> is_ws(#[trigger] s[k])) && (forall|k: int|
                j <= k < s.len() ==> is_ws(#[trigger] s[k])),
        trim(s).len() > 0 ==> !is_ws(trim(s)[0]) && !is_ws(trim(s).last()),
{
    lemma_trim_start(s);
    let i = choose|i: int|
        0 <= i <= s.len() && trim_start(s) == s.skip(i) && (forall|k: int|
            0 <= k < i ==> is_ws(#[trigger] s[k])) && (i < s.len() ==> !is_ws(s[i]));
    let t = s.skip(i);
    lemma_trim_end(t);
    let j = choose|j: int|
        0 <= j <= t.len() && trim_end(t) == t.take(j) && (forall|k: int|
            j <= k < t.len() ==> is_ws(#[trigger] t[k])) && (j > 0 ==> !is_ws(t[j - 1]));
    assert(t.take(j) =~= s.subrange(i, i + j));
    assert forall|k: int| i + j <= k < s.len() implies is_ws(#[trigger] s[k]) by {
        assert(s[k] == t[k - i]);
    }
    if j > 0 {
        assert(trim(s)[0] == s[i]);
        assert(trim(s).last() == t[j - 1]);
    }
}

/// The number that decimal digits spell.
pub open spec fn digits_value(d: Seq<char>) -> int
    decreases d.len(),
{
    if d.len() == 0 {
        0
    } else {
        digits_value(d.drop_last()) * 10 + (d.last() as int - 48)
    }
}

proof fn lemma_digit_char(d: nat)
    requires
        d < 10,
    ensures
        '0' <= digit_char(d) <= '9',
        digit_char(d) as int - 48 == d,
{
}

/// Decimal notation reads back as the number: it is made of digits `0` to
/// `9`, has no leading zero, and the digits spell `n`.
pub proof fn decimal_reads_back(n: nat)
    ensures
        decimal(n).len() > 0,
        (decimal(n).len() == 1) == (n < 10),
        forall|i: int| 0 <= i < decimal(n).len() ==> '0' <= #[trigger] decimal(n)[i] <= '9',
        decimal(n).len() > 1 ==> decimal(n)[0] != '0',
        digits_value(decimal(n)) == n,
    decreases n,
{
    if n >= 10 {
        decimal_reads_back(n / 10);
        lemma_digit_char(n % 10);
        let d = decimal(n / 10);
        assert(decimal(n).drop_last() =~= d);
        assert(decimal(n).last() == digit_char(n % 10));
        assert forall|i: int| 0 <= i < decimal(n).len() implies '0' <= #[trigger] decimal(n)[i] <= '9' by {
            if i < d.len() {
                assert(decimal(n)[i] == d[i]);
            }
        }
        assert(decimal(n)[0] == d[0]);
        if n / 10 < 10 {
            lemma_digit_char(n / 10);
            assert(d == seq![digit_char(n / 10)]);
        }
        assert(n / 10 >= 1);
        assert(digits_value(decimal(n)) == digits_value(d) * 10 + (n % 10));
        assert((n / 10) * 10 + n % 10 == n) by (nonlinear_arith);
    } else {
        lemma_digit_char(n);
        assert(decimal(n) == seq![digit_char(n)]);
        assert(decimal(n).drop_last() =~= Seq::<char>::empty());
        assert(digits_value(decimal(n)) == digits_value(Seq::<char>::empty()) * 10 + (digit_char(n) as int - 48));
    }
}

/// A number below 100 is shown on two places as its tens and its ones.
pub proof fn two_place_numbers(n: nat)
    requires
        n < 100,
    ensures
        decimal2(n).len() == 2,
        decimal2(n)[0] as int - 48 == n / 10,
        decimal2(n)[1] as int - 48 == n % 10,
{
    lemma_digit_char(n / 10);
    lemma_digit_char(n % 10);
    if n >= 10 {
        assert(decimal(n / 10) == seq![digit_char(n / 10)]);
        assert(decimal(n) =~= seq![digit_char(n / 10), digit_char(n % 10)]);
    }
}

/// The period nobody has filled in runs from `00:00` to `00:00`, and the
/// empty lesson has `None` as name, room and teacher.
pub proof fn placeholders()
    ensures
        default_period().first_time == seq!['0', '0', ':', '0', '0'],
        default_period().second_time == seq!['0', '0', ':', '0', '0'],
        default_subject().name == seq!['N', 'o', 'n', 'e'],
        default_subject().room == seq!['N', 'o', 'n', 'e'],
        default_subject().teacher == seq!['N', 'o', 'n', 'e'],
{
}

/// The forms of a period agree: the two-line form is the one-line form
/// broken after the `-`, and the styled pieces spell the one-line form,
/// with exactly the placeholder times `00:00` greyed out.
pub proof fn period_forms_agree(p: PeriodModel)
    ensures
        line_period(p) == display_period(p).insert(p.first_time.len() + 1int, '\n'),
        display_period(p) == p.first_time + seq!['-'] + p.second_time,
        period_spans(p).len() == 3,
        period_spans(p)[0].0 + period_spans(p)[1].0 + period_spans(p)[2].0 == display_period(p),
        period_spans(p)[0].1 == (p.first_time == seq!['0', '0', ':', '0', '0']),
        !period_spans(p)[1].1,
        period_spans(p)[2].1 == (p.second_time == seq!['0', '0', ':', '0', '0']),
{
    assert(line_period(p) =~= display_period(p).insert(p.first_time.len() + 1int, '\n'));
    assert(period_spans(p)[0].0 + period_spans(p)[1].0 + period_spans(p)[2].0 =~= display_period(p));
}

/// A lesson shows as its name over its room, each greyed out exactly when
/// it is `None`.
pub proof fn lesson_lines(t: SubjectModel)
    ensures
        subject_lines(t).len() == 2,
        subject_lines(t)[0] == (t.name, t.name == seq!['N', 'o', 'n', 'e']),
        subject_lines(t)[1] == (t.room, t.room == seq!['N', 'o', 'n', 'e']),
{
}

/// A period read from the settings tab is settled thus: text that is no
/// period gives `00:00-00:00`; an empty start becomes `00:00`; with a start,
/// an end that is empty or shorter than five bytes becomes `00:00`;
/// anything else is kept.
pub proof fn settling_a_period(o: Option<PeriodModel>)
    ensures
        o is None ==> settle_period(o) == (PeriodModel {
            first_time: seq!['0', '0', ':', '0', '0'],
            second_time: seq!['0', '0', ':', '0', '0'],
        }),
        o matches Some(p) ==> (p.first_time.len() == 0 ==> settle_period(o) == (PeriodModel {
            first_time: seq!['0', '0', ':', '0', '0'],
            second_time: p.second_time,
        })),
        o matches Some(p) ==> (p.first_time.len() > 0 && (p.second_time.len() == 0 || byte_len(
            p.second_time,
        ) < 5) ==> settle_period(o) == (PeriodModel {
            first_time: p.first_time,
            second_time: seq!['0', '0', ':', '0', '0'],
        })),
        o matches Some(p) ==> (p.first_time.len() > 0 && p.second_time.len() > 0 && byte_len(
            p.second_time,
        ) >= 5 ==> settle_period(o) == p),
{
}

/// Confirming a complete time range typed on the settings tab stores its
/// two times in the selected period and nothing else, asks for a save, and
/// moves on to the next period (or stops typing after the last one).
pub proof fn confirming_a_typed_time_range(s: AppModel, i: usize, t: Seq<char>)
    requires
        !s.create_popup,
        s.edit_mode,
        s.selected_tab == 1,
        s.state_settings.selected == Some(i),
        i < s.times.len(),
        is_time_range(t),
        s.edit_buf == t,
    ensures
        step(s, Key::Enter).0.times.len() == s.times.len(),
        step(s, Key::Enter).0.times[i as int] == (
            s.times[i as int].0,
            PeriodModel { first_time: t.take(5), second_time: t.skip(6) },
        ),
        forall|j: int|
            0 <= j < s.times.len() && j != i ==> (#[trigger] step(s, Key::Enter).0.times[j])
                == s.times[j],
        step(s, Key::Enter).0.edit_buf.len() == 0,
        step(s, Key::Enter).1 == Outcome::Save,
        i != 10 && i < usize::MAX ==> step(s, Key::Enter).0.edit_mode && step(
            s,
            Key::Enter,
        ).0.state_settings.selected == Some((i + 1) as usize),
        i == 10 ==> !step(s, Key::Enter).0.edit_mode,
{
    let a = t.take(5);
    let b = t.skip(6);
    assert(t =~= a + seq!['-'] + b);
    assert(!a.contains('-')) by {
        if a.contains('-') {
            let j = choose|j: int| 0 <= j < a.len() && a[j] == '-';
            assert(a[j] == t[j]);
        }
    }
    assert(!b.contains('-')) by {
        if b.contains('-') {
            let j = choose|j: int| 0 <= j < b.len() && b[j] == '-';
            assert(b[j] == t[j + 6]);
        }
    }
    assert(trim_start(a) == a);
    assert(a.last() == t[4]);
    assert(trim_end(a) == a);
    assert(trim_start(b) == b);
    assert(b.last() == t[10]);
    assert(trim_end(b) == b);
    lemma_split_two(a, b, '-');
    assert(vstd::utf8::is_ascii_chars(b)) by {
        assert forall|j: int| 0 <= j < b.len() implies '\0' <= #[trigger] b[j] <= '\u{7f}' by {
            assert(b[j] == t[j + 6]);
        }
    }
    vstd::utf8::is_ascii_chars_encode_utf8(b);
}

/// Table row `r` stands for the lesson row numbered `r + 1`, the row number
/// being a byte: rows 256 apart stand for the same lesson row.
pub proof fn table_rows_are_numbered_from_one(r: usize)
    ensures
        r < 255 ==> row_number(r) == r + 1,
        r < usize::MAX - 256 ==> row_number((r + 256) as usize) == row_number(r),
        1 <= row_number(r) <= 256,
{
}

/// The rows of the grid alternate their background, starting with the
/// darker one; each shows its period on two lines and five school days.
pub proof fn grid_rows_alternate(s: AppModel, r: int)
    requires
        0 <= r < NUM_ROWS,
    ensures
        !grid_row(s, 0).even,
        grid_row(s, r).even != grid_row(s, r + 1).even,
        grid_row(s, r).time == line_period(s.times[r].1),
        grid_row(s, r).cells.len() == 5,
        forall|c: int| 1 <= c < 6 ==> #[trigger] grid_row(s, r).cells[c - 1] == grid_cell(s, r, c),
{
}

/// A row of the settings table is labelled with its row number on two
/// places, and shows the text being typed exactly when a period is being
/// typed and this row is selected (whether the pop-up is open or not).
pub proof fn settings_rows_show_their_period(s: AppModel, i: int)
    requires
        0 <= i < s.times.len(),
    ensures
        settings_row(s, i).0 == decimal2(s.times[i].0 as nat),
        (s.edit_mode && s.state_settings.selected == Some(i as usize)) ==> settings_row(s, i).1
            == CellModel::Editing(s.edit_buf.push('_')),
        !(s.edit_mode && s.state_settings.selected == Some(i as usize)) ==> settings_row(s, i).1
            == CellModel::Styled(period_spans(s.times[i].1)),
{
}

/// The pop-up lists the name, the room and the teacher of its lesson, in
/// that order, then the submit row; the row being typed into shows the
/// typed text with a cursor instead.
pub proof fn popup_lists_the_lesson(s: AppModel)
    ensures
        popup_rows(s).len() == 4,
        popup_rows(s)[0].1 == (if s.edit_mode && s.state_create_table.selected == Some(0usize) {
            s.edit_buf.push('_')
        } else {
            s.temp_subject.name
        }),
        popup_rows(s)[1].1 == (if s.edit_mode && s.state_create_table.selected == Some(1usize) {
            s.edit_buf.push('_')
        } else {
            s.temp_subject.room
        }),
        popup_rows(s)[2].1 == (if s.edit_mode && s.state_create_table.selected == Some(2usize) {
            s.edit_buf.push('_')
        } else {
            s.temp_subject.teacher
        }),
        popup_rows(s)[3].0.len() == 0,
{
}

/// The number of two-line rows that fit in an area `h` lines high below
/// its borders and header (three lines): the most rows that fit, none when
/// the area is lower than three lines.
pub proof fn visible_rows_fit(h: u16)
    ensures
        h < 3 ==> visible_rows(h) == 0,
        h >= 3 ==> 2 * visible_rows(h) + 3 <= h < 2 * visible_rows(h) + 5,
{
}

/// The hexadecimal digits `0`-`9`, `a`-`f` and `A`-`F` count 0 to 15 in
/// order, capitals as lower case; no other byte is a digit.
pub proof fn hex_digits_in_order(b: u8)
    ensures
        48 <= b <= 57 ==> hex_digit_value(b) == Some((b - 48) as nat),
        97 <= b <= 102 ==> hex_digit_value(b) == Some((b - 97 + 10) as nat),
        65 <= b <= 70 ==> hex_digit_value(b) == Some((b - 65 + 10) as nat),
        !(48 <= b <= 57 || 97 <= b <= 102 || 65 <= b <= 70) ==> hex_digit_value(b) is None,
{
}

/// `#rrggbb` with an ASCII first character names the colour with red `rr`,
/// green `gg` and blue `bb`, each two hexadecimal digits.
pub proof fn hex_colors(b: Seq<u8>)
    requires
        b.len() == 7,
        b[0] < 0x80,
        forall|i: int| 1 <= i < 7 ==> (#[trigger] hex_digit_value(b[i])) is Some,
    ensures
        hex_color(b) == Color::Rgb(
            (16 * hex_digit_value(b[1]).unwrap() + hex_digit_value(b[2]).unwrap()) as u8,
            (16 * hex_digit_value(b[3]).unwrap() + hex_digit_value(b[4]).unwrap()) as u8,
            (16 * hex_digit_value(b[5]).unwrap() + hex_digit_value(b[6]).unwrap()) as u8,
        ),
{
    assert(hex_digit_value(b[1]) is Some);
    assert(hex_digit_value(b[3]) is Some);
    assert(hex_digit_value(b[5]) is Some);
    let (r, g, bl) = crate::color::rgb_fields(b);
    assert(r[0] == b[1] && r[1] == b[2]);
    assert(g[0] == b[3] && g[1] == b[4]);
    assert(bl[0] == b[5] && bl[1] == b[6]);
    assert(crate::color::field_digits(r) == r);
    assert(crate::color::field_digits(g) == g);
    assert(crate::color::field_digits(bl) == bl);
    assert(r.drop_last().drop_last() =~= Seq::<u8>::empty());
    assert(g.drop_last().drop_last() =~= Seq::<u8>::empty());
    assert(bl.drop_last().drop_last() =~= Seq::<u8>::empty());
    assert(r.drop_last() =~= seq![b[1]]);
    assert(g.drop_last() =~= seq![b[3]]);
    assert(bl.drop_last() =~= seq![b[5]]);
    use_two_digits(r, b[1], b[2]);
    use_two_digits(g, b[3], b[4]);
    use_two_digits(bl, b[5], b[6]);
}

proof fn use_two_digits(f: Seq<u8>, x: u8, y: u8)
    requires
        f =~= seq![x, y],
        hex_digit_value(x) is Some,
        hex_digit_value(y) is Some,
    ensures
        crate::color::hex_value(f) == 16 * hex_digit_value(x).unwrap() + hex_digit_value(y).unwrap(),
{
    let e = Seq::<u8>::empty();
    assert(seq![x].drop_last() =~= e);
    assert(crate::color::hex_value(seq![x]) == crate::color::hex_value(e) * 16 + hex_digit_value(x).unwrap());
    assert(f.drop_last() =~= seq![x]);
    assert(crate::color::hex_value(f) == crate::color::hex_value(seq![x]) * 16 + hex_digit_value(y).unwrap());
}

/// Every key can be handled while the tabs are within range, the selected
/// lesson lies in the grid, and the selected period exists.
pub proof fn keys_in_range_can_be_handled(s: AppModel, k: Key)
    requires
        s.selected_tab < 3,
        s.selected_create_tab < 3,
        s.state_table.selected matches Some(r) ==> r < 255,
        s.state_table.selected_column matches Some(c) ==> c < 6,
        s.state_settings.selected matches Some(i) ==> i < s.times.len(),
    ensures
        can_step(s, k),
{
}

/// `q` or `Esc` in the pop-up, with nothing being typed, closes it and
/// leaves the timetable and the lesson being edited as they were.
pub proof fn closing_the_popup(s: AppModel, k: Key)
    requires
        s.create_popup,
        !s.edit_mode,
        k == Key::Char('q') || k == Key::Esc,
    ensures
        !step(s, k).0.create_popup,
        !step(s, k).0.edit_mode,
        step(s, k).0.edit_buf.len() == 0,
        step(s, k).0.content == s.content,
        step(s, k).0.times == s.times,
        step(s, k).0.temp_subject == s.temp_subject,
        step(s, k).1 == Outcome::Continue,
{
}

} // verus!
