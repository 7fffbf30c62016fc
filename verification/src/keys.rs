//! What each key does to the editor: the decisions of the key loop, from
//! the state and the key pressed to the next state and what the loop must
//! do next (carry on, save the timetable, or quit).

use vstd::prelude::*;
use vstd::utf8::encode_utf8;
use crate::app::{read_slot, row_number, write_slot, App, AppModel};
use crate::column::{column_at, NUM_COLUMNS};
use crate::period::{
    default_period, display_period, parse_period, zero_time, zero_time_string, Period,
    PeriodModel,
};
use crate::selection::{sel_next, sel_next_column, sel_previous, sel_previous_column, Selection};
use crate::subject::{default_subject, is_none_word, none_string, none_word, Subject, SubjectModel};
use crate::text::{is_digit, pop_char, push_char, str_eq};
use crate::time_input::{erase_char, erase_time_char, type_char, type_time_char};

verus! {

/// A key the editor reacts to; every other key is `Other`.
#[derive(Clone, Copy, PartialEq, Eq, Structural, Debug)]
pub enum Key {
    Char(char),
    Enter,
    Esc,
    Tab,
    Left,
    Right,
    Up,
    Down,
    Backspace,
    Other,
}

/// What the key loop does after a key: carry on, save the timetable and
/// carry on, or stop.
#[derive(Clone, Copy, PartialEq, Eq, Structural, Debug)]
pub enum Outcome {
    Continue,
    Save,
    Quit,
}

/// The length in bytes of the UTF-8 form of `s`, as `str::len` reports it.
pub open spec fn byte_len(s: Seq<char>) -> usize {
    encode_utf8(s).len() as usize
}

/// Whether the table selection `sel` names a lesson slot that the grid can
/// look up: a column of the grid and a row whose number fits in a byte.
pub open spec fn cell_ok(sel: Selection) -> bool {
    match (sel.selected, sel.selected_column) {
        (Some(r), Some(c)) => c < NUM_COLUMNS && r % 256 != 255,
        _ => true,
    }
}

/// A period read from the settings tab, made presentable: an empty start
/// becomes `00:00`; otherwise an empty end, or one shorter than five bytes,
/// becomes `00:00`. Text that is no period gives `00:00-00:00`.
pub open spec fn settle_period(o: Option<PeriodModel>) -> PeriodModel {
    let p = match o {
        Some(p) => p,
        None => default_period(),
    };
    if p.first_time.len() == 0 {
        PeriodModel { first_time: zero_time(), ..p }
    } else if p.second_time.len() == 0 || byte_len(p.second_time) < 5 {
        PeriodModel { second_time: zero_time(), ..p }
    } else {
        p
    }
}

/// The text with which the settings tab starts editing the period `p`:
/// nothing for the placeholder period, else `first-second` without a
/// trailing `00:00`.
pub open spec fn edit_text(p: PeriodModel) -> Seq<char> {
    if p == default_period() {
        Seq::empty()
    } else {
        let d = display_period(p);
        if d.len() >= 5 && d.subrange(d.len() - 5, d.len() as int) == zero_time() {
            d.take(d.len() - 5)
        } else {
            d
        }
    }
}

/// A key on the timetable tab.
pub open spec fn step_grid(s: AppModel, k: Key) -> (AppModel, Outcome) {
    if k == Key::Enter {
        let temp = match (s.state_table.selected, s.state_table.selected_column) {
            (Some(r), Some(c)) => match read_slot(s.content, row_number(r), column_at(c as int)) {
                Some(x) => x,
                None => default_subject(),
            },
            _ => s.temp_subject,
        };
        (
            AppModel {
                temp_subject: temp,
                create_popup: !s.create_popup,
                edit_mode: if temp.name == none_word() {
                    true
                } else {
                    s.edit_mode
                },
                ..s
            },
            Outcome::Continue,
        )
    } else if k == Key::Left {
        let t = sel_previous_column(s.state_table);
        let t2 = if t.selected_column == Some(0usize) {
            sel_next_column(t)
        } else {
            t
        };
        (AppModel { state_table: t2, ..s }, Outcome::Continue)
    } else if k == Key::Right {
        let t = sel_next_column(s.state_table);
        let t2 = if t.selected_column == Some(0usize) {
            sel_previous_column(t)
        } else {
            t
        };
        (AppModel { state_table: t2, ..s }, Outcome::Continue)
    } else if k == Key::Down {
        (AppModel { state_table: sel_next(s.state_table), ..s }, Outcome::Continue)
    } else if k == Key::Up {
        (AppModel { state_table: sel_previous(s.state_table), ..s }, Outcome::Continue)
    } else if k == Key::Char('c') {
        let content = match (s.state_table.selected, s.state_table.selected_column) {
            (Some(r), Some(c)) => write_slot(
                s.content,
                row_number(r),
                column_at(c as int),
                default_subject(),
            ),
            _ => s.content,
        };
        (AppModel { content, ..s }, Outcome::Save)
    } else {
        (s, Outcome::Continue)
    }
}

/// A key on the settings tab while a period is being typed.
pub open spec fn step_settings_edit(s: AppModel, k: Key) -> (AppModel, Outcome) {
    if k == Key::Enter {
        let sel = s.state_settings.selected;
        let times = match sel {
            Some(i) => s.times.update(
                i as int,
                (s.times[i as int].0, settle_period(parse_period(s.edit_buf))),
            ),
            None => s.times,
        };
        if sel != Some(10usize) {
            (
                AppModel {
                    times,
                    state_settings: sel_next(s.state_settings),
                    edit_buf: Seq::empty(),
                    ..s
                },
                Outcome::Save,
            )
        } else {
            (AppModel { times, edit_mode: false, edit_buf: Seq::empty(), ..s }, Outcome::Save)
        }
    } else if k == Key::Esc {
        (AppModel { edit_mode: false, edit_buf: Seq::empty(), ..s }, Outcome::Continue)
    } else if k == Key::Backspace {
        (AppModel { edit_buf: erase_char(s.edit_buf), ..s }, Outcome::Continue)
    } else {
        match k {
            Key::Char(c) => if is_digit(c) || c == '-' || c == ':' {
                (AppModel { edit_buf: type_char(s.edit_buf, c), ..s }, Outcome::Continue)
            } else {
                (s, Outcome::Continue)
            },
            _ => (s, Outcome::Continue),
        }
    }
}

/// A key on the settings tab while no period is being typed.
pub open spec fn step_settings(s: AppModel, k: Key) -> (AppModel, Outcome) {
    if k == Key::Enter {
        match s.state_settings.selected {
            Some(i) => (
                AppModel { edit_buf: edit_text(s.times[i as int].1), edit_mode: true, ..s },
                Outcome::Continue,
            ),
            None => (s, Outcome::Continue),
        }
    } else if k == Key::Down {
        (AppModel { state_settings: sel_next(s.state_settings), ..s }, Outcome::Continue)
    } else if k == Key::Up {
        (AppModel { state_settings: sel_previous(s.state_settings), ..s }, Outcome::Continue)
    } else {
        (s, Outcome::Continue)
    }
}

/// The typed text as a field of a lesson: `None` when nothing was typed.
pub open spec fn field_text(buf: Seq<char>) -> Seq<char> {
    if buf.len() == 0 {
        none_word()
    } else {
        buf
    }
}

/// A key in the lesson pop-up while one of its fields is being typed.
pub open spec fn step_popup_edit(s: AppModel, k: Key) -> (AppModel, Outcome) {
    if k == Key::Enter {
        let sel = s.state_create_table.selected;
        let t = s.temp_subject;
        let v = field_text(s.edit_buf);
        let (t2, ct, em) = if sel == Some(0usize) {
            (SubjectModel { name: v, ..t }, sel_next(s.state_create_table), t.room == none_word())
        } else if sel == Some(1usize) {
            (
                SubjectModel { room: v, ..t },
                sel_next(s.state_create_table),
                t.teacher == none_word(),
            )
        } else if sel == Some(2usize) {
            (SubjectModel { teacher: v, ..t }, sel_next(s.state_create_table), false)
        } else {
            (t, s.state_create_table, false)
        };
        (
            AppModel {
                temp_subject: t2,
                state_create_table: ct,
                edit_mode: em,
                edit_buf: Seq::empty(),
                ..s
            },
            Outcome::Continue,
        )
    } else if k == Key::Backspace {
        let b = if s.edit_buf.len() > 0 {
            s.edit_buf.drop_last()
        } else {
            s.edit_buf
        };
        (AppModel { edit_buf: b, ..s }, Outcome::Continue)
    } else if k == Key::Esc {
        (AppModel { edit_buf: Seq::empty(), edit_mode: false, ..s }, Outcome::Continue)
    } else {
        match k {
            Key::Char(c) => if c <= '\u{7f}' {
                (AppModel { edit_buf: s.edit_buf.push(c), ..s }, Outcome::Continue)
            } else {
                (s, Outcome::Continue)
            },
            _ => (s, Outcome::Continue),
        }
    }
}

/// The text with which the pop-up starts editing a field that holds `f`:
/// nothing when it is `None`.
pub open spec fn field_edit_text(f: Seq<char>) -> Seq<char> {
    if f != none_word() {
        f
    } else {
        Seq::empty()
    }
}

/// A key in the lesson pop-up while none of its fields is being typed.
pub open spec fn step_popup(s: AppModel, k: Key) -> (AppModel, Outcome) {
    if k == Key::Char('q') || k == Key::Esc {
        (
            AppModel {
                create_popup: !s.create_popup,
                edit_mode: false,
                edit_buf: Seq::empty(),
                ..s
            },
            Outcome::Continue,
        )
    } else if k == Key::Tab {
        (
            AppModel { selected_create_tab: ((s.selected_create_tab + 1) % 3) as usize, ..s },
            Outcome::Continue,
        )
    } else if k == Key::Up {
        (
            AppModel { state_create_table: sel_previous(s.state_create_table), ..s },
            Outcome::Continue,
        )
    } else if k == Key::Down {
        (AppModel { state_create_table: sel_next(s.state_create_table), ..s }, Outcome::Continue)
    } else if k == Key::Enter && s.state_create_table.selected != Some(3usize) {
        let sel = s.state_create_table.selected;
        let b = if sel == Some(0usize) {
            field_edit_text(s.temp_subject.name)
        } else if sel == Some(1usize) {
            field_edit_text(s.temp_subject.room)
        } else if sel == Some(2usize) {
            field_edit_text(s.temp_subject.teacher)
        } else {
            s.edit_buf
        };
        (AppModel { edit_buf: b, edit_mode: true, ..s }, Outcome::Continue)
    } else if k == Key::Enter {
        let content = match (s.state_table.selected, s.state_table.selected_column) {
            (Some(r), Some(c)) => write_slot(
                s.content,
                row_number(r),
                column_at(c as int),
                s.temp_subject,
            ),
            _ => s.content,
        };
        (
            AppModel {
                content,
                temp_subject: default_subject(),
                create_popup: !s.create_popup,
                state_create_table: Selection::initial(),
                ..s
            },
            Outcome::Save,
        )
    } else {
        (s, Outcome::Continue)
    }
}

/// What the key `k` does to the editor `s`: the state after it, and what
/// the key loop does next.
pub open spec fn step(s: AppModel, k: Key) -> (AppModel, Outcome) {
    if !s.create_popup {
        if !s.edit_mode && (k == Key::Char('q') || k == Key::Esc) {
            (s, Outcome::Quit)
        } else if !s.edit_mode && k == Key::Tab {
            (AppModel { selected_tab: ((s.selected_tab + 1) % 3) as usize, ..s }, Outcome::Continue)
        } else if s.selected_tab == 0 {
            step_grid(s, k)
        } else if s.selected_tab == 1 {
            if s.edit_mode {
                step_settings_edit(s, k)
            } else {
                step_settings(s, k)
            }
        } else {
            (s, Outcome::Continue)
        }
    } else if s.edit_mode {
        step_popup_edit(s, k)
    } else {
        step_popup(s, k)
    }
}

/// Whether the key `k` can be handled in state `s` without an index out of
/// range or an arithmetic overflow: the tab counters have room to count up,
/// a lesson looked up or written names a slot of the grid, and a period
/// edited on the settings tab exists.
pub open spec fn can_step(s: AppModel, k: Key) -> bool {
    if !s.create_popup {
        if !s.edit_mode && (k == Key::Char('q') || k == Key::Esc) {
            true
        } else if !s.edit_mode && k == Key::Tab {
            s.selected_tab < usize::MAX
        } else if s.selected_tab == 0 {
            (k == Key::Enter || k == Key::Char('c')) ==> cell_ok(s.state_table)
        } else if s.selected_tab == 1 {
            k == Key::Enter ==> match s.state_settings.selected {
                Some(i) => i < s.times.len(),
                None => true,
            }
        } else {
            true
        }
    } else if s.edit_mode {
        true
    } else {
        &&& k == Key::Tab ==> s.selected_create_tab < usize::MAX
        &&& (k == Key::Enter && s.state_create_table.selected == Some(3usize)) ==> cell_ok(
            s.state_table,
        )
    }
}

/// Makes a period read from the settings tab presentable.
fn settle(p: Period) -> (r: Period)
    ensures
        r@ == settle_period(Some(p@)),
{
    let mut p = p;
    if p.first_time.as_str().is_empty() {
        p.first_time = zero_time_string();
    } else if p.second_time.as_str().is_empty() || p.second_time.as_str().len() < 5 {
        p.second_time = zero_time_string();
    }
    p
}

/// The text with which the settings tab starts editing `p`.
fn edit_text_of(p: &Period) -> (r: String)
    ensures
        r@ == edit_text(p@),
{
    if p.is_default() {
        return String::new();
    }
    let mut d = p.to_string();
    let n = d.as_str().unicode_len();
    if n >= 5 {
        let ghost full = d@;
        let tail = d.as_str().substring_char(n - 5, n);
        proof {
            reveal_strlit("00:00");
        }
        let z = "00:00";
        assert(z@ =~= zero_time());
        if str_eq(tail, z) {
            let mut k: usize = 0;
            while k < 5
                invariant
                    k <= 5,
                    n == full.len(),
                    n >= 5,
                    d@ == full.take(n - k),
                decreases 5 - k,
            {
                pop_char(&mut d);
                assert(full.take(n - k).drop_last() =~= full.take(n - k - 1));
                k = k + 1;
            }
        }
    }
    d
}

/// The field `f` as the pop-up starts editing it.
fn field_edit_string(f: &String) -> (r: String)
    ensures
        r@ == field_edit_text(f@),
{
    if !is_none_word(f.as_str()) {
        f.clone()
    } else {
        String::new()
    }
}

impl App {
    fn key_grid(&mut self, key: Key) -> (out: Outcome)
        requires
            (key == Key::Enter || key == Key::Char('c')) ==> cell_ok(old(self).state_table),
        ensures
            (final(self)@, out) == step_grid(old(self)@, key),
    {
        match key {
            Key::Enter => {
                match (self.state_table.selected, self.state_table.selected_column) {
                    (Some(r), Some(c)) => {
                        let t = match self.get_selected_subject(r, c) {
                            Some(s) => s.clone(),
                            None => Subject::default(),
                        };
                        self.temp_subject = t;
                    },
                    _ => {},
                }
                self.create_popup = !self.create_popup;
                if is_none_word(self.temp_subject.name.as_str()) {
                    self.edit_mode = true;
                }
                Outcome::Continue
            },
            Key::Left => {
                self.state_table.select_previous_column();
                if self.state_table.selected_column == Some(0) {
                    self.state_table.select_next_column();
                }
                Outcome::Continue
            },
            Key::Right => {
                self.state_table.select_next_column();
                if self.state_table.selected_column == Some(0) {
                    self.state_table.select_previous_column();
                }
                Outcome::Continue
            },
            Key::Down => {
                self.state_table.select_next();
                Outcome::Continue
            },
            Key::Up => {
                self.state_table.select_previous();
                Outcome::Continue
            },
            Key::Char('c') => {
                match (self.state_table.selected, self.state_table.selected_column) {
                    (Some(r), Some(c)) => {
                        self.set_selected_subject(r, c, Subject::default());
                    },
                    _ => {},
                }
                Outcome::Save
            },
            _ => Outcome::Continue,
        }
    }

    fn key_settings_edit(&mut self, key: Key) -> (out: Outcome)
        requires
            key == Key::Enter ==> match old(self).state_settings.selected {
                Some(i) => i < old(self).times.len(),
                None => true,
            },
        ensures
            (final(self)@, out) == step_settings_edit(old(self)@, key),
    {
        match key {
            Key::Enter => {
                let sel = self.state_settings.selected;
                match sel {
                    Some(i) => {
                        let parsed = match Period::from_str(self.edit_buf.as_str()) {
                            Ok(p) => p,
                            Err(_) => Period::default(),
                        };
                        let p = settle(parsed);
                        let row = self.times[i].0;
                        let ghost before = self@;
                        self.times.set(i, (row, p));
                        assert(self@.times =~= before.times.update(
                            i as int,
                            (before.times[i as int].0, settle_period(parse_period(before.edit_buf))),
                        ));
                    },
                    None => {},
                }
                let last = match sel {
                    Some(10) => true,
                    _ => false,
                };
                if !last {
                    self.state_settings.select_next();
                    self.edit_buf = String::new();
                } else {
                    self.edit_mode = false;
                    self.edit_buf = String::new();
                }
                Outcome::Save
            },
            Key::Esc => {
                self.edit_mode = false;
                self.edit_buf = String::new();
                Outcome::Continue
            },
            Key::Backspace => {
                erase_time_char(&mut self.edit_buf);
                Outcome::Continue
            },
            Key::Char(c) => {
                if ('0' <= c && c <= '9') || c == '-' || c == ':' {
                    type_time_char(&mut self.edit_buf, c);
                }
                Outcome::Continue
            },
            _ => Outcome::Continue,
        }
    }

    fn key_settings(&mut self, key: Key) -> (out: Outcome)
        requires
            key == Key::Enter ==> match old(self).state_settings.selected {
                Some(i) => i < old(self).times.len(),
                None => true,
            },
        ensures
            (final(self)@, out) == step_settings(old(self)@, key),
    {
        match key {
            Key::Enter => {
                match self.state_settings.selected {
                    Some(i) => {
                        let b = edit_text_of(&self.times[i].1);
                        self.edit_buf = b;
                        self.edit_mode = true;
                    },
                    None => {},
                }
                Outcome::Continue
            },
            Key::Down => {
                self.state_settings.select_next();
                Outcome::Continue
            },
            Key::Up => {
                self.state_settings.select_previous();
                Outcome::Continue
            },
            _ => Outcome::Continue,
        }
    }

    fn key_popup_edit(&mut self, key: Key) -> (out: Outcome)
        ensures
            (final(self)@, out) == step_popup_edit(old(self)@, key),
    {
        match key {
            Key::Enter => {
                let v = if self.edit_buf.as_str().is_empty() {
                    none_string()
                } else {
                    self.edit_buf.clone()
                };
                match self.state_create_table.selected {
                    Some(0) => {
                        self.temp_subject.name = v;
                        self.state_create_table.select_next();
                        self.edit_mode = is_none_word(self.temp_subject.room.as_str());
                    },
                    Some(1) => {
                        self.temp_subject.room = v;
                        self.state_create_table.select_next();
                        self.edit_mode = is_none_word(self.temp_subject.teacher.as_str());
                    },
                    Some(2) => {
                        self.temp_subject.teacher = v;
                        self.state_create_table.select_next();
                        self.edit_mode = false;
                    },
                    _ => {
                        self.edit_mode = false;
                    },
                }
                self.edit_buf = String::new();
                Outcome::Continue
            },
            Key::Char(c) => {
                if c <= '\u{7f}' {
                    push_char(&mut self.edit_buf, c);
                }
                Outcome::Continue
            },
            Key::Backspace => {
                pop_char(&mut self.edit_buf);
                Outcome::Continue
            },
            Key::Esc => {
                self.edit_buf = String::new();
                self.edit_mode = false;
                Outcome::Continue
            },
            _ => Outcome::Continue,
        }
    }

    fn key_popup(&mut self, key: Key) -> (out: Outcome)
        requires
            key == Key::Tab ==> old(self).selected_create_tab < usize::MAX,
            (key == Key::Enter && old(self).state_create_table.selected == Some(3usize)) ==> cell_ok(
                old(self).state_table,
            ),
        ensures
            (final(self)@, out) == step_popup(old(self)@, key),
    {
        match key {
            Key::Char('q') | Key::Esc => {
                self.create_popup = !self.create_popup;
                self.edit_mode = false;
                self.edit_buf = String::new();
                Outcome::Continue
            },
            Key::Tab => {
                self.selected_create_tab = (self.selected_create_tab + 1) % 3;
                Outcome::Continue
            },
            Key::Up => {
                self.state_create_table.select_previous();
                Outcome::Continue
            },
            Key::Down => {
                self.state_create_table.select_next();
                Outcome::Continue
            },
            Key::Enter => {
                if self.state_create_table.selected != Some(3) {
                    match self.state_create_table.selected {
                        Some(0) => {
                            self.edit_buf = field_edit_string(&self.temp_subject.name);
                        },
                        Some(1) => {
                            self.edit_buf = field_edit_string(&self.temp_subject.room);
                        },
                        Some(2) => {
                            self.edit_buf = field_edit_string(&self.temp_subject.teacher);
                        },
                        _ => {},
                    }
                    self.edit_mode = true;
                    Outcome::Continue
                } else {
                    match (self.state_table.selected, self.state_table.selected_column) {
                        (Some(r), Some(c)) => {
                            let t = self.temp_subject.clone();
                            self.set_selected_subject(r, c, t);
                        },
                        _ => {},
                    }
                    self.temp_subject = Subject::default();
                    self.create_popup = !self.create_popup;
                    self.state_create_table = Selection::new();
                    Outcome::Save
                }
            },
            _ => Outcome::Continue,
        }
    }

    /// Handles one key press: the editor moves to its next state, and the
    /// result says whether the loop should carry on, save the timetable
    /// first, or stop.
    pub fn handle_key(&mut self, key: Key) -> (out: Outcome)
        requires
            can_step(old(self)@, key),
        ensures
            (final(self)@, out) == step(old(self)@, key),
    {
        if !self.create_popup {
            if !self.edit_mode && (key == Key::Char('q') || key == Key::Esc) {
                Outcome::Quit
            } else if !self.edit_mode && key == Key::Tab {
                self.selected_tab = (self.selected_tab + 1) % 3;
                Outcome::Continue
            } else if self.selected_tab == 0 {
                self.key_grid(key)
            } else if self.selected_tab == 1 {
                if self.edit_mode {
                    self.key_settings_edit(key)
                } else {
                    self.key_settings(key)
                }
            } else {
                Outcome::Continue
            }
        } else if self.edit_mode {
            self.key_popup_edit(key)
        } else {
            self.key_popup(key)
        }
    }

    /// Whether `key` can be handled in the current state (`can_step`): the
    /// check to make before `handle_key`.
    pub fn can_handle(&self, key: Key) -> (r: bool)
        ensures
            r == can_step(self@, key),
    {
        let cell = match (self.state_table.selected, self.state_table.selected_column) {
            (Some(r), Some(c)) => c < NUM_COLUMNS && r % 256 != 255,
            _ => true,
        };
        if !self.create_popup {
            if !self.edit_mode && (key == Key::Char('q') || key == Key::Esc) {
                true
            } else if !self.edit_mode && key == Key::Tab {
                self.selected_tab < usize::MAX
            } else if self.selected_tab == 0 {
                !(key == Key::Enter || key == Key::Char('c')) || cell
            } else if self.selected_tab == 1 {
                key != Key::Enter || match self.state_settings.selected {
                    Some(i) => i < self.times.len(),
                    None => true,
                }
            } else {
                true
            }
        } else if self.edit_mode {
            true
        } else {
            (key != Key::Tab || self.selected_create_tab < usize::MAX) && (!(key == Key::Enter
                && self.state_create_table.selected == Some(3)) || cell)
        }
    }
}

} // verus!
