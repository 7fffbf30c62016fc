use timetable::app::App;
use timetable::column::Column;
use timetable::keys::{Key, Outcome};
use timetable::period::Period;
use timetable::screen::Cell;
use timetable::subject::Subject;

fn subject(name: &str, room: &str, teacher: &str) -> Subject {
    Subject { name: name.into(), room: room.into(), teacher: teacher.into() }
}

fn press(app: &mut App, keys: &[Key]) -> Vec<Outcome> {
    keys.iter().map(|k| app.handle_key(*k)).collect()
}

fn type_text(app: &mut App, text: &str) {
    for c in text.chars() {
        assert_eq!(app.handle_key(Key::Char(c)), Outcome::Continue);
    }
}

#[test]
fn new_editor_layout() {
    let app = App::new();
    assert_eq!(app.content.len(), 66);
    assert_eq!(app.times.len(), 11);
    assert_eq!(app.content[0].0, 1);
    assert_eq!(app.content[0].1, Column::Time);
    assert_eq!(app.content[11].0, 1);
    assert_eq!(app.content[11].1, Column::Monday);
    assert_eq!(app.content[65].0, 11);
    assert_eq!(app.content[65].1, Column::Friday);
    for (i, (n, p)) in app.times.iter().enumerate() {
        assert_eq!(*n as usize, i + 1);
        assert!(p.is_default());
    }
    assert_eq!(app.save_file, "save-file.txt");
    assert_eq!(app.color, "#00ff00");
    assert_eq!(app.selected_tab, 0);
    assert!(!app.edit_mode && !app.create_popup);
    assert_eq!(app.state_table.selected, Some(0));
    assert_eq!(app.state_table.selected_column, Some(1));
    assert_eq!(app.temp_subject.name, "None");
}

#[test]
fn read_after_write_of_a_lesson() {
    let mut app = App::new();
    app.set_selected_subject(2, 3, subject("Maths", "A1", "Mr Lee"));
    let s = app.get_selected_subject(2, 3).unwrap();
    assert_eq!((s.name.as_str(), s.room.as_str()), ("Maths", "A1"));
    assert_eq!(app.content[3 * 11 + 2].2.name, "Maths");
    let other = app.get_selected_subject(2, 4).unwrap();
    assert_eq!(other.name, "None");
    let other = app.get_selected_subject(3, 3).unwrap();
    assert_eq!(other.name, "None");
}

#[test]
fn row_index_wraps_like_a_byte() {
    let mut app = App::new();
    app.set_selected_subject(256 + 4, 1, subject("Art", "R", "T"));
    assert_eq!(app.get_selected_subject(4, 1).unwrap().name, "Art");
    assert!(app.get_selected_subject(20, 1).is_none());
}

#[test]
fn writing_a_missing_slot_changes_nothing() {
    let mut app = App::new();
    app.content.clear();
    app.set_selected_subject(0, 1, subject("X", "Y", "Z"));
    assert!(app.content.is_empty());
    assert!(app.get_selected_subject(0, 1).is_none());
}

#[test]
fn quit_and_tabs() {
    let mut app = App::new();
    assert_eq!(app.handle_key(Key::Tab), Outcome::Continue);
    assert_eq!(app.selected_tab, 1);
    press(&mut app, &[Key::Tab, Key::Tab]);
    assert_eq!(app.selected_tab, 0);
    assert_eq!(app.handle_key(Key::Char('q')), Outcome::Quit);
    assert_eq!(app.handle_key(Key::Esc), Outcome::Quit);
    app.edit_mode = true;
    assert_eq!(app.handle_key(Key::Esc), Outcome::Continue);
}

#[test]
fn moving_in_the_grid_skips_the_time_column() {
    let mut app = App::new();
    app.handle_key(Key::Left);
    assert_eq!(app.state_table.selected_column, Some(1));
    app.handle_key(Key::Right);
    assert_eq!(app.state_table.selected_column, Some(2));
    app.handle_key(Key::Down);
    app.handle_key(Key::Down);
    assert_eq!(app.state_table.selected, Some(2));
    app.handle_key(Key::Up);
    assert_eq!(app.state_table.selected, Some(1));
    app.state_table.selected_column = None;
    app.handle_key(Key::Right);
    assert_eq!(app.state_table.selected_column, Some(0));
}

#[test]
fn creating_a_lesson_through_the_popup() {
    let mut app = App::new();
    app.handle_key(Key::Down);
    app.handle_key(Key::Right);
    assert_eq!(app.handle_key(Key::Enter), Outcome::Continue);
    assert!(app.create_popup);
    assert!(app.edit_mode);
    type_text(&mut app, "Maths");
    assert_eq!(app.edit_buf, "Maths");
    app.handle_key(Key::Backspace);
    type_text(&mut app, "s");
    app.handle_key(Key::Enter);
    assert_eq!(app.temp_subject.name, "Maths");
    assert!(app.edit_mode);
    assert_eq!(app.state_create_table.selected, Some(1));
    type_text(&mut app, "B2");
    app.handle_key(Key::Enter);
    assert!(app.edit_mode);
    app.handle_key(Key::Enter);
    assert_eq!(app.temp_subject.teacher, "None");
    assert!(!app.edit_mode);
    assert_eq!(app.state_create_table.selected, Some(3));
    assert_eq!(app.handle_key(Key::Enter), Outcome::Save);
    assert!(!app.create_popup);
    assert_eq!(app.temp_subject.name, "None");
    assert_eq!(app.state_create_table.selected, Some(0));
    let s = app.get_selected_subject(1, 2).unwrap();
    assert_eq!((s.name.as_str(), s.room.as_str(), s.teacher.as_str()), ("Maths", "B2", "None"));
}

#[test]
fn popup_edits_an_existing_field_and_closes() {
    let mut app = App::new();
    app.set_selected_subject(0, 1, subject("Bio", "Lab", "Dr No"));
    app.handle_key(Key::Enter);
    assert!(app.create_popup);
    assert!(!app.edit_mode);
    assert_eq!(app.temp_subject.room, "Lab");
    app.handle_key(Key::Down);
    app.handle_key(Key::Enter);
    assert!(app.edit_mode);
    assert_eq!(app.edit_buf, "Lab");
    type_text(&mut app, "\u{e9}");
    assert_eq!(app.edit_buf, "Lab");
    app.handle_key(Key::Esc);
    assert!(!app.edit_mode);
    assert_eq!(app.edit_buf, "");
    app.handle_key(Key::Tab);
    assert_eq!(app.selected_create_tab, 1);
    assert_eq!(app.handle_key(Key::Char('q')), Outcome::Continue);
    assert!(!app.create_popup);
    assert_eq!(app.get_selected_subject(0, 1).unwrap().name, "Bio");
}

#[test]
fn clearing_a_lesson() {
    let mut app = App::new();
    app.set_selected_subject(0, 1, subject("Bio", "Lab", "Dr No"));
    assert_eq!(app.handle_key(Key::Char('c')), Outcome::Save);
    assert_eq!(app.get_selected_subject(0, 1).unwrap().name, "None");
}

#[test]
fn typing_a_period_in_settings() {
    let mut app = App::new();
    app.handle_key(Key::Tab);
    app.handle_key(Key::Enter);
    assert!(app.edit_mode);
    assert_eq!(app.edit_buf, "");
    type_text(&mut app, "0830x1015");
    assert_eq!(app.edit_buf, "08:30-10:15");
    assert_eq!(app.handle_key(Key::Enter), Outcome::Save);
    assert_eq!(app.times[0].1.first_time, "08:30");
    assert_eq!(app.times[0].1.second_time, "10:15");
    assert!(app.edit_mode);
    assert_eq!(app.state_settings.selected, Some(1));
    assert_eq!(app.edit_buf, "");
    type_text(&mut app, "1040");
    assert_eq!(app.edit_buf, "10:40-");
    assert_eq!(app.handle_key(Key::Enter), Outcome::Save);
    assert_eq!(app.times[1].1.first_time, "10:40");
    assert_eq!(app.times[1].1.second_time, "00:00");
    type_text(&mut app, "1");
    app.handle_key(Key::Esc);
    assert!(!app.edit_mode);
    assert_eq!(app.edit_buf, "");
}

#[test]
fn unparsable_or_short_periods_are_settled() {
    let mut app = App::new();
    app.handle_key(Key::Tab);
    app.handle_key(Key::Enter);
    type_text(&mut app, "12");
    assert_eq!(app.edit_buf, "12:");
    app.handle_key(Key::Enter);
    assert!(app.times[0].1.is_default());
    app.edit_buf = "-9".to_string();
    app.handle_key(Key::Enter);
    assert_eq!(app.times[1].1.first_time, "00:00");
    assert_eq!(app.times[1].1.second_time, "9");
    app.edit_buf = "7-9".to_string();
    app.handle_key(Key::Enter);
    assert_eq!(app.times[2].1.first_time, "7");
    assert_eq!(app.times[2].1.second_time, "00:00");
}

#[test]
fn last_period_ends_editing() {
    let mut app = App::new();
    app.selected_tab = 1;
    app.state_settings.selected = Some(10);
    app.edit_mode = true;
    app.edit_buf = "11:00-11:45".to_string();
    assert_eq!(app.handle_key(Key::Enter), Outcome::Save);
    assert!(!app.edit_mode);
    assert_eq!(app.state_settings.selected, Some(10));
    assert_eq!(app.times[10].1.to_string(), "11:00-11:45");
}

#[test]
fn editing_an_unchanged_period_keeps_it() {
    let mut app = App::new();
    app.times[3].1 = Period { first_time: "09:00".into(), second_time: "00:00".into() };
    app.selected_tab = 1;
    app.state_settings.selected = Some(3);
    app.handle_key(Key::Enter);
    assert_eq!(app.edit_buf, "09:00-");
    app.handle_key(Key::Enter);
    assert_eq!(app.times[3].1.first_time, "09:00");
    assert_eq!(app.times[3].1.second_time, "00:00");
    app.state_settings.selected = Some(3);
    app.edit_mode = false;
    app.handle_key(Key::Enter);
    app.handle_key(Key::Backspace);
    assert_eq!(app.edit_buf, "09:0");
}

#[test]
fn screen_rows() {
    let mut app = App::new();
    app.set_selected_subject(1, 2, subject("Maths", "A1", "T"));
    let rows = app.grid_rows();
    assert_eq!(rows.len(), 11);
    assert_eq!(rows[0].time, "00:00-\n00:00");
    assert!(!rows[0].even);
    assert!(rows[1].even);
    assert_eq!(rows[1].cells.len(), 5);
    match &rows[1].cells[1] {
        Cell::Styled(v) => {
            assert_eq!(v[0].content, "Maths");
            assert!(!v[0].dimmed);
            assert_eq!(v[1].content, "A1");
        }
        Cell::Editing(_) => panic!("not editing"),
    }
    app.edit_mode = true;
    app.edit_buf = "Che".to_string();
    let rows = app.grid_rows();
    match &rows[0].cells[0] {
        Cell::Editing(s) => assert_eq!(s, "Che_"),
        Cell::Styled(_) => panic!("editing"),
    }

    let settings = app.settings_rows();
    assert_eq!(settings.len(), 11);
    assert_eq!(settings[0].label, "01");
    assert_eq!(settings[10].label, "11");
    match &settings[0].period {
        Cell::Editing(s) => assert_eq!(s, "Che_"),
        Cell::Styled(_) => panic!("editing"),
    }
    app.times[9].0 = 123;
    assert_eq!(app.settings_rows()[9].label, "123");

    app.state_create_table.selected = Some(1);
    let popup = app.popup_rows();
    assert_eq!(popup[0], ("Name:".to_string(), "None".to_string()));
    assert_eq!(popup[1], ("Room:".to_string(), "Che_".to_string()));
    assert_eq!(popup[2], ("Teacher:".to_string(), "None".to_string()));
    assert_eq!(popup[3], ("".to_string(), "Submit".to_string()));
    assert_eq!(app.info_text(), "Edit");
    app.edit_mode = false;
    assert_eq!(app.info_text(), "");
}

#[test]
fn scroll_markers() {
    let mut app = App::new();
    assert_eq!(app.scroll_indicators(30), (false, false));
    assert_eq!(app.scroll_indicators(12), (false, true));
    assert_eq!(app.scroll_indicators(2), (false, true));
    app.state_table.offset = 6;
    assert_eq!(app.scroll_indicators(12), (true, false));
}

#[test]
fn saving_and_restoring() {
    let mut app = App::new();
    app.set_selected_subject(0, 1, subject("Bio", "Lab", "Dr No"));
    let data = app.save_data();
    let mut other = App::new();
    other.restore(data);
    assert_eq!(other.get_selected_subject(0, 1).unwrap().teacher, "Dr No");
    assert_eq!(other.times.len(), 11);
}

#[test]
fn keys_never_move_the_slots() {
    let mut app = App::new();
    let before: Vec<(u8, Column)> = app.content.iter().map(|(r, c, _)| (*r, *c)).collect();
    let keys = [
        Key::Enter, Key::Char('A'), Key::Enter, Key::Char('R'), Key::Enter, Key::Enter,
        Key::Enter, Key::Down, Key::Right, Key::Char('c'), Key::Tab, Key::Enter,
        Key::Char('0'), Key::Char('9'), Key::Char('0'), Key::Char('0'), Key::Enter, Key::Esc,
        Key::Tab, Key::Tab, Key::Char('q'),
    ];
    let outcomes = press(&mut app, &keys);
    assert_eq!(outcomes.last(), Some(&Outcome::Quit));
    assert_eq!(outcomes.iter().filter(|o| **o == Outcome::Save).count(), 3);
    let after: Vec<(u8, Column)> = app.content.iter().map(|(r, c, _)| (*r, *c)).collect();
    assert_eq!(before, after);
    assert_eq!(app.times.len(), 11);
    assert_eq!(app.grid_rows().len(), 11);
    assert_eq!(app.get_selected_subject(0, 1).unwrap().name, "A");
    assert_eq!(app.get_selected_subject(0, 1).unwrap().room, "R");
    assert_eq!(app.times[0].1.first_time, "09:00");
    assert_eq!(app.times[0].1.second_time, "00:00");
}

#[test]
fn checks_before_handling_a_key() {
    let mut app = App::new();
    assert!(app.can_handle(Key::Enter));
    app.state_table.selected_column = Some(6);
    assert!(!app.can_handle(Key::Enter));
    assert!(!app.can_handle(Key::Char('c')));
    assert!(app.can_handle(Key::Down));
    app.state_table.selected = Some(255);
    app.state_table.selected_column = Some(1);
    assert!(!app.can_handle(Key::Enter));
    app.selected_tab = 1;
    app.state_settings.selected = Some(11);
    assert!(!app.can_handle(Key::Enter));
    app.selected_tab = usize::MAX;
    assert!(!app.can_handle(Key::Tab));
    assert!(app.can_handle(Key::Char('q')));
    app.create_popup = true;
    app.selected_create_tab = usize::MAX;
    assert!(!app.can_handle(Key::Tab));
    app.state_create_table.selected = Some(3);
    assert!(!app.can_handle(Key::Enter));
    app.edit_mode = true;
    assert!(app.can_handle(Key::Enter));
}

#[test]
fn grid_completeness() {
    let mut app = App::new();
    assert!(app.grid_is_complete());
    app.content.pop();
    assert!(!app.grid_is_complete());
    let mut app = App::new();
    app.times.pop();
    assert!(!app.grid_is_complete());
    let mut app = App::new();
    app.content.retain(|(_, c, _)| *c != Column::Time);
    assert!(app.grid_is_complete());
}
