use timetable::color::{color_from_hex, color_text_ok, Color};
use timetable::column::Column;
use timetable::period::Period;
use timetable::selection::Selection;
use timetable::subject::Subject;
use timetable::time_input::{erase_time_char, type_time_char};

fn period(a: &str, b: &str) -> Period {
    Period { first_time: a.to_string(), second_time: b.to_string() }
}

fn spans(v: Vec<timetable::text::StyledSpan>) -> Vec<(String, bool)> {
    v.into_iter().map(|s| (s.content, s.dimmed)).collect()
}

#[test]
fn period_default_is_placeholder() {
    let p = Period::default();
    assert_eq!(p.first_time, "00:00");
    assert_eq!(p.second_time, "00:00");
    assert!(p.is_default());
    assert!(!period("08:00", "00:00").is_default());
}

#[test]
fn period_line_and_display_forms() {
    let p = period("08:00", "08:45");
    assert_eq!(p.to_line_string(), "08:00-\n08:45");
    assert_eq!(p.to_string(), "08:00-08:45");
    assert_eq!(Period::default().to_string(), "00:00-00:00");
}

#[test]
fn period_from_str_trims_fields() {
    let p = Period::from_str("  08:00 -\t09:30\n").unwrap();
    assert_eq!(p.first_time, "08:00");
    assert_eq!(p.second_time, "09:30");
    let q = Period::from_str("\u{3000}7:15\u{a0}-\u{2003}8").unwrap();
    assert_eq!(q.first_time, "7:15");
    assert_eq!(q.second_time, "8");
    let e = Period::from_str("-").unwrap();
    assert_eq!(e.first_time, "");
    assert_eq!(e.second_time, "");
}

#[test]
fn period_from_str_counts_fields() {
    assert_eq!(Period::from_str("0800").err().unwrap(), "expected 2 fields, got 1");
    assert_eq!(Period::from_str("").err().unwrap(), "expected 2 fields, got 1");
    assert_eq!(Period::from_str("1-2-3").err().unwrap(), "expected 2 fields, got 3");
    assert_eq!(
        Period::from_str("----------").err().unwrap(),
        "expected 2 fields, got 11"
    );
}

#[test]
fn period_round_trip_through_text() {
    let p = period("10:05", "10:50");
    let q = Period::from_str(&p.to_string()).unwrap();
    assert_eq!(q.first_time, p.first_time);
    assert_eq!(q.second_time, p.second_time);
}

#[test]
fn period_text_dims_placeholders() {
    assert_eq!(
        spans(period("08:00", "00:00").to_text()),
        vec![("08:00".to_string(), false), ("-".to_string(), false), ("00:00".to_string(), true)]
    );
    assert_eq!(
        spans(Period::default().to_text()),
        vec![("00:00".to_string(), true), ("-".to_string(), false), ("00:00".to_string(), true)]
    );
}

#[test]
fn period_clone_keeps_times() {
    let p = period("a", "b");
    let q = p.clone();
    assert_eq!(q.first_time, "a");
    assert_eq!(q.second_time, "b");
}

#[test]
fn subject_default_and_text() {
    let s = Subject::default();
    assert_eq!((s.name.as_str(), s.room.as_str(), s.teacher.as_str()), ("None", "None", "None"));
    assert_eq!(
        spans(s.to_text()),
        vec![("None".to_string(), true), ("None".to_string(), true)]
    );
    let m = Subject { name: "Maths".into(), room: "None".into(), teacher: "Ms Smith".into() };
    assert_eq!(
        spans(m.to_text()),
        vec![("Maths".to_string(), false), ("None".to_string(), true)]
    );
}

#[test]
fn subject_from_str() {
    let s = Subject::from_str(" Physics \n B12 ").unwrap();
    assert_eq!((s.name.as_str(), s.room.as_str(), s.teacher.as_str()), ("Physics", "B12", "None"));
    assert_eq!(Subject::from_str("Physics").err().unwrap(), "expected 2 fields, got 1");
    assert_eq!(Subject::from_str("a\nb\nc").err().unwrap(), "expected 2 fields, got 3");
    let name = "Art".to_string();
    let room = "R1".to_string();
    let back = Subject::from_str(&format!("{}\n{}", name, room)).unwrap();
    assert_eq!((back.name, back.room), (name, room));
}

#[test]
fn columns_by_index() {
    assert_eq!(Column::from_index(0), Column::Time);
    assert_eq!(Column::from_index(1), Column::Monday);
    assert_eq!(Column::from_index(3), Column::Wednesday);
    assert_eq!(Column::from_index(5), Column::Friday);
}

#[test]
fn selection_moves_like_table_state() {
    let mut s = Selection::new();
    assert_eq!(s, Selection { offset: 0, selected: Some(0), selected_column: Some(1) });
    s.select_next();
    assert_eq!(s.selected, Some(1));
    s.select_previous();
    s.select_previous();
    assert_eq!(s.selected, Some(0));
    s.select_next_column();
    assert_eq!(s.selected_column, Some(2));
    s.select_previous_column();
    assert_eq!(s.selected_column, Some(1));

    let mut n = Selection { offset: 4, selected: None, selected_column: None };
    n.select_previous();
    n.select_previous_column();
    assert_eq!(n, Selection { offset: 4, selected: Some(usize::MAX), selected_column: Some(usize::MAX) });
    n.select_next();
    n.select_next_column();
    assert_eq!(n.selected, Some(usize::MAX));
    assert_eq!(n.selected_column, Some(usize::MAX));
    let mut m = Selection { offset: 2, selected: None, selected_column: None };
    m.select_next();
    m.select_next_column();
    assert_eq!(m, Selection { offset: 2, selected: Some(0), selected_column: Some(0) });
}

#[test]
fn colors_from_hex() {
    assert_eq!(color_from_hex("#00ff00"), Color::Rgb(0, 255, 0));
    assert_eq!(color_from_hex("#1A2b3C"), Color::Rgb(0x1a, 0x2b, 0x3c));
    assert_eq!(color_from_hex("#+f+f+f"), Color::Rgb(15, 15, 15));
    assert_eq!(color_from_hex("x0a0b0c"), Color::Rgb(10, 11, 12));
    assert_eq!(color_from_hex("\u{e9}12345"), Color::Rgb(0x12, 0x34, 0x5));
    assert_eq!(color_from_hex("#fff"), Color::Black);
    assert_eq!(color_from_hex(""), Color::Black);
    assert_eq!(color_from_hex("#00ff00ff"), Color::Black);
}

fn typed(keys: &str) -> String {
    let mut buf = String::new();
    for c in keys.chars() {
        type_time_char(&mut buf, c);
    }
    buf
}

#[test]
fn typing_a_time_range() {
    assert_eq!(typed("08301015"), "08:30-10:15");
    assert_eq!(typed("083010159"), "08:30-10:15");
    assert_eq!(typed("3"), "");
    assert_eq!(typed("2"), "2");
    assert_eq!(typed("196"), "19:");
    assert_eq!(typed("0:"), "0:");
    assert_eq!(typed("08:"), "08:");
    assert_eq!(typed("1-"), "1-:");
    assert_eq!(typed("-"), "");
}

#[test]
fn erasing_a_time_range() {
    let mut buf = "08:30-".to_string();
    erase_time_char(&mut buf);
    assert_eq!(buf, "08:3");
    let mut buf = "08:".to_string();
    erase_time_char(&mut buf);
    assert_eq!(buf, "0");
    let mut buf = String::new();
    erase_time_char(&mut buf);
    assert_eq!(buf, "");
    let mut buf = "-".to_string();
    erase_time_char(&mut buf);
    assert_eq!(buf, "");
}

#[test]
fn colour_texts_that_read() {
    assert!(color_text_ok("#00ff00"));
    assert!(color_text_ok("short"));
    assert!(color_text_ok("#+f+f+f"));
    assert!(!color_text_ok("#00gg00"));
    assert!(!color_text_ok("#0+0000"));
    assert!(!color_text_ok("#00ff+x"));
    assert!(!color_text_ok("\u{20ac}1234"));
    assert!(!color_text_ok("\u{1f600}123"));
}
