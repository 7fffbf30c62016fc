//! A school timetable: periods, subjects, the grid of lessons, and the
//! key-driven editor state that manipulates them.

pub mod text;
pub mod period;
pub mod subject;
pub mod column;
pub mod selection;
pub mod color;
pub mod time_input;
pub mod app;
pub mod keys;
pub mod screen;
pub mod laws;
