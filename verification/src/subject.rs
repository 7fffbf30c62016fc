//! A lesson: the subject's name, the room and the teacher, each `None`
//! (the word) while unknown.

use vstd::prelude::*;
use crate::text::{field_count_message, split_on, split_two_fields, str_eq, trim, StyledSpan};

verus! {

/// The placeholder for a field nobody has filled in.
pub open spec fn none_word() -> Seq<char> {
    seq!['N', 'o', 'n', 'e']
}

/// Builds the placeholder word `None`.
pub fn none_string() -> (r: String)
    ensures
        r@ == none_word(),
{
    let r = String::from_str("None");
    proof {
        reveal_strlit("None");
    }
    assert(r@ =~= none_word());
    r
}

/// Whether `s` is the placeholder word `None`.
pub fn is_none_word(s: &str) -> (r: bool)
    ensures
        r == (s@ == none_word()),
{
    proof {
        reveal_strlit("None");
    }
    let w = "None";
    assert(w@ =~= none_word());
    str_eq(s, w)
}

/// What a lesson holds.
pub struct SubjectModel {
    pub name: Seq<char>,
    pub room: Seq<char>,
    pub teacher: Seq<char>,
}

/// The empty lesson: every field `None`.
pub open spec fn default_subject() -> SubjectModel {
    SubjectModel { name: none_word(), room: none_word(), teacher: none_word() }
}

/// The lesson `s` denotes, where it denotes one: a name and a room on two
/// lines, each trimmed of surrounding whitespace; the teacher is unknown.
pub open spec fn parse_subject(s: Seq<char>) -> Option<SubjectModel> {
    let parts = split_on(s, '\n');
    if parts.len() == 2 {
        Some(SubjectModel { name: trim(parts[0]), room: trim(parts[1]), teacher: none_word() })
    } else {
        None
    }
}

/// The styled lines of a lesson: its name, then its room, each greyed out
/// when it is the placeholder `None`.
pub open spec fn subject_lines(s: SubjectModel) -> Seq<(Seq<char>, bool)> {
    seq![(s.name, s.name == none_word()), (s.room, s.room == none_word())]
}

pub struct Subject {
    pub name: String,
    pub room: String,
    pub teacher: String,
}

impl View for Subject {
    type V = SubjectModel;

    open spec fn view(&self) -> SubjectModel {
        SubjectModel { name: self.name@, room: self.room@, teacher: self.teacher@ }
    }
}

impl Clone for Subject {
    fn clone(&self) -> (r: Self)
        ensures
            r@ == self@,
    {
        Subject {
            name: self.name.clone(),
            room: self.room.clone(),
            teacher: self.teacher.clone(),
        }
    }
}

impl Subject {
    /// The empty lesson: name, room and teacher all `None`.
    pub fn default() -> (r: Subject)
        ensures
            r@ == default_subject(),
    {
        Subject { name: none_string(), room: none_string(), teacher: none_string() }
    }

    /// The lesson as styled lines: its name, then its room, each greyed out
    /// while it is `None`.
    pub fn to_text(&self) -> (r: Vec<StyledSpan>)
        ensures
            r@.map_values(|s: StyledSpan| s@) == subject_lines(self@),
    {
        let name_dim = is_none_word(self.name.as_str());
        let room_dim = is_none_word(self.room.as_str());
        let mut r: Vec<StyledSpan> = Vec::new();
        r.push(StyledSpan { content: self.name.clone(), dimmed: name_dim });
        r.push(StyledSpan { content: self.room.clone(), dimmed: room_dim });
        assert(r@.map_values(|s: StyledSpan| s@) =~= subject_lines(self@));
        r
    }

    /// Reads a lesson from a name and a room on two lines; whitespace around
    /// either is dropped and the teacher is left `None`. Any other number of
    /// lines is refused with a message that says how many there were.
    pub fn from_str(s: &str) -> (r: Result<Subject, String>)
        ensures
            (r is Ok) <==> parse_subject(s@) is Some,
            r matches Ok(p) ==> parse_subject(s@) == Some(p@),
            r matches Err(e) ==> e@ == field_count_message(split_on(s@, '\n').len()),
    {
        match split_two_fields(s, '\n') {
            Ok((name, room)) => Ok(Subject { name, room, teacher: none_string() }),
            Err(e) => Err(e),
        }
    }
}

} // verus!
