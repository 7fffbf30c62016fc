//! A lesson period: the time it starts and the time it ends, each kept as
//! the text the user typed (normally `HH:MM`).

use vstd::prelude::*;
use crate::text::{field_count_message, push_char, split_on, split_two_fields, str_eq, trim, StyledSpan};

verus! {

/// The placeholder time of a period nobody has filled in.
pub open spec fn zero_time() -> Seq<char> {
    seq!['0', '0', ':', '0', '0']
}

/// Builds the placeholder time `00:00`.
pub fn zero_time_string() -> (r: String)
    ensures
        r@ == zero_time(),
{
    let r = String::from_str("00:00");
    proof {
        reveal_strlit("00:00");
    }
    assert(r@ =~= zero_time());
    r
}

/// What a period holds: its start and end time.
pub struct PeriodModel {
    pub first_time: Seq<char>,
    pub second_time: Seq<char>,
}

/// The period nobody has filled in: `00:00` to `00:00`.
pub open spec fn default_period() -> PeriodModel {
    PeriodModel { first_time: zero_time(), second_time: zero_time() }
}

/// The period `s` denotes, where it denotes one: two fields separated by
/// `-`, each trimmed of surrounding whitespace.
pub open spec fn parse_period(s: Seq<char>) -> Option<PeriodModel> {
    let parts = split_on(s, '-');
    if parts.len() == 2 {
        Some(PeriodModel { first_time: trim(parts[0]), second_time: trim(parts[1]) })
    } else {
        None
    }
}

/// `first-second`, the one-line form of a period.
pub open spec fn display_period(p: PeriodModel) -> Seq<char> {
    p.first_time + seq!['-'] + p.second_time
}

/// `first-` and `second` on two lines, the form shown in the timetable.
pub open spec fn line_period(p: PeriodModel) -> Seq<char> {
    p.first_time + seq!['-', '\n'] + p.second_time
}

/// The styled pieces of a period on one line: each time greyed out when it
/// is the placeholder `00:00`, with a plain `-` between them.
pub open spec fn period_spans(p: PeriodModel) -> Seq<(Seq<char>, bool)> {
    seq![
        (p.first_time, p.first_time == zero_time()),
        (seq!['-'], false),
        (p.second_time, p.second_time == zero_time()),
    ]
}

pub struct Period {
    pub first_time: String,
    pub second_time: String,
}

impl View for Period {
    type V = PeriodModel;

    open spec fn view(&self) -> PeriodModel {
        PeriodModel { first_time: self.first_time@, second_time: self.second_time@ }
    }
}

impl Clone for Period {
    fn clone(&self) -> (r: Self)
        ensures
            r@ == self@,
    {
        Period { first_time: self.first_time.clone(), second_time: self.second_time.clone() }
    }
}

impl Period {
    /// The period nobody has filled in: `00:00` to `00:00`.
    pub fn default() -> (r: Period)
        ensures
            r@ == default_period(),
    {
        Period { first_time: zero_time_string(), second_time: zero_time_string() }
    }

    /// The period on two lines: `first-`, then `second`.
    pub fn to_line_string(&self) -> (r: String)
        ensures
            r@ == line_period(self@),
    {
        let mut r = self.first_time.clone();
        push_char(&mut r, '-');
        push_char(&mut r, '\n');
        r.append(self.second_time.as_str());
        assert(r@ =~= line_period(self@));
        r
    }

    /// The period on one line: `first-second`.
    pub fn to_string(&self) -> (r: String)
        ensures
            r@ == display_period(self@),
    {
        let mut r = self.first_time.clone();
        push_char(&mut r, '-');
        r.append(self.second_time.as_str());
        assert(r@ =~= display_period(self@));
        r
    }

    /// Reads a period from `first-second`; whitespace around either time is
    /// dropped. Any other number of `-`-separated fields is refused with a
    /// message that says how many there were.
    pub fn from_str(s: &str) -> (r: Result<Period, String>)
        ensures
            (r is Ok) <==> parse_period(s@) is Some,
            r matches Ok(p) ==> parse_period(s@) == Some(p@),
            r matches Err(e) ==> e@ == field_count_message(split_on(s@, '-').len()),
    {
        match split_two_fields(s, '-') {
            Ok((first_time, second_time)) => Ok(Period { first_time, second_time }),
            Err(e) => Err(e),
        }
    }

    /// Whether this is the placeholder period `00:00-00:00`.
    pub fn is_default(&self) -> (r: bool)
        ensures
            r == (self@ == default_period()),
    {
        proof {
            reveal_strlit("00:00");
        }
        let z = "00:00";
        assert(z@ =~= zero_time());
        str_eq(self.first_time.as_str(), z) && str_eq(self.second_time.as_str(), z)
    }

    /// The period as styled text on one line, each placeholder time greyed
    /// out.
    pub fn to_text(&self) -> (r: Vec<StyledSpan>)
        ensures
            r@.map_values(|s: StyledSpan| s@) == period_spans(self@),
    {
        proof {
            reveal_strlit("00:00");
        }
        let z = "00:00";
        assert(z@ =~= zero_time());
        let first_dim = str_eq(self.first_time.as_str(), z);
        let second_dim = str_eq(self.second_time.as_str(), z);
        let mut dash = String::new();
        push_char(&mut dash, '-');
        let mut r: Vec<StyledSpan> = Vec::new();
        r.push(StyledSpan { content: self.first_time.clone(), dimmed: first_dim });
        r.push(StyledSpan { content: dash, dimmed: false });
        r.push(StyledSpan { content: self.second_time.clone(), dimmed: second_dim });
        assert(r@.map_values(|s: StyledSpan| s@) =~= period_spans(self@));
        r
    }
}

} // verus!
