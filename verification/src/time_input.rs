//! Typing a period as `HH:MM-HH:MM`: the edit buffer of the settings tab
//! accepts digits only where a time can have them and inserts the `:` and
//! `-` separators by itself.

use vstd::prelude::*;
use crate::text::{count_digits, is_digit, pop_char, push_char};

verus! {

/// Whether the digit `c` may follow `n` digits already typed: the tens of an
/// hour go up to 2, the tens of a minute up to 5, and a ninth digit is
/// refused.
pub open spec fn accepts(n: nat, c: char) -> bool {
    if n == 0 || n == 4 {
        '0' <= c && c <= '2'
    } else if n == 2 || n == 6 {
        '0' <= c && c <= '5'
    } else if n >= 8 {
        false
    } else {
        true
    }
}

/// The buffer after typing `c`: `c` is appended when it is accepted, and
/// then a `:` after the second digit of an hour, or a `-` after the second
/// digit of the first minute, unless the buffer already ends with it.
pub open spec fn type_char(buf: Seq<char>, c: char) -> Seq<char> {
    let n = count_digits(buf);
    if !accepts(n, c) {
        buf
    } else {
        let b = buf.push(c);
        if (n == 1 || n == 5) && c != ':' {
            b.push(':')
        } else if n == 3 && c != '-' {
            b.push('-')
        } else {
            b
        }
    }
}

/// The buffer after a backspace: a trailing separator goes together with
/// the character before it.
pub open spec fn erase_char(buf: Seq<char>) -> Seq<char> {
    let b = if buf.len() > 0 && (buf.last() == ':' || buf.last() == '-') {
        buf.drop_last()
    } else {
        buf
    };
    if b.len() > 0 {
        b.drop_last()
    } else {
        b
    }
}

/// The number of digits in `s`.
pub fn digit_count(s: &str) -> (n: usize)
    ensures
        n == count_digits(s@),
{
    let len = s.unicode_len();
    let mut n: usize = 0;
    let mut i: usize = 0;
    while i < len
        invariant
            len == s@.len(),
            i <= len,
            n == count_digits(s@.take(i as int)),
            n <= i,
        decreases len - i,
    {
        let c = s.get_char(i);
        assert(s@.take(i + 1).drop_last() =~= s@.take(i as int));
        if '0' <= c && c <= '9' {
            n = n + 1;
        }
        i = i + 1;
    }
    assert(s@.take(len as int) =~= s@);
    n
}

/// Types `c` into the time being edited.
pub fn type_time_char(buf: &mut String, c: char)
    ensures
        final(buf)@ == type_char(old(buf)@, c),
{
    let n = digit_count(buf.as_str());
    let valid = if n == 0 || n == 4 {
        '0' <= c && c <= '2'
    } else if n == 2 || n == 6 {
        '0' <= c && c <= '5'
    } else if n >= 8 {
        false
    } else {
        true
    };
    if valid {
        push_char(buf, c);
        if (n == 1 || n == 5) && c != ':' {
            push_char(buf, ':');
        } else if n == 3 && c != '-' {
            push_char(buf, '-');
        }
    }
}

/// Erases the last character of the time being edited, together with a
/// separator that ends it.
pub fn erase_time_char(buf: &mut String)
    ensures
        final(buf)@ == erase_char(old(buf)@),
{
    let len = buf.as_str().unicode_len();
    if len > 0 {
        let last = buf.as_str().get_char(len - 1);
        if last == ':' || last == '-' {
            pop_char(buf);
        }
    }
    pop_char(buf);
}

/// The character that a complete time range `HH:MM-HH:MM` has at position
/// `i`, as a predicate on `c`.
pub open spec fn template_accepts(i: int, c: char) -> bool {
    if i == 2 || i == 8 {
        c == ':'
    } else if i == 5 {
        c == '-'
    } else if i == 0 || i == 6 {
        '0' <= c && c <= '2'
    } else if i == 3 || i == 9 {
        '0' <= c && c <= '5'
    } else {
        is_digit(c)
    }
}

/// Whether `buf` is what typing digits can leave behind: a beginning of
/// `HH:MM-HH:MM` with the hour tens at most 2 and the minute tens at most 5,
/// never stopping just before a separator.
pub open spec fn well_shaped(buf: Seq<char>) -> bool {
    &&& buf.len() <= 11
    &&& buf.len() != 2 && buf.len() != 5 && buf.len() != 8
    &&& forall|i: int| 0 <= i < buf.len() ==> template_accepts(i, #[trigger] buf[i])
}

/// The number of digits in a beginning of `HH:MM-HH:MM` of length `l`.
pub open spec fn template_digits(l: int) -> int {
    if l <= 2 {
        l
    } else if l <= 5 {
        l - 1
    } else if l <= 8 {
        l - 2
    } else {
        l - 3
    }
}

proof fn lemma_template_digits(buf: Seq<char>)
    requires
        buf.len() <= 11,
        forall|i: int| 0 <= i < buf.len() ==> template_accepts(i, #[trigger] buf[i]),
    ensures
        count_digits(buf) == template_digits(buf.len() as int),
    decreases buf.len(),
{
    if buf.len() > 0 {
        let b = buf.drop_last();
        assert forall|i: int| 0 <= i < b.len() implies template_accepts(i, #[trigger] b[i]) by {
            assert(b[i] == buf[i]);
        }
        lemma_template_digits(b);
        assert(template_accepts(buf.len() - 1, buf.last()));
    }
}

/// Typing a digit into a buffer shaped like the beginning of `HH:MM-HH:MM`
/// leaves it so shaped: the digits only land where a time can hold them and
/// the separators come by themselves.
pub proof fn typing_digit_keeps_shape(buf: Seq<char>, c: char)
    requires
        well_shaped(buf),
        is_digit(c),
    ensures
        well_shaped(type_char(buf, c)),
{
    lemma_template_digits(buf);
    let r = type_char(buf, c);
    assert forall|i: int| 0 <= i < r.len() implies template_accepts(i, #[trigger] r[i]) by {
        if i < buf.len() {
            assert(r[i] == buf[i]);
        }
    }
}

/// A backspace on a buffer shaped like the beginning of `HH:MM-HH:MM`
/// leaves it so shaped.
pub proof fn erasing_keeps_shape(buf: Seq<char>)
    requires
        well_shaped(buf),
    ensures
        well_shaped(erase_char(buf)),
{
    let r = erase_char(buf);
    assert forall|i: int| 0 <= i < r.len() implies template_accepts(i, #[trigger] r[i]) by {
        assert(r[i] == buf[i]);
    }
    if buf.len() == 3 || buf.len() == 6 || buf.len() == 9 {
        assert(template_accepts(buf.len() - 1, buf.last()));
    }
    if buf.len() == 4 || buf.len() == 7 || buf.len() == 10 || buf.len() == 1 || buf.len() == 11 {
        assert(template_accepts(buf.len() - 1, buf.last()));
    }
}

/// Typing never brings the buffer past eight digits, the eight of a time
/// range; a buffer holding eight or more is left as it is.
pub proof fn typing_stops_at_eight_digits(buf: Seq<char>, c: char)
    requires
        is_digit(c),
    ensures
        count_digits(buf) >= 8 ==> type_char(buf, c) == buf,
        count_digits(buf) <= 8 ==> count_digits(type_char(buf, c)) <= 8,
{
    let n = count_digits(buf);
    let r = type_char(buf, c);
    if accepts(n, c) {
        let b = buf.push(c);
        assert(b.drop_last() =~= buf);
        assert(count_digits(b) == n + 1);
        if (n == 1 || n == 5) && c != ':' {
            assert(b.push(':').drop_last() =~= b);
            assert(count_digits(b.push(':')) == n + 1);
        } else if n == 3 && c != '-' {
            assert(b.push('-').drop_last() =~= b);
            assert(count_digits(b.push('-')) == n + 1);
        }
    }
}

/// Whether `t` is a complete time range `HH:MM-HH:MM` whose hour tens are
/// at most 2 and whose minute tens are at most 5.
pub open spec fn is_time_range(t: Seq<char>) -> bool {
    &&& t.len() == 11
    &&& t[2] == ':' && t[5] == '-' && t[8] == ':'
    &&& is_digit(t[0]) && is_digit(t[1]) && is_digit(t[3]) && is_digit(t[4])
    &&& is_digit(t[6]) && is_digit(t[7]) && is_digit(t[9]) && is_digit(t[10])
    &&& t[0] <= '2' && t[6] <= '2' && t[3] <= '5' && t[9] <= '5'
}

proof fn lemma_range_prefix_digits(t: Seq<char>, k: int)
    requires
        is_time_range(t),
        0 <= k <= 11,
    ensures
        count_digits(t.take(k)) == template_digits(k),
{
    let b = t.take(k);
    assert forall|i: int| 0 <= i < b.len() implies template_accepts(i, #[trigger] b[i]) by {
        assert(b[i] == t[i]);
    }
    lemma_template_digits(b);
}

/// Typing the next digit of a time range into the part typed so far gives
/// the time range up to that digit, with the separator that follows it;
/// every such digit is taken, the ones of an hour or a minute whatever they
/// are. A backspace then gives back the part typed before.
pub proof fn typing_the_next_digit(t: Seq<char>, k: int)
    requires
        is_time_range(t),
        0 <= k < 11,
        k != 2 && k != 5 && k != 8,
    ensures
        type_char(t.take(k), t[k]) == t.take(
            if k == 1 || k == 4 || k == 7 {
                k + 2
            } else {
                k + 1
            },
        ),
        erase_char(type_char(t.take(k), t[k])) == t.take(k),
{
    lemma_range_prefix_digits(t, k);
    let b = t.take(k);
    let c = t[k];
    let r = type_char(b, c);
    assert(b.push(c) =~= t.take(k + 1));
    if k == 1 || k == 4 || k == 7 {
        assert(t.take(k + 1).push(t[k + 1]) =~= t.take(k + 2));
        assert(r =~= t.take(k + 2));
        assert(r.drop_last() =~= t.take(k + 1));
    } else {
        assert(r =~= t.take(k + 1));
    }
    assert(t.take(k + 1).drop_last() =~= b);
}

/// Typing the eight digits of a time range, one after the other, into an
/// empty buffer gives exactly that time range.
pub proof fn typing_a_whole_time_range(t: Seq<char>)
    requires
        is_time_range(t),
    ensures
        type_char(
            type_char(
                type_char(
                    type_char(
                        type_char(
                            type_char(type_char(type_char(Seq::empty(), t[0]), t[1]), t[3]),
                            t[4],
                        ),
                        t[6],
                    ),
                    t[7],
                ),
                t[9],
            ),
            t[10],
        ) == t,
{
    assert(t.take(0) =~= Seq::<char>::empty());
    typing_the_next_digit(t, 0);
    typing_the_next_digit(t, 1);
    typing_the_next_digit(t, 3);
    typing_the_next_digit(t, 4);
    typing_the_next_digit(t, 6);
    typing_the_next_digit(t, 7);
    typing_the_next_digit(t, 9);
    typing_the_next_digit(t, 10);
    assert(t.take(11) =~= t);
}

/// A digit that no time range can have at the next place (hour tens above 2,
/// minute tens above 5, or a ninth digit) leaves the buffer as it is.
pub proof fn typing_refuses_impossible_digits(t: Seq<char>, k: int, c: char)
    requires
        is_time_range(t),
        0 <= k <= 11,
        k != 2 && k != 5 && k != 8,
        is_digit(c),
        (k == 0 || k == 6) ==> c > '2',
        (k == 3 || k == 9) ==> c > '5',
        k != 0 && k != 6 && k != 3 && k != 9 ==> k == 11,
    ensures
        type_char(t.take(k), c) == t.take(k),
{
    lemma_range_prefix_digits(t, k);
}

} // verus!
