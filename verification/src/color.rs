//! The colour of the colour swatch, read from `#rrggbb` text.

use vstd::prelude::*;
use vstd::string::StringSliceAdditionalSpecFns;

verus! {

#[derive(Clone, Copy, PartialEq, Eq, Structural, Debug)]
pub enum Color {
    Black,
    Rgb(u8, u8, u8),
}

/// The value of a hexadecimal digit byte (`0-9`, `a-f`, `A-F`).
pub open spec fn hex_digit_value(b: u8) -> Option<nat> {
    if 48 <= b <= 57 {
        Some((b - 48) as nat)
    } else if 97 <= b <= 102 {
        Some((b - 87) as nat)
    } else if 65 <= b <= 70 {
        Some((b - 55) as nat)
    } else {
        None
    }
}

/// Whether every byte of `d` is a hexadecimal digit.
pub open spec fn all_hex(d: Seq<u8>) -> bool {
    forall|i: int| 0 <= i < d.len() ==> (#[trigger] hex_digit_value(d[i])) is Some
}

/// The number the hexadecimal digits `d` spell.
pub open spec fn hex_value(d: Seq<u8>) -> nat
    decreases d.len(),
{
    if d.len() == 0 {
        0
    } else {
        hex_value(d.drop_last()) * 16 + hex_digit_value(d.last()).unwrap_or(0)
    }
}

/// The digits of a field that `u8::from_str_radix(_, 16)` reads: a single
/// leading `+` is dropped.
pub open spec fn field_digits(f: Seq<u8>) -> Seq<u8> {
    if f.len() > 0 && f[0] == 43 {
        f.drop_first()
    } else {
        f
    }
}

/// Whether `u8::from_str_radix(_, 16)` accepts the field `f` of at most two
/// bytes: at least one digit after an optional `+`, and digits only.
pub open spec fn field_ok(f: Seq<u8>) -> bool {
    field_digits(f).len() > 0 && all_hex(field_digits(f))
}

/// The width in bytes of the UTF-8 character that starts with `b0`.
pub open spec fn utf8_width(b0: u8) -> int {
    if b0 < 0x80 {
        1
    } else if b0 < 0xe0 {
        2
    } else if b0 < 0xf0 {
        3
    } else {
        4
    }
}

/// The red, green and blue fields of seven bytes whose first character is
/// dropped: two bytes, two bytes, and what remains.
pub open spec fn rgb_fields(b: Seq<u8>) -> (Seq<u8>, Seq<u8>, Seq<u8>) {
    let w = utf8_width(b[0]);
    (b.subrange(w, w + 2), b.subrange(w + 2, w + 4), b.subrange(w + 4, 7))
}

/// Whether seven bytes read as a colour without a panic: the first
/// character is at most three bytes wide and the three fields are numbers.
pub open spec fn hex_color_ok(b: Seq<u8>) -> bool {
    &&& b.len() == 7
    &&& utf8_width(b[0]) <= 3
    &&& field_ok(rgb_fields(b).0)
    &&& field_ok(rgb_fields(b).1)
    &&& field_ok(rgb_fields(b).2)
}

/// The colour that the text with the UTF-8 bytes `b` names: black unless it
/// is seven bytes long, else the red, green and blue of its three fields.
pub open spec fn hex_color(b: Seq<u8>) -> Color {
    if b.len() != 7 {
        Color::Black
    } else {
        let (r, g, bl) = rgb_fields(b);
        Color::Rgb(
            hex_value(field_digits(r)) as u8,
            hex_value(field_digits(g)) as u8,
            hex_value(field_digits(bl)) as u8,
        )
    }
}

fn hex_digit(b: u8) -> (r: Option<u8>)
    ensures
        r matches Some(v) ==> hex_digit_value(b) == Some(v as nat),
        r is None ==> hex_digit_value(b) is None,
{
    if 48 <= b && b <= 57 {
        Some(b - 48)
    } else if 97 <= b && b <= 102 {
        Some(b - 87)
    } else if 65 <= b && b <= 70 {
        Some(b - 55)
    } else {
        None
    }
}

/// Reads the field `bytes[lo..hi]`, of at most two bytes, as
/// `u8::from_str_radix(_, 16)` does.
fn parse_hex_field(bytes: &[u8], lo: usize, hi: usize) -> (r: u8)
    requires
        lo <= hi <= bytes@.len(),
        hi - lo <= 2,
        field_ok(bytes@.subrange(lo as int, hi as int)),
    ensures
        r as nat == hex_value(field_digits(bytes@.subrange(lo as int, hi as int))),
{
    let ghost f = bytes@.subrange(lo as int, hi as int);
    let mut i = lo;
    if bytes[lo] == 43 {
        i = lo + 1;
        assert(f.drop_first() =~= bytes@.subrange(i as int, hi as int));
    } else {
        assert(f =~= bytes@.subrange(i as int, hi as int));
    }
    let ghost d = bytes@.subrange(i as int, hi as int);
    assert(d == field_digits(f));
    let mut v: u8 = 0;
    let start = i;
    while i < hi
        invariant
            lo <= start <= i <= hi <= bytes@.len(),
            hi - start <= 2,
            d == bytes@.subrange(start as int, hi as int),
            all_hex(d),
            v as nat == hex_value(bytes@.subrange(start as int, i as int)),
            i - start <= 1 ==> v < 16,
        decreases hi - i,
    {
        assert(hex_digit_value(d[i - start]) is Some);
        let h = hex_digit(bytes[i]).unwrap();
        assert(bytes@.subrange(start as int, i + 1).drop_last() =~= bytes@.subrange(
            start as int,
            i as int,
        ));
        assert(v * 16 + h <= 255) by (nonlinear_arith)
            requires
                v < 16,
                h < 16,
        ;
        v = v * 16 + h;
        i = i + 1;
    }
    v
}

/// The colour that `#rrggbb` names; any text whose UTF-8 form is not seven
/// bytes long names black. The first character is dropped whatever it is,
/// and the remaining bytes are read as two hexadecimal digits of red, two of
/// green and the rest of blue.
pub fn color_from_hex(n: &str) -> (c: Color)
    requires
        n.spec_bytes().len() == 7 ==> hex_color_ok(n.spec_bytes()),
    ensures
        c == hex_color(n.spec_bytes()),
{
    let bytes = n.as_bytes();
    if bytes.len() != 7 {
        return Color::Black;
    }
    let b0 = bytes[0];
    let w: usize = if b0 < 0x80 {
        1
    } else if b0 < 0xe0 {
        2
    } else if b0 < 0xf0 {
        3
    } else {
        4
    };
    let r = parse_hex_field(bytes, w, w + 2);
    let g = parse_hex_field(bytes, w + 2, w + 4);
    let b = parse_hex_field(bytes, w + 4, 7);
    Color::Rgb(r, g, b)
}

/// Whether the field `bytes[lo..hi]` is read by `u8::from_str_radix(_, 16)`
/// (`field_ok`).
fn hex_field_ok(bytes: &[u8], lo: usize, hi: usize) -> (r: bool)
    requires
        lo <= hi <= bytes@.len(),
    ensures
        r == field_ok(bytes@.subrange(lo as int, hi as int)),
{
    let ghost f = bytes@.subrange(lo as int, hi as int);
    let mut i = lo;
    if lo < hi && bytes[lo] == 43 {
        i = lo + 1;
        assert(f.drop_first() =~= bytes@.subrange(i as int, hi as int));
    } else {
        assert(f =~= bytes@.subrange(i as int, hi as int));
    }
    let ghost d = bytes@.subrange(i as int, hi as int);
    assert(d == field_digits(f));
    if i == hi {
        return false;
    }
    let start = i;
    while i < hi
        invariant
            lo <= start <= i <= hi <= bytes@.len(),
            d == bytes@.subrange(start as int, hi as int),
            d == field_digits(f),
            f == bytes@.subrange(lo as int, hi as int),
            forall|k: int| 0 <= k < i - start ==> (#[trigger] hex_digit_value(d[k])) is Some,
        decreases hi - i,
    {
        if hex_digit(bytes[i]).is_none() {
            assert(hex_digit_value(d[i - start]) is None);
            return false;
        }
        i = i + 1;
    }
    true
}

/// Whether `color_from_hex` reads `n` without a panic: text whose UTF-8 form
/// is seven bytes long must hold three fields that are numbers.
pub fn color_text_ok(n: &str) -> (r: bool)
    ensures
        r == (n.spec_bytes().len() == 7 ==> hex_color_ok(n.spec_bytes())),
{
    let bytes = n.as_bytes();
    if bytes.len() != 7 {
        return true;
    }
    let b0 = bytes[0];
    if b0 >= 0xf0 {
        return false;
    }
    let w: usize = if b0 < 0x80 {
        1
    } else if b0 < 0xe0 {
        2
    } else {
        3
    };
    hex_field_ok(bytes, w, w + 2) && hex_field_ok(bytes, w + 2, w + 4) && hex_field_ok(
        bytes,
        w + 4,
        7,
    )
}

} // verus!
