//! The textual encoding of a clock, and its decoder.

use vstd::prelude::*;

verus! {

use crate::clock::ClockModel;

/// The character for one decimal digit.
pub open spec fn digit_char(d: int) -> char {
    if d == 0 {
        '0'
    } else if d == 1 {
        '1'
    } else if d == 2 {
        '2'
    } else if d == 3 {
        '3'
    } else if d == 4 {
        '4'
    } else if d == 5 {
        '5'
    } else if d == 6 {
        '6'
    } else if d == 7 {
        '7'
    } else if d == 8 {
        '8'
    } else {
        '9'
    }
}

/// The value of one decimal digit character, or -1 if it is no digit.
pub open spec fn char_digit(c: char) -> int {
    if c == '0' {
        0
    } else if c == '1' {
        1
    } else if c == '2' {
        2
    } else if c == '3' {
        3
    } else if c == '4' {
        4
    } else if c == '5' {
        5
    } else if c == '6' {
        6
    } else if c == '7' {
        7
    } else if c == '8' {
        8
    } else if c == '9' {
        9
    } else {
        -1
    }
}

pub open spec fn is_digit(c: char) -> bool {
    char_digit(c) >= 0
}

/// A value in [0, 19] as two decimal digits, zero padded. Sizes and
/// tick counts never exceed 12, so two digits always suffice.
pub open spec fn two_digits(v: int) -> Seq<char> {
    if v >= 10 {
        seq![digit_char(1), digit_char(v - 10)]
    } else {
        seq![digit_char(0), digit_char(v)]
    }
}

/// The value read from two decimal digit characters.
pub open spec fn two_digit_val(c1: char, c0: char) -> int {
    10 * char_digit(c1) + char_digit(c0)
}

/// The polarity marker character.
pub open spec fn polarity_char(positive: bool) -> char {
    if positive {
        'T'
    } else {
        'F'
    }
}

/// A clock's textual encoding: two digits of size, two digits of
/// ticks, the polarity marker, the 36-character identifier, then the
/// name to the end of the text.
pub open spec fn spec_encode(m: ClockModel) -> Seq<char> {
    two_digits(m.size) + two_digits(m.ticks) + seq![polarity_char(m.positive)]
        + m.id + m.name
}

/// Whether `s` encodes a clock: long enough for the fixed fields, four
/// leading digits, size in [2, 12], ticks in [0, size], and a valid
/// polarity marker.
pub open spec fn valid_encoding(s: Seq<char>) -> bool {
    &&& s.len() >= 41
    &&& is_digit(s[0]) && is_digit(s[1]) && is_digit(s[2]) && is_digit(s[3])
    &&& 2 <= two_digit_val(s[0], s[1]) <= 12
    &&& two_digit_val(s[2], s[3]) <= two_digit_val(s[0], s[1])
    &&& (s[4] == 'T' || s[4] == 'F')
}

/// The clock encoded by `s`, if `s` is a valid encoding.
pub open spec fn spec_decode(s: Seq<char>) -> Option<ClockModel> {
    if valid_encoding(s) {
        Some(ClockModel {
            name: s.subrange(41, s.len() as int),
            size: two_digit_val(s[0], s[1]),
            ticks: two_digit_val(s[2], s[3]),
            positive: s[4] == 'T',
            id: s.subrange(5, 41),
        })
    } else {
        None
    }
}

/// The single-character text for one decimal digit.
pub(crate) fn digit_str(d: i32) -> (r: &'static str)
    requires
        0 <= d <= 9,
    ensures
        r@ == seq![digit_char(d as int)],
{
    let r: &'static str = if d == 0 {
        "0"
    } else if d == 1 {
        "1"
    } else if d == 2 {
        "2"
    } else if d == 3 {
        "3"
    } else if d == 4 {
        "4"
    } else if d == 5 {
        "5"
    } else if d == 6 {
        "6"
    } else if d == 7 {
        "7"
    } else if d == 8 {
        "8"
    } else {
        "9"
    };
    proof {
        reveal_strlit("0");
        reveal_strlit("1");
        reveal_strlit("2");
        reveal_strlit("3");
        reveal_strlit("4");
        reveal_strlit("5");
        reveal_strlit("6");
        reveal_strlit("7");
        reveal_strlit("8");
        reveal_strlit("9");
        assert(r@ =~= seq![digit_char(d as int)]);
    }
    r
}

/// The value of one decimal digit character, or -1 if it is no digit.
pub(crate) fn char_to_digit(c: char) -> (r: i32)
    ensures
        r as int == char_digit(c),
{
    match c {
        '0' => 0,
        '1' => 1,
        '2' => 2,
        '3' => 3,
        '4' => 4,
        '5' => 5,
        '6' => 6,
        '7' => 7,
        '8' => 8,
        '9' => 9,
        _ => -1,
    }
}

/// Law: decoding a clock's encoding yields exactly that clock.
pub proof fn lemma_encode_decode(m: ClockModel)
    requires
        m.wf(),
    ensures
        spec_decode(spec_encode(m)) == Some(m),
{
    let s = spec_encode(m);
    assert(two_digit_val(s[0], s[1]) == m.size);
    assert(two_digit_val(s[2], s[3]) == m.ticks);
    assert(s.subrange(5, 41) =~= m.id);
    assert(s.subrange(41, s.len() as int) =~= m.name);
    assert(spec_decode(s)->Some_0 =~= m);
}

} // verus!
