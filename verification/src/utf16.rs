//! UTF-16, the encoding that the host's text uses.

use vstd::prelude::*;
use vstd::string::*;
use vstd::utf8::{char_is_scalar, char_u32_cast};
use crate::text::chars_of;

verus! {

/// `char::from_u32` gives the character with the given scalar value, if there is one.
pub assume_specification[ char::from_u32 ](i: u32) -> (r: Option<char>)
    ensures
        r is Some <==> (i <= 0xD7FF || 0xE000 <= i <= 0x10FFFF),
        r is Some ==> r->0 as u32 == i,
;

/// The first half of a surrogate pair.
pub open spec fn is_high_surrogate(u: u16) -> bool {
    0xD800 <= u <= 0xDBFF
}

/// The second half of a surrogate pair.
pub open spec fn is_low_surrogate(u: u16) -> bool {
    0xDC00 <= u <= 0xDFFF
}

/// The character that a surrogate pair stands for.
pub open spec fn paired(high: u16, low: u16) -> char {
    ((0x10000 + (high - 0xD800) * 0x400 + (low - 0xDC00)) as u32) as char
}

/// The text that UTF-16 units stand for. A surrogate without its partner stands for nothing.
pub open spec fn utf16_text(units: Seq<u16>) -> Option<Seq<char>>
    decreases units.len(),
{
    if units.len() == 0 {
        Some(Seq::empty())
    } else if is_high_surrogate(units[0]) {
        if units.len() >= 2 && is_low_surrogate(units[1]) {
            match utf16_text(units.skip(2)) {
                Some(rest) => Some(seq![paired(units[0], units[1])] + rest),
                None => None,
            }
        } else {
            None
        }
    } else if is_low_surrogate(units[0]) {
        None
    } else {
        match utf16_text(units.skip(1)) {
            Some(rest) => Some(seq![units[0] as char] + rest),
            None => None,
        }
    }
}

/// The text that UTF-16 units stand for, if they are well formed.
pub fn decode_utf16(units: &Vec<u16>) -> (r: Option<String>)
    ensures
        crate::text::opt_view(r) == utf16_text(units@),
{
    let mut out = String::new();
    let mut i: usize = 0;
    assert(units@.skip(0) == units@);
    while i < units.len()
        invariant
            i <= units.len(),
            utf16_text(units@) == (match utf16_text(units@.skip(i as int)) {
                Some(rest) => Some(out@ + rest),
                None => None,
            }),
        decreases units.len() - i,
    {
        let ghost rest = units@.skip(i as int);
        let ghost before = out@;
        let u: u16 = units[i];
        assert(rest[0] == u);
        if 0xD800 <= u && u <= 0xDBFF {
            if units.len() - i < 2 {
                return None;
            }
            let low: u16 = units[i + 1];
            assert(rest[1] == low);
            if low < 0xDC00 || low > 0xDFFF {
                return None;
            }
            let value: u32 = 0x10000 + (u as u32 - 0xD800) * 0x400 + (low as u32 - 0xDC00);
            match char::from_u32(value) {
                Some(c) => {
                    proof {
                        char_u32_cast(c, value);
                    }
                    assert(c == paired(u, low));
                    out.push(c);
                },
                None => {
                    return None;
                },
            }
            proof {
                assert(rest.skip(2) == units@.skip(i + 2));
                if let Some(tail) = utf16_text(units@.skip(i + 2)) {
                    assert(before + (seq![paired(u, low)] + tail) == out@ + tail);
                }
            }
            i = i + 2;
        } else {
            if 0xDC00 <= u && u <= 0xDFFF {
                return None;
            }
            match char::from_u32(u as u32) {
                Some(c) => {
                    proof {
                        char_u32_cast(c, u as u32);
                    }
                    assert(c == u as char);
                    out.push(c);
                },
                None => {
                    return None;
                },
            }
            proof {
                assert(rest.skip(1) == units@.skip(i + 1));
                if let Some(tail) = utf16_text(units@.skip(i + 1)) {
                    assert(before + (seq![u as char] + tail) == out@ + tail);
                }
            }
            i = i + 1;
        }
    }
    proof {
        assert(units@.skip(i as int).len() == 0);
        assert(out@ + Seq::<char>::empty() == out@);
    }
    Some(out)
}

/// The units of one character.
pub open spec fn units_of(c: char) -> Seq<u16> {
    let v = c as u32;
    if v < 0x10000 {
        seq![v as u16]
    } else {
        seq![
            (0xD800 + (v - 0x10000) / 0x400) as u16,
            (0xDC00 + (v - 0x10000) % 0x400) as u16,
        ]
    }
}

/// The units of a text.
pub open spec fn utf16_of(s: Seq<char>) -> Seq<u16>
    decreases s.len(),
{
    if s.len() == 0 {
        Seq::empty()
    } else {
        utf16_of(s.drop_last()) + units_of(s.last())
    }
}

/// The units of a text.
pub fn encode_utf16(text: &str) -> (r: Vec<u16>)
    ensures
        r@ == utf16_of(text@),
{
    let s = chars_of(text);
    let mut out: Vec<u16> = Vec::new();
    let mut i: usize = 0;
    while i < s.len()
        invariant
            i <= s.len(),
            s@ == text@,
            out@ == utf16_of(s@.take(i as int)),
        decreases s.len() - i,
    {
        let ghost before = out@;
        let c = s[i];
        let v: u32 = c as u32;
        assert(s@.take(i + 1).drop_last() == s@.take(i as int));
        assert(s@.take(i + 1).last() == c);
        if v < 0x10000 {
            out.push(v as u16);
            assert(out@ == before + units_of(c));
        } else {
            let w: u32 = v - 0x10000;
            proof {
                char_is_scalar(c);
            }
            assert(w / 0x400 <= 0x3FF);
            out.push((0xD800 + w / 0x400) as u16);
            out.push((0xDC00 + w % 0x400) as u16);
            assert(out@ == before + units_of(c));
        }
        i = i + 1;
    }
    assert(s@.take(i as int) == s@);
    out
}

proof fn decode_of_joined(a: Seq<u16>, b: Seq<u16>)
    requires
        utf16_text(a) is Some,
    ensures
        utf16_text(a + b) == (match utf16_text(b) {
            Some(t) => Some(utf16_text(a)->0 + t),
            None => None,
        }),
    decreases a.len(),
{
    if a.len() == 0 {
        assert(a + b == b);
        if let Some(t) = utf16_text(b) {
            assert(utf16_text(a)->0 + t == t);
        }
    } else if is_high_surrogate(a[0]) {
        assert((a + b).skip(2) == a.skip(2) + b);
        assert((a + b)[0] == a[0] && (a + b)[1] == a[1]);
        decode_of_joined(a.skip(2), b);
        if let Some(t) = utf16_text(b) {
            let first = seq![paired(a[0], a[1])];
            assert(first + (utf16_text(a.skip(2))->0 + t) == first + utf16_text(a.skip(2))->0 + t);
        }
    } else {
        assert((a + b).skip(1) == a.skip(1) + b);
        assert((a + b)[0] == a[0]);
        decode_of_joined(a.skip(1), b);
        if let Some(t) = utf16_text(b) {
            let first = seq![a[0] as char];
            assert(first + (utf16_text(a.skip(1))->0 + t) == first + utf16_text(a.skip(1))->0 + t);
        }
    }
}

proof fn decode_of_char(c: char)
    ensures
        utf16_text(units_of(c)) == Some(seq![c]),
{
    let u = units_of(c);
    let v = c as u32;
    char_u32_cast(c, v);
    if v < 0x10000 {
        assert(u.skip(1).len() == 0);
        assert(u.skip(1) == Seq::<u16>::empty());
        assert(u[0] as char == c);
        assert(utf16_text(u.skip(1)) == Some(Seq::<char>::empty()));
        assert(seq![c] + Seq::<char>::empty() == seq![c]);
    } else {
        assert(v <= 0x10FFFF);
        assert(is_high_surrogate(u[0]) && is_low_surrogate(u[1]));
        assert(0x10000 + (u[0] - 0xD800) * 0x400 + (u[1] - 0xDC00) == v);
        assert(u.skip(2) == Seq::<u16>::empty());
        assert(utf16_text(u.skip(2)) == Some(Seq::<char>::empty()));
        assert(seq![c] + Seq::<char>::empty() == seq![c]);
    }
}

/// Decoding the units of a text gives the text back.
pub proof fn decoding_undoes_encoding(s: Seq<char>)
    ensures
        utf16_text(utf16_of(s)) == Some(s),
    decreases s.len(),
{
    if s.len() > 0 {
        decoding_undoes_encoding(s.drop_last());
        decode_of_char(s.last());
        decode_of_joined(utf16_of(s.drop_last()), units_of(s.last()));
        assert(s.drop_last() + seq![s.last()] == s);
    }
}

/// A position between two units splits no character.
pub open spec fn is_boundary(units: Seq<u16>, at: int) -> bool {
    !(0 < at < units.len() && is_high_surrogate(units[at - 1]) && is_low_surrogate(units[at]))
}

/// Whether a position splits no character.
pub fn at_boundary(units: &[u16], at: usize) -> (r: bool)
    ensures
        r == is_boundary(units@, at as int),
{
    !(at > 0 && at < units.len() && 0xD800 <= units[at - 1] && units[at - 1] <= 0xDBFF && 0xDC00
        <= units[at] && units[at] <= 0xDFFF)
}

/// A character of the basic plane is one unit, its own number; any other is a pair of surrogates
/// that add up to its number.
pub proof fn a_character_is_one_unit_or_a_pair(c: char)
    ensures
        (c as u32) < 0x10000 ==> units_of(c).len() == 1 && units_of(c)[0] == c as u32,
        (c as u32) >= 0x10000 ==> {
            &&& units_of(c).len() == 2
            &&& 0xD800 <= units_of(c)[0] <= 0xDBFF
            &&& 0xDC00 <= units_of(c)[1] <= 0xDFFF
            &&& 0x10000 + (units_of(c)[0] - 0xD800) * 0x400 + (units_of(c)[1] - 0xDC00) == c as u32
        },
{
    char_is_scalar(c);
}

/// The units of two texts, one after the other, are the units of the whole; one character has its
/// own units, and no text has none.
pub proof fn the_units_of_a_whole_are_those_of_its_parts(a: Seq<char>, b: Seq<char>, c: char)
    ensures
        utf16_of(a + b) == utf16_of(a) + utf16_of(b),
        utf16_of(seq![c]) == units_of(c),
        utf16_of(Seq::<char>::empty()) == Seq::<u16>::empty(),
    decreases b.len(),
{
    reveal_with_fuel(utf16_of, 2);
    assert(seq![c].drop_last() =~= Seq::<char>::empty());
    assert(utf16_of(seq![c]) =~= units_of(c));
    if b.len() == 0 {
        assert(a + b =~= a);
        assert(utf16_of(a) + utf16_of(b) =~= utf16_of(a));
    } else {
        the_units_of_a_whole_are_those_of_its_parts(a, b.drop_last(), c);
        assert((a + b).drop_last() =~= a + b.drop_last());
        assert((a + b).last() == b.last());
        assert(utf16_of(a + b) =~= utf16_of(a) + utf16_of(b));
    }
}

proof fn a_text_ends_with_no_first_half(s: Seq<char>)
    requires
        s.len() > 0,
    ensures
        utf16_of(s).len() > 0,
        !(0xD800 <= utf16_of(s).last() <= 0xDBFF),
{
    a_character_is_one_unit_or_a_pair(s.last());
    char_is_scalar(s.last());
    let u = units_of(s.last());
    assert(utf16_of(s).last() == u.last());
}

/// A position between two characters never splits one, and a position inside a pair always does.
pub proof fn boundaries_lie_between_characters(a: Seq<char>, b: Seq<char>, c: char)
    ensures
        is_boundary(utf16_of(a + b), utf16_of(a).len() as int),
        (c as u32) >= 0x10000 ==> !is_boundary(
            utf16_of(a.push(c) + b),
            utf16_of(a).len() as int + 1,
        ),
{
    the_units_of_a_whole_are_those_of_its_parts(a, b, c);
    let n = utf16_of(a).len() as int;
    if a.len() > 0 {
        a_text_ends_with_no_first_half(a);
        assert(utf16_of(a + b)[n - 1] == utf16_of(a).last());
    }
    if (c as u32) >= 0x10000 {
        the_units_of_a_whole_are_those_of_its_parts(a.push(c), b, c);
        a_character_is_one_unit_or_a_pair(c);
        assert(a.push(c).drop_last() =~= a);
        let whole = utf16_of(a.push(c) + b);
        assert(whole[n] == units_of(c)[0]);
        assert(whole[n + 1] == units_of(c)[1]);
    }
}

/// A surrogate without its partner stands for nothing, wherever in the units it is.
pub proof fn an_unpaired_surrogate_stands_for_nothing(s: Seq<char>, rest: Seq<u16>)
    requires
        rest.len() > 0,
        ({
            ||| 0xDC00 <= rest[0] <= 0xDFFF
            ||| 0xD800 <= rest[0] <= 0xDBFF && rest.len() == 1
            ||| 0xD800 <= rest[0] <= 0xDBFF && rest.len() > 1 && !(0xDC00 <= rest[1] <= 0xDFFF)
        }),
    ensures
        utf16_text(utf16_of(s) + rest) is None,
{
    decoding_undoes_encoding(s);
    decode_of_joined(utf16_of(s), rest);
}

} // verus!
