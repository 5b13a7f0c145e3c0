//! Text helpers: a string is the sequence of its characters.

use vstd::prelude::*;
use vstd::string::*;

verus! {

/// `String::push` appends one character to the end of the string.
pub assume_specification[ String::push ](s: &mut String, c: char)
    ensures
        final(s)@ == old(s)@.push(c),
;

/// The first `n` characters of `s`, or all of `s` if it is shorter.
pub open spec fn head(s: Seq<char>, n: int) -> Seq<char> {
    if s.len() <= n {
        s
    } else {
        s.subrange(0, n)
    }
}

/// The last `n` characters of `s`, or all of `s` if it is shorter.
pub open spec fn tail(s: Seq<char>, n: int) -> Seq<char> {
    if s.len() <= n {
        s
    } else {
        s.subrange(s.len() - n, s.len() as int)
    }
}

/// The view of an optional string.
pub open spec fn opt_view(s: Option<String>) -> Option<Seq<char>> {
    match s {
        Some(t) => Some(t@),
        None => None,
    }
}

/// The views of the strings of a vector.
pub open spec fn views(v: Seq<String>) -> Seq<Seq<char>> {
    v.map_values(|s: String| s@)
}

/// Whether two strings hold the same characters.
pub fn same_text(a: &str, b: &str) -> (r: bool)
    ensures
        r == (a@ == b@),
{
    a.to_owned() == b.to_owned()
}

/// The first `n` characters.
pub fn take_head(s: &str, n: usize) -> (r: String)
    ensures
        r@ == head(s@, n as int),
{
    let len: usize = s.unicode_len();
    if len <= n {
        s.to_owned()
    } else {
        s.substring_char(0, n).to_owned()
    }
}

/// The last `n` characters.
pub fn take_tail(s: &str, n: usize) -> (r: String)
    ensures
        r@ == tail(s@, n as int),
{
    let len: usize = s.unicode_len();
    if len <= n {
        s.to_owned()
    } else {
        s.substring_char(len - n, len).to_owned()
    }
}

/// The two strings, one after the other.
pub fn joined(a: &str, b: &str) -> (r: String)
    ensures
        r@ == a@ + b@,
{
    let mut out = a.to_owned();
    out.append(b);
    out
}

/// The characters of a string.
pub fn chars_of(s: &str) -> (r: Vec<char>)
    ensures
        r@ == s@,
{
    let mut out: Vec<char> = Vec::new();
    for c in it: s.chars()
        invariant
            it.seq() == s@,
            out@ == it.seq().take(it.index() as int),
    {
        out.push(c);
    }
    out
}

/// The string made of the given characters.
pub fn string_of(v: &[char]) -> (r: String)
    ensures
        r@ == v@,
{
    let mut out = String::new();
    let mut i: usize = 0;
    while i < v.len()
        invariant
            i <= v.len(),
            out@ == v@.take(i as int),
        decreases v.len() - i,
    {
        out.push(v[i]);
        i = i + 1;
    }
    out
}

/// A head is the beginning of a text: as long as asked for, or the whole text where that is shorter.
pub proof fn a_head_is_the_beginning(s: Seq<char>, n: int)
    requires
        n >= 0,
    ensures
        head(s, n).len() == (if s.len() <= n {
            s.len() as int
        } else {
            n
        }),
        exists|rest: Seq<char>| s == #[trigger] (head(s, n) + rest),
{
    let k = head(s, n).len() as int;
    assert(s =~= head(s, n) + s.skip(k));
}

/// A tail is the end of a text: as long as asked for, or the whole text where that is shorter.
pub proof fn a_tail_is_the_end(s: Seq<char>, n: int)
    requires
        n >= 0,
    ensures
        tail(s, n).len() == (if s.len() <= n {
            s.len() as int
        } else {
            n
        }),
        exists|rest: Seq<char>| s == #[trigger] (rest + tail(s, n)),
{
    let k = s.len() - tail(s, n).len();
    assert(s =~= s.take(k) + tail(s, n));
}

/// A text that grows at its end keeps the end of the end: cutting as it grows, or once at last,
/// gives the same.
pub proof fn a_tail_of_a_tail_is_a_tail(a: Seq<char>, b: Seq<char>, n: int)
    requires
        n >= 0,
    ensures
        tail(tail(a, n) + b, n) == tail(a + b, n),
{
    assert(tail(tail(a, n) + b, n) =~= tail(a + b, n));
}

/// The texts of strings are those of the strings, one for one.
pub proof fn views_are_the_texts(v: Seq<String>, some: String)
    ensures
        views(v).len() == v.len(),
        forall|i: int| 0 <= i < v.len() ==> #[trigger] views(v)[i] == v[i]@,
        opt_view(Some(some)) == Some(some@),
        opt_view(None) is None,
{
}

} // verus!
