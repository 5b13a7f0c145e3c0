//! The last commit, kept for undoing it and for reporting a wrong conversion.

use vstd::prelude::*;
use vstd::string::*;
use crate::text::{chars_of, string_of};

verus! {

/// The longest text that a commit is undone for, in UTF-16 units.
pub const UNDO_MAX_UNITS: usize = 64;

/// Why a commit is not undone.
#[derive(Debug, Clone, Copy, PartialEq, Eq, Structural)]
pub enum UndoSkip {
    NotArmed,
    CompositionOpen,
    NoBuffer,
    TooLong,
}

/// Whether a commit can be undone, and if not, the first reason against it.
pub fn undo_precheck(
    armed: bool,
    has_composition: bool,
    has_buffer: bool,
    tlen_utf16: usize,
) -> (r: Result<(), UndoSkip>)
    ensures
        r == (if !armed {
            Err::<(), UndoSkip>(UndoSkip::NotArmed)
        } else if has_composition {
            Err(UndoSkip::CompositionOpen)
        } else if !has_buffer {
            Err(UndoSkip::NoBuffer)
        } else if tlen_utf16 > UNDO_MAX_UNITS {
            Err(UndoSkip::TooLong)
        } else {
            Ok(())
        }),
{
    if !armed {
        return Err(UndoSkip::NotArmed);
    }
    if has_composition {
        return Err(UndoSkip::CompositionOpen);
    }
    if !has_buffer {
        return Err(UndoSkip::NoBuffer);
    }
    if tlen_utf16 > UNDO_MAX_UNITS {
        return Err(UndoSkip::TooLong);
    }
    Ok(())
}

/// A commit. `sel` is the chosen candidate, or -1 if none was chosen.
#[derive(Debug, Clone, PartialEq, Eq)]
pub struct LastCommit {
    pub ts_ms: u64,
    pub reading: String,
    pub text: String,
    pub source: String,
    pub sel: i32,
    pub cand_n: usize,
}

/// The lower case hexadecimal digit of a value below sixteen.
pub open spec fn lower_hex(v: int) -> char {
    if v < 10 {
        (('0' as u32 + v) as u32) as char
    } else {
        (('a' as u32 + v - 10) as u32) as char
    }
}

/// A character as it stands in a JSON string.
pub open spec fn escaped_char(c: char) -> Seq<char> {
    if c == '"' {
        seq!['\\', '"']
    } else if c == '\\' {
        seq!['\\', '\\']
    } else if c == '\n' {
        seq!['\\', 'n']
    } else if c == '\r' {
        seq!['\\', 'r']
    } else if c == '\t' {
        seq!['\\', 't']
    } else if (c as u32) < 0x20 {
        seq!['\\', 'u', '0', '0', lower_hex((c as u32) as int / 16), lower_hex((c as u32) as int % 16)]
    } else {
        seq![c]
    }
}

/// A text as it stands in a JSON string.
pub open spec fn escaped(s: Seq<char>) -> Seq<char>
    decreases s.len(),
{
    if s.len() == 0 {
        Seq::empty()
    } else {
        escaped(s.drop_last()) + escaped_char(s.last())
    }
}

pub(crate) fn hex_of(v: u32) -> (r: char)
    requires
        v < 16,
    ensures
        r == lower_hex(v as int),
{
    let d: u8 = v as u8;
    if d < 10 {
        (48 + d) as char
    } else {
        (87 + d) as char
    }
}

/// Escapes a text for a JSON string: quotes, backslashes and control characters.
pub fn json_escape(s: &str) -> (r: String)
    ensures
        r@ == escaped(s@),
{
    let v = chars_of(s);
    let mut out: Vec<char> = Vec::new();
    let mut i: usize = 0;
    while i < v.len()
        invariant
            i <= v.len(),
            v@ == s@,
            out@ == escaped(v@.take(i as int)),
        decreases v.len() - i,
    {
        let ghost before = out@;
        let c = v[i];
        assert(v@.take(i + 1).drop_last() == v@.take(i as int));
        assert(v@.take(i + 1).last() == c);
        if c == '"' {
            out.push('\\');
            out.push('"');
        } else if c == '\\' {
            out.push('\\');
            out.push('\\');
        } else if c == '\n' {
            out.push('\\');
            out.push('n');
        } else if c == '\r' {
            out.push('\\');
            out.push('r');
        } else if c == '\t' {
            out.push('\\');
            out.push('t');
        } else if (c as u32) < 0x20 {
            let value: u32 = c as u32;
            out.push('\\');
            out.push('u');
            out.push('0');
            out.push('0');
            out.push(hex_of(value / 16));
            out.push(hex_of(value % 16));
        } else {
            out.push(c);
        }
        assert(out@ == before + escaped_char(c));
        i = i + 1;
    }
    assert(v@.take(i as int) == v@);
    string_of(out.as_slice())
}

/// The decimal digits of a number.
pub open spec fn decimal(n: nat) -> Seq<char>
    decreases n,
{
    if n < 10 {
        seq![(('0' as u32 + n) as u32) as char]
    } else {
        decimal(n / 10).push((('0' as u32 + n % 10) as u32) as char)
    }
}

/// A number as it stands in JSON.
pub open spec fn signed_decimal(n: int) -> Seq<char> {
    if n < 0 {
        seq!['-'] + decimal((-n) as nat)
    } else {
        decimal(n as nat)
    }
}

pub(crate) fn push_decimal(out: &mut String, n: u64)
    ensures
        final(out)@ == old(out)@ + decimal(n as nat),
    decreases n,
{
    if n >= 10 {
        push_decimal(out, n / 10);
    }
    let digit: u8 = (n % 10) as u8;
    out.push((48 + digit) as char);
    assert(out@ == old(out)@ + decimal(n as nat));
}

/// The record of a commit: one JSON object on one line.
pub open spec fn record_text(r: LastCommit) -> Seq<char> {
    "{\"ts_ms\":"@ + decimal(r.ts_ms as nat) + ",\"reading\":\""@ + escaped(r.reading@)
        + "\",\"text\":\""@ + escaped(r.text@) + "\",\"source\":\""@ + escaped(r.source@)
        + "\",\"sel\":"@ + signed_decimal(r.sel as int) + ",\"cand_n\":"@ + decimal(r.cand_n as nat)
        + "}"@
}

/// The record of a commit.
pub fn feedback_jsonl_line(r: &LastCommit) -> (line: String)
    ensures
        line@ == record_text(*r),
{
    let mut out = "{\"ts_ms\":".to_owned();
    push_decimal(&mut out, r.ts_ms);
    out.append(",\"reading\":\"");
    out.append(json_escape(r.reading.as_str()).as_str());
    out.append("\",\"text\":\"");
    out.append(json_escape(r.text.as_str()).as_str());
    out.append("\",\"source\":\"");
    out.append(json_escape(r.source.as_str()).as_str());
    out.append("\",\"sel\":");
    let ghost before = out@;
    if r.sel < 0 {
        out.push('-');
        push_decimal(&mut out, (-(r.sel as i64)) as u64);
    } else {
        push_decimal(&mut out, r.sel as u64);
    }
    assert(out@ == before + signed_decimal(r.sel as int));
    out.append(",\"cand_n\":");
    push_decimal(&mut out, r.cand_n as u64);
    out.append("}");
    out
}

proof fn escaped_chars_are_plain(c: char, k: int)
    requires
        0 <= k < escaped_char(c).len(),
    ensures
        escaped_char(c)[k] as u32 >= 0x20,
{
}

/// An escaped text has no line break and no other control character.
pub proof fn an_escaped_text_is_one_line(s: Seq<char>)
    ensures
        forall|k: int| 0 <= k < escaped(s).len() ==> (#[trigger] escaped(s)[k]) as u32 >= 0x20,
    decreases s.len(),
{
    if s.len() > 0 {
        an_escaped_text_is_one_line(s.drop_last());
        assert forall|k: int| 0 <= k < escaped(s).len() implies (#[trigger] escaped(s)[k]) as u32
            >= 0x20 by {
            let head = escaped(s.drop_last());
            if k < head.len() {
                assert(head[k] as u32 >= 0x20);
            } else {
                escaped_chars_are_plain(s.last(), k - head.len());
            }
        }
    }
}

/// What reporting the last commit comes to.
#[derive(Debug, Clone, PartialEq, Eq)]
pub enum FeedbackStep {
    Disabled,
    NoLastCommit,
    /// Append this line to the report.
    Append(String),
}

/// A correction is taught only if the choice was not the first one and the reading is known.
pub fn should_record_correction(index: usize, reading: &str) -> (r: bool)
    ensures
        r == (index != 0 && reading@.len() != 0),
{
    index != 0 && !reading.is_empty()
}

/// The last commit, and whether it may still be undone.
pub struct CommitMemory {
    pub last_commit: Option<LastCommit>,
    pub undo_armed: bool,
    pub feedback_enabled: bool,
}

impl CommitMemory {
    /// Nothing was committed yet.
    pub fn new() -> (r: Self)
        ensures
            r.last_commit is None,
            !r.undo_armed,
            !r.feedback_enabled,
    {
        CommitMemory { last_commit: None, undo_armed: false, feedback_enabled: false }
    }

    /// The last commit can no longer be undone. Its text is kept only if it may be reported.
    pub fn disarm_undo(&mut self)
        ensures
            !final(self).undo_armed,
            final(self).feedback_enabled == old(self).feedback_enabled,
            final(self).last_commit == (if old(self).feedback_enabled {
                old(self).last_commit
            } else {
                None
            }),
    {
        self.undo_armed = false;
        if !self.feedback_enabled {
            self.last_commit = None;
        }
    }

    /// The user reports the last commit. It is used up, so that it is reported once.
    pub fn record_feedback(&mut self) -> (r: FeedbackStep)
        ensures
            final(self).undo_armed == old(self).undo_armed,
            final(self).feedback_enabled == old(self).feedback_enabled,
            !old(self).feedback_enabled ==> r == FeedbackStep::Disabled && final(self).last_commit
                == old(self).last_commit,
            old(self).feedback_enabled ==> final(self).last_commit is None && match old(self).last_commit {
                None => r == FeedbackStep::NoLastCommit,
                Some(c) => r matches FeedbackStep::Append(line) && line@ == record_text(c),
            },
    {
        if !self.feedback_enabled {
            return FeedbackStep::Disabled;
        }
        match self.last_commit.take() {
            None => FeedbackStep::NoLastCommit,
            Some(rec) => FeedbackStep::Append(feedback_jsonl_line(&rec)),
        }
    }
}

/// A quote, a backslash and the common control characters have their own escapes, any other control
/// character is told by its number, and everything else stands for itself.
pub proof fn every_character_has_its_escape(c: char)
    ensures
        escaped_char('"') == seq!['\\', '"'],
        escaped_char('\\') == seq!['\\', '\\'],
        escaped_char('\n') == seq!['\\', 'n'],
        escaped_char('\r') == seq!['\\', 'r'],
        escaped_char('\t') == seq!['\\', 't'],
        c as u32 >= 0x20 && c != '"' && c != '\\' ==> escaped_char(c) == seq![c],
        (c as u32) < 0x20 && c != '\n' && c != '\r' && c != '\t' ==> {
            &&& escaped_char(c).len() == 6
            &&& escaped_char(c).take(4) == seq!['\\', 'u', '0', '0']
            &&& escaped_char(c)[4] == lower_hex((c as u32) as int / 16)
            &&& escaped_char(c)[5] == lower_hex((c as u32) as int % 16)
        },
{
    if (c as u32) < 0x20 && c != '\n' && c != '\r' && c != '\t' {
        assert(escaped_char(c).take(4) =~= seq!['\\', 'u', '0', '0']);
    }
}

/// A text is escaped character by character, in order.
pub proof fn a_text_is_escaped_in_order(s: Seq<char>, c: char)
    ensures
        escaped(Seq::<char>::empty()) == Seq::<char>::empty(),
        escaped(s.push(c)) == escaped(s) + escaped_char(c),
{
    assert(s.push(c).drop_last() =~= s);
}

/// The digits of hexadecimal numbers are those of the decimal ones and the letters a to f.
pub proof fn hexadecimal_digits_are_in_order(v: int)
    ensures
        0 <= v < 10 ==> lower_hex(v) as u32 == 48 + v,
        10 <= v < 16 ==> lower_hex(v) as u32 == 87 + v,
{
}

/// The number that decimal digits stand for.
pub open spec fn number_of(digits: Seq<char>) -> int
    decreases digits.len(),
{
    if digits.len() == 0 {
        0
    } else {
        number_of(digits.drop_last()) * 10 + (digits.last() as u32 - 48)
    }
}

/// The digits of a number stand for it; none of them is anything but a digit, and the first is 0
/// only for the number 0.
pub proof fn digits_stand_for_their_number(n: nat)
    ensures
        number_of(decimal(n)) == n,
        decimal(n).len() > 0,
        forall|k: int| 0 <= k < decimal(n).len() ==> 48 <= (#[trigger] decimal(n)[k]) as u32 <= 57,
        n > 0 ==> decimal(n)[0] as u32 != 48,
    decreases n,
{
    reveal_with_fuel(number_of, 2);
    if n < 10 {
        let d = decimal(n);
        assert(d.drop_last() =~= Seq::empty());
        assert(d.last() as u32 == 48 + n);
    } else {
        digits_stand_for_their_number(n / 10);
        let d = decimal(n);
        let head = decimal(n / 10);
        assert(d == head.push((('0' as u32 + n % 10) as u32) as char));
        assert(d.drop_last() =~= head);
        assert(d.last() as u32 == 48 + n % 10);
        assert(d[0] == head[0]);
        assert forall|k: int| 0 <= k < d.len() implies 48 <= (#[trigger] d[k]) as u32 <= 57 by {
            if k < head.len() {
                assert(d[k] == head[k]);
            }
        }
    }
}

/// A negative number has its sign before the digits of its size.
pub proof fn a_sign_stands_before_the_digits(n: int)
    ensures
        n >= 0 ==> number_of(signed_decimal(n)) == n,
        n < 0 ==> signed_decimal(n).len() > 1 && signed_decimal(n)[0] == '-' && number_of(
            signed_decimal(n).skip(1),
        ) == -n,
{
    if n >= 0 {
        digits_stand_for_their_number(n as nat);
    } else {
        digits_stand_for_their_number((-n) as nat);
        assert(signed_decimal(n).skip(1) =~= decimal((-n) as nat));
    }
}

/// A record holds every part of a commit, each under its own name.
pub proof fn a_record_names_every_part(r: LastCommit)
    ensures
        record_text(r) == "{\"ts_ms\":"@ + decimal(r.ts_ms as nat) + ",\"reading\":\""@ + escaped(
            r.reading@,
        ) + "\",\"text\":\""@ + escaped(r.text@) + "\",\"source\":\""@ + escaped(r.source@)
            + "\",\"sel\":"@ + signed_decimal(r.sel as int) + ",\"cand_n\":"@ + decimal(
            r.cand_n as nat,
        ) + "}"@,
{
}

/// A commit of up to 64 units can be taken back.
pub proof fn a_short_commit_can_be_taken_back()
    ensures
        UNDO_MAX_UNITS == 64,
{
}

} // verus!
