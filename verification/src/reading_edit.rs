//! Editing the reading of one clause while the clauses around it stay as they are.

use vstd::prelude::*;
use vstd::string::*;
use crate::text_service::conversion::{ConversionModel, ConversionState};

verus! {

/// A key, as far as the editing of a reading tells keys apart.
#[derive(Clone, Copy, Debug, PartialEq, Eq, Structural)]
pub enum ReadingKey {
    Text,
    Backspace,
    Delete,
    ReadingHome,
    ReadingEnd,
    Other,
}

impl ReadingKey {
    /// The key can change the reading.
    pub open spec fn edits(self) -> bool {
        self == ReadingKey::Text || self == ReadingKey::Backspace || self == ReadingKey::Delete
    }
}

/// The stretch of the reading that may be edited, from `start` up to `end`.
#[derive(Clone, Copy, Debug, PartialEq, Eq, Structural)]
pub struct EditingRange {
    pub start: usize,
    pub end: usize,
}

/// Whether a reading is being edited: there is a clause model, and it has a stretch to edit.
pub fn mixed_editing(model: Option<Option<EditingRange>>) -> (r: bool)
    ensures
        r == (model is Some && model->0 is Some),
{
    match model {
        Some(Some(_)) => true,
        _ => false,
    }
}

/// What a key does to the reading at first.
#[derive(Clone, Copy, Debug, PartialEq, Eq, Structural)]
pub enum MixedStart {
    /// The key is eaten and changes nothing.
    Ignore,
    /// No number is left for another reading: the clause has to be committed.
    Capacity,
    /// The cursor goes to the given place.
    MoveTo(usize),
    /// The input takes the key.
    Feed,
}

/// What a key does: the stretch around the edited one stays untouched, and a reading whose number
/// is the last one is not edited any more.
pub open spec fn starts_with(
    range: Option<EditingRange>,
    cursor: usize,
    key: ReadingKey,
    revision: u64,
) -> MixedStart {
    match range {
        None => MixedStart::Ignore,
        Some(range) => if (key == ReadingKey::Backspace && cursor <= range.start) || (key
            == ReadingKey::Delete && cursor >= range.end) {
            MixedStart::Ignore
        } else if key.edits() && revision == u64::MAX {
            MixedStart::Capacity
        } else if key == ReadingKey::ReadingHome {
            MixedStart::MoveTo(range.start)
        } else if key == ReadingKey::ReadingEnd {
            MixedStart::MoveTo(range.end)
        } else {
            MixedStart::Feed
        },
    }
}

/// What a key does to the reading at first.
pub fn edit_mixed_reading(
    range: Option<EditingRange>,
    cursor: usize,
    key: ReadingKey,
    revision: u64,
) -> (r: MixedStart)
    ensures
        r == starts_with(range, cursor, key, revision),
{
    let range = match range {
        Some(range) => range,
        None => return MixedStart::Ignore,
    };
    if (key == ReadingKey::Backspace && cursor <= range.start) || (key == ReadingKey::Delete
        && cursor >= range.end) {
        return MixedStart::Ignore;
    }
    match key {
        ReadingKey::Text | ReadingKey::Backspace | ReadingKey::Delete => if revision == u64::MAX {
            MixedStart::Capacity
        } else {
            MixedStart::Feed
        },
        ReadingKey::ReadingHome => MixedStart::MoveTo(range.start),
        ReadingKey::ReadingEnd => MixedStart::MoveTo(range.end),
        ReadingKey::Other => MixedStart::Feed,
    }
}

/// What the clause model made of a changed reading.
#[derive(Clone, Copy, Debug, PartialEq, Eq, Structural)]
pub enum LocalEditOutcome {
    /// No number is left.
    Exhausted,
    /// The model does not take the change.
    Unchanged,
    /// Nothing is left of the reading.
    Empty,
    Edited,
}

/// What follows once the input took the key.
#[derive(Clone, Copy, Debug, PartialEq, Eq, Structural)]
pub enum MixedEnd {
    /// The key is eaten and changes nothing.
    Ignore,
    /// The clause has to be committed.
    Capacity,
    /// The composition is cancelled.
    Cancel,
    /// The new reading and the new model are kept, with the cursor at the given place. The
    /// notation is free again, the background input ends, and the clause is drawn.
    Keep { cursor: usize },
}

/// `cursor`, moved into the stretch.
pub open spec fn clamped(cursor: usize, range: EditingRange) -> usize {
    let above = if cursor < range.start {
        range.start
    } else {
        cursor
    };
    if above > range.end {
        range.end
    } else {
        above
    }
}

/// What follows once the input took the key: `outcome` is what the model made of a changed
/// reading. With the reading unchanged the cursor stays in the stretch.
pub fn finish_mixed_edit(outcome: Option<LocalEditOutcome>, cursor: usize, range: EditingRange)
 -> (r: MixedEnd)
    ensures
        r == ends_with(outcome, cursor, range),
{
    match outcome {
        Some(LocalEditOutcome::Exhausted) => MixedEnd::Capacity,
        Some(LocalEditOutcome::Unchanged) => MixedEnd::Ignore,
        Some(LocalEditOutcome::Empty) => MixedEnd::Cancel,
        Some(LocalEditOutcome::Edited) => MixedEnd::Keep { cursor },
        None => {
            let above: usize = if cursor < range.start {
                range.start
            } else {
                cursor
            };
            if above > range.end {
                MixedEnd::Keep { cursor: range.end }
            } else {
                MixedEnd::Keep { cursor: above }
            }
        },
    }
}

impl ConversionModel {
    /// An edited reading is kept in a context: no pause is waited for any more.
    pub open spec fn keeps_reading(self, ctx: usize, reading: Seq<char>) -> ConversionModel {
        ConversionModel {
            last_reading: reading,
            current_context: Some(ctx),
            debounce: self.debounce.disarmed(),
            ..self
        }
    }
}

/// What follows once the input took the key.
pub open spec fn ends_with(outcome: Option<LocalEditOutcome>, cursor: usize, range: EditingRange)
 -> MixedEnd {
    match outcome {
        Some(LocalEditOutcome::Exhausted) => MixedEnd::Capacity,
        Some(LocalEditOutcome::Unchanged) => MixedEnd::Ignore,
        Some(LocalEditOutcome::Empty) => MixedEnd::Cancel,
        Some(LocalEditOutcome::Edited) => MixedEnd::Keep { cursor },
        None => MixedEnd::Keep { cursor: clamped(cursor, range) },
    }
}

impl ConversionState {
    /// The input took the key, and `reading` is its reading now. A reading that is kept becomes the
    /// last one of the context, and no pause is waited for any more.
    pub fn mixed_edit_taken(
        &mut self,
        ctx: usize,
        reading: &str,
        outcome: Option<LocalEditOutcome>,
        cursor: usize,
        range: EditingRange,
    ) -> (r: MixedEnd)
        ensures
            r == ends_with(outcome, cursor, range),
            final(self)@ == (if r is Keep {
                old(self)@.keeps_reading(ctx, reading@)
            } else {
                old(self)@
            }),
    {
        let end = finish_mixed_edit(outcome, cursor, range);
        match end {
            MixedEnd::Keep { .. } => {
                self.last_reading = reading.to_owned();
                self.current_context = Some(ctx);
                self.disarm_debounce();
            },
            _ => {},
        }
        end
    }

    /// The composition whose reading is empty was cancelled or not. Once it was, nothing is typed
    /// and no clauses are shown.
    pub fn mixed_edit_cancelled(&mut self, cancelled: bool, replaying: bool, bound: bool) -> (r:
        AfterCancel)
        ensures
            r == (if cancelled {
                AfterCancel::Cleared
            } else if replaying {
                AfterCancel::StopReplay
            } else if bound {
                AfterCancel::Queued
            } else {
                AfterCancel::Nothing
            }),
            final(self)@ == (if cancelled {
                ConversionModel { clause_nav: None, ..old(self)@.input_reset() }
            } else {
                old(self)@
            }),
    {
        if cancelled {
            self.reset_input();
            self.clear_clause_nav();
        }
        after_cancel(cancelled, replaying, bound)
    }

    /// The model took the finished reading of the edited stretch, or not. A reading that it took
    /// is the last one.
    pub fn interval_replaced(&mut self, reading: &str, outcome: LocalEditOutcome) -> (r:
        ConvertEdited)
        ensures
            r == (if outcome == LocalEditOutcome::Exhausted {
                ConvertEdited::Capacity
            } else {
                ConvertEdited::Convert
            }),
            final(self)@ == (if outcome == LocalEditOutcome::Exhausted {
                old(self)@
            } else {
                ConversionModel { last_reading: reading@, ..old(self)@ }
            }),
    {
        if outcome != LocalEditOutcome::Exhausted {
            self.last_reading = reading.to_owned();
        }
        convert_replaced_interval(outcome)
    }
}

/// What follows a try to cancel the composition whose reading is empty.
#[derive(Clone, Copy, Debug, PartialEq, Eq, Structural)]
pub enum AfterCancel {
    /// The input and the clauses are cleared.
    Cleared,
    /// The replay stops; the key is not eaten.
    StopReplay,
    /// The cancel is queued and marked as failed, and a notice is shown.
    Queued,
    /// The queue belongs to another context: nothing is left to do.
    Nothing,
}

/// What follows a try to cancel. `bound` tells whether the queue is, or could be, of this context.
pub fn after_cancel(cancelled: bool, replaying: bool, bound: bool) -> (r: AfterCancel)
    ensures
        r == (if cancelled {
            AfterCancel::Cleared
        } else if replaying {
            AfterCancel::StopReplay
        } else if bound {
            AfterCancel::Queued
        } else {
            AfterCancel::Nothing
        }),
{
    if cancelled {
        AfterCancel::Cleared
    } else if replaying {
        AfterCancel::StopReplay
    } else if bound {
        AfterCancel::Queued
    } else {
        AfterCancel::Nothing
    }
}

/// What a key does once the clause has to be committed. The model converts from then on.
#[derive(Clone, Copy, Debug, PartialEq, Eq, Structural)]
pub enum AtCapacity {
    /// A commit goes to the front of the queue that is being replayed; the key is not eaten.
    PrependCommit,
    /// The queue belongs to another context: the key is eaten and lost.
    Drop,
    /// A commit and then the character are queued. The queue is then carried out, or a notice
    /// tells that it is full.
    CommitThenInsert,
    /// A commit is queued.
    Commit,
}

impl AtCapacity {
    /// The key is eaten.
    pub open spec fn eats(self) -> bool {
        self != AtCapacity::PrependCommit
    }
}

/// What a key does once the clause has to be committed.
pub fn end_mixed_at_capacity(key: ReadingKey, replaying: bool, bound: bool) -> (r: AtCapacity)
    ensures
        r == (if key != ReadingKey::Text {
            AtCapacity::Commit
        } else if replaying {
            AtCapacity::PrependCommit
        } else if bound {
            AtCapacity::CommitThenInsert
        } else {
            AtCapacity::Drop
        }),
        r.eats() <==> !(key == ReadingKey::Text && replaying),
{
    if key != ReadingKey::Text {
        AtCapacity::Commit
    } else if replaying {
        AtCapacity::PrependCommit
    } else if bound {
        AtCapacity::CommitThenInsert
    } else {
        AtCapacity::Drop
    }
}

/// How the edited stretch is converted.
#[derive(Clone, Copy, Debug, PartialEq, Eq, Structural)]
pub enum ConvertEdited {
    /// There is no clause model.
    Nothing,
    /// The clause has to be committed; the space bar is the key.
    Capacity,
    /// The model takes the finished reading.
    Replace,
    /// The model converts: the notation starts over, and the clause takes a space.
    Convert,
}

/// How the edited stretch is converted: `finalized` tells whether a last `n` changed the reading,
/// or that no number is left for the change.
pub fn convert_edited_interval(has_model: bool, finalized: Option<bool>) -> (r: ConvertEdited)
    ensures
        r == (if !has_model {
            ConvertEdited::Nothing
        } else {
            match finalized {
                None => ConvertEdited::Capacity,
                Some(true) => ConvertEdited::Replace,
                Some(false) => ConvertEdited::Convert,
            }
        }),
{
    if !has_model {
        return ConvertEdited::Nothing;
    }
    match finalized {
        None => ConvertEdited::Capacity,
        Some(true) => ConvertEdited::Replace,
        Some(false) => ConvertEdited::Convert,
    }
}

/// What follows once the model took the finished reading.
pub fn convert_replaced_interval(outcome: LocalEditOutcome) -> (r: ConvertEdited)
    ensures
        r == (if outcome == LocalEditOutcome::Exhausted {
            ConvertEdited::Capacity
        } else {
            ConvertEdited::Convert
        }),
{
    if outcome == LocalEditOutcome::Exhausted {
        ConvertEdited::Capacity
    } else {
        ConvertEdited::Convert
    }
}

/// The cursor never leaves the stretch: the keys that move it aim inside, deleting stops at the
/// borders, and a key that changes nothing leaves it inside.
pub proof fn the_cursor_stays_in_the_edited_stretch(
    range: EditingRange,
    cursor: usize,
    key: ReadingKey,
    revision: u64,
)
    requires
        range.start <= range.end,
    ensures
        range.start <= clamped(cursor, range) <= range.end,
        starts_with(Some(range), cursor, key, revision) matches MixedStart::MoveTo(at)
            ==> range.start <= at <= range.end,
        starts_with(Some(range), range.start, ReadingKey::Backspace, revision)
            == MixedStart::Ignore,
        starts_with(Some(range), range.end, ReadingKey::Delete, revision) == MixedStart::Ignore,
{
}

/// A reading with the last number is never changed: every key that could change it commits.
pub proof fn the_last_reading_is_not_edited(
    range: EditingRange,
    cursor: usize,
    key: ReadingKey,
)
    requires
        key.edits(),
    ensures
        starts_with(Some(range), cursor, key, u64::MAX) != MixedStart::Feed,
{
}

/// Text and the two deleting keys change a reading. They are taken where the stretch has room for
/// them, and a reading with a number to follow is fed every key that does not just move.
pub proof fn a_key_changes_what_it_stands_at(
    range: EditingRange,
    cursor: usize,
    key: ReadingKey,
    revision: u64,
)
    ensures
        ReadingKey::Text.edits() && ReadingKey::Backspace.edits() && ReadingKey::Delete.edits(),
        !ReadingKey::ReadingHome.edits() && !ReadingKey::ReadingEnd.edits()
            && !ReadingKey::Other.edits(),
        starts_with(None, cursor, key, revision) == MixedStart::Ignore,
        starts_with(Some(range), cursor, ReadingKey::ReadingHome, revision) == MixedStart::MoveTo(
            range.start,
        ),
        starts_with(Some(range), cursor, ReadingKey::ReadingEnd, revision) == MixedStart::MoveTo(
            range.end,
        ),
        starts_with(Some(range), cursor, ReadingKey::Other, revision) == MixedStart::Feed,
        revision < u64::MAX ==> starts_with(Some(range), cursor, ReadingKey::Text, revision)
            == MixedStart::Feed,
        starts_with(Some(range), cursor, ReadingKey::Text, u64::MAX) == MixedStart::Capacity,
        cursor > range.start && revision < u64::MAX ==> starts_with(
            Some(range),
            cursor,
            ReadingKey::Backspace,
            revision,
        ) == MixedStart::Feed,
        cursor > range.start ==> starts_with(Some(range), cursor, ReadingKey::Backspace, u64::MAX)
            == MixedStart::Capacity,
        cursor <= range.start ==> starts_with(Some(range), cursor, ReadingKey::Backspace, revision)
            == MixedStart::Ignore,
        cursor < range.end && revision < u64::MAX ==> starts_with(
            Some(range),
            cursor,
            ReadingKey::Delete,
            revision,
        ) == MixedStart::Feed,
        cursor < range.end ==> starts_with(Some(range), cursor, ReadingKey::Delete, u64::MAX)
            == MixedStart::Capacity,
        cursor >= range.end ==> starts_with(Some(range), cursor, ReadingKey::Delete, revision)
            == MixedStart::Ignore,
{
}

/// A cursor inside the stretch stays where it is, and one outside goes to the nearer border. An
/// edited reading leaves the cursor where the edit put it.
pub proof fn a_cursor_inside_stays(cursor: usize, range: EditingRange)
    requires
        range.start <= range.end,
    ensures
        range.start <= cursor <= range.end ==> clamped(cursor, range) == cursor,
        cursor < range.start ==> clamped(cursor, range) == range.start,
        cursor > range.end ==> clamped(cursor, range) == range.end,
        ends_with(Some(LocalEditOutcome::Edited), cursor, range) == (MixedEnd::Keep { cursor }),
        ends_with(None, cursor, range) is Keep,
        ends_with(None, cursor, range)->cursor == clamped(cursor, range),
        ends_with(Some(LocalEditOutcome::Exhausted), cursor, range) == MixedEnd::Capacity,
        ends_with(Some(LocalEditOutcome::Unchanged), cursor, range) == MixedEnd::Ignore,
        ends_with(Some(LocalEditOutcome::Empty), cursor, range) == MixedEnd::Cancel,
{
}

/// A kept reading is the newest one, in its context, and no pause is waited for; what is shown and
/// how the engine's answers are numbered stay as they are.
pub proof fn a_kept_reading_is_the_newest(m: ConversionModel, ctx: usize, reading: Seq<char>)
    ensures
        ({
            let after = m.keeps_reading(ctx, reading);
            &&& after.last_reading == reading && after.current_context == Some(ctx)
            &&& !after.debounce.pending()
            &&& after.live_text == m.live_text && after.last_good == m.last_good
            &&& after.live_seq == m.live_seq && after.llm_seq == m.llm_seq
            &&& after.clause_nav == m.clause_nav && after.showing == m.showing
            &&& after.composing == m.composing && after.left_context == m.left_context
        }),
{
}

/// Only a key that has to come after a commit of a replayed queue is not eaten.
pub proof fn a_key_behind_a_commit_comes_again()
    ensures
        !AtCapacity::PrependCommit.eats(),
        AtCapacity::Drop.eats() && AtCapacity::CommitThenInsert.eats() && AtCapacity::Commit.eats(),
{
}

/// Keeping a reading touches the reading, its context and the pause, and nothing else.
pub proof fn a_kept_reading_keeps_the_rest(m: ConversionModel, ctx: usize, reading: Seq<char>)
    ensures
        ({
            let after = m.keeps_reading(ctx, reading);
            after == (ConversionModel {
                last_reading: reading,
                current_context: Some(ctx),
                debounce: after.debounce,
                ..m
            })
        }),
{
}

} // verus!
