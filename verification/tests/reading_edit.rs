use nospacekey_tip::clause::{
    ClauseConversion, EngineLearningIdentity, IntervalLearning, LocalClause, NoLearningReason,
    ReadingPosition, SurfaceSource,
};
use nospacekey_tip::reading_edit::{
    after_cancel, convert_edited_interval, convert_replaced_interval, edit_mixed_reading,
    end_mixed_at_capacity, finish_mixed_edit, mixed_editing, AfterCancel, AtCapacity,
    ConvertEdited, EditingRange, LocalEditOutcome, MixedEnd, MixedStart, ReadingKey,
};
use nospacekey_tip::text_service::conversion::ConversionState;
use nospacekey_tip::utf16::{at_boundary, decode_utf16, encode_utf16};

const RANGE: EditingRange = EditingRange { start: 2, end: 5 };

#[test]
fn a_key_edits_only_the_stretch() {
    assert!(mixed_editing(Some(Some(RANGE))));
    assert!(!mixed_editing(Some(None)) && !mixed_editing(None));
    let start = |cursor: usize, key: ReadingKey| edit_mixed_reading(Some(RANGE), cursor, key, 7);
    assert_eq!(edit_mixed_reading(None, 3, ReadingKey::Text, 7), MixedStart::Ignore);
    assert_eq!(start(2, ReadingKey::Backspace), MixedStart::Ignore);
    assert_eq!(start(3, ReadingKey::Backspace), MixedStart::Feed);
    assert_eq!(start(5, ReadingKey::Delete), MixedStart::Ignore);
    assert_eq!(start(4, ReadingKey::Delete), MixedStart::Feed);
    assert_eq!(start(4, ReadingKey::ReadingHome), MixedStart::MoveTo(2));
    assert_eq!(start(4, ReadingKey::ReadingEnd), MixedStart::MoveTo(5));
    assert_eq!(start(4, ReadingKey::Text), MixedStart::Feed);
    assert_eq!(start(4, ReadingKey::Other), MixedStart::Feed);
    let last = |key: ReadingKey| edit_mixed_reading(Some(RANGE), 3, key, u64::MAX);
    assert_eq!(last(ReadingKey::Text), MixedStart::Capacity);
    assert_eq!(last(ReadingKey::Delete), MixedStart::Capacity);
    assert_eq!(last(ReadingKey::ReadingHome), MixedStart::MoveTo(2));
    assert_eq!(last(ReadingKey::Other), MixedStart::Feed);
}

#[test]
fn an_edit_ends_by_what_the_model_made_of_it() {
    let end = |outcome| finish_mixed_edit(outcome, 9, RANGE);
    assert_eq!(end(Some(LocalEditOutcome::Exhausted)), MixedEnd::Capacity);
    assert_eq!(end(Some(LocalEditOutcome::Unchanged)), MixedEnd::Ignore);
    assert_eq!(end(Some(LocalEditOutcome::Empty)), MixedEnd::Cancel);
    assert_eq!(end(Some(LocalEditOutcome::Edited)), MixedEnd::Keep { cursor: 9 });
    assert_eq!(end(None), MixedEnd::Keep { cursor: 5 });
    assert_eq!(finish_mixed_edit(None, 0, RANGE), MixedEnd::Keep { cursor: 2 });
    assert_eq!(finish_mixed_edit(None, 4, RANGE), MixedEnd::Keep { cursor: 4 });
}

#[test]
fn a_refused_cancel_is_queued_or_stops_the_replay() {
    assert_eq!(after_cancel(true, true, true), AfterCancel::Cleared);
    assert_eq!(after_cancel(false, true, true), AfterCancel::StopReplay);
    assert_eq!(after_cancel(false, false, true), AfterCancel::Queued);
    assert_eq!(after_cancel(false, false, false), AfterCancel::Nothing);
    let text = ReadingKey::Text;
    assert_eq!(end_mixed_at_capacity(text, true, true), AtCapacity::PrependCommit);
    assert_eq!(end_mixed_at_capacity(text, false, true), AtCapacity::CommitThenInsert);
    assert_eq!(end_mixed_at_capacity(text, false, false), AtCapacity::Drop);
    assert_eq!(
        end_mixed_at_capacity(ReadingKey::Backspace, true, true),
        AtCapacity::Commit
    );
}

#[test]
fn an_edited_stretch_is_converted_where_there_is_a_model() {
    assert_eq!(convert_edited_interval(false, Some(true)), ConvertEdited::Nothing);
    assert_eq!(convert_edited_interval(true, None), ConvertEdited::Capacity);
    assert_eq!(convert_edited_interval(true, Some(true)), ConvertEdited::Replace);
    assert_eq!(convert_edited_interval(true, Some(false)), ConvertEdited::Convert);
    assert_eq!(
        convert_replaced_interval(LocalEditOutcome::Exhausted),
        ConvertEdited::Capacity
    );
    assert_eq!(
        convert_replaced_interval(LocalEditOutcome::Edited),
        ConvertEdited::Convert
    );
}

#[test]
fn units_and_characters_are_told_apart() {
    let text = "a𠮷\u{10FFFF}あ";
    let units = encode_utf16(text);
    assert_eq!(units, text.encode_utf16().collect::<Vec<u16>>());
    assert_eq!(decode_utf16(&units).as_deref(), Some(text));
    assert_eq!(decode_utf16(&vec![0xD842]), None);
    assert_eq!(decode_utf16(&vec![0xDFB7, 0xD842]), None);
    assert_eq!(decode_utf16(&vec![]).as_deref(), Some(""));
    assert!(at_boundary(&units, 0) && at_boundary(&units, 1) && !at_boundary(&units, 2));
    assert!(at_boundary(&units, 3) && at_boundary(&units, units.len()));
}

fn clause(start: u32, end: u32, surface: &str, source: SurfaceSource) -> LocalClause {
    LocalClause {
        start: ReadingPosition(start),
        end: ReadingPosition(end),
        surface: surface.into(),
        source,
    }
}

#[test]
fn lost_learning_keeps_the_text() {
    let identity = EngineLearningIdentity { engine_epoch: "e".into(), learning_generation: 3 };
    let token = SurfaceSource::Candidate { token: "t".into(), explicitly_selected: true };
    let mut conversion = ClauseConversion {
        reading: "きょうは".into(),
        clauses: vec![
            clause(0, 3, "今日", token.clone()),
            clause(3, 4, "は", SurfaceSource::Reading),
        ],
        learning_identity: Some(identity),
        sentence_token: Some("s".into()),
    };
    assert_eq!(conversion.text(), "今日は");
    assert_eq!(
        conversion.clauses[0].interval().learning,
        IntervalLearning::Candidate { token: "t".into(), explicitly_selected: true }
    );
    conversion.invalidate_learning();
    assert_eq!(conversion.text(), "今日は");
    assert_eq!(conversion.clauses[0].source, SurfaceSource::LocalSurface);
    assert_eq!(
        conversion.clauses[0].interval().learning,
        IntervalLearning::Nothing { reason: NoLearningReason::Invalidated }
    );
    assert_eq!(
        conversion.clauses[1].interval().learning,
        IntervalLearning::Nothing { reason: NoLearningReason::Reading }
    );
    assert!(conversion.learning_identity.is_none() && conversion.sentence_token.is_none());
}

#[test]
fn a_kept_reading_becomes_the_last_one() {
    let mut conv = ConversionState::new();
    conv.debounce.set(4);
    assert_eq!(
        conv.mixed_edit_taken(5, "きょ", Some(LocalEditOutcome::Unchanged), 3, RANGE),
        MixedEnd::Ignore
    );
    assert!(conv.last_reading.is_empty() && conv.debounce.is_pending());
    assert_eq!(
        conv.mixed_edit_taken(5, "きょう", Some(LocalEditOutcome::Edited), 3, RANGE),
        MixedEnd::Keep { cursor: 3 }
    );
    assert_eq!((conv.last_reading.as_str(), conv.current_context), ("きょう", Some(5)));
    assert!(!conv.debounce.is_pending());
    assert_eq!(
        conv.interval_replaced("きょうは", LocalEditOutcome::Exhausted),
        ConvertEdited::Capacity
    );
    assert_eq!(conv.last_reading, "きょう");
    assert_eq!(
        conv.interval_replaced("きょうは", LocalEditOutcome::Edited),
        ConvertEdited::Convert
    );
    assert_eq!(conv.last_reading, "きょうは");
    conv.composing = true;
    assert_eq!(conv.mixed_edit_cancelled(false, true, true), AfterCancel::StopReplay);
    assert!(conv.composing);
    assert_eq!(conv.mixed_edit_cancelled(true, true, true), AfterCancel::Cleared);
    assert!(!conv.composing);
}
