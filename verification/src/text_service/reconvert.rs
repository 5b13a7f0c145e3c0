//! Converting text that stands in the document already: the word before the caret, a selection, or
//! the last commit. Until a candidate is taken, the text can be put back as it was.

use vstd::prelude::*;
use vstd::string::*;
use crate::text::{chars_of, opt_view, string_of};
use crate::text_service::conversion::{ConversionModel, ConversionState};
use crate::text_service::feedback::{undo_precheck, CommitMemory, UndoSkip};
use crate::text_service::lifecycle::TextService;
use crate::utf16::{encode_utf16, utf16_of};

verus! {

/// How taking back the last commit begins.
#[derive(Debug, PartialEq, Eq)]
pub enum UndoStart {
    /// The last composition is still owed its end.
    PendingEnd,
    Skip(UndoSkip),
    /// The text before the caret has to be exactly `text`.
    Match { reading: String, text: String },
}

/// What stands before the caret, or is selected.
#[derive(Clone, Copy, Debug, PartialEq, Eq, Structural)]
pub enum ReconvertKind {
    /// Nothing to convert.
    Nothing,
    /// Text that cannot be converted again.
    NonKana,
    /// Letters.
    Latin,
    /// Kana.
    Surface,
}

/// What follows once the text was taken.
#[derive(Debug, PartialEq, Eq)]
pub enum ReconvertStep {
    Nothing,
    /// The engine gets the letters as if they were typed, then converts.
    Insert { reading: String },
    /// The engine converts the text.
    Surface { text: String },
}

/// The letters as the engine takes them: a hyphen stands for a long vowel.
pub open spec fn long_vowels(text: Seq<char>) -> Seq<char> {
    text.map_values(
        |c: char|
            if c == '-' {
                'ー'
            } else {
                c
            },
    )
}

/// The letters as the engine takes them.
pub fn latin_reconvert_reading(text: &str) -> (r: String)
    ensures
        r@ == long_vowels(text@),
{
    let mut chars = chars_of(text);
    let mut i: usize = 0;
    while i < chars.len()
        invariant
            i <= chars@.len(),
            chars@.len() == text@.len(),
            forall|k: int| 0 <= k < i ==> chars@[k] == long_vowels(text@)[k],
            forall|k: int| i <= k < chars@.len() ==> chars@[k] == text@[k],
        decreases chars@.len() - i,
    {
        if chars[i] == '-' {
            chars.set(i, 'ー');
        }
        i = i + 1;
    }
    assert(chars@ =~= long_vowels(text@));
    string_of(chars.as_slice())
}

/// The first reason why the last commit is not taken back.
pub open spec fn undo_verdict(memory: CommitMemory, has_composition: bool) -> Option<UndoSkip> {
    if !memory.undo_armed {
        Some(UndoSkip::NotArmed)
    } else if has_composition {
        Some(UndoSkip::CompositionOpen)
    } else {
        match memory.last_commit {
            None => Some(UndoSkip::NoBuffer),
            Some(commit) => if utf16_of(commit.text@).len()
                > crate::text_service::feedback::UNDO_MAX_UNITS {
                Some(UndoSkip::TooLong)
            } else {
                None
            },
        }
    }
}

/// The memory once the last commit cannot be taken back any more.
pub open spec fn disarmed(memory: CommitMemory) -> CommitMemory {
    CommitMemory {
        undo_armed: false,
        last_commit: if memory.feedback_enabled {
            memory.last_commit
        } else {
            None
        },
        ..memory
    }
}

impl ConversionModel {
    /// A text of the document is converted, and can be put back.
    pub open spec fn takes_text(self, original: Seq<char>, reading: Seq<char>) -> ConversionModel {
        ConversionModel { reconvert_original: original, reconvert_reading: reading, ..self }
    }

    /// Candidates for a text of the document are shown.
    pub open spec fn shows_reconversion(self, ctx: usize) -> ConversionModel {
        ConversionModel {
            showing: true,
            reconverting: true,
            current_context: Some(ctx),
            ..self
        }
    }

    /// The text of the document was put back.
    pub open spec fn put_back(self) -> ConversionModel {
        ConversionModel {
            reconverting: false,
            reconvert_original: Seq::empty(),
            reconvert_reading: Seq::empty(),
            current_context: None,
            ..self.closed().without_surroundings()
        }
    }
}

impl ConversionState {
    /// Begins to take back the last commit; `pending_finished` tells that no composition is owed
    /// its end. The text has to stand before the caret unchanged, or nothing is touched.
    pub fn start_commit_undo(
        &mut self,
        memory: &mut CommitMemory,
        has_composition: bool,
        pending_finished: bool,
    ) -> (r: UndoStart)
        ensures
            if !pending_finished {
                &&& r == UndoStart::PendingEnd
                &&& final(self)@ == old(self)@
                &&& *final(memory) == *old(memory)
            } else {
                match undo_verdict(*old(memory), has_composition) {
                    Some(skip) => {
                        &&& r == UndoStart::Skip(skip)
                        &&& final(self)@ == old(self)@
                        &&& *final(memory) == (if skip == UndoSkip::CompositionOpen {
                            *old(memory)
                        } else {
                            disarmed(*old(memory))
                        })
                    },
                    None => {
                        &&& r == (UndoStart::Match {
                            reading: old(memory).last_commit->0.reading,
                            text: old(memory).last_commit->0.text,
                        })
                        &&& final(self)@ == (ConversionModel {
                            reconvert_reading: Seq::empty(),
                            ..old(self)@
                        })
                        &&& *final(memory) == *old(memory)
                    },
                }
            },
    {
        if !pending_finished {
            return UndoStart::PendingEnd;
        }
        let (has_buffer, units) = match &memory.last_commit {
            Some(commit) => (true, encode_utf16(commit.text.as_str()).len()),
            None => (false, 0),
        };
        match undo_precheck(memory.undo_armed, has_composition, has_buffer, units) {
            Ok(_) => {},
            Err(skip) => {
                if skip != UndoSkip::CompositionOpen {
                    memory.disarm_undo();
                }
                return UndoStart::Skip(skip);
            },
        }
        self.reconvert_reading = String::new();
        match &memory.last_commit {
            Some(commit) => UndoStart::Match {
                reading: commit.reading.clone(),
                text: commit.text.clone(),
            },
            None => UndoStart::Skip(UndoSkip::NoBuffer),
        }
    }

    /// The text stood before the caret and became a composition, or not. `true` goes on: a new
    /// session gets the reading and converts it.
    pub fn commit_undo_matched(
        &mut self,
        memory: &mut CommitMemory,
        matched: bool,
        reading: String,
        text: String,
    ) -> (r: bool)
        ensures
            r == matched,
            final(self)@ == (if matched {
                old(self)@.takes_text(text@, reading@)
            } else {
                old(self)@
            }),
            *final(memory) == (if matched {
                CommitMemory { last_commit: None, ..*old(memory) }
            } else {
                disarmed(*old(memory))
            }),
    {
        if !matched {
            memory.disarm_undo();
            return false;
        }
        self.reconvert_original = text;
        self.reconvert_reading = reading;
        memory.last_commit = None;
        true
    }

    /// Begins to convert text of the document: whether the host is asked for the text. Nothing
    /// else may be composed, or it would be lost.
    pub fn start_reconvert(&mut self, has_composition: bool, pending_finished: bool) -> (r: bool)
        ensures
            r == (pending_finished && !old(self)@.reconverting && !has_composition),
            final(self)@ == (if pending_finished && !old(self)@.reconverting {
                ConversionModel { reconvert_reading: Seq::empty(), ..old(self)@ }
            } else {
                old(self)@
            }),
    {
        if !pending_finished || self.reconverting {
            return false;
        }
        self.reconvert_reading = String::new();
        !has_composition
    }

    /// The host gave the text. Letters and kana are converted; the text is kept as it was.
    pub fn reconvert_captured(&mut self, kind: ReconvertKind, text: String) -> (r: ReconvertStep)
        ensures
            match kind {
                ReconvertKind::Latin => {
                    &&& r matches ReconvertStep::Insert { reading } && reading@ == long_vowels(
                        text@,
                    )
                    &&& final(self)@ == (ConversionModel {
                        reconvert_original: text@,
                        ..old(self)@
                    })
                },
                ReconvertKind::Surface => {
                    &&& r == (ReconvertStep::Surface { text })
                    &&& final(self)@ == old(self)@.takes_text(text@, text@)
                },
                _ => r == ReconvertStep::Nothing && final(self)@ == old(self)@,
            },
    {
        match kind {
            ReconvertKind::Latin => {
                let reading = latin_reconvert_reading(text.as_str());
                self.reconvert_original = text;
                ReconvertStep::Insert { reading }
            },
            ReconvertKind::Surface => {
                self.reconvert_original = text.clone();
                self.reconvert_reading = text.clone();
                ReconvertStep::Surface { text }
            },
            _ => ReconvertStep::Nothing,
        }
    }

    /// The engine took the letters; `kana` is their reading.
    pub fn reconvert_inserted(&mut self, kana: Option<String>)
        ensures
            final(self)@ == (ConversionModel {
                reconvert_reading: match opt_view(kana) {
                    Some(text) => text,
                    None => Seq::empty(),
                },
                ..old(self)@
            }),
    {
        self.reconvert_reading =
        match kana {
            Some(kana) => kana,
            None => String::new(),
        };
    }

    /// The engine converted. The first candidate is drawn and all are shown; without one the text
    /// is put back.
    pub fn show_reconvert_candidates(&mut self, ctx: usize, candidates: &Vec<String>) -> (r: Option<
        String,
    >)
        ensures
            candidates@.len() == 0 ==> r is None && final(self)@ == old(self)@,
            candidates@.len() > 0 ==> r is Some && r->0 == candidates@[0] && final(self)@ == old(self)@.shows_reconversion(ctx),
            old(self)@.wf() ==> final(self)@.wf(),
    {
        if candidates.len() == 0 {
            return None;
        }
        self.showing = true;
        self.reconverting = true;
        self.current_context = Some(ctx);
        Some(candidates[0].clone())
    }

    /// The host put the text back or not. Until it did, nothing is forgotten.
    pub fn cancel_reconvert(&mut self, restored: bool) -> (r: bool)
        ensures
            r == restored,
            final(self)@ == (if restored {
                old(self)@.put_back()
            } else {
                old(self)@
            }),
            old(self)@.wf() ==> final(self)@.wf(),
    {
        if !restored {
            return false;
        }
        self.reconverting = false;
        self.reconvert_original = String::new();
        self.reconvert_reading = String::new();
        self.close_candidates();
        self.current_context = None;
        self.forget_surroundings();
        true
    }
}

impl TextService {
    /// The host looked for the last commit before the caret. A composition that it really started
    /// begins its lifecycle, whatever was found; the rest is as for the conversion alone.
    pub fn commit_undo_matched(&mut self, matched: bool, reading: String, text: String) -> (r: bool)
        ensures
            r == matched,
            final(self).conv@ == (if matched {
                old(self).conv@.takes_text(text@, reading@)
            } else {
                old(self).conv@
            }),
            final(self).commit == (if matched {
                CommitMemory { last_commit: None, ..old(self).commit }
            } else {
                disarmed(old(self).commit)
            }),
            *final(self) == (TextService {
                comp: old(self).comp.noticed(),
                conv: final(self).conv,
                commit: final(self).commit,
                ..*old(self)
            }),
    {
        self.comp.consume_started_composition();
        self.conv.commit_undo_matched(&mut self.commit, matched, reading, text)
    }

    /// The host gave the text to convert. A composition that it really started begins its
    /// lifecycle, whatever was found; the rest is as for the conversion alone.
    pub fn reconvert_captured(&mut self, kind: ReconvertKind, text: String) -> (r: ReconvertStep)
        ensures
            match kind {
                ReconvertKind::Latin => {
                    &&& r matches ReconvertStep::Insert { reading } && reading@ == long_vowels(
                        text@,
                    )
                    &&& final(self).conv@ == (ConversionModel {
                        reconvert_original: text@,
                        ..old(self).conv@
                    })
                },
                ReconvertKind::Surface => {
                    &&& r == (ReconvertStep::Surface { text })
                    &&& final(self).conv@ == old(self).conv@.takes_text(text@, text@)
                },
                _ => r == ReconvertStep::Nothing && final(self).conv@ == old(self).conv@,
            },
            *final(self) == (TextService {
                comp: old(self).comp.noticed(),
                conv: final(self).conv,
                ..*old(self)
            }),
    {
        self.comp.consume_started_composition();
        self.conv.reconvert_captured(kind, text)
    }
}

/// The text that a reconversion started from is never lost: as long as it was not put back, it is
/// kept; once it was, nothing of the reconversion is left.
pub proof fn the_text_can_be_put_back(
    conversion: ConversionModel,
    original: Seq<char>,
    reading: Seq<char>,
    ctx: usize,
)
    ensures
        conversion.takes_text(original, reading).shows_reconversion(ctx).reconvert_original
            == original,
        conversion.put_back().reconvert_original.len() == 0,
        !conversion.put_back().reconverting,
        conversion.put_back().wf(),
{
}

/// Letters are taken as they are, but for the hyphen, which is a long vowel.
pub proof fn only_hyphens_become_long_vowels(text: Seq<char>)
    ensures
        long_vowels(text).len() == text.len(),
        forall|i: int|
            0 <= i < text.len() ==> (text[i] == '-' ==> #[trigger] long_vowels(text)[i] == 'ー') && (
            text[i] != '-' ==> long_vowels(text)[i] == text[i]),
{
}

/// The last commit is taken back exactly if that is armed, nothing is composed, and its text is
/// known and not too long to look for; else the first of these reasons is given.
pub proof fn a_commit_is_taken_back_only_when_armed(memory: CommitMemory, has_composition: bool)
    ensures
        undo_verdict(memory, has_composition) is None <==> memory.undo_armed && !has_composition
            && memory.last_commit is Some && utf16_of(memory.last_commit->0.text@).len() <= 64,
        !memory.undo_armed ==> undo_verdict(memory, has_composition) == Some(UndoSkip::NotArmed),
        memory.undo_armed && has_composition ==> undo_verdict(memory, has_composition) == Some(
            UndoSkip::CompositionOpen,
        ),
        memory.undo_armed && !has_composition && memory.last_commit is None ==> undo_verdict(
            memory,
            has_composition,
        ) == Some(UndoSkip::NoBuffer),
        !disarmed(memory).undo_armed,
        memory.feedback_enabled ==> disarmed(memory).last_commit == memory.last_commit,
        !memory.feedback_enabled ==> disarmed(memory).last_commit is None,
        disarmed(memory).feedback_enabled == memory.feedback_enabled,
{
}

/// Text of the document that is converted is kept whole, with its reading; what else is composed
/// stays. Shown, it has candidates in its own context; put back, nothing of it is left.
pub proof fn converted_text_of_the_document_is_kept(
    m: ConversionModel,
    original: Seq<char>,
    reading: Seq<char>,
    ctx: usize,
)
    ensures
        m.takes_text(original, reading).reconvert_original == original,
        m.takes_text(original, reading).reconvert_reading == reading,
        m.takes_text(original, reading).showing == m.showing,
        m.takes_text(original, reading).reconverting == m.reconverting,
        m.takes_text(original, reading).live_text == m.live_text,
        ({
            let after = m.shows_reconversion(ctx);
            &&& after.showing && after.reconverting
            &&& after.current_context == Some(ctx)
            &&& after.reconvert_original == m.reconvert_original
            &&& after.reconvert_reading == m.reconvert_reading
            &&& after.live_text == m.live_text && after.composing == m.composing
        }),
        ({
            let after = m.put_back();
            &&& !after.showing && !after.reconverting && after.clause_nav is None
            &&& after.current_context is None && after.left_context is None
            &&& after.reconvert_original.len() == 0 && after.reconvert_reading.len() == 0
            &&& after.monitor_committed_reading.len() == 0
            &&& after.live_text == m.live_text && after.last_reading == m.last_reading
            &&& after.composing == m.composing
        }),
{
}

/// Taking text of the document, showing it and putting it back touch just what they are about; a
/// commit is remembered for feedback though it cannot be undone any more.
pub proof fn a_reconversion_keeps_the_rest(
    m: ConversionModel,
    memory: CommitMemory,
    original: Seq<char>,
    reading: Seq<char>,
    ctx: usize,
)
    ensures
        m.takes_text(original, reading) == (ConversionModel {
            reconvert_original: original,
            reconvert_reading: reading,
            ..m
        }),
        m.shows_reconversion(ctx) == (ConversionModel {
            showing: true,
            reconverting: true,
            current_context: Some(ctx),
            ..m
        }),
        ({
            let after = m.put_back();
            &&& after == (ConversionModel {
                reconverting: false,
                reconvert_original: after.reconvert_original,
                reconvert_reading: after.reconvert_reading,
                current_context: None,
                showing: false,
                clause_nav: None,
                left_context: None,
                monitor_committed_reading: after.monitor_committed_reading,
                ..m
            })
            &&& after.reconvert_original.len() == 0 && after.reconvert_reading.len() == 0
            &&& after.monitor_committed_reading.len() == 0
        }),
        ({
            let after = disarmed(memory);
            &&& after == (CommitMemory {
                undo_armed: false,
                last_commit: after.last_commit,
                ..memory
            })
            &&& memory.feedback_enabled ==> after.last_commit == memory.last_commit
            &&& !memory.feedback_enabled ==> after.last_commit is None
        }),
{
}

/// Why a commit is not taken back is told, the first reason first; a commit of up to 64 units can be
/// taken back.
pub proof fn the_first_reason_is_told(memory: CommitMemory, has_composition: bool)
    ensures
        !memory.undo_armed ==> undo_verdict(memory, has_composition) == Some(UndoSkip::NotArmed),
        memory.undo_armed ==> undo_verdict(memory, true) == Some(UndoSkip::CompositionOpen),
        memory.undo_armed && memory.last_commit is None ==> undo_verdict(memory, false) == Some(
            UndoSkip::NoBuffer,
        ),
        memory.undo_armed && memory.last_commit is Some && utf16_of(
            memory.last_commit->0.text@,
        ).len() > 64 ==> undo_verdict(memory, false) == Some(UndoSkip::TooLong),
        memory.undo_armed && memory.last_commit is Some && utf16_of(
            memory.last_commit->0.text@,
        ).len() <= 64 ==> undo_verdict(memory, false) is None,
{
}

} // verus!
