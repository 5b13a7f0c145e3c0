//! Draws one preedit request into the document. The host is called step by step, and after each
//! call that can change what is wanted the request has to be current still.

use vstd::prelude::*;
use crate::preedit_apply::{ApplyState, ObjectId, PreeditApply, PreeditDisplay, Span, Ticket};
use crate::utf16::{at_boundary, is_boundary};

verus! {

/// The code of an unspecified failure.
pub const E_FAIL: i32 = -2147467259;

/// The next call into the host.
#[derive(Clone, Copy, Debug, PartialEq, Eq, Structural)]
pub enum PreeditAction {
    /// Find the place of insertion, without inserting.
    QueryInsertion,
    /// Read the text before the place of insertion.
    CaptureLeftContext,
    StartComposition,
    /// End the composition that was started for nothing.
    EndComposition,
    /// Get the range of the composition.
    GetRange,
    /// Read the text of the range.
    ReadText,
    /// Replace the text of the range.
    SetText,
    /// Get the property that holds the display attributes.
    GetProperty,
    /// Underline the whole range.
    SetAttributes,
    /// Move the end of a copy of the range, collapsed to its start.
    ShiftEnd { to: i32 },
    /// Move the start of that copy.
    ShiftStart { to: i32 },
    /// Mark the copy as converted.
    SetConverted,
    /// Mark the copy as the target.
    SetTarget,
    /// Collapse the range to its start and move its end.
    ShiftCaret { to: i32 },
    /// Collapse the range to its end.
    CollapseEnd,
    /// Put the caret where the range is.
    SetSelection,
    /// The request is over.
    End { code: i32 },
}

/// What the host answered.
pub enum PreeditEvent {
    Done,
    Failed { code: i32 },
    Captured { text: Option<String> },
    Started { composition: ObjectId },
    /// The units that were read, as far as they could be read.
    Units { units: Option<Vec<u16>> },
    /// How far a shift went.
    Moved { by: i32 },
}

/// The call that is under way.
#[derive(Clone, Copy, Debug, PartialEq, Eq, Structural)]
pub enum Stage {
    Querying,
    Capturing,
    Starting,
    Ending,
    Ranging,
    Reading,
    Writing,
    Fetching,
    Underlining,
    ConvertedEnd { index: usize },
    ConvertedStart { index: usize },
    ConvertedSet { index: usize },
    TargetEnd,
    TargetStart,
    TargetSet,
    Caret,
    Collapsing,
    Selecting,
    Ended,
}

/// The stage and the call that starts it.
#[derive(Clone, Copy, Debug, PartialEq, Eq, Structural)]
pub struct Next {
    pub stage: Stage,
    pub action: PreeditAction,
}

/// A place in the text where a caret may stand.
pub open spec fn caret_fits(units: Seq<u16>, at: int) -> bool {
    at <= units.len() && at <= i32::MAX && is_boundary(units, at)
}

/// A stretch of the text that does not split a character.
pub open spec fn span_fits(units: Seq<u16>, span: Span) -> bool {
    let end = span.start + span.len;
    end <= units.len() && end <= i32::MAX && is_boundary(units, span.start as int) && is_boundary(
        units,
        end,
    )
}

/// Every offset of a display fits its text.
pub open spec fn display_fits(d: PreeditDisplay) -> bool {
    &&& d.caret is Some ==> caret_fits(d.text@, d.caret->0 as int)
    &&& forall|i: int| 0 <= i < d.converted@.len() ==> span_fits(d.text@, #[trigger] d.converted@[i])
    &&& d.target is Some ==> span_fits(d.text@, d.target->0)
}

fn check_span(units: &[u16], span: Span) -> (r: bool)
    ensures
        r == span_fits(units@, span),
{
    match span.start.checked_add(span.len) {
        Some(end) => end <= units.len() && end <= i32::MAX as usize && at_boundary(
            units,
            span.start,
        ) && at_boundary(units, end),
        None => false,
    }
}

/// Whether every offset of a display fits its text.
pub fn check_request(d: &PreeditDisplay) -> (r: bool)
    ensures
        r == display_fits(*d),
{
    if let Some(caret) = d.caret {
        let at: usize = caret as usize;
        if at > d.text.len() || at > i32::MAX as usize || !at_boundary(d.text.as_slice(), at) {
            return false;
        }
    }
    let mut i: usize = 0;
    while i < d.converted.len()
        invariant
            i <= d.converted@.len(),
            d.caret is Some ==> caret_fits(d.text@, d.caret->0 as int),
            forall|k: int| 0 <= k < i ==> span_fits(d.text@, #[trigger] d.converted@[k]),
        decreases d.converted@.len() - i,
    {
        if !check_span(d.text.as_slice(), d.converted[i]) {
            return false;
        }
        i = i + 1;
    }
    match d.target {
        Some(target) => check_span(d.text.as_slice(), target),
        None => true,
    }
}

/// The end of a session.
pub open spec fn ends(code: i32) -> Next {
    Next { stage: Stage::Ended, action: PreeditAction::End { code } }
}

/// The caret is placed, behind the text unless the display says where.
pub open spec fn places_caret(d: PreeditDisplay) -> Next {
    match d.caret {
        Some(at) => Next { stage: Stage::Caret, action: PreeditAction::ShiftCaret { to: at as i32 } },
        None => Next { stage: Stage::Collapsing, action: PreeditAction::CollapseEnd },
    }
}

/// The end of a stretch.
pub open spec fn span_end(span: Span) -> i32 {
    (span.start + span.len) as i32
}

/// The converted stretches are marked from `index` on, then the target, then the caret is placed.
pub open spec fn decorates(d: PreeditDisplay, index: int) -> Next {
    if index < d.converted@.len() {
        Next {
            stage: Stage::ConvertedEnd { index: index as usize },
            action: PreeditAction::ShiftEnd { to: span_end(d.converted@[index]) },
        }
    } else if d.target is Some && d.target->0.len > 0 {
        Next {
            stage: Stage::TargetEnd,
            action: PreeditAction::ShiftEnd { to: span_end(d.target->0) },
        }
    } else {
        places_caret(d)
    }
}

/// The text has to be written: it is not there, or hosts would not draw a new decoration.
pub open spec fn needs_write(d: PreeditDisplay, repeat: bool, units: Option<Seq<u16>>) -> bool {
    units != Some(d.text@) || ((d.target is Some || d.converted@.len() > 0) && !repeat)
}

/// The view of optional units.
pub open spec fn units_view(units: Option<Vec<u16>>) -> Option<Seq<u16>> {
    match units {
        Some(v) => Some(v@),
        None => None,
    }
}

/// `next` if the request is current, else the end.
pub open spec fn while_current(current: bool, next: Next) -> Next {
    if current {
        next
    } else {
        ends(E_FAIL)
    }
}

/// What follows a shift: nothing unless it went all the way.
pub open spec fn if_exact(to: i32, event: PreeditEvent, next: Next) -> Next {
    match event {
        PreeditEvent::Moved { by } => if by == to {
            next
        } else {
            ends(E_FAIL)
        },
        PreeditEvent::Failed { code } => ends(code),
        _ => ends(E_FAIL),
    }
}

/// What follows a call that gives nothing back.
pub open spec fn if_done(event: PreeditEvent, next: Next) -> Next {
    match event {
        PreeditEvent::Done => next,
        PreeditEvent::Failed { code } => ends(code),
        _ => ends(E_FAIL),
    }
}

/// What follows the answer to the call under way. `current` tells whether the request is current
/// after that call, `applied` whether its text stands in the document.
pub open spec fn follows(
    d: PreeditDisplay,
    repeat: bool,
    stage: Stage,
    event: PreeditEvent,
    current: bool,
    applied: bool,
) -> Next {
    let property = Next { stage: Stage::Fetching, action: PreeditAction::GetProperty };
    match stage {
        Stage::Querying => if_done(
            event,
            Next { stage: Stage::Capturing, action: PreeditAction::CaptureLeftContext },
        ),
        Stage::Capturing => match event {
            PreeditEvent::Captured { .. } => while_current(
                current,
                Next { stage: Stage::Starting, action: PreeditAction::StartComposition },
            ),
            _ => ends(E_FAIL),
        },
        Stage::Starting => match event {
            PreeditEvent::Started { .. } => if current {
                Next { stage: Stage::Ranging, action: PreeditAction::GetRange }
            } else {
                Next { stage: Stage::Ending, action: PreeditAction::EndComposition }
            },
            PreeditEvent::Failed { code } => ends(code),
            _ => ends(E_FAIL),
        },
        Stage::Ending => ends(E_FAIL),
        Stage::Ranging => if_done(
            event,
            while_current(
                current,
                if applied {
                    property
                } else {
                    Next { stage: Stage::Reading, action: PreeditAction::ReadText }
                },
            ),
        ),
        Stage::Reading => match event {
            PreeditEvent::Units { units } => while_current(
                current,
                if needs_write(d, repeat, units_view(units)) {
                    Next { stage: Stage::Writing, action: PreeditAction::SetText }
                } else {
                    property
                },
            ),
            _ => ends(E_FAIL),
        },
        Stage::Writing => if_done(event, while_current(current, property)),
        Stage::Fetching => if_done(
            event,
            while_current(
                current,
                Next { stage: Stage::Underlining, action: PreeditAction::SetAttributes },
            ),
        ),
        Stage::Underlining => if_done(event, decorates(d, 0)),
        Stage::ConvertedEnd { index } => if_exact(
            span_end(d.converted@[index as int]),
            event,
            Next {
                stage: Stage::ConvertedStart { index },
                action: PreeditAction::ShiftStart { to: d.converted@[index as int].start as i32 },
            },
        ),
        Stage::ConvertedStart { index } => if_exact(
            d.converted@[index as int].start as i32,
            event,
            while_current(
                current,
                Next {
                    stage: Stage::ConvertedSet { index },
                    action: PreeditAction::SetConverted,
                },
            ),
        ),
        Stage::ConvertedSet { index } => if_done(event, decorates(d, index + 1)),
        Stage::TargetEnd => if_exact(
            span_end(d.target->0),
            event,
            Next {
                stage: Stage::TargetStart,
                action: PreeditAction::ShiftStart { to: d.target->0.start as i32 },
            },
        ),
        Stage::TargetStart => if_exact(
            d.target->0.start as i32,
            event,
            while_current(
                current,
                Next { stage: Stage::TargetSet, action: PreeditAction::SetTarget },
            ),
        ),
        Stage::TargetSet => if_done(event, places_caret(d)),
        Stage::Caret => if_exact(
            d.caret->0 as i32,
            event,
            while_current(
                current,
                Next { stage: Stage::Collapsing, action: PreeditAction::CollapseEnd },
            ),
        ),
        Stage::Collapsing => if_done(
            event,
            while_current(
                current,
                Next { stage: Stage::Selecting, action: PreeditAction::SetSelection },
            ),
        ),
        Stage::Selecting => if_done(event, while_current(current, ends(0))),
        Stage::Ended => ends(E_FAIL),
    }
}

/// The stage is one that the display has.
pub open spec fn stage_fits(d: PreeditDisplay, stage: Stage) -> bool {
    match stage {
        Stage::ConvertedEnd { index } => index < d.converted@.len(),
        Stage::ConvertedStart { index } => index < d.converted@.len(),
        Stage::ConvertedSet { index } => index < d.converted@.len(),
        Stage::TargetEnd => d.target is Some,
        Stage::TargetStart => d.target is Some,
        Stage::TargetSet => d.target is Some,
        Stage::Caret => d.caret is Some,
        _ => true,
    }
}

/// The call changes the document or what the host shows of it.
pub open spec fn changes_document(action: PreeditAction) -> bool {
    match action {
        PreeditAction::StartComposition => true,
        PreeditAction::SetText => true,
        PreeditAction::SetAttributes => true,
        PreeditAction::SetConverted => true,
        PreeditAction::SetTarget => true,
        PreeditAction::SetSelection => true,
        _ => false,
    }
}

/// The document is changed only for a request that is current at that moment.
pub proof fn only_a_current_request_changes_the_document(
    d: PreeditDisplay,
    repeat: bool,
    stage: Stage,
    event: PreeditEvent,
    applied: bool,
)
    ensures
        !changes_document(follows(d, repeat, stage, event, false, applied).action),
        follows(d, repeat, stage, event, false, applied).action != (PreeditAction::End { code: 0 })
            || (event matches PreeditEvent::Failed { code } && code == 0),
{
}

/// How many calls a session can still make after the one under way.
pub open spec fn calls_left(d: PreeditDisplay, stage: Stage) -> int {
    let n = d.converted@.len() as int;
    match stage {
        Stage::Ended => 0,
        Stage::Ending => 1,
        Stage::Selecting => 1,
        Stage::Collapsing => 2,
        Stage::Caret => 3,
        Stage::TargetSet => 4,
        Stage::TargetStart => 5,
        Stage::TargetEnd => 6,
        Stage::ConvertedSet { index } => 7 + 3 * (n - index - 1),
        Stage::ConvertedStart { index } => 8 + 3 * (n - index - 1),
        Stage::ConvertedEnd { index } => 9 + 3 * (n - index - 1),
        Stage::Underlining => 10 + 3 * n,
        Stage::Fetching => 11 + 3 * n,
        Stage::Writing => 12 + 3 * n,
        Stage::Reading => 13 + 3 * n,
        Stage::Ranging => 14 + 3 * n,
        Stage::Starting => 15 + 3 * n,
        Stage::Capturing => 16 + 3 * n,
        Stage::Querying => 17 + 3 * n,
    }
}

/// Every answer brings a session nearer to its end, whatever the host answers.
pub proof fn every_session_ends(
    d: PreeditDisplay,
    repeat: bool,
    stage: Stage,
    event: PreeditEvent,
    current: bool,
    applied: bool,
)
    requires
        stage_fits(d, stage),
        stage != Stage::Ended,
    ensures
        0 <= calls_left(d, follows(d, repeat, stage, event, current, applied).stage) < calls_left(
            d,
            stage,
        ),
        stage_fits(d, follows(d, repeat, stage, event, current, applied).stage),
{
    assert(d.converted@.len() == d.converted.len());
}

/// A session succeeds only at its last step: the selection is set and the request is current.
pub proof fn success_is_the_last_step(
    d: PreeditDisplay,
    repeat: bool,
    stage: Stage,
    event: PreeditEvent,
    current: bool,
    applied: bool,
)
    requires
        !(event matches PreeditEvent::Failed { code } && code == 0),
    ensures
        follows(d, repeat, stage, event, current, applied).action == (PreeditAction::End { code: 0 })
            <==> stage == Stage::Selecting && event is Done && current,
{
}

fn end_next(code: i32) -> (r: Next)
    ensures
        r == ends(code),
{
    Next { stage: Stage::Ended, action: PreeditAction::End { code } }
}

fn guarded(current: bool, next: Next) -> (r: Next)
    ensures
        r == while_current(current, next),
{
    if current {
        next
    } else {
        end_next(E_FAIL)
    }
}

fn after_done(event: &PreeditEvent, next: Next) -> (r: Next)
    ensures
        r == if_done(*event, next),
{
    match event {
        PreeditEvent::Done => next,
        PreeditEvent::Failed { code } => end_next(*code),
        _ => end_next(E_FAIL),
    }
}

fn after_shift(to: i32, event: &PreeditEvent, next: Next) -> (r: Next)
    ensures
        r == if_exact(to, *event, next),
{
    match event {
        PreeditEvent::Moved { by } => if *by == to {
            next
        } else {
            end_next(E_FAIL)
        },
        PreeditEvent::Failed { code } => end_next(*code),
        _ => end_next(E_FAIL),
    }
}

/// What the session and the service share.
pub struct PreeditOutputs {
    pub composition: Option<ObjectId>,
    /// A composition was started; the service takes this mark.
    pub started: bool,
    /// The text before the composition that was started last.
    pub left_context: Option<String>,
}

/// The drawing of one request.
pub struct StartOrUpdatePreedit {
    pub ticket: Ticket,
    pub display: PreeditDisplay,
    /// The request repeats a decoration that was drawn already.
    pub decoration_repeat: bool,
    pub stage: Stage,
}

impl StartOrUpdatePreedit {
    /// A session that is under way draws a display whose offsets fit.
    pub open spec fn wf(self) -> bool {
        self.stage != Stage::Ended ==> display_fits(self.display) && stage_fits(
            self.display,
            self.stage,
        )
    }

    fn span_to(&self, span: Span) -> (r: i32)
        requires
            span_fits(self.display.text@, span),
        ensures
            r == span_end(span),
    {
        (span.start + span.len) as i32
    }

    fn place_caret(&self) -> (r: Next)
        requires
            display_fits(self.display),
        ensures
            r == places_caret(self.display),
    {
        match self.display.caret {
            Some(at) => Next {
                stage: Stage::Caret,
                action: PreeditAction::ShiftCaret { to: at as i32 },
            },
            None => Next { stage: Stage::Collapsing, action: PreeditAction::CollapseEnd },
        }
    }

    fn decorate(&self, index: usize) -> (r: Next)
        requires
            display_fits(self.display),
        ensures
            r == decorates(self.display, index as int),
    {
        if index < self.display.converted.len() {
            let to: i32 = self.span_to(self.display.converted[index]);
            return Next {
                stage: Stage::ConvertedEnd { index },
                action: PreeditAction::ShiftEnd { to },
            };
        }
        match self.display.target {
            Some(target) => if target.len > 0 {
                Next {
                    stage: Stage::TargetEnd,
                    action: PreeditAction::ShiftEnd { to: self.span_to(target) },
                }
            } else {
                self.place_caret()
            },
            None => self.place_caret(),
        }
    }

    fn must_write(&self, units: &Option<Vec<u16>>) -> (r: bool)
        ensures
            r == needs_write(self.display, self.decoration_repeat, units_view(*units)),
    {
        let decorated = self.display.target.is_some() || self.display.converted.len() > 0;
        let unchanged = match units {
            Some(units) => crate::preedit_apply::same_units(
                units.as_slice(),
                self.display.text.as_slice(),
            ),
            None => false,
        };
        !unchanged || (decorated && !self.decoration_repeat)
    }

    fn next_call(&self, event: &PreeditEvent, current: bool, applied: bool) -> (r: Next)
        requires
            self.wf(),
        ensures
            r == follows(
                self.display,
                self.decoration_repeat,
                self.stage,
                *event,
                current,
                applied,
            ),
    {
        let property = Next { stage: Stage::Fetching, action: PreeditAction::GetProperty };
        match self.stage {
            Stage::Querying => after_done(
                event,
                Next { stage: Stage::Capturing, action: PreeditAction::CaptureLeftContext },
            ),
            Stage::Capturing => match event {
                PreeditEvent::Captured { .. } => guarded(
                    current,
                    Next { stage: Stage::Starting, action: PreeditAction::StartComposition },
                ),
                _ => end_next(E_FAIL),
            },
            Stage::Starting => match event {
                PreeditEvent::Started { .. } => if current {
                    Next { stage: Stage::Ranging, action: PreeditAction::GetRange }
                } else {
                    Next { stage: Stage::Ending, action: PreeditAction::EndComposition }
                },
                PreeditEvent::Failed { code } => end_next(*code),
                _ => end_next(E_FAIL),
            },
            Stage::Ending => end_next(E_FAIL),
            Stage::Ranging => after_done(
                event,
                guarded(
                    current,
                    if applied {
                        property
                    } else {
                        Next { stage: Stage::Reading, action: PreeditAction::ReadText }
                    },
                ),
            ),
            Stage::Reading => match event {
                PreeditEvent::Units { units } => guarded(
                    current,
                    if self.must_write(units) {
                        Next { stage: Stage::Writing, action: PreeditAction::SetText }
                    } else {
                        property
                    },
                ),
                _ => end_next(E_FAIL),
            },
            Stage::Writing => after_done(event, guarded(current, property)),
            Stage::Fetching => after_done(
                event,
                guarded(
                    current,
                    Next { stage: Stage::Underlining, action: PreeditAction::SetAttributes },
                ),
            ),
            Stage::Underlining => after_done(event, self.decorate(0)),
            Stage::ConvertedEnd { index } => {
                let span = self.display.converted[index];
                assert(span_fits(self.display.text@, span));
                after_shift(
                    self.span_to(span),
                    event,
                    Next {
                        stage: Stage::ConvertedStart { index },
                        action: PreeditAction::ShiftStart { to: span.start as i32 },
                    },
                )
            },
            Stage::ConvertedStart { index } => after_shift(
                self.display.converted[index].start as i32,
                event,
                guarded(
                    current,
                    Next {
                        stage: Stage::ConvertedSet { index },
                        action: PreeditAction::SetConverted,
                    },
                ),
            ),
            Stage::ConvertedSet { index } => {
                assert(self.display.converted@.len() == self.display.converted.len());
                after_done(event, self.decorate(index + 1))
            },
            Stage::TargetEnd => match self.display.target {
                Some(target) => after_shift(
                    self.span_to(target),
                    event,
                    Next {
                        stage: Stage::TargetStart,
                        action: PreeditAction::ShiftStart { to: target.start as i32 },
                    },
                ),
                None => end_next(E_FAIL),
            },
            Stage::TargetStart => match self.display.target {
                Some(target) => after_shift(
                    target.start as i32,
                    event,
                    guarded(
                        current,
                        Next { stage: Stage::TargetSet, action: PreeditAction::SetTarget },
                    ),
                ),
                None => end_next(E_FAIL),
            },
            Stage::TargetSet => after_done(event, self.place_caret()),
            Stage::Caret => match self.display.caret {
                Some(at) => after_shift(
                    at as i32,
                    event,
                    guarded(
                        current,
                        Next { stage: Stage::Collapsing, action: PreeditAction::CollapseEnd },
                    ),
                ),
                None => end_next(E_FAIL),
            },
            Stage::Collapsing => after_done(
                event,
                guarded(
                    current,
                    Next { stage: Stage::Selecting, action: PreeditAction::SetSelection },
                ),
            ),
            Stage::Selecting => after_done(event, guarded(current, end_next(0))),
            Stage::Ended => end_next(E_FAIL),
        }
    }

    /// The answer is one after which the request has to be current.
    pub open spec fn checks(self, event: PreeditEvent) -> bool {
        match self.stage {
            Stage::Capturing => event is Captured,
            Stage::Starting => event is Started,
            Stage::Reading => event is Units,
            Stage::Ranging | Stage::Writing | Stage::Fetching | Stage::Collapsing
            | Stage::Selecting => event is Done,
            Stage::ConvertedStart { index } => event matches PreeditEvent::Moved { by } && by
                == self.display.converted@[index as int].start as i32,
            Stage::TargetStart => event matches PreeditEvent::Moved { by } && by
                == self.display.target->0.start as i32,
            Stage::Caret => event matches PreeditEvent::Moved { by } && by
                == self.display.caret->0 as i32,
            _ => false,
        }
    }

    /// The text stands in the document after the answer.
    pub open spec fn finds_text(self, event: PreeditEvent, current: bool) -> bool {
        match self.stage {
            Stage::Reading => event matches PreeditEvent::Units { units } && current
                && !needs_write(self.display, self.decoration_repeat, units_view(units)),
            Stage::Writing => event is Done,
            _ => false,
        }
    }

    /// What follows an answer.
    pub open spec fn answered(self, event: PreeditEvent, current: bool, applied: bool) -> Next {
        follows(self.display, self.decoration_repeat, self.stage, event, current, applied)
    }

    /// The state of the request after an answer.
    pub open spec fn state_after(
        self,
        state: ApplyState,
        event: PreeditEvent,
        current: bool,
    ) -> ApplyState {
        let seen = if self.checks(event) {
            state.begun(current)
        } else {
            state
        };
        let written = ApplyState {
            text_applied: seen.text_applied || self.finds_text(event, current),
            ..seen
        };
        match self.answered(event, current, state.text_applied).action {
            PreeditAction::End { code } => written.completed(code),
            _ => written,
        }
    }

    /// The session starts a composition for a request that still wants one.
    pub open spec fn adopts(self, event: PreeditEvent, current: bool) -> bool {
        self.stage == Stage::Starting && event is Started && current
    }

    fn checks_now(&self, event: &PreeditEvent) -> (r: bool)
        requires
            self.wf(),
        ensures
            r == self.checks(*event),
    {
        match self.stage {
            Stage::Capturing => matches!(event, PreeditEvent::Captured { .. }),
            Stage::Starting => matches!(event, PreeditEvent::Started { .. }),
            Stage::Reading => matches!(event, PreeditEvent::Units { .. }),
            Stage::Ranging | Stage::Writing | Stage::Fetching | Stage::Collapsing
            | Stage::Selecting => matches!(event, PreeditEvent::Done),
            Stage::ConvertedStart { index } => match event {
                PreeditEvent::Moved { by } => *by == self.display.converted[index].start as i32,
                _ => false,
            },
            Stage::TargetStart => match (event, self.display.target) {
                (PreeditEvent::Moved { by }, Some(target)) => *by == target.start as i32,
                _ => false,
            },
            Stage::Caret => match (event, self.display.caret) {
                (PreeditEvent::Moved { by }, Some(at)) => *by == at as i32,
                _ => false,
            },
            _ => false,
        }
    }

    fn text_found(&self, event: &PreeditEvent, current: bool) -> (r: bool)
        ensures
            r == self.finds_text(*event, current),
    {
        match self.stage {
            Stage::Reading => match event {
                PreeditEvent::Units { units } => current && !self.must_write(units),
                _ => false,
            },
            Stage::Writing => matches!(event, PreeditEvent::Done),
            _ => false,
        }
    }

    /// Begins to draw a request, if it is current and its offsets fit.
    pub fn begin(
        ticket: Ticket,
        display: PreeditDisplay,
        decoration_repeat: bool,
        apply: &mut PreeditApply,
        composition: Option<ObjectId>,
    ) -> (r: (StartOrUpdatePreedit, PreeditAction))
        ensures
            r.0.wf(),
            r.0.ticket == ticket,
            r.0.display == display,
            r.0.decoration_repeat == decoration_repeat,
            ({
                let current = old(apply).is_current_for(ticket, composition);
                let state = old(apply).current->0.state;
                let kept = old(apply).current->0.composition;
                if !current {
                    &&& r.1 == PreeditAction::End { code: E_FAIL }
                    &&& r.0.stage == Stage::Ended
                    &&& *final(apply) == old(apply).recorded(
                        ticket,
                        state.begun(false).completed(E_FAIL),
                        kept,
                    )
                } else if !display_fits(display) {
                    &&& r.1 == PreeditAction::End { code: E_FAIL }
                    &&& r.0.stage == Stage::Ended
                    &&& *final(apply) == old(apply).recorded(ticket, state.completed(E_FAIL), kept)
                } else {
                    &&& *final(apply) == *old(apply)
                    &&& composition is None ==> r.0.stage == Stage::Querying && r.1
                        == PreeditAction::QueryInsertion
                    &&& composition is Some ==> r.0.stage == Stage::Ranging && r.1
                        == PreeditAction::GetRange
                }
            }),
    {
        let current = apply.is_current(ticket, composition);
        if !current || !check_request(&display) {
            if let Some(mut state) = apply.state_of(ticket) {
                let _ = state.begin(current);
                state.complete(E_FAIL);
                apply.record_state(ticket, state);
            }
            return (
                StartOrUpdatePreedit { ticket, display, decoration_repeat, stage: Stage::Ended },
                PreeditAction::End { code: E_FAIL },
            );
        }
        if composition.is_none() {
            (
                StartOrUpdatePreedit { ticket, display, decoration_repeat, stage: Stage::Querying },
                PreeditAction::QueryInsertion,
            )
        } else {
            (
                StartOrUpdatePreedit { ticket, display, decoration_repeat, stage: Stage::Ranging },
                PreeditAction::GetRange,
            )
        }
    }

    /// Goes on after an answer of the host.
    pub fn step(&mut self, apply: &mut PreeditApply, out: &mut PreeditOutputs, event: PreeditEvent)
     -> (r: PreeditAction)
        requires
            old(self).wf(),
        ensures
            final(self).wf(),
            final(self).ticket == old(self).ticket,
            final(self).display == old(self).display,
            final(self).decoration_repeat == old(self).decoration_repeat,
            ({
                let ticket = old(self).ticket;
                let current = old(apply).is_current_for(ticket, old(out).composition);
                let request = old(apply).current->0;
                let applied = old(apply).holds(ticket) && request.state.text_applied;
                let next = old(self).answered(event, current, applied);
                let adopts = old(self).adopts(event, current);
                let captures = old(self).stage == Stage::Capturing && event is Captured && current;
                &&& r == next.action
                &&& final(self).stage == next.stage
                &&& *final(apply) == old(apply).recorded(
                    ticket,
                    old(self).state_after(request.state, event, current),
                    if adopts {
                        Some(event->composition)
                    } else {
                        request.composition
                    },
                )
                &&& final(out).composition == (if adopts {
                    Some(event->composition)
                } else {
                    old(out).composition
                })
                &&& final(out).started == (old(out).started || adopts)
                &&& final(out).left_context == (if captures {
                    event->text
                } else {
                    old(out).left_context
                })
            }),
            old(self).stage == Stage::Reading && old(apply).is_current_for(
                old(self).ticket,
                old(out).composition,
            ) ==> (event matches PreeditEvent::Units { units } ==> {
                &&& units is None ==> r == PreeditAction::SetText
                &&& units is Some && units->0@ != old(self).display.text@ ==> r
                    == PreeditAction::SetText
            }),
            final(apply).holds(old(self).ticket) && final(apply).current->0.state.text_applied
                && !old(apply).current->0.state.text_applied ==> {
                ||| old(self).stage == Stage::Writing && event is Done
                ||| old(self).stage == Stage::Reading && (event matches PreeditEvent::Units {
                    units,
                } && units is Some && units->0@ == old(self).display.text@)
            },
    {
        let current = apply.is_current(self.ticket, out.composition);
        let record = apply.state_of(self.ticket);
        let applied = match record {
            Some(state) => state.text_applied,
            None => false,
        };
        let next = self.next_call(&event, current, applied);
        proof {
            if self.stage != Stage::Ended {
                every_session_ends(
                    self.display,
                    self.decoration_repeat,
                    self.stage,
                    event,
                    current,
                    applied,
                );
            }
        }
        if let Some(mut state) = record {
            if self.checks_now(&event) {
                let _ = state.begin(current);
            }
            if self.text_found(&event, current) {
                state.wrote_text();
            }
            if let PreeditAction::End { code } = next.action {
                state.complete(code);
            }
            apply.record_state(self.ticket, state);
        }
        if current {
            match (self.stage, event) {
                (Stage::Capturing, PreeditEvent::Captured { text }) => {
                    out.left_context = text;
                },
                (Stage::Starting, PreeditEvent::Started { composition }) => {
                    apply.record_composition(self.ticket, composition);
                    out.started = true;
                    out.composition = Some(composition);
                },
                _ => {},
            }
        }
        self.stage = next.stage;
        next.action
    }
}

/// The text of a composition and its decoration, as a host holds them, and the two ranges that a
/// session moves.
pub struct HostText {
    pub text: Seq<u16>,
    pub underlined: bool,
    /// The stretches that are marked as converted, by their start and end.
    pub converted: Seq<(int, int)>,
    pub target: Option<(int, int)>,
    pub caret: Option<int>,
    pub range: (int, int),
    pub copy: (int, int),
}

/// A host that does what it is asked turned `before` into `after` for a call, and answered so.
/// What is written is `text`.
pub open spec fn carries_out(
    text: Seq<u16>,
    before: HostText,
    call: PreeditAction,
    event: PreeditEvent,
    after: HostText,
) -> bool {
    match call {
        PreeditAction::QueryInsertion | PreeditAction::GetProperty => event is Done && after
            == before,
        PreeditAction::CaptureLeftContext => event is Captured && after == before,
        PreeditAction::StartComposition => event is Started && after == (HostText {
            text: Seq::empty(),
            ..before
        }),
        PreeditAction::GetRange => event is Done && after == (HostText {
            range: (0, before.text.len() as int),
            ..before
        }),
        PreeditAction::ReadText => after == before && (event matches PreeditEvent::Units { units }
            && (units is Some ==> units->0@ == before.text)),
        PreeditAction::SetText => event is Done && after == (HostText {
            text,
            range: (0, text.len() as int),
            ..before
        }),
        PreeditAction::SetAttributes => event is Done && after == (HostText {
            underlined: true,
            converted: Seq::empty(),
            target: None,
            ..before
        }),
        PreeditAction::ShiftEnd { to } => event == (PreeditEvent::Moved { by: to }) && after == (
        HostText { copy: (0, to as int), ..before }),
        PreeditAction::ShiftStart { to } => event == (PreeditEvent::Moved { by: to }) && after == (
        HostText { copy: (to as int, before.copy.1), ..before }),
        PreeditAction::SetConverted => event is Done && after == (HostText {
            converted: before.converted.push(before.copy),
            ..before
        }),
        PreeditAction::SetTarget => event is Done && after == (HostText {
            target: Some(before.copy),
            ..before
        }),
        PreeditAction::ShiftCaret { to } => event == (PreeditEvent::Moved { by: to }) && after == (
        HostText { range: (0, to as int), ..before }),
        PreeditAction::CollapseEnd => event is Done && after == (HostText {
            range: (before.range.1, before.range.1),
            ..before
        }),
        PreeditAction::SetSelection => event is Done && after == (HostText {
            caret: if before.range.0 == before.range.1 {
                Some(before.range.0)
            } else {
                None
            },
            ..before
        }),
        PreeditAction::EndComposition | PreeditAction::End { .. } => false,
    }
}

/// A session and its host at one moment: the call that is under way, and whether the text is
/// known to stand there.
pub struct Moment {
    pub stage: Stage,
    pub call: PreeditAction,
    pub applied: bool,
    pub host: HostText,
}

impl StartOrUpdatePreedit {
    /// The host carried the call of one moment out, and the session went on to the next.
    pub open spec fn goes_on(self, a: Moment, event: PreeditEvent, b: Moment) -> bool {
        let session = StartOrUpdatePreedit { stage: a.stage, ..self };
        let next = session.answered(event, true, a.applied);
        &&& carries_out(self.display.text@, a.host, a.call, event, b.host)
        &&& b.stage == next.stage
        &&& b.call == next.action
        &&& b.applied == (a.applied || session.finds_text(event, true))
    }

    /// The moments of a session whose request stays current, with a host that does what it is
    /// asked. It begins in a composition, or without one. Text that is known to stand there does.
    pub open spec fn runs(self, moments: Seq<Moment>, events: Seq<PreeditEvent>) -> bool {
        &&& moments.len() == events.len() + 1
        &&& ({
            ||| moments[0].stage == Stage::Querying && moments[0].call
                == PreeditAction::QueryInsertion && !moments[0].applied
            ||| moments[0].stage == Stage::Ranging && moments[0].call == PreeditAction::GetRange
        })
        &&& moments[0].applied ==> moments[0].host.text == self.display.text@
        &&& forall|i: int|
            0 <= i < events.len() ==> self.goes_on(
                #[trigger] moments[i],
                events[i],
                moments[i + 1],
            )
    }
}

/// Where a stretch begins and ends.
pub open spec fn ends_of(span: Span) -> (int, int) {
    (span.start as int, span.start + span.len)
}

/// Where the caret of a display stands: behind its text, unless it says where.
pub open spec fn caret_of(d: PreeditDisplay) -> int {
    match d.caret {
        Some(at) => at as int,
        None => d.text@.len() as int,
    }
}

spec fn marks(converted: Seq<Span>, n: int) -> Seq<(int, int)> {
    Seq::new(n as nat, |i: int| ends_of(converted[i]))
}

spec fn marked_to(d: PreeditDisplay, n: int, host: HostText) -> bool {
    &&& host.text == d.text@
    &&& host.underlined
    &&& host.converted == marks(d.converted@, n)
}

spec fn decorated(d: PreeditDisplay, host: HostText) -> bool {
    &&& marked_to(d, d.converted@.len() as int, host)
    &&& host.target == (if d.target is Some && d.target->0.len > 0 {
        Some(ends_of(d.target->0))
    } else {
        None
    })
}

/// What is true of a host at each moment on the way.
spec fn on_course(d: PreeditDisplay, m: Moment) -> bool {
    let n = d.converted@.len() as int;
    let whole = m.host.range == (0int, d.text@.len() as int);
    &&& m.applied ==> m.host.text == d.text@
    &&& match m.stage {
        Stage::Querying => m.call == PreeditAction::QueryInsertion && !m.applied,
        Stage::Capturing => m.call == PreeditAction::CaptureLeftContext && !m.applied,
        Stage::Starting => m.call == PreeditAction::StartComposition && !m.applied,
        Stage::Ending => false,
        Stage::Ranging => m.call == PreeditAction::GetRange,
        Stage::Reading => m.call == PreeditAction::ReadText && m.host.range == (
            0int,
            m.host.text.len() as int,
        ),
        Stage::Writing => m.call == PreeditAction::SetText,
        Stage::Fetching => m.call == PreeditAction::GetProperty && m.host.text == d.text@ && whole,
        Stage::Underlining => m.call == PreeditAction::SetAttributes && m.host.text == d.text@
            && whole,
        Stage::ConvertedEnd { index } => {
            &&& index < n
            &&& m.call == (PreeditAction::ShiftEnd { to: ends_of(d.converted@[index as int]).1 as i32 })
            &&& marked_to(d, index as int, m.host)
            &&& m.host.target is None
            &&& whole
        },
        Stage::ConvertedStart { index } => {
            &&& index < n
            &&& m.call == (PreeditAction::ShiftStart {
                to: ends_of(d.converted@[index as int]).0 as i32,
            })
            &&& marked_to(d, index as int, m.host)
            &&& m.host.target is None
            &&& whole
            &&& m.host.copy.1 == ends_of(d.converted@[index as int]).1
        },
        Stage::ConvertedSet { index } => {
            &&& index < n
            &&& m.call == PreeditAction::SetConverted
            &&& marked_to(d, index as int, m.host)
            &&& m.host.target is None
            &&& whole
            &&& m.host.copy == ends_of(d.converted@[index as int])
        },
        Stage::TargetEnd => {
            &&& d.target is Some && d.target->0.len > 0
            &&& m.call == (PreeditAction::ShiftEnd { to: ends_of(d.target->0).1 as i32 })
            &&& marked_to(d, n, m.host)
            &&& whole
        },
        Stage::TargetStart => {
            &&& d.target is Some && d.target->0.len > 0
            &&& m.call == (PreeditAction::ShiftStart { to: ends_of(d.target->0).0 as i32 })
            &&& marked_to(d, n, m.host)
            &&& whole
            &&& m.host.copy.1 == ends_of(d.target->0).1
        },
        Stage::TargetSet => {
            &&& d.target is Some && d.target->0.len > 0
            &&& m.call == PreeditAction::SetTarget
            &&& marked_to(d, n, m.host)
            &&& whole
            &&& m.host.copy == ends_of(d.target->0)
        },
        Stage::Caret => d.caret is Some && m.call == (PreeditAction::ShiftCaret {
            to: d.caret->0 as i32,
        }) && decorated(d, m.host),
        Stage::Collapsing => m.call == PreeditAction::CollapseEnd && decorated(d, m.host)
            && m.host.range.1 == caret_of(d),
        Stage::Selecting => m.call == PreeditAction::SetSelection && decorated(d, m.host)
            && m.host.range == (caret_of(d), caret_of(d)),
        Stage::Ended => m.call == (PreeditAction::End { code: 0 }) && decorated(d, m.host)
            && m.host.caret == Some(caret_of(d)),
    }
}

proof fn stays_on_course(session: StartOrUpdatePreedit, a: Moment, event: PreeditEvent, b: Moment)
    requires
        display_fits(session.display),
        on_course(session.display, a),
        session.goes_on(a, event, b),
    ensures
        on_course(session.display, b),
{
    let d = session.display;
    let n = d.converted@.len() as int;
    match a.stage {
        Stage::Underlining => {
            assert(marks(d.converted@, 0) =~= Seq::empty());
            assert(b.host.converted == marks(d.converted@, 0));
        },
        Stage::ConvertedSet { index } => {
            assert(d.converted@.len() == d.converted.len());
            assert(marks(d.converted@, index + 1) =~= marks(d.converted@, index as int).push(
                ends_of(d.converted@[index as int]),
            ));
        },
        Stage::ConvertedEnd { index } => {
            assert(span_fits(d.text@, d.converted@[index as int]));
        },
        Stage::ConvertedStart { index } => {
            assert(span_fits(d.text@, d.converted@[index as int]));
        },
        _ => {},
    }
}

proof fn run_is_on_course(
    session: StartOrUpdatePreedit,
    moments: Seq<Moment>,
    events: Seq<PreeditEvent>,
    i: int,
)
    requires
        display_fits(session.display),
        session.runs(moments, events),
        0 <= i < moments.len(),
    ensures
        on_course(session.display, moments[i]),
    decreases i,
{
    if i > 0 {
        run_is_on_course(session, moments, events, i - 1);
        assert(session.goes_on(moments[i - 1], events[i - 1], moments[i - 1 + 1]));
        stays_on_course(session, moments[i - 1], events[i - 1], moments[i]);
    }
}

/// With a host that does what it is asked, a current request is drawn just as its display says.
/// When the session ends, it ends with success; the document then holds the text of the display,
/// all of it is underlined, exactly the converted stretches and the target are marked, and the
/// caret stands where it has to.
pub proof fn a_finished_session_shows_its_display(
    session: StartOrUpdatePreedit,
    moments: Seq<Moment>,
    events: Seq<PreeditEvent>,
)
    requires
        display_fits(session.display),
        session.runs(moments, events),
        moments.last().call is End,
    ensures
        moments.last().call == (PreeditAction::End { code: 0 }),
        moments.last().host.text == session.display.text@,
        moments.last().host.underlined,
        moments.last().host.converted.len() == session.display.converted@.len(),
        forall|k: int|
            0 <= k < session.display.converted@.len() ==> (
            #[trigger] moments.last().host.converted[k]) == (
                session.display.converted@[k].start as int,
                session.display.converted@[k].start + session.display.converted@[k].len,
            ),
        session.display.target is Some && session.display.target->0.len > 0
            ==> moments.last().host.target == Some(
            (
                session.display.target->0.start as int,
                session.display.target->0.start + session.display.target->0.len,
            ),
        ),
        session.display.target is None ==> moments.last().host.target is None,
        session.display.caret is Some ==> moments.last().host.caret == Some(
            session.display.caret->0 as int,
        ),
        session.display.caret is None ==> moments.last().host.caret == Some(
            session.display.text@.len() as int,
        ),
{
    run_is_on_course(session, moments, events, moments.len() - 1);
}

/// What is read decides whether the text is written. A current request whose text is not exactly
/// what stands in the document writes it; one whose text stands there already writes it again only
/// for a decoration that was not drawn before.
pub proof fn the_text_is_written_unless_it_stands_there(
    session: StartOrUpdatePreedit,
    units: Option<Vec<u16>>,
    applied: bool,
)
    requires
        session.stage == Stage::Reading,
    ensures
        ({
            let answer = PreeditEvent::Units { units };
            let d = session.display;
            let writes = session.answered(answer, true, applied).action == PreeditAction::SetText;
            let stands = session.finds_text(answer, true);
            &&& units is None ==> writes && !stands
            &&& units is Some && units->0@ != d.text@ ==> writes && !stands
            &&& units is Some && units->0@ == d.text@ && d.target is None && d.converted@.len() == 0
                ==> !writes && stands
            &&& units is Some && units->0@ == d.text@ && session.decoration_repeat ==> !writes
                && stands
            &&& (d.target is Some || d.converted@.len() > 0) && !session.decoration_repeat ==> writes
                && !stands
            &&& !session.finds_text(answer, false)
        }),
{
}

/// A failure of the host ends the session with the host's code, at every call that can fail.
pub proof fn a_failure_is_passed_on(session: StartOrUpdatePreedit, code: i32, current: bool, applied: bool)
    requires
        session.stage != Stage::Capturing && session.stage != Stage::Ending && session.stage
            != Stage::Reading && session.stage != Stage::Ended,
    ensures
        session.answered(PreeditEvent::Failed { code }, current, applied) == (Next {
            stage: Stage::Ended,
            action: PreeditAction::End { code },
        }),
        !session.finds_text(PreeditEvent::Failed { code }, current),
        !session.adopts(PreeditEvent::Failed { code }, current),
{
}

/// A shift that does not go all the way never leads to a mark or to a caret.
pub proof fn a_short_shift_marks_nothing(session: StartOrUpdatePreedit, by: i32, applied: bool)
    requires
        session.wf(),
        ({
            ||| session.stage matches Stage::ConvertedEnd { index } && by
                != session.display.converted@[index as int].start
                + session.display.converted@[index as int].len
            ||| session.stage matches Stage::ConvertedStart { index } && by
                != session.display.converted@[index as int].start
            ||| session.stage == Stage::TargetEnd && by != session.display.target->0.start
                + session.display.target->0.len
            ||| session.stage == Stage::TargetStart && by != session.display.target->0.start
            ||| session.stage == Stage::Caret && by != session.display.caret->0
        }),
    ensures
        session.answered(PreeditEvent::Moved { by }, true, applied).action is End,
        session.answered(PreeditEvent::Moved { by }, true, applied).action != (PreeditAction::End {
            code: 0,
        }),
{
    if let Stage::ConvertedEnd { index } = session.stage {
        assert(span_fits(session.display.text@, session.display.converted@[index as int]));
    }
    if let Stage::ConvertedStart { index } = session.stage {
        assert(span_fits(session.display.text@, session.display.converted@[index as int]));
    }
}

/// A request that was overtaken while its composition was being started ends that composition, and
/// the service never takes it for its own.
pub proof fn an_overtaken_start_is_taken_back(
    session: StartOrUpdatePreedit,
    composition: ObjectId,
    applied: bool,
)
    requires
        session.stage == Stage::Starting,
    ensures
        session.answered(PreeditEvent::Started { composition }, false, applied).action
            == PreeditAction::EndComposition,
        !session.adopts(PreeditEvent::Started { composition }, false),
        session.answered(PreeditEvent::Started { composition }, true, applied).action
            == PreeditAction::GetRange,
        session.adopts(PreeditEvent::Started { composition }, true),
{
}

/// The offsets of a display fit exactly if none of them lies behind the text or inside a character
/// that takes two units.
pub proof fn an_offset_never_splits_a_character(d: PreeditDisplay, high: u16, low: u16, at: int)
    requires
        0 < at < d.text@.len(),
        d.text@[at - 1] == high && d.text@[at] == low,
        0xD800 <= high <= 0xDBFF && 0xDC00 <= low <= 0xDFFF,
    ensures
        d.caret is Some && d.caret->0 == at ==> !display_fits(d),
        d.target is Some && (d.target->0.start == at || d.target->0.start + d.target->0.len == at)
            ==> !display_fits(d),
        forall|k: int|
            0 <= k < d.converted@.len() && ((#[trigger] d.converted@[k]).start == at
                || d.converted@[k].start + d.converted@[k].len == at) ==> !display_fits(d),
{
}

/// Offsets inside the text that stand beside no surrogate always fit.
pub proof fn an_offset_between_plain_units_fits(d: PreeditDisplay)
    requires
        d.text@.len() <= i32::MAX,
        forall|i: int| 0 <= i < d.text@.len() ==> !(0xD800 <= #[trigger] d.text@[i] <= 0xDFFF),
        d.caret is Some ==> d.caret->0 <= d.text@.len(),
        d.target is Some ==> d.target->0.start + d.target->0.len <= d.text@.len(),
        forall|k: int|
            0 <= k < d.converted@.len() ==> (#[trigger] d.converted@[k]).start + d.converted@[k].len
                <= d.text@.len(),
    ensures
        display_fits(d),
{
}

/// Offsets behind the text never fit.
pub proof fn an_offset_behind_the_text_does_not_fit(d: PreeditDisplay)
    requires
        display_fits(d),
    ensures
        d.caret is Some ==> d.caret->0 <= d.text@.len(),
        d.target is Some ==> d.target->0.start + d.target->0.len <= d.text@.len(),
        forall|k: int|
            0 <= k < d.converted@.len() ==> (#[trigger] d.converted@[k]).start + d.converted@[k].len
                <= d.text@.len(),
{
}

/// After an answer that tells something new, a request that is not current any more is stale. A
/// shift counts only where it came as far as was asked for.
pub proof fn an_answer_shows_whether_the_request_is_current(
    session: StartOrUpdatePreedit,
    state: ApplyState,
    event: PreeditEvent,
    by: i32,
)
    ensures
        ({
            let after = session.state_after(state, event, false);
            let told = match session.stage {
                Stage::Capturing => event is Captured,
                Stage::Starting => event is Started,
                Stage::Reading => event is Units,
                Stage::Ranging => event is Done,
                Stage::Writing => event is Done,
                Stage::Fetching => event is Done,
                Stage::Collapsing => event is Done,
                Stage::Selecting => event is Done,
                _ => false,
            };
            &&& told ==> after.stale
            &&& !session.checks(event) ==> after.stale == state.stale
        }),
        session.state_after(state, event, true).stale == state.stale,
        session.stage matches Stage::ConvertedStart { index } ==> (session.checks(
            PreeditEvent::Moved { by },
        ) <==> by == session.display.converted@[index as int].start as i32),
        session.stage == Stage::TargetStart ==> (session.checks(PreeditEvent::Moved { by }) <==> by
            == session.display.target->0.start as i32),
        session.stage == Stage::Caret ==> (session.checks(PreeditEvent::Moved { by }) <==> by
            == session.display.caret->0 as i32),
        session.checks(event) ==> session.state_after(state, event, false).stale,
        state.text_applied ==> session.state_after(state, event, true).text_applied,
        session.state_after(state, event, true).text_applied && !state.text_applied
            ==> session.stage == Stage::Reading || session.stage == Stage::Writing,
        !(session.answered(event, true, state.text_applied).action is End) ==> session.state_after(
            state,
            event,
            true,
        ).outcome == state.outcome,
{
}

/// The text counts as written once a write is done, or once the document was read and holds just
/// what is to be shown; and what was written stays so.
pub proof fn a_written_text_is_noted(
    session: StartOrUpdatePreedit,
    state: ApplyState,
    event: PreeditEvent,
    units: Vec<u16>,
    current: bool,
)
    ensures
        session.stage == Stage::Writing ==> session.state_after(
            state,
            PreeditEvent::Done,
            current,
        ).text_applied,
        session.stage == Stage::Reading && units@ == session.display.text@
            && !session.decoration_repeat ==> (session.finds_text(
            PreeditEvent::Units { units: Some(units) },
            true,
        ) ==> session.state_after(
            state,
            PreeditEvent::Units { units: Some(units) },
            true,
        ).text_applied),
        session.finds_text(event, current) ==> session.state_after(state, event, current).text_applied,
        state.text_applied ==> session.state_after(state, event, current).text_applied,
        !state.text_applied && !session.finds_text(event, current) ==> !session.state_after(
            state,
            event,
            current,
        ).text_applied,
{
}

/// The calls that change the document are known: a start, a write, the marks and the caret.
pub proof fn the_changing_calls_are_known(to: i32, code: i32)
    ensures
        changes_document(PreeditAction::StartComposition) && changes_document(PreeditAction::SetText),
        changes_document(PreeditAction::SetAttributes) && changes_document(
            PreeditAction::SetConverted,
        ),
        changes_document(PreeditAction::SetTarget) && changes_document(PreeditAction::SetSelection),
        !changes_document(PreeditAction::QueryInsertion) && !changes_document(
            PreeditAction::ReadText,
        ),
        !changes_document(PreeditAction::GetRange) && !changes_document(PreeditAction::GetProperty),
        !changes_document(PreeditAction::ShiftEnd { to }) && !changes_document(
            PreeditAction::End { code },
        ),
{
}

/// A failure without a code of its own is told as an unspecified one, the highest bit of which is
/// set.
pub proof fn an_unspecified_failure_has_its_code()
    ensures
        E_FAIL == 0x8000_4005 - 0x1_0000_0000,
        E_FAIL < 0,
{
}

} // verus!
