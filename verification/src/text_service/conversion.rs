//! What is being converted: the texts on their way to the document, the candidates, and the
//! clauses.

use vstd::prelude::*;
use vstd::string::*;
use crate::preedit_apply::Span;
use crate::reading_monitor::{compose_monitor_text, display_bound, should_show};
use crate::text::{joined, opt_view, tail, views};
use crate::text_service::engine_link::ClauseViewData;
use crate::text_service::engine_ops::LiveText;
use crate::text_service::timer::TimerSlot;
use crate::utf16::{encode_utf16, the_units_of_a_whole_are_those_of_its_parts, utf16_of};

verus! {

/// How long typing has to pause before the live conversion, in milliseconds.
pub const DEBOUNCE_MS: u32 = 30;

/// The clauses that are shown. Their texts, one after the other, are the preedit.
#[derive(Clone, Debug, PartialEq, Eq)]
pub struct ClauseNav {
    pub segments: Vec<String>,
    pub selected: usize,
}

/// The value of a [`ClauseNav`].
#[verifier::ext_equal]
pub struct NavModel {
    pub segments: Seq<Seq<char>>,
    pub selected: usize,
}

impl View for ClauseNav {
    type V = NavModel;

    open spec fn view(&self) -> NavModel {
        NavModel { segments: views(self.segments@), selected: self.selected }
    }
}

/// The view of optional clauses.
pub open spec fn nav_view(nav: Option<ClauseNav>) -> Option<NavModel> {
    match nav {
        Some(n) => Some(n@),
        None => None,
    }
}

/// The state of a conversion.
pub struct ConversionState {
    /// Something was typed that is not committed yet.
    pub composing: bool,
    /// The external model was asked; keys wait.
    pub awaiting_llm: bool,
    pub llm_seq: u64,
    pub live_seq: u64,
    /// The last text that may be committed if the engine is lost.
    pub last_good: String,
    /// The text that is shown.
    pub live_text: String,
    pub last_reading: String,
    /// The text that was shown before the external model was asked.
    pub pre_llm_text: String,
    /// The reading of what was committed by itself, for the monitor.
    pub monitor_committed_reading: String,
    /// Candidates are shown.
    pub showing: bool,
    pub clause_nav: Option<ClauseNav>,
    /// Text of the document is converted again.
    pub reconverting: bool,
    pub reconvert_original: String,
    pub reconvert_reading: String,
    pub current_context: Option<usize>,
    /// The text before the composition.
    pub left_context: Option<String>,
    /// A worker asks the external model.
    pub llm_slot: bool,
    /// When the external model was asked, in milliseconds.
    pub llm_started: Option<u64>,
    pub llm_poll: TimerSlot,
    pub debounce: TimerSlot,
    pub live_enabled: bool,
    pub llm_enabled: bool,
}

/// The value of a [`ConversionState`].
#[verifier::ext_equal]
pub struct ConversionModel {
    pub composing: bool,
    pub awaiting_llm: bool,
    pub llm_seq: u64,
    pub live_seq: u64,
    pub last_good: Seq<char>,
    pub live_text: Seq<char>,
    pub last_reading: Seq<char>,
    pub pre_llm_text: Seq<char>,
    pub monitor_committed_reading: Seq<char>,
    pub showing: bool,
    pub clause_nav: Option<NavModel>,
    pub reconverting: bool,
    pub reconvert_original: Seq<char>,
    pub reconvert_reading: Seq<char>,
    pub current_context: Option<usize>,
    pub left_context: Option<Seq<char>>,
    pub llm_slot: bool,
    pub llm_started: Option<u64>,
    pub llm_poll: TimerSlot,
    pub debounce: TimerSlot,
    pub live_enabled: bool,
    pub llm_enabled: bool,
}

impl View for ConversionState {
    type V = ConversionModel;

    open spec fn view(&self) -> ConversionModel {
        ConversionModel {
            composing: self.composing,
            awaiting_llm: self.awaiting_llm,
            llm_seq: self.llm_seq,
            live_seq: self.live_seq,
            last_good: self.last_good@,
            live_text: self.live_text@,
            last_reading: self.last_reading@,
            pre_llm_text: self.pre_llm_text@,
            monitor_committed_reading: self.monitor_committed_reading@,
            showing: self.showing,
            clause_nav: nav_view(self.clause_nav),
            reconverting: self.reconverting,
            reconvert_original: self.reconvert_original@,
            reconvert_reading: self.reconvert_reading@,
            current_context: self.current_context,
            left_context: opt_view(self.left_context),
            llm_slot: self.llm_slot,
            llm_started: self.llm_started,
            llm_poll: self.llm_poll,
            debounce: self.debounce,
            live_enabled: self.live_enabled,
            llm_enabled: self.llm_enabled,
        }
    }
}

/// The number after `seq`.
pub open spec fn next_seq(seq: u64) -> u64 {
    if seq == u64::MAX {
        0
    } else {
        (seq + 1) as u64
    }
}

/// All texts, one after the other.
pub open spec fn concat(segments: Seq<Seq<char>>) -> Seq<char>
    decreases segments.len(),
{
    if segments.len() == 0 {
        Seq::empty()
    } else {
        concat(segments.drop_last()) + segments.last()
    }
}

/// The text that is drawn once the candidates are closed: a live conversion that came, else what
/// was shown, else the reading.
pub open spec fn closed_text(live: Option<Seq<char>>, live_text: Seq<char>, reading: Seq<char>)
 -> Option<Seq<char>> {
    if live is Some && live->0.len() > 0 {
        live
    } else if live_text.len() > 0 {
        Some(live_text)
    } else if reading.len() > 0 {
        Some(reading)
    } else {
        None
    }
}

/// What follows a moved selection.
#[derive(Debug, PartialEq, Eq)]
pub enum SyncStep {
    Nothing,
    /// The selected clause takes the candidate.
    Clause,
    /// The candidate is drawn as it is.
    Draw(String),
}

/// The clauses as a preedit.
#[derive(Debug, PartialEq, Eq)]
pub struct ClausePreedit {
    pub text: String,
    /// The selected clause.
    pub target: Span,
}

/// What follows a live conversion.
#[derive(Debug, PartialEq, Eq)]
pub enum LiveStep {
    Nothing,
    /// The engine committed the first part by itself: the document takes it, and the rest goes on.
    AutoCommit { prefix: String, text: String, reading: String },
    /// The text is drawn.
    Draw(String),
}

/// What follows a live conversion: a part that the engine committed goes before everything else.
pub open spec fn live_follows(live: Option<LiveText>) -> LiveStep {
    match live {
        Some(live) => if live.committed is Some && live.committed->0@.len() > 0 {
            LiveStep::AutoCommit {
                prefix: live.committed->0,
                text: live.text,
                reading: live.reading,
            }
        } else if live.text@.len() > 0 {
            LiveStep::Draw(live.text)
        } else {
            LiveStep::Nothing
        },
        None => LiveStep::Nothing,
    }
}

impl ConversionModel {
    /// Clauses are shown only together with candidates.
    pub open spec fn wf(self) -> bool {
        self.clause_nav is Some ==> self.showing
    }

    /// Nothing is converted, and nothing was ever asked.
    pub open spec fn initial() -> ConversionModel {
        ConversionModel {
            composing: false,
            awaiting_llm: false,
            llm_seq: 0,
            live_seq: 0,
            last_good: Seq::empty(),
            live_text: Seq::empty(),
            last_reading: Seq::empty(),
            pre_llm_text: Seq::empty(),
            monitor_committed_reading: Seq::empty(),
            showing: false,
            clause_nav: None,
            reconverting: false,
            reconvert_original: Seq::empty(),
            reconvert_reading: Seq::empty(),
            current_context: None,
            left_context: None,
            llm_slot: false,
            llm_started: None,
            llm_poll: TimerSlot::idle(),
            debounce: TimerSlot::idle(),
            live_enabled: true,
            llm_enabled: false,
        }
    }

    /// No candidates are shown.
    pub open spec fn closed(self) -> ConversionModel {
        ConversionModel { showing: false, clause_nav: None, ..self }
    }

    /// A text is shown that may be committed.
    pub open spec fn shows(self, text: Seq<char>) -> ConversionModel {
        ConversionModel { last_good: text, live_text: text, ..self }
    }

    /// Nothing is left of a composition: neither the text before it nor its reading.
    pub open spec fn without_surroundings(self) -> ConversionModel {
        ConversionModel {
            left_context: None,
            monitor_committed_reading: Seq::empty(),
            ..self
        }
    }

    /// The text that is shown, or the reading.
    pub open spec fn shown_text(self) -> Seq<char> {
        if self.live_text.len() == 0 {
            self.last_reading
        } else {
            self.live_text
        }
    }

    /// A pause in typing is waited for, where something follows from it.
    pub open spec fn waits_for_pause(self, redraw_pending: bool) -> ConversionModel {
        ConversionModel {
            debounce: if self.live_enabled || redraw_pending {
                self.debounce.armed(DEBOUNCE_MS)
            } else {
                self.debounce.disarmed()
            },
            ..self
        }
    }
}

impl ConversionState {
    pub fn new() -> (r: Self)
        ensures
            r@ == ConversionModel::initial(),
            r@.wf(),
    {
        ConversionState {
            composing: false,
            awaiting_llm: false,
            llm_seq: 0,
            live_seq: 0,
            last_good: String::new(),
            live_text: String::new(),
            last_reading: String::new(),
            pre_llm_text: String::new(),
            monitor_committed_reading: String::new(),
            showing: false,
            clause_nav: None,
            reconverting: false,
            reconvert_original: String::new(),
            reconvert_reading: String::new(),
            current_context: None,
            left_context: None,
            llm_slot: false,
            llm_started: None,
            llm_poll: TimerSlot::new(),
            debounce: TimerSlot::new(),
            live_enabled: true,
            llm_enabled: false,
        }
    }

    /// The clauses are not shown any more.
    pub fn clear_clause_nav(&mut self)
        ensures
            final(self)@ == (ConversionModel { clause_nav: None, ..old(self)@ }),
            final(self)@.wf(),
    {
        self.clause_nav = None;
    }

    /// The candidates are not shown any more, and no clauses with them.
    pub fn close_candidates(&mut self)
        ensures
            final(self)@ == old(self)@.closed(),
            final(self)@.wf(),
    {
        self.showing = false;
        self.clear_clause_nav();
    }

    /// The next live conversion.
    pub fn bump_live_seq(&mut self) -> (r: u64)
        ensures
            r == next_seq(old(self)@.live_seq),
            final(self)@ == (ConversionModel { live_seq: r, ..old(self)@ }),
    {
        self.live_seq = self.live_seq.wrapping_add(1);
        self.live_seq
    }

    /// A text may be committed if the engine is lost.
    pub fn mark_good(&mut self, text: &str)
        ensures
            final(self)@ == (ConversionModel { last_good: text@, ..old(self)@ }),
    {
        self.last_good = text.to_owned();
    }

    /// Waits for a pause in typing, where the live conversion is on or a redraw is owed.
    pub fn arm_debounce(&mut self, redraw_pending: bool)
        ensures
            final(self)@ == old(self)@.waits_for_pause(redraw_pending),
    {
        self.debounce.disarm();
        if self.live_enabled || redraw_pending {
            self.debounce.arm(DEBOUNCE_MS);
        }
    }

    /// No pause is waited for.
    pub fn disarm_debounce(&mut self)
        ensures
            final(self)@ == (ConversionModel {
                debounce: old(self)@.debounce.disarmed(),
                ..old(self)@
            }),
    {
        self.debounce.disarm();
    }

    /// The composition ended: the text before it and its reading are not kept.
    pub fn forget_surroundings(&mut self)
        ensures
            final(self)@ == old(self)@.without_surroundings(),
    {
        self.left_context = None;
        self.monitor_committed_reading = String::new();
    }

    /// The selection moved; `pick` is the candidate that a commit would take. What is seen is what
    /// a commit takes.
    pub fn sync_preedit_to_selection(&self, pick: Option<String>) -> (r: SyncStep)
        ensures
            r == (if !self@.showing {
                SyncStep::Nothing
            } else if self@.clause_nav is Some {
                SyncStep::Clause
            } else {
                match pick {
                    Some(text) => SyncStep::Draw(text),
                    None => SyncStep::Nothing,
                }
            }),
    {
        if !self.showing {
            return SyncStep::Nothing;
        }
        if self.clause_nav.is_some() {
            return SyncStep::Clause;
        }
        match pick {
            Some(text) => SyncStep::Draw(text),
            None => SyncStep::Nothing,
        }
    }

    /// The engine told the clauses: they are shown from now on. The result is what the candidate
    /// list shows.
    pub fn apply_clause_view(&mut self, view: ClauseViewData) -> (r: (Vec<String>, usize))
        ensures
            r.0 == view.candidates,
            r.1 == view.candidate_index,
            final(self)@ == (ConversionModel {
                clause_nav: Some(
                    NavModel { segments: views(view.segments@), selected: view.selected },
                ),
                ..old(self)@
            }),
            old(self)@.showing ==> final(self)@.wf(),
    {
        self.clause_nav = Some(ClauseNav { segments: view.segments, selected: view.selected });
        (view.candidates, view.candidate_index)
    }

    /// The selection of a clause moved. The candidate list of the selected clause follows where the
    /// engine told the clauses; without them everything stays, and the caller commits instead.
    pub fn move_clause(&mut self, view: Option<ClauseViewData>) -> (r: Option<(Vec<String>, usize)>)
        ensures
            match view {
                Some(view) => {
                    &&& r == Some((view.candidates, view.candidate_index))
                    &&& final(self)@ == (ConversionModel {
                        clause_nav: Some(
                            NavModel { segments: views(view.segments@), selected: view.selected },
                        ),
                        ..old(self)@
                    })
                },
                None => r is None && final(self)@ == old(self)@,
            },
            old(self)@.wf() && old(self)@.showing ==> final(self)@.wf(),
    {
        match view {
            Some(view) => Some(self.apply_clause_view(view)),
            None => None,
        }
    }

    /// The clauses as a preedit: all of them, with the selected one as the target.
    pub fn run_clause_preedit(&self) -> (r: Option<ClausePreedit>)
        ensures
            match self@.clause_nav {
                None => r is None,
                Some(nav) => {
                    &&& r is Some
                    &&& r->0.text@ == concat(nav.segments)
                    &&& r->0.target == clause_target(nav)
                    &&& r->0.target.start == units_before(nav.segments, nav.selected as int)
                    &&& nav.selected < nav.segments.len() ==> utf16_of(r->0.text@).subrange(
                        r->0.target.start as int,
                        r->0.target.start + r->0.target.len,
                    ) == utf16_of(nav.segments[nav.selected as int])
                    &&& nav.selected >= nav.segments.len() ==> r->0.target.len == 0
                },
            },
    {
        match &self.clause_nav {
            None => None,
            Some(nav) => {
                let before = concat_to(&nav.segments, nav.selected);
                let start: usize = encode_utf16(before.as_str()).len();
                let len: usize = if nav.selected < nav.segments.len() {
                    encode_utf16(nav.segments[nav.selected].as_str()).len()
                } else {
                    0
                };
                let text = concat_to(&nav.segments, nav.segments.len());
                proof {
                    let all = nav@.segments;
                    assert(all.take(all.len() as int) =~= all);
                    if nav.selected as int >= all.len() {
                        assert(all.take(least(nav.selected as int, all.len() as int)) =~= all);
                    }
                    let at = least(nav.selected as int, all.len() as int);
                    units_before_counts(all, at);
                    assert(units_before(all, nav.selected as int) == units_before(all, at)) by {
                        units_before_stops(all, nav.selected as int);
                    }
                    if nav.selected < all.len() {
                        selected_units(nav@);
                    }
                }
                Some(ClausePreedit { text, target: Span { start, len } })
            },
        }
    }

    /// A candidate was chosen for the selected clause. The engine's view counts; without one the
    /// candidate is shown, so that what is seen is still what a commit takes.
    pub fn sync_clause_to_selection(
        &mut self,
        view: Option<ClauseViewData>,
        candidate: Option<String>,
    )
        ensures
            final(self)@ == (ConversionModel {
                clause_nav: match view {
                    Some(view) => Some(
                        NavModel { segments: views(view.segments@), selected: view.selected },
                    ),
                    None => match (old(self)@.clause_nav, candidate) {
                        (Some(nav), Some(text)) if nav.selected < nav.segments.len() => Some(
                            NavModel {
                                segments: nav.segments.update(nav.selected as int, text@),
                                ..nav
                            },
                        ),
                        _ => old(self)@.clause_nav,
                    },
                },
                ..old(self)@
            }),
            old(self)@.showing ==> final(self)@.wf(),
    {
        match view {
            Some(view) => {
                self.clause_nav = Some(
                    ClauseNav { segments: view.segments, selected: view.selected },
                );
            },
            None => {
                if let Some(text) = candidate {
                    if let Some(mut nav) = self.clause_nav.take() {
                        if nav.selected < nav.segments.len() {
                            let ghost before = nav.segments@;
                            let selected: usize = nav.selected;
                            nav.segments.set(selected, text);
                            assert(views(nav.segments@) =~= views(before).update(
                                selected as int,
                                text@,
                            ));
                        }
                        self.clause_nav = Some(nav);
                    }
                }
            },
        }
    }

    /// Whether the engine may be asked for a live conversion: the user wants them, and the notation
    /// is not fixed.
    pub fn should_consult_live_engine(&self, notation_fixed: bool) -> (r: bool)
        ensures
            r == (self@.live_enabled && !notation_fixed),
    {
        self.live_enabled && !notation_fixed
    }

    /// The candidates are closed and the composition stays. The engine is asked first, where it may
    /// be, under the number in the result; it must not commit anything by itself.
    pub fn begin_restore_live(&mut self, notation_fixed: bool) -> (r: Option<u64>)
        ensures
            r == (if old(self)@.live_enabled && !notation_fixed {
                Some(next_seq(old(self)@.live_seq))
            } else {
                None
            }),
            final(self)@ == (if r is Some {
                ConversionModel { live_seq: next_seq(old(self)@.live_seq), ..old(self)@ }
            } else {
                old(self)@
            }),
    {
        if self.should_consult_live_engine(notation_fixed) {
            Some(self.bump_live_seq())
        } else {
            None
        }
    }

    /// The candidates were closed and the composition stays: the text to draw. `live` is what the
    /// engine converts now, where it was asked.
    pub fn restore_live_preedit(&mut self, live: Option<String>) -> (r: Option<String>)
        ensures
            opt_view(r) == closed_text(
                opt_view(live),
                old(self)@.live_text,
                old(self)@.last_reading,
            ),
            final(self)@ == (if live is Some && live->0@.len() > 0 {
                old(self)@.shows(live->0@)
            } else {
                old(self)@
            }),
    {
        if let Some(text) = live {
            if !text.as_str().is_empty() {
                self.mark_good(text.as_str());
                self.live_text = text.clone();
                return Some(text);
            }
        }
        if !self.live_text.as_str().is_empty() {
            return Some(self.live_text.clone());
        }
        if !self.last_reading.as_str().is_empty() {
            return Some(self.last_reading.clone());
        }
        None
    }

    /// The reading that the monitor shows.
    pub open spec fn monitor_text(self, accumulate: bool, max_chars: u32) -> Seq<char> {
        if accumulate {
            tail(self.monitor_committed_reading@ + self.last_reading@, 2 * max_chars)
        } else {
            self.last_reading@
        }
    }

    /// The reading that the monitor shows.
    pub fn monitor_reading_text(&self, accumulate: bool, max_chars: u32) -> (r: String)
        requires
            2 * max_chars <= usize::MAX,
        ensures
            r@ == self.monitor_text(accumulate, max_chars),
    {
        if accumulate {
            compose_monitor_text(
                self.monitor_committed_reading.as_str(),
                self.last_reading.as_str(),
                display_bound(max_chars),
            )
        } else {
            self.last_reading.clone()
        }
    }

    /// The reading to show, or nothing where the monitor is closed.
    pub fn update_reading_monitor(&self, enabled: bool, accumulate: bool, max_chars: u32) -> (r:
        Option<String>)
        requires
            2 * max_chars <= usize::MAX,
        ensures
            opt_view(r) == (if enabled && self@.composing && self@.live_enabled && !self@.showing
                && self.monitor_text(accumulate, max_chars).len() > 0 {
                Some(self.monitor_text(accumulate, max_chars))
            } else {
                None
            }),
    {
        let visible = should_show(enabled, self.composing, self.live_enabled, self.showing);
        let reading = self.monitor_reading_text(accumulate, max_chars);
        if !visible || reading.as_str().is_empty() {
            return None;
        }
        Some(reading)
    }

    /// The text that is shown, or the reading.
    pub fn shown(&self) -> (r: String)
        ensures
            r@ == self@.shown_text(),
    {
        if self.live_text.as_str().is_empty() {
            self.last_reading.clone()
        } else {
            self.live_text.clone()
        }
    }

    /// A pause came, and the engine converted or not.
    pub fn on_debounce_convert(&mut self, live: Option<LiveText>) -> (r: LiveStep)
        ensures
            r == live_follows(live),
            match live {
                Some(live) => if live.committed is Some && live.committed->0@.len() > 0 {
                    &&& r == (LiveStep::AutoCommit {
                        prefix: live.committed->0,
                        text: live.text,
                        reading: live.reading,
                    })
                    &&& final(self)@ == old(self)@
                } else if live.text@.len() > 0 {
                    r == LiveStep::Draw(live.text) && final(self)@ == old(self)@.shows(live.text@)
                } else {
                    r == LiveStep::Nothing && final(self)@ == old(self)@
                },
                None => r == LiveStep::Nothing && final(self)@ == old(self)@,
            },
    {
        let live = match live {
            Some(live) => live,
            None => return LiveStep::Nothing,
        };
        if let Some(prefix) = live.committed {
            if !prefix.as_str().is_empty() {
                return LiveStep::AutoCommit { prefix, text: live.text, reading: live.reading };
            }
        }
        if live.text.as_str().is_empty() {
            return LiveStep::Nothing;
        }
        self.mark_good(live.text.as_str());
        self.live_text = live.text.clone();
        LiveStep::Draw(live.text)
    }
}

/// The smaller number.
pub open spec fn least(a: int, b: int) -> int {
    if a < b {
        a
    } else {
        b
    }
}

/// The selected clause, in UTF-16 units of the whole text.
pub open spec fn clause_target(nav: NavModel) -> Span {
    Span {
        start: utf16_of(
            concat(nav.segments.take(least(nav.selected as int, nav.segments.len() as int))),
        ).len() as usize,
        len: if nav.selected < nav.segments.len() {
            utf16_of(nav.segments[nav.selected as int]).len() as usize
        } else {
            0
        },
    }
}

fn concat_to(segments: &Vec<String>, end: usize) -> (r: String)
    ensures
        r@ == concat(views(segments@).take(least(end as int, segments@.len() as int))),
{
    let mut out = String::new();
    let mut i: usize = 0;
    assert(views(segments@).take(0) =~= Seq::empty());
    while i < segments.len() && i < end
        invariant
            i <= segments@.len(),
            i <= end,
            out@ == concat(views(segments@).take(i as int)),
        decreases segments@.len() - i,
    {
        out = joined(out.as_str(), segments[i].as_str());
        proof {
            let next = views(segments@).take(i + 1);
            assert(next.drop_last() =~= views(segments@).take(i as int));
            assert(next.last() == segments@[i as int]@);
        }
        i = i + 1;
    }
    out
}

/// How many units the first `n` clauses have together.
pub open spec fn units_before(segments: Seq<Seq<char>>, n: int) -> int
    decreases n,
{
    if n <= 0 {
        0
    } else if n > segments.len() {
        units_before(segments, n - 1)
    } else {
        units_before(segments, n - 1) + utf16_of(segments[n - 1]).len()
    }
}

proof fn units_before_counts(segments: Seq<Seq<char>>, n: int)
    requires
        0 <= n <= segments.len(),
    ensures
        units_before(segments, n) == utf16_of(concat(segments.take(n))).len(),
    decreases n,
{
    if n > 0 {
        units_before_counts(segments, n - 1);
        assert(segments.take(n).drop_last() =~= segments.take(n - 1));
        assert(segments.take(n).last() == segments[n - 1]);
        the_units_of_a_whole_are_those_of_its_parts(
            concat(segments.take(n - 1)),
            segments[n - 1],
            'a',
        );
    } else {
        assert(segments.take(0) =~= Seq::empty());
    }
}

proof fn units_before_stops(segments: Seq<Seq<char>>, n: int)
    requires
        n >= 0,
    ensures
        n > segments.len() ==> units_before(segments, n) == units_before(
            segments,
            segments.len() as int,
        ),
    decreases n,
{
    if n > segments.len() {
        units_before_stops(segments, n - 1);
    }
}

proof fn selected_units(nav: NavModel)
    requires
        nav.selected < nav.segments.len(),
    ensures
        ({
            let start = utf16_of(concat(nav.segments.take(nav.selected as int))).len() as int;
            let len = utf16_of(nav.segments[nav.selected as int]).len();
            &&& start + len <= utf16_of(concat(nav.segments)).len()
            &&& utf16_of(concat(nav.segments)).subrange(start, start + len) == utf16_of(
                nav.segments[nav.selected as int],
            )
        }),
{
    let before = concat(nav.segments.take(nav.selected as int));
    let own = nav.segments[nav.selected as int];
    let behind = concat(nav.segments.skip(nav.selected + 1));
    clauses_around(nav);
    the_units_of_a_whole_are_those_of_its_parts(before + own, behind, 'a');
    the_units_of_a_whole_are_those_of_its_parts(before, own, 'a');
    let start = utf16_of(before).len() as int;
    assert(utf16_of(concat(nav.segments)).subrange(start, start + utf16_of(own).len()) =~= utf16_of(
        own,
    ));
}

proof fn clauses_around(nav: NavModel)
    requires
        nav.selected < nav.segments.len(),
    ensures
        concat(nav.segments) == concat(nav.segments.take(nav.selected as int))
            + nav.segments[nav.selected as int] + concat(
            nav.segments.skip(nav.selected + 1),
        ),
{
    let k = nav.selected as int;
    let all = nav.segments;
    concat_splits(all, k);
    concat_splits(all.skip(k), 1);
    assert(all.skip(k).take(1) =~= seq![all[k]]);
    assert(all.skip(k).skip(1) =~= all.skip(k + 1));
    assert(seq![all[k]].drop_last() =~= Seq::empty());
    reveal_with_fuel(concat, 2);
    assert(concat(seq![all[k]]) =~= all[k]);
    assert(concat(all) =~= concat(all.take(k)) + all[k] + concat(all.skip(k + 1)));
}

/// What is seen is what a commit takes: the text is that of all clauses in order, and the target
/// covers exactly the selected one. It begins behind all the units of the clauses before it, the
/// units that it covers are those of the selected clause, and a selection behind the last clause
/// covers nothing.
pub proof fn the_target_is_the_selected_clause(nav: NavModel)
    ensures
        nav.selected < nav.segments.len() && utf16_of(concat(nav.segments)).len() <= usize::MAX ==> ({
            let target = clause_target(nav);
            let units = utf16_of(concat(nav.segments));
            &&& target.start + target.len <= units.len()
            &&& units.subrange(target.start as int, target.start + target.len) == utf16_of(
                nav.segments[nav.selected as int],
            )
            &&& units.take(target.start as int) == utf16_of(
                concat(nav.segments.take(nav.selected as int)),
            )
            &&& target.start == units_before(nav.segments, nav.selected as int)
        }),
        nav.selected < nav.segments.len() ==> concat(nav.segments) == concat(
            nav.segments.take(nav.selected as int),
        ) + nav.segments[nav.selected as int] + concat(nav.segments.skip(nav.selected + 1)),
        nav.selected >= nav.segments.len() ==> clause_target(nav).len == 0,
{
    if nav.selected < nav.segments.len() {
        let k = nav.selected as int;
        let before = concat(nav.segments.take(k));
        let own = nav.segments[k];
        clauses_around(nav);
        if utf16_of(concat(nav.segments)).len() <= usize::MAX {
            selected_units(nav);
            units_before_counts(nav.segments, k);
        }
        the_units_of_a_whole_are_those_of_its_parts(
            before,
            own + concat(nav.segments.skip(k + 1)),
            'a',
        );
        assert(concat(nav.segments) =~= before + (own + concat(nav.segments.skip(k + 1))));
        assert(utf16_of(concat(nav.segments)).take(utf16_of(before).len() as int) =~= utf16_of(
            before,
        ));
    }
}

/// The texts of two parts, one after the other, are the texts of the whole.
pub proof fn concat_splits(all: Seq<Seq<char>>, k: int)
    requires
        0 <= k <= all.len(),
    ensures
        concat(all) == concat(all.take(k)) + concat(all.skip(k)),
    decreases all.len(),
{
    if k == all.len() {
        assert(all.take(k) =~= all);
        assert(all.skip(k) =~= Seq::empty());
    } else {
        concat_splits(all.drop_last(), k);
        assert(all.drop_last().take(k) =~= all.take(k));
        assert(all.skip(k).drop_last() =~= all.drop_last().skip(k));
        assert(all.skip(k).last() == all.last());
        assert(concat(all) =~= concat(all.take(k)) + concat(all.skip(k)));
    }
}

/// One text alone is itself, and no text is nothing.
pub proof fn one_text_is_itself(text: Seq<char>)
    ensures
        concat(seq![text]) == text,
        concat(Seq::<Seq<char>>::empty()) == Seq::<char>::empty(),
{
    reveal_with_fuel(concat, 2);
    assert(seq![text].drop_last() =~= Seq::empty());
    assert(concat(seq![text]) =~= text);
}

/// Once the candidates are closed something that was typed is always shown, where there is any: the
/// newest conversion first, else what was shown, else the reading.
pub proof fn closing_candidates_shows_the_newest_text(
    live: Option<Seq<char>>,
    shown: Seq<char>,
    reading: Seq<char>,
)
    ensures
        live is Some && live->0.len() > 0 ==> closed_text(live, shown, reading) == live,
        !(live is Some && live->0.len() > 0) && shown.len() > 0 ==> closed_text(
            live,
            shown,
            reading,
        ) == Some(shown),
        !(live is Some && live->0.len() > 0) && shown.len() == 0 && reading.len() > 0
            ==> closed_text(live, shown, reading) == Some(reading),
        closed_text(live, shown, reading) is None <==> !(live is Some && live->0.len() > 0)
            && shown.len() == 0 && reading.len() == 0,
        closed_text(live, shown, reading) is Some ==> closed_text(live, shown, reading)->0.len() > 0,
{
}

/// A text that is shown may be committed, and is what a commit without the engine would take. What
/// else is converted, and whether candidates are shown, does not change.
pub proof fn a_shown_text_may_be_committed(m: ConversionModel, text: Seq<char>)
    ensures
        m.shows(text).live_text == text && m.shows(text).last_good == text,
        text.len() > 0 ==> m.shows(text).shown_text() == text,
        m.shows(text).last_reading == m.last_reading,
        m.shows(text).composing == m.composing && m.shows(text).showing == m.showing,
        m.shows(text).clause_nav == m.clause_nav,
        m.shows(text).current_context == m.current_context,
        m.shows(text).left_context == m.left_context,
        m.shows(text).live_seq == m.live_seq && m.shows(text).llm_seq == m.llm_seq,
        m.live_text.len() > 0 ==> m.shown_text() == m.live_text,
        m.live_text.len() == 0 ==> m.shown_text() == m.last_reading,
{
}

/// Closed candidates leave no clauses behind, and nothing that was typed changes.
pub proof fn closed_candidates_leave_the_text(m: ConversionModel)
    ensures
        !m.closed().showing && m.closed().clause_nav is None,
        m.closed().live_text == m.live_text && m.closed().last_good == m.last_good,
        m.closed().last_reading == m.last_reading && m.closed().composing == m.composing,
        m.closed().current_context == m.current_context,
        m.closed().left_context == m.left_context,
        m.closed().reconverting == m.reconverting,
        m.closed().wf(),
{
}

/// The text around a composition is not kept behind it; what was typed is.
pub proof fn surroundings_end_with_the_composition(m: ConversionModel)
    ensures
        m.without_surroundings().left_context is None,
        m.without_surroundings().monitor_committed_reading.len() == 0,
        m.without_surroundings().live_text == m.live_text,
        m.without_surroundings().last_reading == m.last_reading,
        m.without_surroundings().composing == m.composing,
        m.without_surroundings().current_context == m.current_context,
        m.without_surroundings().debounce == m.debounce,
{
}

/// A pause of 30 milliseconds is waited for exactly where something follows from it: a live
/// conversion, or a redraw that is owed.
pub proof fn a_pause_is_waited_for_where_it_matters(m: ConversionModel, redraw: bool)
    ensures
        m.live_enabled || redraw ==> m.waits_for_pause(redraw).debounce.wanted == Some(30u32),
        !m.live_enabled && !redraw ==> !m.waits_for_pause(redraw).debounce.pending(),
        m.waits_for_pause(redraw).debounce.id == 0,
        m.debounce.id != 0 ==> m.waits_for_pause(redraw).debounce.stop == m.debounce.id,
        m.waits_for_pause(redraw).live_text == m.live_text,
        m.waits_for_pause(redraw).live_seq == m.live_seq,
        m.waits_for_pause(redraw).current_context == m.current_context,
{
}

/// Each conversion has a number of its own.
pub proof fn conversions_are_numbered(seq: u64)
    ensures
        next_seq(seq) != seq,
        seq < u64::MAX ==> next_seq(seq) == seq + 1,
        next_seq(u64::MAX) == 0,
{
}

/// The monitor shows the reading; where it gathers, the end of all that was read, and the newest
/// part of the reading is never cut for the sake of the older.
pub proof fn the_monitor_shows_the_newest_reading(c: ConversionState, max_chars: u32)
    ensures
        c.monitor_text(false, max_chars) == c.last_reading@,
        c.monitor_text(true, max_chars) == tail(
            c.monitor_committed_reading@ + c.last_reading@,
            2 * max_chars,
        ),
        c.last_reading@.len() <= 2 * max_chars ==> exists|older: Seq<char>|
            c.monitor_text(true, max_chars) == #[trigger] (older + c.last_reading@),
{
    let all = c.monitor_committed_reading@ + c.last_reading@;
    let shown = c.monitor_text(true, max_chars);
    if c.last_reading@.len() <= 2 * max_chars {
        let older = shown.take(shown.len() - c.last_reading@.len());
        assert(shown =~= older + c.last_reading@);
    }
}

/// The view of clauses is their texts and the selection.
pub proof fn clauses_are_seen_as_they_are(nav: ClauseNav)
    ensures
        nav_view(Some(nav)) is Some,
        nav_view(None) is None,
        nav_view(Some(nav))->0.selected == nav.selected,
        nav_view(Some(nav))->0.segments.len() == nav.segments@.len(),
        forall|i: int|
            0 <= i < nav.segments@.len() ==> #[trigger] nav_view(Some(nav))->0.segments[i]
                == nav.segments@[i]@,
{
}

/// Nothing is composed or shown at first; live conversion is on, the external model is not.
pub proof fn nothing_is_converted_at_first()
    ensures
        ({
            let first = ConversionModel::initial();
            &&& !first.composing && !first.awaiting_llm && !first.showing && !first.reconverting
            &&& first.llm_seq == 0 && first.live_seq == 0
            &&& first.last_good.len() == 0 && first.live_text.len() == 0
            &&& first.last_reading.len() == 0 && first.pre_llm_text.len() == 0
            &&& first.monitor_committed_reading.len() == 0
            &&& first.reconvert_original.len() == 0 && first.reconvert_reading.len() == 0
            &&& first.clause_nav is None && first.current_context is None
            &&& first.left_context is None
            &&& !first.llm_slot && first.llm_started is None
            &&& !first.llm_poll.pending() && !first.debounce.pending()
            &&& first.live_enabled && !first.llm_enabled
        }),
{
}

/// Closing candidates, showing a text, forgetting the surroundings and waiting for a pause touch
/// just what they are about.
pub proof fn a_change_of_the_view_keeps_the_rest(
    m: ConversionModel,
    text: Seq<char>,
    redraw_pending: bool,
)
    ensures
        m.closed() == (ConversionModel { showing: false, clause_nav: None, ..m }),
        m.shows(text) == (ConversionModel { last_good: text, live_text: text, ..m }),
        m.without_surroundings() == (ConversionModel {
            left_context: None,
            monitor_committed_reading: m.without_surroundings().monitor_committed_reading,
            ..m
        }),
        m.without_surroundings().monitor_committed_reading.len() == 0,
        m.waits_for_pause(redraw_pending) == (ConversionModel {
            debounce: m.waits_for_pause(redraw_pending).debounce,
            ..m
        }),
{
}

/// A pause is 30 milliseconds long.
pub proof fn a_pause_is_short()
    ensures
        DEBOUNCE_MS == 30,
{
}

} // verus!
