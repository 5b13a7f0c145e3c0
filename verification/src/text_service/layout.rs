//! Where the popups stand: the context whose layout is reported, and the last known caret.

use vstd::prelude::*;
use crate::reading_monitor::{should_show, CaretAnchor};

verus! {

/// The reports of a context, and the caret.
#[derive(Clone, Copy, Debug, PartialEq, Eq, Structural)]
pub struct LayoutState {
    /// The context that reports its layout and its edits.
    pub sink_ctx: Option<usize>,
    /// The number of the layout report, 0 for none.
    pub layout_cookie: u32,
    /// The number of the edit report, 0 for none.
    pub edit_cookie: u32,
    /// The generation that a query of the layout belongs to.
    pub gen: u64,
    /// A query of the layout is under way.
    pub refresh_pending: bool,
    pub last_valid_anchor: Option<CaretAnchor>,
}

/// Reports that have to be ended.
#[derive(Clone, Copy, Debug, PartialEq, Eq, Structural)]
pub struct Unadvise {
    pub ctx: Option<usize>,
    pub layout_cookie: u32,
    pub edit_cookie: u32,
}

/// What follows a change of the focused context.
#[derive(Clone, Copy, Debug, PartialEq, Eq, Structural)]
pub enum SinkStep {
    /// It is the same context.
    Same,
    /// The old reports end.
    Left { old: Option<Unadvise> },
    /// The old reports end, and the context is asked to report.
    Advise { old: Option<Unadvise>, ctx: usize },
}

/// A query of the layout.
#[derive(Clone, Copy, Debug, PartialEq, Eq, Structural)]
pub struct LayoutQuery {
    pub ctx: usize,
    pub gen: u64,
}

/// What decides which popups are placed anew.
#[derive(Clone, Copy, Debug, PartialEq, Eq, Structural)]
pub struct PopupFacts {
    /// Candidates are shown.
    pub showing: bool,
    pub has_items: bool,
    pub monitor_enabled: bool,
    pub composing: bool,
    pub live_enabled: bool,
    pub has_reading: bool,
}

/// Which popups are placed anew.
#[derive(Clone, Copy, Debug, PartialEq, Eq, Structural)]
pub struct RelayoutPlan {
    /// The candidates go here.
    pub candidates: Option<CaretAnchor>,
    /// The reading is shown again.
    pub monitor: bool,
}

impl LayoutState {
    /// Nothing is reported or known yet.
    pub open spec fn initial() -> LayoutState {
        LayoutState {
            sink_ctx: None,
            layout_cookie: 0,
            edit_cookie: 0,
            gen: 0,
            refresh_pending: false,
            last_valid_anchor: None,
        }
    }

    pub fn new() -> (r: Self)
        ensures
            r == LayoutState::initial(),
    {
        LayoutState {
            sink_ctx: None,
            layout_cookie: 0,
            edit_cookie: 0,
            gen: 0,
            refresh_pending: false,
            last_valid_anchor: None,
        }
    }

    /// Something is reported.
    pub open spec fn advised(self) -> bool {
        self.layout_cookie != 0 || self.edit_cookie != 0
    }

    /// The reports that have to be ended.
    pub open spec fn reports(self) -> Option<Unadvise> {
        if self.advised() {
            Some(
                Unadvise {
                    ctx: self.sink_ctx,
                    layout_cookie: self.layout_cookie,
                    edit_cookie: self.edit_cookie,
                },
            )
        } else {
            None
        }
    }

    /// Nothing is reported any more.
    pub open spec fn unadvised(self) -> LayoutState {
        if self.advised() {
            LayoutState { sink_ctx: None, layout_cookie: 0, edit_cookie: 0, ..self }
        } else {
            self
        }
    }

    /// Ends the reports.
    pub fn unadvise_layout_sink(&mut self) -> (r: Option<Unadvise>)
        ensures
            r == old(self).reports(),
            *final(self) == old(self).unadvised(),
    {
        if self.layout_cookie == 0 && self.edit_cookie == 0 {
            return None;
        }
        let old_reports = Unadvise {
            ctx: self.sink_ctx,
            layout_cookie: self.layout_cookie,
            edit_cookie: self.edit_cookie,
        };
        self.layout_cookie = 0;
        self.edit_cookie = 0;
        self.sink_ctx = None;
        Some(old_reports)
    }

    /// A new generation: queries that are under way belong to the old one.
    pub open spec fn bumped(self, issued: u64) -> LayoutState {
        LayoutState { gen: issued, refresh_pending: false, ..self }
    }

    /// Starts a new generation, under a number that was never used before.
    pub fn bump_layout_sink_gen(&mut self, issued: u64)
        ensures
            *final(self) == old(self).bumped(issued),
    {
        self.gen = issued;
        self.refresh_pending = false;
    }

    /// Another context has the focus, or none.
    pub fn set_layout_sink_context(&mut self, new_ctx: Option<usize>, issued: u64) -> (r: SinkStep)
        ensures
            if old(self).sink_ctx == new_ctx {
                r == SinkStep::Same && *final(self) == *old(self)
            } else {
                &&& *final(self) == old(self).bumped(issued).unadvised()
                &&& r == (match new_ctx {
                    None => SinkStep::Left { old: old(self).reports() },
                    Some(ctx) => SinkStep::Advise { old: old(self).reports(), ctx },
                })
            },
    {
        let same = match (self.sink_ctx, new_ctx) {
            (Some(a), Some(b)) => a == b,
            (None, None) => true,
            _ => false,
        };
        if same {
            return SinkStep::Same;
        }
        self.bump_layout_sink_gen(issued);
        let old_reports = self.unadvise_layout_sink();
        match new_ctx {
            None => SinkStep::Left { old: old_reports },
            Some(ctx) => SinkStep::Advise { old: old_reports, ctx },
        }
    }

    /// The context reports its layout, its edits, both or neither; 0 stands for a report that it
    /// does not give.
    pub fn layout_sink_advised(&mut self, ctx: usize, layout_cookie: u32, edit_cookie: u32)
        ensures
            *final(self) == (LayoutState {
                layout_cookie,
                edit_cookie,
                sink_ctx: if layout_cookie != 0 || edit_cookie != 0 {
                    Some(ctx)
                } else {
                    old(self).sink_ctx
                },
                ..*old(self)
            }),
    {
        self.layout_cookie = layout_cookie;
        self.edit_cookie = edit_cookie;
        if layout_cookie != 0 || edit_cookie != 0 {
            self.sink_ctx = Some(ctx);
        }
    }

    /// The layout changed. A query is wanted while popups are shown, one at a time.
    pub fn on_layout_change(&mut self, popups_visible: bool) -> (r: Option<LayoutQuery>)
        ensures
            r == (if popups_visible && !old(self).refresh_pending {
                match old(self).sink_ctx {
                    Some(ctx) => Some(LayoutQuery { ctx, gen: old(self).gen }),
                    None => None,
                }
            } else {
                None
            }),
            *final(self) == (LayoutState {
                refresh_pending: old(self).refresh_pending || r is Some,
                ..*old(self)
            }),
    {
        if !popups_visible || self.refresh_pending {
            return None;
        }
        match self.sink_ctx {
            Some(ctx) => {
                self.refresh_pending = true;
                Some(LayoutQuery { ctx, gen: self.gen })
            },
            None => None,
        }
    }

    /// The host did not take the query.
    pub fn layout_query_refused(&mut self)
        ensures
            *final(self) == (LayoutState { refresh_pending: false, ..*old(self) }),
    {
        self.refresh_pending = false;
    }

    /// A query is answered. `true` lets the answer count; one of an older generation does not, and
    /// does not end the query that is under way now.
    pub fn layout_refresh_apply(&mut self, gen: u64) -> (r: bool)
        ensures
            r == (old(self).gen == gen),
            *final(self) == (if r {
                LayoutState { refresh_pending: false, ..*old(self) }
            } else {
                *old(self)
            }),
    {
        if self.gen != gen {
            return false;
        }
        self.refresh_pending = false;
        true
    }

    /// Places the popups anew. The candidates go to the new caret, or to the last known one.
    pub fn relayout_popups_on_layout(
        &mut self,
        caret_anchor: Option<CaretAnchor>,
        facts: PopupFacts,
    ) -> (r: RelayoutPlan)
        ensures
            *final(self) == (LayoutState {
                last_valid_anchor: if caret_anchor is Some {
                    caret_anchor
                } else {
                    old(self).last_valid_anchor
                },
                ..*old(self)
            }),
            r.candidates == (if facts.showing && facts.has_items {
                final(self).last_valid_anchor
            } else {
                None
            }),
            r.monitor == (facts.monitor_enabled && facts.composing && facts.live_enabled
                && !facts.showing && facts.has_reading),
    {
        if caret_anchor.is_some() {
            self.last_valid_anchor = caret_anchor;
        }
        let candidates = if facts.showing && facts.has_items {
            self.last_valid_anchor
        } else {
            None
        };
        let monitor = should_show(
            facts.monitor_enabled,
            facts.composing,
            facts.live_enabled,
            facts.showing,
        ) && facts.has_reading;
        RelayoutPlan { candidates, monitor }
    }

    /// The place of the caret: the one that the host tells, else the last known one, else a place
    /// where a popup is in nobody's way.
    pub fn caret_point(&mut self, found: Option<CaretAnchor>, harmless_x: i32, harmless_y: i32)
     -> (r: CaretAnchor)
        ensures
            r == (match found {
                Some(anchor) => anchor,
                None => match old(self).last_valid_anchor {
                    Some(anchor) => anchor,
                    None => CaretAnchor { x: harmless_x, y: harmless_y, caret_top: None },
                },
            }),
            *final(self) == (LayoutState {
                last_valid_anchor: if found is Some {
                    found
                } else {
                    old(self).last_valid_anchor
                },
                ..*old(self)
            }),
    {
        match found {
            Some(anchor) => {
                self.last_valid_anchor = Some(anchor);
                anchor
            },
            None => match self.last_valid_anchor {
                Some(anchor) => anchor,
                None => CaretAnchor { x: harmless_x, y: harmless_y, caret_top: None },
            },
        }
    }

    /// The caret of another context is not this one's.
    pub fn forget_anchor(&mut self)
        ensures
            *final(self) == (LayoutState { last_valid_anchor: None, ..*old(self) }),
    {
        self.last_valid_anchor = None;
    }
}

/// An answer that was asked for in one context is never used in another: the focus moved on, so
/// the generation is another one.
pub proof fn a_late_layout_is_not_used(state: LayoutState, issued: u64)
    requires
        issued != state.gen,
    ensures
        state.bumped(issued).unadvised().gen != state.gen,
        !state.bumped(issued).unadvised().refresh_pending,
{
}

/// What a context reports is ended under the numbers that it was given, and with it the context is
/// let go; where nothing is reported, nothing changes.
pub proof fn reports_are_ended_under_their_numbers(layout: LayoutState, issued: u64)
    ensures
        layout.reports() is Some <==> layout.layout_cookie != 0 || layout.edit_cookie != 0,
        layout.reports() is Some ==> {
            &&& layout.reports()->0.ctx == layout.sink_ctx
            &&& layout.reports()->0.layout_cookie == layout.layout_cookie
            &&& layout.reports()->0.edit_cookie == layout.edit_cookie
            &&& layout.unadvised().sink_ctx is None
            &&& layout.unadvised().layout_cookie == 0 && layout.unadvised().edit_cookie == 0
        },
        layout.reports() is None ==> layout.unadvised() == layout,
        layout.unadvised().reports() is None,
        layout.unadvised().gen == layout.gen,
        layout.unadvised().last_valid_anchor == layout.last_valid_anchor,
        layout.advised() <==> layout.layout_cookie != 0 || layout.edit_cookie != 0,
        layout.bumped(issued).gen == issued && !layout.bumped(issued).refresh_pending,
        layout.bumped(issued).sink_ctx == layout.sink_ctx,
        layout.bumped(issued).layout_cookie == layout.layout_cookie,
        layout.bumped(issued).edit_cookie == layout.edit_cookie,
        layout.bumped(issued).last_valid_anchor == layout.last_valid_anchor,
{
}

/// Nothing is reported at first; ending reports and a new number touch just that.
pub proof fn nothing_is_reported_at_first(layout: LayoutState, issued: u64)
    ensures
        ({
            let first = LayoutState::initial();
            &&& first.sink_ctx is None && first.layout_cookie == 0 && first.edit_cookie == 0
            &&& first.gen == 0 && !first.refresh_pending && first.last_valid_anchor is None
        }),
        layout.unadvised() == (LayoutState {
            sink_ctx: layout.unadvised().sink_ctx,
            layout_cookie: 0,
            edit_cookie: 0,
            ..layout
        }),
        layout.bumped(issued) == (LayoutState { gen: issued, refresh_pending: false, ..layout }),
{
}

} // verus!
