//! The requests to draw the preedit, and which of them is the current one. A request outlives the
//! calls into the host, so it has to prove that it is still wanted after each of them.

use vstd::prelude::*;
use crate::utf16::{encode_utf16, utf16_of};

verus! {

/// The identity of a host object; an object that does not tell it is the same as no other.
pub type ObjectId = Option<usize>;

/// Two references to one object.
pub open spec fn same_object(a: ObjectId, b: ObjectId) -> bool {
    a is Some && a == b
}

/// Whether two references are to one object.
pub fn same(a: ObjectId, b: ObjectId) -> (r: bool)
    ensures
        r == same_object(a, b),
{
    match (a, b) {
        (Some(x), Some(y)) => x == y,
        _ => false,
    }
}

/// The same composition, or none on both sides.
pub open spec fn same_composition(a: Option<ObjectId>, b: Option<ObjectId>) -> bool {
    match (a, b) {
        (Some(x), Some(y)) => same_object(x, y),
        (None, None) => true,
        _ => false,
    }
}

fn compositions_match(a: Option<ObjectId>, b: Option<ObjectId>) -> (r: bool)
    ensures
        r == same_composition(a, b),
{
    match (a, b) {
        (Some(x), Some(y)) => same(x, y),
        (None, None) => true,
        _ => false,
    }
}

/// A stretch of the preedit, in UTF-16 units.
#[derive(Clone, Copy, Debug, PartialEq, Eq, Structural)]
pub struct Span {
    pub start: usize,
    pub len: usize,
}

/// How a request ended.
#[derive(Clone, Copy, Debug, PartialEq, Eq, Structural)]
pub enum ApplyOutcome {
    Pending,
    Applied,
    Failed,
}

/// How far a request has come.
#[derive(Clone, Copy, Debug, PartialEq, Eq, Structural)]
pub struct ApplyState {
    pub outcome: ApplyOutcome,
    pub stale: bool,
    pub text_applied: bool,
}

impl ApplyState {
    pub fn new() -> (r: Self)
        ensures
            r == (ApplyState { outcome: ApplyOutcome::Pending, stale: false, text_applied: false }),
    {
        ApplyState { outcome: ApplyOutcome::Pending, stale: false, text_applied: false }
    }

    /// The state after the request was found current or not.
    pub open spec fn begun(self, current: bool) -> ApplyState {
        ApplyState { stale: self.stale || !current, ..self }
    }

    /// Goes on if the request is current; one that is not never becomes so again.
    pub fn begin(&mut self, current: bool) -> (r: bool)
        ensures
            r == current,
            *final(self) == old(self).begun(current),
    {
        if !current {
            self.stale = true;
        }
        current
    }

    /// The text stands in the document.
    pub fn wrote_text(&mut self)
        ensures
            *final(self) == (ApplyState { text_applied: true, ..*old(self) }),
    {
        self.text_applied = true;
    }

    /// The state after the end with the given code; 0 is success.
    pub open spec fn completed(self, code: i32) -> ApplyState {
        ApplyState {
            outcome: if code == 0 {
                ApplyOutcome::Applied
            } else {
                ApplyOutcome::Failed
            },
            ..self
        }
    }

    /// The request ends with the given code.
    pub fn complete(&mut self, code: i32)
        ensures
            *final(self) == old(self).completed(code),
    {
        if code == 0 {
            self.outcome = ApplyOutcome::Applied;
        } else {
            self.outcome = ApplyOutcome::Failed;
        }
    }
}

/// The numbers by which a request is known outside.
#[derive(Clone, Copy, Debug, PartialEq, Eq, Structural)]
pub struct ApplyIdentity {
    pub context_token: u64,
    pub composition_token: u64,
    pub display_revision: u64,
    pub operation_id: u64,
}

/// What the preedit shows.
pub struct PreeditDisplay {
    pub text: Vec<u16>,
    pub target: Option<Span>,
    pub caret: Option<u32>,
    pub converted: Vec<Span>,
}

/// What the preedit shows, as values.
pub struct DisplayModel {
    pub text: Seq<u16>,
    pub target: Option<Span>,
    pub caret: Option<u32>,
    pub converted: Seq<Span>,
}

impl View for PreeditDisplay {
    type V = DisplayModel;

    open spec fn view(&self) -> DisplayModel {
        DisplayModel {
            text: self.text@,
            target: self.target,
            caret: self.caret,
            converted: self.converted@,
        }
    }
}

/// Whether two stretches of units are the same.
pub fn same_units(a: &[u16], b: &[u16]) -> (r: bool)
    ensures
        r == (a@ == b@),
{
    let len: usize = a.len();
    if len != b.len() {
        return false;
    }
    let mut i: usize = 0;
    while i < len
        invariant
            i <= len,
            len == a@.len() == b@.len(),
            forall|k: int| 0 <= k < i ==> a@[k] == b@[k],
        decreases len - i,
    {
        if a[i] != b[i] {
            return false;
        }
        i = i + 1;
    }
    assert(a@ =~= b@);
    true
}

fn same_spans(a: &[Span], b: &[Span]) -> (r: bool)
    ensures
        r == (a@ == b@),
{
    let len: usize = a.len();
    if len != b.len() {
        return false;
    }
    let mut i: usize = 0;
    while i < len
        invariant
            i <= len,
            len == a@.len() == b@.len(),
            forall|k: int| 0 <= k < i ==> a@[k] == b@[k],
        decreases len - i,
    {
        if a[i] != b[i] {
            return false;
        }
        i = i + 1;
    }
    assert(a@ =~= b@);
    true
}

impl PreeditDisplay {
    fn same_display(&self, other: &PreeditDisplay) -> (r: bool)
        ensures
            r == (self@ == other@),
    {
        let same_target = match (self.target, other.target) {
            (Some(a), Some(b)) => a == b,
            (None, None) => true,
            _ => false,
        };
        let same_caret = match (self.caret, other.caret) {
            (Some(a), Some(b)) => a == b,
            (None, None) => true,
            _ => false,
        };
        same_target && same_caret && same_units(self.text.as_slice(), other.text.as_slice())
            && same_spans(self.converted.as_slice(), other.converted.as_slice())
    }
}

/// One request to draw the preedit.
pub struct PreeditRequest {
    /// Tells this request from every other that is still held somewhere.
    pub handle: usize,
    pub identity: ApplyIdentity,
    pub context: ObjectId,
    pub display: PreeditDisplay,
    pub composition: Option<ObjectId>,
    pub state: ApplyState,
}

/// A request as its session knows it.
#[derive(Clone, Copy, Debug, PartialEq, Eq, Structural)]
pub struct Ticket {
    pub handle: usize,
    pub identity: ApplyIdentity,
}

impl PreeditRequest {
    pub open spec fn ticket(self) -> Ticket {
        Ticket { handle: self.handle, identity: self.identity }
    }

    /// The request still waits to be drawn as it is.
    pub open spec fn is_open(self) -> bool {
        !self.state.stale && self.state.outcome != ApplyOutcome::Applied
    }
}

/// The counter of requests and the current request.
pub struct PreeditApply {
    pub serial: u64,
    pub current: Option<PreeditRequest>,
}

impl PreeditApply {
    /// The request of a ticket is the current one.
    pub open spec fn holds(self, ticket: Ticket) -> bool {
        self.current is Some && self.current->0.ticket() == ticket
    }

    /// The request of a ticket is the current one and draws into the composition.
    pub open spec fn is_current_for(self, ticket: Ticket, composition: Option<ObjectId>) -> bool {
        self.holds(ticket) && same_composition(self.current->0.composition, composition)
    }

    /// The current request was made for the context.
    pub open spec fn in_context(self, context: ObjectId) -> bool {
        self.current is Some && same_object(self.current->0.context, context)
    }

    /// The current request draws into the composition.
    pub open spec fn in_composition(self, composition: Option<ObjectId>) -> bool {
        self.current is Some && same_composition(self.current->0.composition, composition)
    }

    /// The current request already asks for just this and waits.
    pub open spec fn asks_for(
        self,
        context: ObjectId,
        composition: Option<ObjectId>,
        display: DisplayModel,
    ) -> bool {
        self.in_context(context) && self.in_composition(composition) && self.current->0.display@
            == display && self.current->0.is_open()
    }

    /// The next revision. The last number stays with the end of the composition.
    pub open spec fn next_revision(self) -> u64 {
        if self.serial == u64::MAX {
            u64::MAX
        } else {
            (self.serial + 1) as u64
        }
    }

    /// The identity of the next request. It keeps the token of a context that stays, and with it
    /// the token of a composition that stays.
    pub open spec fn next_identity(
        self,
        context: ObjectId,
        composition: Option<ObjectId>,
    ) -> ApplyIdentity {
        ApplyIdentity {
            context_token: if self.in_context(context) {
                self.current->0.identity.context_token
            } else {
                self.next_revision()
            },
            composition_token: if self.in_context(context) && self.in_composition(composition) {
                self.current->0.identity.composition_token
            } else {
                self.next_revision()
            },
            display_revision: self.next_revision(),
            operation_id: self.next_revision(),
        }
    }

    pub fn new() -> (r: Self)
        ensures
            r.serial == 0,
            r.current is None,
    {
        PreeditApply { serial: 0, current: None }
    }

    fn next(&mut self) -> (r: u64)
        ensures
            r == old(self).next_revision(),
            *final(self) == (PreeditApply { serial: r, ..*old(self) }),
    {
        self.serial = self.serial.saturating_add(1);
        self.serial
    }

    /// Retires the current request.
    pub fn invalidate(&mut self)
        ensures
            *final(self) == (PreeditApply { current: None, ..*old(self) }),
    {
        self.current = None;
    }

    /// The composition has to end before anything else is drawn.
    pub fn needs_end(&self) -> (r: bool)
        ensures
            r == (self.serial >= u64::MAX - 1),
    {
        self.serial >= u64::MAX - 1
    }

    /// Starts over, once the composition and its owed close have ended.
    pub fn restart_after_end(&mut self)
        ensures
            *final(self) == (PreeditApply { serial: 0, current: None }),
    {
        self.current = None;
        self.serial = 0;
    }

    /// Sets the counter to where the composition has to end.
    pub fn force_near_capacity(&mut self)
        ensures
            *final(self) == (PreeditApply { serial: (u64::MAX - 1) as u64, ..*old(self) }),
    {
        self.serial = u64::MAX - 1;
    }

    /// Retires the current request unless it is for the context.
    pub fn retain_context(&mut self, context: Option<ObjectId>)
        ensures
            *final(self) == (if context is Some && old(self).in_context(context->0) {
                *old(self)
            } else {
                PreeditApply { current: None, ..*old(self) }
            }),
    {
        let keep = match (&self.current, context) {
            (Some(current), Some(context)) => same(current.context, context),
            _ => false,
        };
        if !keep {
            self.invalidate();
        }
    }

    /// The state of a request, while it is the current one.
    pub fn state_of(&self, ticket: Ticket) -> (r: Option<ApplyState>)
        ensures
            r == (if self.holds(ticket) {
                Some(self.current->0.state)
            } else {
                None
            }),
    {
        match &self.current {
            Some(current) => if current.handle == ticket.handle && current.identity
                == ticket.identity {
                Some(current.state)
            } else {
                None
            },
            None => None,
        }
    }

    /// The book with a new record of a request; that of a retired one is not kept.
    pub open spec fn recorded(
        self,
        ticket: Ticket,
        state: ApplyState,
        composition: Option<ObjectId>,
    ) -> PreeditApply {
        if self.holds(ticket) {
            PreeditApply {
                current: Some(PreeditRequest { state, composition, ..self.current->0 }),
                ..self
            }
        } else {
            self
        }
    }

    /// Sets the state of a request.
    pub fn record_state(&mut self, ticket: Ticket, state: ApplyState)
        ensures
            *final(self) == old(self).recorded(ticket, state, old(self).current->0.composition),
    {
        if let Some(mut current) = self.current.take() {
            if current.handle == ticket.handle && current.identity == ticket.identity {
                current.state = state;
            }
            self.current = Some(current);
        }
    }

    /// Sets the composition that a request draws into.
    pub fn record_composition(&mut self, ticket: Ticket, composition: ObjectId)
        ensures
            *final(self) == old(self).recorded(
                ticket,
                old(self).current->0.state,
                Some(composition),
            ),
    {
        if let Some(mut current) = self.current.take() {
            if current.handle == ticket.handle && current.identity == ticket.identity {
                current.composition = Some(composition);
            }
            self.current = Some(current);
        }
    }

    /// Whether a request is still wanted for a composition.
    pub fn is_current(&self, ticket: Ticket, composition: Option<ObjectId>) -> (r: bool)
        ensures
            r == self.is_current_for(ticket, composition),
    {
        match &self.current {
            Some(current) => current.handle == ticket.handle && current.identity
                == ticket.identity && compositions_match(current.composition, composition),
            None => false,
        }
    }

    /// Asks for the text alone.
    pub fn request(
        &mut self,
        handle: usize,
        context: ObjectId,
        composition: Option<ObjectId>,
        text: &str,
        target: Option<Span>,
    ) -> (r: Ticket)
        ensures
            final(self).requested(
                *old(self),
                handle,
                context,
                composition,
                (DisplayModel {
                    text: utf16_of(text@),
                    target,
                    caret: None,
                    converted: Seq::<Span>::empty(),
                }),
                r,
            ),
    {
        self.request_with_caret(handle, context, composition, text, target, None)
    }

    /// Asks for the text and the caret.
    pub fn request_with_caret(
        &mut self,
        handle: usize,
        context: ObjectId,
        composition: Option<ObjectId>,
        text: &str,
        target: Option<Span>,
        caret: Option<u32>,
    ) -> (r: Ticket)
        ensures
            final(self).requested(
                *old(self),
                handle,
                context,
                composition,
                (DisplayModel {
                    text: utf16_of(text@),
                    target,
                    caret,
                    converted: Seq::<Span>::empty(),
                }),
                r,
            ),
    {
        let converted: Vec<Span> = Vec::new();
        assert(converted@ == Seq::<Span>::empty());
        self.request_display(handle, context, composition, text, target, caret, converted)
    }

    /// `before` became `self` when a display was asked for, and `ticket` stands for the request:
    /// the current one where it asks for just this and waits, else a new one under `handle`.
    pub open spec fn requested(
        self,
        before: PreeditApply,
        handle: usize,
        context: ObjectId,
        composition: Option<ObjectId>,
        display: DisplayModel,
        ticket: Ticket,
    ) -> bool {
        if before.asks_for(context, composition, display) {
            self == before && ticket == before.current->0.ticket()
        } else {
            &&& self.serial == before.next_revision()
            &&& self.current is Some
            &&& self.current->0.handle == handle
            &&& self.current->0.identity == before.next_identity(context, composition)
            &&& self.current->0.context == context
            &&& self.current->0.composition == composition
            &&& self.current->0.display@ == display
            &&& self.current->0.state == (ApplyState {
                outcome: ApplyOutcome::Pending,
                stale: false,
                text_applied: false,
            })
            &&& ticket == self.current->0.ticket()
        }
    }

    /// Asks for a display.
    pub fn request_display(
        &mut self,
        handle: usize,
        context: ObjectId,
        composition: Option<ObjectId>,
        text: &str,
        target: Option<Span>,
        caret: Option<u32>,
        converted: Vec<Span>,
    ) -> (r: Ticket)
        ensures
            final(self).requested(
                *old(self),
                handle,
                context,
                composition,
                (DisplayModel { text: utf16_of(text@), target, caret, converted: converted@ }),
                r,
            ),
    {
        let display = PreeditDisplay { text: encode_utf16(text), target, caret, converted };
        let mut context_token: Option<u64> = None;
        let mut composition_token: Option<u64> = None;
        if let Some(current) = &self.current {
            let context_matches = same(current.context, context);
            let composition_matches = compositions_match(current.composition, composition);
            if context_matches && composition_matches && !current.state.stale
                && current.state.outcome != ApplyOutcome::Applied && current.display.same_display(
                &display,
            ) {
                return Ticket { handle: current.handle, identity: current.identity };
            }
            if context_matches {
                context_token = Some(current.identity.context_token);
                if composition_matches {
                    composition_token = Some(current.identity.composition_token);
                }
            }
        }
        let revision: u64 = self.next();
        let identity = ApplyIdentity {
            context_token: match context_token {
                Some(token) => token,
                None => revision,
            },
            composition_token: match composition_token {
                Some(token) => token,
                None => revision,
            },
            display_revision: revision,
            operation_id: revision,
        };
        self.current = Some(
            PreeditRequest {
                handle,
                identity,
                context,
                display,
                composition,
                state: ApplyState::new(),
            },
        );
        Ticket { handle, identity }
    }
}

/// A new request retires every other one: a session that holds another handle is not current any
/// more. The same display asked for twice is one request.
pub proof fn only_the_last_request_is_current(
    before: PreeditApply,
    after: PreeditApply,
    handle: usize,
    context: ObjectId,
    composition: Option<ObjectId>,
    display: DisplayModel,
    ticket: Ticket,
    other: Ticket,
)
    requires
        after.requested(before, handle, context, composition, display, ticket),
    ensures
        after.is_current_for(ticket, composition) || (composition is Some && composition->0 is None),
        other != ticket ==> !after.holds(other),
        context is Some && (composition is Some ==> composition->0 is Some) ==> after.asks_for(
            context,
            composition,
            display,
        ),
{
}

/// Each new request has a higher revision than all before it, until the counter is full; the
/// composition has to end before that happens.
pub proof fn revisions_rise(
    before: PreeditApply,
    after: PreeditApply,
    handle: usize,
    context: ObjectId,
    composition: Option<ObjectId>,
    display: DisplayModel,
    ticket: Ticket,
)
    requires
        after.requested(before, handle, context, composition, display, ticket),
        before.serial < u64::MAX - 1,
    ensures
        before.serial <= after.serial < u64::MAX,
        !before.asks_for(context, composition, display) ==> ticket.identity.display_revision
            > before.serial,
{
}

/// Objects are the same only where both tell their identity and it is the same; two times no
/// composition is the same composition.
pub proof fn objects_are_told_apart(a: ObjectId, b: ObjectId)
    ensures
        same_object(a, b) <==> a is Some && b is Some && a->0 == b->0,
        same_composition(None, None),
        !same_composition(Some(a), None) && !same_composition(None, Some(b)),
        same_composition(Some(a), Some(b)) <==> same_object(a, b),
{
}

/// A request that was found stale stays so, whatever comes after; how it ended is told by its code,
/// and whether its text was applied does not change with that.
pub proof fn a_stale_request_stays_stale(state: ApplyState, current: bool, code: i32)
    ensures
        state.stale ==> state.begun(current).stale,
        !current ==> state.begun(current).stale,
        current && !state.stale ==> state.begun(current) == state,
        state.begun(current).outcome == state.outcome,
        state.begun(current).text_applied == state.text_applied,
        code == 0 <==> state.completed(code).outcome == ApplyOutcome::Applied,
        code != 0 <==> state.completed(code).outcome == ApplyOutcome::Failed,
        state.completed(code).stale == state.stale,
        state.completed(code).text_applied == state.text_applied,
{
}

/// A request is current for exactly one ticket and the composition that it draws into.
pub proof fn a_request_is_current_for_its_ticket(
    apply: PreeditApply,
    ticket: Ticket,
    composition: Option<ObjectId>,
    context: ObjectId,
)
    ensures
        apply.holds(ticket) <==> apply.current is Some && apply.current->0.handle == ticket.handle
            && apply.current->0.identity == ticket.identity,
        apply.is_current_for(ticket, composition) <==> apply.holds(ticket) && same_composition(
            apply.current->0.composition,
            composition,
        ),
        apply.in_context(context) <==> apply.current is Some && same_object(
            apply.current->0.context,
            context,
        ),
        apply.in_composition(composition) <==> apply.current is Some && same_composition(
            apply.current->0.composition,
            composition,
        ),
        apply.current is Some ==> (apply.current->0.is_open() <==> !apply.current->0.state.stale
            && apply.current->0.state.outcome != ApplyOutcome::Applied),
{
}

/// What is noted of a request is noted of the current one alone, and nothing but its state and its
/// composition changes.
pub proof fn only_the_current_request_is_noted(
    apply: PreeditApply,
    ticket: Ticket,
    state: ApplyState,
    composition: Option<ObjectId>,
)
    ensures
        !apply.holds(ticket) ==> apply.recorded(ticket, state, composition) == apply,
        apply.holds(ticket) ==> {
            let after = apply.recorded(ticket, state, composition);
            &&& after.holds(ticket)
            &&& after.serial == apply.serial
            &&& after.current->0.state == state
            &&& after.current->0.composition == composition
            &&& after.current->0.display == apply.current->0.display
            &&& after.current->0.context == apply.current->0.context
        },
{
}

/// What is asked for is what is drawn: the current request shows the display, in the context and the
/// composition that were asked for. It is a new one with nothing done yet, unless just this is asked
/// for already. A context that stays keeps its token, and so does a composition in it.
pub proof fn a_request_asks_for_its_display(
    before: PreeditApply,
    after: PreeditApply,
    handle: usize,
    context: ObjectId,
    composition: Option<ObjectId>,
    display: DisplayModel,
    ticket: Ticket,
)
    requires
        after.requested(before, handle, context, composition, display, ticket),
        before.serial < u64::MAX,
    ensures
        after.current is Some,
        after.current->0.display@ == display,
        after.holds(ticket),
        same_object(after.current->0.context, context) || after.current->0.context == context,
        same_composition(after.current->0.composition, composition) || after.current->0.composition
            == composition,
        after != before ==> {
            &&& after.current->0.handle == handle
            &&& after.current->0.state.outcome == ApplyOutcome::Pending
            &&& !after.current->0.state.stale && !after.current->0.state.text_applied
        },
        after.serial != before.serial ==> {
            let id = after.current->0.identity;
            &&& after.serial == before.serial + 1
            &&& id.display_revision == after.serial && id.operation_id == after.serial
            &&& before.current is Some && same_object(before.current->0.context, context)
                ==> id.context_token == before.current->0.identity.context_token
            &&& !(before.current is Some && same_object(before.current->0.context, context))
                ==> id.context_token == after.serial && id.composition_token == after.serial
            &&& before.current is Some && same_object(before.current->0.context, context)
                && same_composition(before.current->0.composition, composition)
                ==> id.composition_token == before.current->0.identity.composition_token
            &&& before.current is Some && !same_composition(
                before.current->0.composition,
                composition,
            ) ==> id.composition_token == after.serial
        },
        before.current is Some && before.current->0.display@ != display ==> after.serial
            != before.serial,
{
}

/// A step of a request changes what it is about, and nothing else of it.
pub proof fn a_step_keeps_the_rest_of_a_request(
    state: ApplyState,
    current: bool,
    code: i32,
    apply: PreeditApply,
    ticket: Ticket,
    composition: Option<ObjectId>,
)
    ensures
        state.begun(current) == (ApplyState { stale: state.begun(current).stale, ..state }),
        state.completed(code) == (ApplyState { outcome: state.completed(code).outcome, ..state }),
        state.completed(0).outcome == ApplyOutcome::Applied,
        code != 0 ==> state.completed(code).outcome == ApplyOutcome::Failed,
        ({
            let after = apply.recorded(ticket, state, composition);
            &&& after == (PreeditApply { current: after.current, ..apply })
            &&& apply.holds(ticket) ==> after.current == Some(
                PreeditRequest { state, composition, ..apply.current->0 },
            )
            &&& !apply.holds(ticket) ==> after == apply
        }),
{
}

} // verus!
