use nospacekey_tip::preedit_apply::{
    same, ApplyOutcome, ApplyState, PreeditApply, PreeditDisplay, Span, Ticket,
};
use nospacekey_tip::preedit_session::{
    check_request, PreeditAction, PreeditEvent, PreeditOutputs, StartOrUpdatePreedit, Stage, E_FAIL,
};

fn display(text: &str, target: Option<Span>, caret: Option<u32>) -> PreeditDisplay {
    PreeditDisplay {
        text: text.encode_utf16().collect(),
        target,
        caret,
        converted: Vec::new(),
    }
}

fn span(start: usize, len: usize) -> Option<Span> {
    Some(Span { start, len })
}

#[test]
fn the_same_display_asked_for_twice_is_one_request() {
    let mut apply = PreeditApply::new();
    let first = apply.request(1, Some(5), None, "きょう", None);
    assert_eq!(first.identity.display_revision, 1);
    assert_eq!(apply.request(2, Some(5), None, "きょう", None), first);
    let second = apply.request(3, Some(5), None, "今日", None);
    assert_eq!(second.handle, 3);
    assert_eq!(second.identity.display_revision, 2);
    assert_eq!(
        (second.identity.context_token, second.identity.composition_token),
        (1, 1)
    );
    assert!(!apply.is_current(first, None) && apply.is_current(second, None));
    assert_eq!(apply.state_of(first), None);
    let third = apply.request_with_caret(4, Some(5), Some(Some(9)), "今日", None, Some(1));
    assert_eq!(
        (third.identity.context_token, third.identity.composition_token),
        (1, 3)
    );
    let fourth = apply.request(5, Some(6), Some(Some(9)), "今日", span(0, 1));
    assert_eq!(
        (fourth.identity.context_token, fourth.identity.composition_token),
        (4, 4)
    );
    let fifth = apply.request_display(
        6,
        Some(6),
        Some(Some(9)),
        "今日",
        span(0, 1),
        None,
        vec![Span { start: 0, len: 1 }],
    );
    assert_ne!(fifth, fourth);
}

#[test]
fn an_applied_or_stale_request_is_made_anew() {
    let mut apply = PreeditApply::new();
    let first = apply.request(1, Some(5), None, "き", None);
    let mut state = apply.state_of(first).unwrap();
    state.complete(0);
    apply.record_state(first, state);
    assert_eq!(apply.state_of(first).unwrap().outcome, ApplyOutcome::Applied);
    let second = apply.request(2, Some(5), None, "き", None);
    assert_ne!(second, first);
    let mut state = ApplyState::new();
    assert!(!state.begin(false));
    assert!(state.begin(true) && state.stale);
    apply.record_state(second, state);
    assert_ne!(apply.request(3, Some(5), None, "き", None), second);
}

#[test]
fn objects_without_identity_are_the_same_as_no_other() {
    assert!(same(Some(1), Some(1)));
    assert!(!same(Some(1), Some(2)));
    assert!(!same(None, None));
    let mut apply = PreeditApply::new();
    let first = apply.request(1, None, None, "き", None);
    assert_ne!(apply.request(2, None, None, "き", None), first);
}

#[test]
fn a_request_is_retired_with_its_context_and_before_the_counter_is_full() {
    let mut apply = PreeditApply::new();
    let first = apply.request(1, Some(5), None, "き", None);
    apply.retain_context(Some(Some(5)));
    assert!(apply.is_current(first, None));
    apply.retain_context(Some(Some(6)));
    assert!(!apply.is_current(first, None));
    let second = apply.request(2, Some(5), None, "き", None);
    apply.retain_context(None);
    assert!(!apply.is_current(second, None));
    let third = apply.request(3, Some(5), None, "き", None);
    apply.invalidate();
    assert!(!apply.is_current(third, None));
    assert!(!apply.needs_end());
    apply.force_near_capacity();
    assert!(apply.needs_end());
    assert_eq!(apply.request(4, Some(5), None, "き", None).identity.operation_id, u64::MAX);
    assert_eq!(apply.request(5, Some(5), None, "く", None).identity.operation_id, u64::MAX);
    apply.restart_after_end();
    assert_eq!(apply.request(6, Some(5), None, "き", None).identity.operation_id, 1);
}

#[test]
fn offsets_have_to_fit_the_text() {
    let text = "a𠮷b";
    assert!(check_request(&display(text, span(1, 2), Some(4))));
    assert!(!check_request(&display(text, None, Some(5))));
    assert!(!check_request(&display(text, None, Some(2))));
    assert!(!check_request(&display(text, span(2, 1), None)));
    assert!(!check_request(&display(text, span(0, 2), None)));
    assert!(!check_request(&display(text, span(3, 2), None)));
    assert!(!check_request(&display(text, span(usize::MAX, 2), None)));
    let mut d = display(text, None, None);
    d.converted = vec![Span { start: 0, len: 1 }, Span { start: 2, len: 2 }];
    assert!(!check_request(&d));
}

fn outputs(composition: Option<usize>) -> PreeditOutputs {
    PreeditOutputs { composition: composition.map(Some), started: false, left_context: None }
}

fn drive(
    session: &mut StartOrUpdatePreedit,
    apply: &mut PreeditApply,
    out: &mut PreeditOutputs,
    steps: Vec<(PreeditEvent, PreeditAction)>,
) {
    for (event, action) in steps {
        assert_eq!(session.step(apply, out, event), action);
    }
}

fn asked(apply: &mut PreeditApply, composition: Option<usize>) -> Ticket {
    apply.request(1, Some(5), composition.map(Some), "今日", None)
}

#[test]
fn a_new_composition_is_started_and_drawn() {
    let mut apply = PreeditApply::new();
    let ticket = asked(&mut apply, None);
    let mut out = outputs(None);
    let (mut session, action) =
        StartOrUpdatePreedit::begin(ticket, display("今日", None, None), false, &mut apply, None);
    assert_eq!(action, PreeditAction::QueryInsertion);
    let left = Some("左".to_string());
    drive(
        &mut session,
        &mut apply,
        &mut out,
        vec![
            (PreeditEvent::Done, PreeditAction::CaptureLeftContext),
            (PreeditEvent::Captured { text: left.clone() }, PreeditAction::StartComposition),
            (PreeditEvent::Started { composition: Some(9) }, PreeditAction::GetRange),
            (PreeditEvent::Done, PreeditAction::ReadText),
            (PreeditEvent::Units { units: Some(vec![]) }, PreeditAction::SetText),
            (PreeditEvent::Done, PreeditAction::GetProperty),
            (PreeditEvent::Done, PreeditAction::SetAttributes),
            (PreeditEvent::Done, PreeditAction::CollapseEnd),
            (PreeditEvent::Done, PreeditAction::SetSelection),
            (PreeditEvent::Done, PreeditAction::End { code: 0 }),
        ],
    );
    assert_eq!((out.composition, out.started), (Some(Some(9)), true));
    assert_eq!(out.left_context, left);
    let state = apply.state_of(ticket).unwrap();
    assert_eq!((state.outcome, state.text_applied), (ApplyOutcome::Applied, true));
}

#[test]
fn clauses_are_marked_and_the_caret_is_placed() {
    let mut apply = PreeditApply::new();
    let converted = vec![Span { start: 0, len: 2 }];
    let ticket = apply.request_display(
        1,
        Some(5),
        Some(Some(9)),
        "今日は",
        span(2, 1),
        Some(2),
        converted.clone(),
    );
    let mut d = display("今日は", span(2, 1), Some(2));
    d.converted = converted;
    let mut out = outputs(Some(9));
    let (mut session, action) =
        StartOrUpdatePreedit::begin(ticket, d, true, &mut apply, Some(Some(9)));
    assert_eq!(action, PreeditAction::GetRange);
    let units: Vec<u16> = "今日は".encode_utf16().collect();
    drive(
        &mut session,
        &mut apply,
        &mut out,
        vec![
            (PreeditEvent::Done, PreeditAction::ReadText),
            // The text stands there and the decoration repeats: nothing is written.
            (PreeditEvent::Units { units: Some(units) }, PreeditAction::GetProperty),
            (PreeditEvent::Done, PreeditAction::SetAttributes),
            (PreeditEvent::Done, PreeditAction::ShiftEnd { to: 2 }),
            (PreeditEvent::Moved { by: 2 }, PreeditAction::ShiftStart { to: 0 }),
            (PreeditEvent::Moved { by: 0 }, PreeditAction::SetConverted),
            (PreeditEvent::Done, PreeditAction::ShiftEnd { to: 3 }),
            (PreeditEvent::Moved { by: 3 }, PreeditAction::ShiftStart { to: 2 }),
            (PreeditEvent::Moved { by: 2 }, PreeditAction::SetTarget),
            (PreeditEvent::Done, PreeditAction::ShiftCaret { to: 2 }),
            (PreeditEvent::Moved { by: 1 }, PreeditAction::End { code: E_FAIL }),
        ],
    );
    let state = apply.state_of(ticket).unwrap();
    assert_eq!((state.outcome, state.text_applied), (ApplyOutcome::Failed, true));
    // A repair draws the decoration only.
    let mut d = display("今日は", None, None);
    d.target = span(2, 1);
    let (mut repair, _) = StartOrUpdatePreedit::begin(ticket, d, true, &mut apply, Some(Some(9)));
    assert_eq!(
        repair.step(&mut apply, &mut out, PreeditEvent::Done),
        PreeditAction::GetProperty
    );
}

#[test]
fn a_new_decoration_is_written_even_where_the_text_stands() {
    let mut apply = PreeditApply::new();
    let ticket = apply.request(1, Some(5), Some(Some(9)), "今", span(0, 1));
    let mut out = outputs(Some(9));
    let (mut session, _) = StartOrUpdatePreedit::begin(
        ticket,
        display("今", span(0, 1), None),
        false,
        &mut apply,
        Some(Some(9)),
    );
    let units: Vec<u16> = "今".encode_utf16().collect();
    drive(
        &mut session,
        &mut apply,
        &mut out,
        vec![
            (PreeditEvent::Done, PreeditAction::ReadText),
            (PreeditEvent::Units { units: Some(units) }, PreeditAction::SetText),
            (PreeditEvent::Failed { code: -7 }, PreeditAction::End { code: -7 }),
        ],
    );
    assert_eq!(session.stage, Stage::Ended);
    assert!(!apply.state_of(ticket).unwrap().text_applied);
}

#[test]
fn a_request_that_is_not_current_changes_nothing() {
    let mut apply = PreeditApply::new();
    let ticket = asked(&mut apply, None);
    let mut out = outputs(None);
    let (mut session, _) =
        StartOrUpdatePreedit::begin(ticket, display("今日", None, None), false, &mut apply, None);
    let _ = session.step(&mut apply, &mut out, PreeditEvent::Done);
    let left = PreeditEvent::Captured { text: Some("左".into()) };
    let _ = session.step(&mut apply, &mut out, left);
    apply.invalidate();
    assert_eq!(
        session.step(&mut apply, &mut out, PreeditEvent::Started { composition: Some(9) }),
        PreeditAction::EndComposition
    );
    assert!(!out.started && out.composition.is_none());
    assert_eq!(
        session.step(&mut apply, &mut out, PreeditEvent::Done),
        PreeditAction::End { code: E_FAIL }
    );
    let (_, action) =
        StartOrUpdatePreedit::begin(ticket, display("今日", None, None), false, &mut apply, None);
    assert_eq!(action, PreeditAction::End { code: E_FAIL });
    let ticket = asked(&mut apply, None);
    let (_, action) =
        StartOrUpdatePreedit::begin(ticket, display("今", None, Some(9)), false, &mut apply, None);
    assert_eq!(action, PreeditAction::End { code: E_FAIL });
    assert_eq!(apply.state_of(ticket).unwrap().outcome, ApplyOutcome::Failed);
    let ticket = asked(&mut apply, None);
    let (_, action) = StartOrUpdatePreedit::begin(
        ticket,
        display("今日", None, None),
        false,
        &mut apply,
        Some(Some(9)),
    );
    assert_eq!(action, PreeditAction::End { code: E_FAIL });
    assert!(apply.state_of(ticket).unwrap().stale);
}
