use nospacekey_tip::text_service::behavior::{
    behavior_plan, BehaviorAction, BehaviorFacts, BehaviorPlan, BehaviorQueue, DrainStart,
    FlushRound, ReentrancyGate,
};

#[test]
fn signal_outside_operation_runs_now() {
    let mut g = ReentrancyGate::new();
    assert!(!g.signal_reentry(true), "区間外は即実行(false)のはず");
    assert!(!g.take_pending(), "区間外シグナルは保留を立てない");
}

#[test]
fn signal_inside_operation_defers_and_records_pending() {
    let mut g = ReentrancyGate::new();
    let prev = g.enter();
    assert!(g.in_operation());
    assert!(g.signal_reentry(true), "区間中は保留(true)のはず");
    g.exit(prev);
    assert!(!g.in_operation(), "最外を抜けたら区間フラグは false");
    assert!(g.take_pending());
    assert!(!g.take_pending(), "pending は take で1回でクリア");
}

#[test]
fn signal_inside_operation_without_action_does_not_defer_work() {
    let mut g = ReentrancyGate::new();
    let prev = g.enter();
    assert!(g.signal_reentry(false), "区間中は has_action に依らず戻る(true)");
    g.exit(prev);
    assert!(!g.take_pending(), "要求無しの再入は pending を立てない");
}

#[test]
fn nested_enter_exit_restores_outer_flag() {
    let mut g = ReentrancyGate::new();
    let outer = g.enter();
    let inner = g.enter();
    assert!(g.in_operation());
    g.exit(inner);
    assert!(g.in_operation(), "内側 exit 後も最外区間は継続(true)");
    g.exit(outer);
    assert!(!g.in_operation(), "最外 exit でようやく false");
}

#[test]
fn a_request_during_an_operation_is_carried_out_after_it() {
    let mut q = BehaviorQueue::new();
    let prev = q.reentrancy.enter();
    q.behavior_outbox = Some(BehaviorAction::Finalize);
    assert_eq!(q.drain_behavior(), DrainStart::PutOff);
    assert!(q.leave(prev));
    q.flush_timer_set(4);
    assert!(!q.schedule_behavior_flush());
    assert!(!q.flush_timer_fired(3));
    assert!(q.flush_timer_fired(4));
    assert_eq!(q.flush_pending_behavior(0), FlushRound::Drain);
    let taken = q.drain_behavior_inner(Some(1)).unwrap();
    assert_eq!((taken.context, taken.action), (1, Some(BehaviorAction::Finalize)));
    assert!(!taken.sync_selection);
    assert_eq!(q.flush_pending_behavior(1), FlushRound::Stop);
    assert!(q.drain_behavior_inner(Some(1)).is_none());
    q.reentrancy.pending = true;
    assert_eq!(q.flush_pending_behavior(7), FlushRound::Drain);
    q.reentrancy.pending = true;
    assert_eq!(q.flush_pending_behavior(8), FlushRound::DrainLast);
}

#[test]
fn requests_follow_the_keys_they_stand_for() {
    let idle = BehaviorFacts {
        showing: false,
        clause_nav: false,
        pick: Some(2),
        reconverting: false,
        composing: false,
    };
    let shown = BehaviorFacts { showing: true, ..idle };
    assert_eq!(behavior_plan(BehaviorAction::Finalize, idle), BehaviorPlan::Nothing);
    assert_eq!(
        behavior_plan(BehaviorAction::Finalize, shown),
        BehaviorPlan::CommitCandidate { index: 2 }
    );
    assert_eq!(
        behavior_plan(BehaviorAction::Finalize, BehaviorFacts { clause_nav: true, ..shown }),
        BehaviorPlan::CommitClauses
    );
    assert_eq!(
        behavior_plan(BehaviorAction::Finalize, BehaviorFacts { pick: None, ..shown }),
        BehaviorPlan::Nothing
    );
    assert_eq!(behavior_plan(BehaviorAction::Abort, idle), BehaviorPlan::Nothing);
    assert_eq!(behavior_plan(BehaviorAction::Abort, shown), BehaviorPlan::CloseCandidates);
    assert_eq!(
        behavior_plan(BehaviorAction::Abort, BehaviorFacts { reconverting: true, ..shown }),
        BehaviorPlan::CancelReconvert
    );
    assert_eq!(
        behavior_plan(BehaviorAction::Abort, BehaviorFacts { composing: true, ..idle }),
        BehaviorPlan::CancelComposition
    );
}

#[test]
fn requests_without_a_context_are_dropped() {
    let mut q = BehaviorQueue::new();
    q.behavior_outbox = Some(BehaviorAction::Abort);
    q.selection_dirty = true;
    assert!(q.drain_behavior_inner(None).is_none());
    assert_eq!(q, BehaviorQueue::new());
}
