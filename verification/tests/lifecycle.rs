use nospacekey_tip::text_service::lifecycle::{
    deactivate_cancel_plan, should_abandon_on_focus_change, ActivateStart, ActivationSettings,
    DeactivateCancelPlan, PreservedKey, ServiceFlags, TextService,
};

#[test]
fn no_composition_needs_no_cancel() {
    assert_eq!(
        deactivate_cancel_plan(false, false, false, false),
        DeactivateCancelPlan::Nothing
    );
    assert_eq!(
        deactivate_cancel_plan(false, true, true, true),
        DeactivateCancelPlan::Nothing
    );
}

#[test]
fn composition_without_context_aborts_before_cleanup() {
    assert_eq!(
        deactivate_cancel_plan(true, false, false, false),
        DeactivateCancelPlan::AbortNoContext
    );
    assert_eq!(
        deactivate_cancel_plan(true, false, true, true),
        DeactivateCancelPlan::AbortNoContext
    );
}

#[test]
fn reconverting_uses_restore_text_not_cancel_composition() {
    assert_eq!(
        deactivate_cancel_plan(true, true, true, false),
        DeactivateCancelPlan::CancelReconvert
    );
}

#[test]
fn plain_composition_uses_do_cancel() {
    assert_eq!(
        deactivate_cancel_plan(true, true, false, false),
        DeactivateCancelPlan::DoCancel
    );
}

#[test]
fn committed_pending_end_uses_close_only_even_if_reconvert_latch_is_still_set() {
    assert_eq!(
        deactivate_cancel_plan(true, true, true, true),
        DeactivateCancelPlan::DoCancel
    );
}

#[test]
fn guard_marks_interval_and_resets_on_drop() {
    let mut service = TextService::new();
    assert!(!service.act.deactivating);
    assert!(service.deactivate());
    assert!(service.act.deactivating);
    assert!(!service.deactivate());
    assert_eq!(service.activate(1, true), ActivateStart::Rejected);
    service.deactivate_over();
    assert!(!service.act.deactivating);
}

#[test]
fn a_composition_is_left_only_when_the_focus_goes_elsewhere() {
    assert!(should_abandon_on_focus_change(true, false, false));
    assert!(!should_abandon_on_focus_change(false, false, false));
    assert!(!should_abandon_on_focus_change(true, true, false));
    assert!(!should_abandon_on_focus_change(true, false, true));
}

fn settings() -> ActivationSettings {
    ActivationSettings {
        flags: ServiceFlags {
            typo_enabled: true,
            number_full_width: false,
            punctuation_full_width: false,
            symbol_overlay: true,
            reading_monitor_enabled: false,
            reading_monitor_accumulate: false,
            reading_monitor_max_chars: 12,
            shift_latin_compose: false,
            ephemeral_enabled: false,
        },
        feedback: true,
        inline_prediction: true,
        live_conversion: false,
        llm_effective: false,
        llm_echo: true,
        default_direct: true,
    }
}

fn key(guid: u128) -> PreservedKey {
    PreservedKey { guid, vk: 0x19, modifiers: 0 }
}

fn active() -> TextService {
    let mut service = TextService::new();
    assert_eq!(service.activate(7, true), ActivateStart::Go);
    service.focus_sinks_advised(11, 12);
    service.apply_settings(settings());
    service.registered(vec![key(1), key(2)], Some(21), Some(22), None);
    assert!(service.prepare_langbar_item(true, true, 1));
    service.langbar_item_added(true);
    service.power_registered(Some(4));
    service
}

#[test]
fn an_activation_takes_the_settings_and_the_registrations() {
    let mut service = TextService::new();
    assert_eq!(service.activate(7, false), ActivateStart::NoThreadMgr);
    assert_eq!((service.act.tid, service.act.thread_mgr), (0, false));
    assert!(service.wants_focus_sinks());
    let mut service = active();
    assert!(!service.wants_focus_sinks());
    assert_eq!(service.flags, settings().flags);
    assert!(service.commit.feedback_enabled && service.prediction.enabled);
    assert!(!service.conv.live_enabled && service.conv.llm_enabled);
    assert_eq!(
        (service.act.da_atom, service.act.da_target_atom, service.act.da_prediction_atom),
        (21, 22, 0)
    );
    assert!(service.mode.langbar_is_direct);
    assert!(!service.prepare_langbar_item(false, true, 1));
    assert_eq!(service.link.last_resume_gen, 4);
    service.power_registered(Some(9));
    assert_eq!(service.link.last_resume_gen, 4);
    assert!(service.should_apply_default_direct(true));
    service.default_direct_done(false);
    assert!(service.should_apply_default_direct(true));
    service.default_direct_done(true);
    assert!(!service.should_apply_default_direct(true));
}

#[test]
fn a_mode_that_cannot_be_set_is_not_announced() {
    let mut service = TextService::new();
    assert!(service.prepare_langbar_item(true, false, 1));
    assert!(!service.mode.langbar_is_direct);
    assert!(service.prepare_langbar_item(false, true, 0));
    assert!(service.mode.langbar_is_direct);
}

#[test]
fn a_composition_that_cannot_be_given_up_keeps_the_service_on() {
    let mut service = active();
    assert_eq!(service.deactivate_preflight(), (DeactivateCancelPlan::Nothing, None));
    service.comp.composition = Some(3);
    assert_eq!(service.deactivate_preflight(), (DeactivateCancelPlan::AbortNoContext, None));
    assert!(!service.deactivate_cancelled(DeactivateCancelPlan::AbortNoContext, false));
    service.conv.current_context = Some(5);
    assert_eq!(service.deactivate_preflight(), (DeactivateCancelPlan::DoCancel, Some(5)));
    service.conv.reconverting = true;
    assert_eq!(
        service.deactivate_preflight(),
        (DeactivateCancelPlan::CancelReconvert, Some(5))
    );
    assert!(!service.deactivate_cancelled(DeactivateCancelPlan::CancelReconvert, false));
    assert!(service.deactivate_cancelled(DeactivateCancelPlan::CancelReconvert, true));
    service.comp.composition_end_pending = true;
    service.comp.composition_end_context = Some(6);
    assert_eq!(service.deactivate_preflight(), (DeactivateCancelPlan::DoCancel, Some(6)));
    assert!(service.deactivate_cancelled(DeactivateCancelPlan::DoCancel, false));
    assert_eq!(service.comp.composition, None);
    assert!(!service.comp.composition_end_pending);
}

#[test]
fn a_service_that_is_switched_off_keeps_nothing() {
    let mut service = active();
    service.conv.composing = true;
    service.conv.live_text = "今日は".into();
    service.conv.current_context = Some(5);
    service.mode.ephemeral_kana = true;
    service.mode.direct_mode_owned = true;
    service.link.client = true;
    service.link.session = 9;
    service.behavior.behavior_flush_timer = 77;
    assert!(service.deactivate());
    assert!(active().deactivate_release(1, false).preserved.is_empty());
    let registrations = service.deactivate_release(1, true);
    assert_eq!(registrations.tid, 7);
    assert_eq!(registrations.preserved, vec![key(1), key(2)]);
    assert!(registrations.langbar_item);
    assert_eq!(
        (registrations.thread_mgr_event_cookie, registrations.thread_focus_cookie),
        (11, 12)
    );
    assert!(service.deactivate_forget().is_none());
    assert_eq!(service.deactivate_inner(), 77);
    service.deactivate_over();
    assert_eq!((service.act.tid, service.act.thread_mgr, service.act.power_notify), (0, false, false));
    assert!(!service.conv.composing && service.conv.live_text.is_empty());
    assert_eq!(service.conv.current_context, None);
    assert!(!service.mode.ephemeral_kana && !service.mode.direct_mode_owned);
    assert_eq!((service.link.client, service.link.session), (false, 0));
    assert!(service.wants_focus_sinks());
    let again = service.deactivate_release(2, true);
    assert!(again.preserved.is_empty() && !again.langbar_item);
}

#[test]
fn a_report_that_is_not_given_keeps_the_number_from_before() {
    let mut service = active();
    service.focus_sinks_advised(0, 0);
    assert_eq!(
        (service.act.thread_mgr_event_cookie, service.act.thread_focus_cookie),
        (11, 12)
    );
    service.focus_sinks_advised(13, 0);
    assert_eq!(
        (service.act.thread_mgr_event_cookie, service.act.thread_focus_cookie),
        (13, 12)
    );
}
