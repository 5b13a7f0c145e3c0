use nospacekey_tip::text_service::mode::{
    compartment_flag_is_set, conversion_mode_value, default_direct_success, effective_is_direct,
    is_direct, is_toggle_repeat, query_context_keyboard_disabled, scopes_contain_password, to_direct, toggle_before_mode, toggled, ModeState,
    ToggleStart, CONVMODE_FULLSHAPE, CONVMODE_NATIVE, IS_ALPHANUMERIC_PIN, IS_ALPHANUMERIC_PIN_SET,
    IS_NUMERIC_PASSWORD, IS_NUMERIC_PIN, IS_PASSWORD, MODE_TOGGLE_REPEAT_GUARD,
};

const IS_DEFAULT: i32 = 0;

#[test]
fn toggle_repeat_suppresses_only_within_guard() {
    assert!(!is_toggle_repeat(None, MODE_TOGGLE_REPEAT_GUARD));
    assert!(is_toggle_repeat(Some(33), MODE_TOGGLE_REPEAT_GUARD));
    assert!(is_toggle_repeat(Some(299), MODE_TOGGLE_REPEAT_GUARD));
    assert!(!is_toggle_repeat(Some(MODE_TOGGLE_REPEAT_GUARD), MODE_TOGGLE_REPEAT_GUARD));
    assert!(!is_toggle_repeat(Some(500), MODE_TOGGLE_REPEAT_GUARD));
}

#[test]
fn scopes_contain_password_detects() {
    assert!(scopes_contain_password(&[IS_DEFAULT, IS_PASSWORD]));
    for sensitive in [
        IS_NUMERIC_PASSWORD,
        IS_NUMERIC_PIN,
        IS_ALPHANUMERIC_PIN,
        IS_ALPHANUMERIC_PIN_SET,
    ] {
        assert!(scopes_contain_password(&[sensitive]));
    }
    assert!(!scopes_contain_password(&[IS_DEFAULT]));
    assert!(!scopes_contain_password(&[]));
}

#[test]
fn compartment_flag_detects_vt_i4_nonzero() {
    assert!(compartment_flag_is_set(3, 1));
    assert!(!compartment_flag_is_set(3, 0));
    assert!(!compartment_flag_is_set(0, 0));
    assert!(!compartment_flag_is_set(11, -1));
}

#[test]
fn a_change_switches_only_between_kana_and_direct() {
    let other: u32 = 0x10;
    assert!(is_direct(other));
    assert!(!is_direct(other | CONVMODE_NATIVE));
    assert_eq!(toggled(other), other | CONVMODE_NATIVE);
    assert_eq!(toggled(other | CONVMODE_NATIVE), other);
    assert_eq!(to_direct(other | CONVMODE_NATIVE | CONVMODE_FULLSHAPE), other);
    assert_eq!(toggle_before_mode(true, true, CONVMODE_NATIVE), 0);
    assert_eq!(toggle_before_mode(true, false, 0), CONVMODE_NATIVE);
    assert_eq!(toggle_before_mode(false, true, CONVMODE_NATIVE), CONVMODE_NATIVE);
    assert!(effective_is_direct(true, true, false));
    assert!(!effective_is_direct(false, true, false));
    assert!(default_direct_success(true, false, false));
    assert!(!default_direct_success(true, true, false));
    assert!(!default_direct_success(false, false, true));
}

#[test]
fn what_could_not_be_set_is_not_shown() {
    let mut mode = ModeState::new();
    assert_eq!(mode.toggle_conversion_mode(1000, Some(CONVMODE_NATIVE)), ToggleStart::Write { next: 0 });
    assert!(mode.conversion_mode_written(0, true, 0));
    assert!(mode.is_direct_mode(CONVMODE_NATIVE));
    assert_eq!(mode.toggle_conversion_mode(1299, Some(0)), ToggleStart::Repeat);
    assert_eq!(mode.toggle_conversion_mode(1300, None), ToggleStart::NoCompartment);
    assert_eq!(
        mode.toggle_conversion_mode(1700, Some(CONVMODE_NATIVE)),
        ToggleStart::Write { next: CONVMODE_NATIVE }
    );
    assert!(!mode.conversion_mode_written(CONVMODE_NATIVE, false, 0));
    assert!(!mode.direct_mode_owned);
    assert!(mode.langbar_is_direct);
}

#[test]
fn kana_for_a_while_go_back_or_become_kana_for_good() {
    let mut mode = ModeState::new();
    assert_eq!(mode.enter_ephemeral_kana(None), None);
    assert_eq!(mode.enter_ephemeral_kana(Some(0x10)), Some(0x11));
    mode.ephemeral_kana_entered(true, 0x11);
    assert!(mode.ephemeral_kana && mode.langbar_ephemeral && !mode.langbar_is_direct);
    assert_eq!(mode.exit_ephemeral_to_direct(None), None);
    assert_eq!(mode.exit_ephemeral_to_direct(Some(0x19)), Some(0x10));
    mode.ephemeral_kana_exited(false, 0x11);
    assert!(mode.ephemeral_kana && mode.langbar_ephemeral);
    assert_eq!(mode.toggle_conversion_mode(0, Some(0x11)), ToggleStart::Promoted);
    assert!(!mode.ephemeral_kana && mode.direct_mode_owned && !mode.langbar_ephemeral);
    mode.ephemeral_kana_entered(true, 0x11);
    mode.ephemeral_kana_exited(true, 0x10);
    assert!(!mode.ephemeral_kana && mode.langbar_is_direct);
    mode.ephemeral_kana_entered(false, 0x11);
    assert!(!mode.ephemeral_kana && !mode.direct_mode_owned && !mode.langbar_is_direct);
    assert_eq!(mode.exit_ephemeral_to_direct(Some(0x19)), None);
}

#[test]
fn the_first_activation_makes_the_mode_direct() {
    assert_eq!(ModeState::default_direct_value(Some(0x19)), Some(0x10));
    assert_eq!(ModeState::default_direct_value(Some(0x10)), None);
    assert_eq!(ModeState::default_direct_value(None), None);
    let mut mode = ModeState::new();
    assert!(mode.apply_default_direct(Some(0x19), true, 0x10));
    assert!(mode.direct_mode_owned && mode.langbar_is_direct);
    let mut refused = ModeState::new();
    refused.langbar_is_direct = true;
    assert!(!refused.apply_default_direct(Some(0x19), false, 0x19));
    assert!(!refused.direct_mode_owned && !refused.langbar_is_direct);
    assert!(!refused.apply_default_direct(None, true, CONVMODE_NATIVE));
}

#[test]
fn a_context_that_cannot_be_asked_is_asked_again() {
    let mut mode = ModeState::new();
    assert!(!mode.is_password_context(7, false, None));
    assert!(!mode.knows_context(7));
    assert!(mode.is_password_context(7, false, Some(true)));
    assert!(mode.knows_context(7));
    assert!(mode.is_password_context(7, false, Some(false)));
    assert!(mode.is_password_context(8, true, Some(false)));
    mode.forget_password_context();
    assert!(!mode.is_password_context(8, false, Some(false)));
}

#[test]
fn a_mode_that_cannot_be_read_is_kana() {
    assert_eq!(conversion_mode_value(None), CONVMODE_NATIVE);
    assert_eq!(conversion_mode_value(Some((0, 0))), CONVMODE_NATIVE);
    assert_eq!(conversion_mode_value(Some((3, 0))), 0);
    assert_eq!(conversion_mode_value(Some((3, 9))), CONVMODE_NATIVE | CONVMODE_FULLSHAPE);
    assert!(is_direct(conversion_mode_value(Some((3, 0)))));
}

#[test]
fn either_flag_of_the_host_disables_the_keyboard() {
    assert!(query_context_keyboard_disabled(Some((3, 1)), None));
    assert!(query_context_keyboard_disabled(None, Some((3, 1))));
    assert!(!query_context_keyboard_disabled(Some((3, 0)), Some((0, 1))));
    assert!(!query_context_keyboard_disabled(None, None));
}
