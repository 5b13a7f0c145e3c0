use nospacekey_tip::reading_monitor::{
    append_committed, compose_monitor_text, consumed_reading, display_bound, max_text_w_px,
    monitor_window_size, plan_anchor, should_show, text_overflows, AnchorPlan, CaretAnchor, FadeOut,
    HideAction, MonitorMetrics, PaintPlan, PixelRect, Placement, ReadingMonitor, Redraw, ShowStep, GAP, MIN_TEXT_W, PAD_H,
    PAD_V_TOTAL,
};
use nospacekey_tip::theme::{Rgba, Theme, ThemeColors};


#[test]
fn should_show_requires_all_of_enabled_composing_live_and_no_candidates() {
    assert!(should_show(true, true, true, false));
    assert!(!should_show(false, true, true, false));
    assert!(!should_show(true, false, true, false));
    assert!(!should_show(true, true, false, false));
    assert!(!should_show(true, true, true, true));
}

#[test]
fn consumed_reading_strips_remaining_as_suffix() {
    assert_eq!(consumed_reading("きょうはてんき", "てんき"), Some("きょうは"));
    assert_eq!(consumed_reading("きょうは", ""), Some("きょうは"));
    assert_eq!(consumed_reading("がっこうへいった", "へいった"), Some("がっこう"));
    assert_eq!(consumed_reading("kyouha", "てんき"), None);
}

#[test]
fn append_committed_bounds_buffer_to_tail_chars() {
    let mut buf = "あ".repeat(60);
    append_committed(&mut buf, &"い".repeat(10), 64);
    assert_eq!(buf.chars().count(), 64);
    assert!(buf.ends_with(&"い".repeat(10)));
    assert!(buf.starts_with("あ"));
}

#[test]
fn compose_monitor_text_joins_and_trims_tail_priority() {
    assert_eq!(compose_monitor_text("きょうは", "てんき", 64), "きょうはてんき");
    assert_eq!(compose_monitor_text("", "てんき", 64), "てんき");
    let long = "あ".repeat(70);
    let s = compose_monitor_text(&long, "おわり", 64);
    assert_eq!(s.chars().count(), 64);
    assert!(s.ends_with("おわり"));
}

#[test]
fn auto_commit_frame_keeps_display_string_unchanged() {
    let full = "きょうはてんきがいい";
    let remaining = "てんきがいい";
    let mut buf = String::from("わたしの");
    let before = compose_monitor_text(&buf, full, 64);
    let consumed = consumed_reading(full, remaining).expect("正常系はサフィックス成立");
    append_committed(&mut buf, consumed, 64);
    let after = compose_monitor_text(&buf, remaining, 64);
    assert_eq!(before, after);
}

#[test]
fn text_overflows_only_beyond_max_w_px() {
    assert!(!text_overflows(476, 476));
    assert!(text_overflows(477, 476));
}

#[test]
fn max_text_w_px_is_chars_times_em() {
    assert_eq!(max_text_w_px(34, 14), 476);
    assert_eq!(max_text_w_px(10, 20), 200);
}

#[test]
fn display_bound_is_twice_max_chars() {
    assert_eq!(display_bound(34), 68);
    assert_eq!(display_bound(10), 20);
}

#[test]
fn plan_anchor_holds_position_when_rect_unavailable_but_visible() {
    let a = CaretAnchor { x: 10, y: 20, caret_top: Some(5) };
    assert!(matches!(plan_anchor(Some(a), true), AnchorPlan::Move(_)));
    assert!(matches!(plan_anchor(Some(a), false), AnchorPlan::Move(_)));
    assert!(matches!(plan_anchor(None, true), AnchorPlan::Hold));
    assert!(matches!(plan_anchor(None, false), AnchorPlan::Fallback));
}

/// The measures of the popup where one device independent pixel is `factor` pixels.
fn metrics(factor: i32) -> MonitorMetrics {
    MonitorMetrics {
        pad_h: PAD_H * factor,
        pad_v_total: PAD_V_TOTAL * factor,
        min_text_w: MIN_TEXT_W * factor,
        gap: GAP * factor,
    }
}

#[test]
fn monitor_window_size_scales_and_clamps() {
    assert_eq!(monitor_window_size(100, 14, metrics(1), 480), (122, 28));
    assert_eq!(monitor_window_size(100, 28, metrics(2), 960), (2 + 40 + 100, 2 + 24 + 28));
    assert_eq!(monitor_window_size(0, 14, metrics(1), 480).0, 2 + 20 + 24);
    assert_eq!(monitor_window_size(10_000, 14, metrics(1), 480).0, 2 + 20 + 480);
    assert_eq!(monitor_window_size(0, 14, metrics(1), 1).0, 2 + 20 + 24);
}

fn theme(rounded: bool, acrylic: bool) -> Theme {
    let c = Rgba { r: 1, g: 2, b: 3, a: 255 };
    Theme {
        colors: ThemeColors {
            bg: c,
            text: c,
            index: c,
            sel_bg: c,
            sel_text: c,
            sel_index: c,
            border: c,
        },
        font_family: String::from("Yu Gothic UI"),
        font_point_tenths: 105,
        rounded,
        acrylic,
        motion: true,
        is_dark: false,
    }
}

#[test]
fn a_popup_without_a_window_asks_for_one_and_then_measures() {
    let mut m = ReadingMonitor::empty();
    assert_eq!(m.show_or_update("", &theme(true, false)), ShowStep::Hide);
    assert_eq!(m.show_or_update("よみ", &theme(true, false)), ShowStep::Create { destroy: false });
    m.window_created(&theme(true, false), true);
    assert_eq!(m.show_or_update("よみ", &theme(true, false)), ShowStep::Measure { chrome: false });
    assert_eq!(m.show_or_update("よみ", &theme(true, true)), ShowStep::Measure { chrome: true });
    assert_eq!(m.text(), "よみ");
    assert!(m.acrylic_frame());
    m.painted(None);
    m.painted(Some(-2147467259));
    assert!(matches!(m.show_or_update("あ", &theme(true, true)), ShowStep::Measure { .. }));
    m.painted(Some(-2005270523));
    assert_eq!(m.show_or_update("よみ", &theme(true, true)), ShowStep::Create { destroy: true });
    assert!(!m.destroy());
}

#[test]
fn a_visible_popup_of_the_same_size_keeps_its_surface() {
    let mut m = ReadingMonitor::empty();
    m.window_created(&theme(true, false), true);
    let anchor = Some(CaretAnchor { x: 10, y: 90, caret_top: Some(70) });
    let first = m.place(Some(100), 14, metrics(1), 34, anchor, (5, 6), false);
    assert_eq!(
        first,
        Placement {
            corner: Some((10, 70 - 28 - 6)),
            size: (122, 28),
            redraw: Redraw::Resize,
            was_visible: false,
        }
    );
    let second = m.place(Some(100), 14, metrics(1), 34, None, (5, 6), true);
    assert_eq!(second.corner, None);
    assert_eq!(second.redraw, Redraw::Invalidate);
    let third = m.place(None, 14, metrics(1), 34, None, (5, 6), false);
    assert_eq!(third.corner, Some((5, 6)));
    assert_eq!(third.size.0, 2 + 20 + 24);
    assert!(!m.overflows());
    m.place(Some(477), 14, metrics(1), 34, None, (5, 6), true);
    assert!(m.overflows());
}

#[test]
fn a_fade_without_a_timer_hides_at_once() {
    let mut m = ReadingMonitor::empty();
    assert_eq!(m.hide_popup(true, FadeOut::Immediate), HideAction::Nothing);
    m.window_created(&theme(true, false), true);
    assert_eq!(m.hide_popup(false, FadeOut::Immediate), HideAction::Nothing);
    assert_eq!(m.hide_popup(true, FadeOut::AlreadyFading), HideAction::Nothing);
    assert_eq!(m.hide_popup(true, FadeOut::Immediate), HideAction::HideNow);
    assert_eq!(m.hide_popup(true, FadeOut::Fade(120)), HideAction::StartTimer(120));
    assert_eq!(m.fade_timer_set(true), HideAction::Nothing);
    assert_eq!(m.fade_timer_set(false), HideAction::HideNow);
    assert_eq!(m.fade_finished(), HideAction::HideNow);
}

#[test]
fn a_text_that_does_not_fit_shows_its_end() {
    let mut m = ReadingMonitor::empty();
    let client = PixelRect { left: 0, top: 0, right: 122, bottom: 28 };
    assert_eq!(m.paint(client, 10), None);
    m.window_created(&theme(true, false), false);
    let text = PixelRect { left: 10, top: 0, right: 112, bottom: 28 };
    let fits = PaintPlan { d2d: false, text, trailing: false, trim: true };
    assert_eq!(m.paint(client, 10), Some(fits));
    assert_eq!(fits.draw_flags(), 0x8824);
    m.place(Some(477), 14, metrics(1), 34, None, (5, 6), true);
    let cut = m.paint(client, 10).unwrap();
    assert!(cut.trailing && !cut.trim);
    assert_eq!(cut.draw_flags(), 0x0826);
}
