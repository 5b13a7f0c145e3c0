use nospacekey_tip::theme::{
    apply_os_accessibility, is_dark_from_registry, is_transparency_enabled_from_registry,
    needs_registry_dark, os_animations_enabled, parse_hex_color, should_reload, Appearance,
    AppearanceSource, BuiltinPalettes, Palette, Rgba, Theme,
};
use std::time::{Duration, SystemTime};

fn palette(bg: &str, text: &str) -> Palette {
    Palette {
        bg: bg.into(),
        text: text.into(),
        index: "#010101".into(),
        sel_bg: "#020202".into(),
        sel_text: "#030303".into(),
        sel_index: "#040404".into(),
        border: "#050505".into(),
    }
}

fn builtin() -> BuiltinPalettes {
    BuiltinPalettes {
        light: palette("#FFFFFF", "#1D1D1F"),
        dark: palette("#2C2C2E", "#F5F5F7"),
    }
}

/// The look of a fresh installation.
fn default_look() -> Appearance {
    Appearance {
        theme: "auto".into(),
        backdrop: "acrylic".into(),
        corner: "round".into(),
        font_family: "Yu Gothic UI".into(),
        font_point_tenths: 105,
        palette_light: builtin().light,
        palette_dark: builtin().dark,
    }
}

#[test]
fn should_reload_when_mtime_changes_or_first_time() {
    let t0 = SystemTime::UNIX_EPOCH;
    let t1 = t0 + Duration::from_secs(10);
    assert!(should_reload(Some(t0), None));
    assert!(should_reload(Some(t1), Some(t0)));
    assert!(!should_reload(Some(t0), Some(t0)));
    assert!(!should_reload(None, Some(t0)));
    assert!(!should_reload(None, None));
}

#[test]
fn needs_registry_dark_only_for_auto() {
    assert!(needs_registry_dark("auto"));
    assert!(!needs_registry_dark("light"));
    assert!(!needs_registry_dark("dark"));
    assert!(!needs_registry_dark("custom"));
    assert!(!needs_registry_dark(""));
}

#[test]
fn resolve_light_uses_light_palette_opaque() {
    let mut app = default_look();
    app.theme = "light".into();
    app.backdrop = "opaque".into();
    let t = Theme::resolve(&app, &builtin(), true);
    assert_eq!((t.colors.bg.r, t.colors.bg.g, t.colors.bg.b), (0xFF, 0xFF, 0xFF));
    assert_eq!(t.colors.bg.a, 255);
    assert!(!t.acrylic);
    assert!(t.rounded);
    assert!(!t.is_dark);
}

#[test]
fn resolve_auto_follows_is_dark() {
    let app = default_look();
    let dark = Theme::resolve(&app, &builtin(), true);
    assert_eq!((dark.colors.bg.r, dark.colors.bg.g, dark.colors.bg.b), (0x2C, 0x2C, 0x2E));
    assert!(dark.is_dark);
    let light = Theme::resolve(&app, &builtin(), false);
    assert_eq!((light.colors.bg.r, light.colors.bg.g, light.colors.bg.b), (0xFF, 0xFF, 0xFF));
    assert!(!light.is_dark);
}

#[test]
fn acrylic_makes_only_bg_translucent() {
    let t = Theme::resolve(&default_look(), &builtin(), false);
    assert!(t.acrylic);
    assert!(t.colors.bg.a < 255 && t.colors.bg.a > 0);
    assert_eq!(t.colors.text.a, 255);
    assert_eq!(t.colors.sel_bg.a, 255);
    assert_eq!(t.colors.border.a, 255);
}

#[test]
fn bad_color_string_falls_back_per_field() {
    let mut app = default_look();
    app.theme = "light".into();
    app.palette_light.text = "not-a-color".into();
    app.palette_light.bg = "#010203".into();
    let t = Theme::resolve(&app, &builtin(), false);
    assert_eq!((t.colors.text.r, t.colors.text.g, t.colors.text.b), (0x1D, 0x1D, 0x1F));
    assert_eq!((t.colors.bg.r, t.colors.bg.g, t.colors.bg.b), (0x01, 0x02, 0x03));
}

#[test]
fn colorref_is_bgr_order() {
    let c = Rgba { r: 0x00, g: 0x78, b: 0xD7, a: 255 };
    assert_eq!(c.colorref(), 0x00D7_7800);
}

#[test]
fn apply_os_accessibility_disables_acrylic_and_motion() {
    let t = Theme::resolve(&default_look(), &builtin(), false);
    assert!(t.acrylic && t.motion && t.colors.bg.a < 255);

    let off = apply_os_accessibility(t.clone(), false, false);
    assert!(!off.acrylic);
    assert_eq!(off.colors.bg.a, 255);
    assert!(!off.motion);

    let on = apply_os_accessibility(t.clone(), true, true);
    assert!(on.acrylic && on.motion);
    assert!(on.colors.bg.a < 255);

    let mut app2 = default_look();
    app2.backdrop = "opaque".into();
    let t2 = apply_os_accessibility(Theme::resolve(&app2, &builtin(), false), false, true);
    assert!(!t2.acrylic);
    assert_eq!(t2.colors.bg.a, 255);
    assert!(t2.motion);
}

#[test]
fn font_point_tenths_rounds_from_f32() {
    let mut app = default_look();
    app.font_point_tenths = 105;
    assert_eq!(Theme::resolve(&app, &builtin(), false).font_point_tenths, 105);
    app.font_point_tenths = 120;
    assert_eq!(Theme::resolve(&app, &builtin(), false).font_point_tenths, 120);
}

#[test]
fn colours_are_a_hash_and_six_digits() {
    assert_eq!(parse_hex_color("#0078d7"), Some((0x00, 0x78, 0xD7)));
    assert_eq!(parse_hex_color("0078d7"), None);
    assert_eq!(parse_hex_color("#0078d"), None);
    assert_eq!(parse_hex_color("#0078dg"), None);
}

#[test]
fn a_blank_font_and_a_square_corner_are_recognised() {
    let mut app = default_look();
    app.font_family = " \u{3000}\t".into();
    app.corner = "square".into();
    let t = Theme::resolve(&app, &builtin(), false);
    assert_eq!(t.font_family, "Yu Gothic UI");
    assert!(!t.rounded);
    app.font_family = " Meiryo".into();
    assert_eq!(Theme::resolve(&app, &builtin(), false).font_family, " Meiryo");
}

#[test]
fn system_settings_that_cannot_be_read_have_defaults() {
    assert!(!is_dark_from_registry(None) && is_dark_from_registry(Some(0)));
    assert!(!is_dark_from_registry(Some(1)));
    assert!(is_transparency_enabled_from_registry(None));
    assert!(!is_transparency_enabled_from_registry(Some(0)));
    assert!(os_animations_enabled(None) && !os_animations_enabled(Some(false)));
}

#[test]
fn the_look_is_read_again_only_when_the_settings_change() {
    let t0 = SystemTime::UNIX_EPOCH;
    let mut source = AppearanceSource::new(default_look());
    let dark = || {
        let mut look = default_look();
        look.theme = "dark".into();
        look
    };
    source.current_appearance(None, || panic!("no settings to read"));
    assert_eq!(source.appearance().theme, "auto");
    source.current_appearance(Some(t0), dark);
    assert_eq!(source.appearance().theme, "dark");
    source.current_appearance(Some(t0), || panic!("the settings are the same"));
    let t = source.current_theme(
        Some(t0),
        || panic!("the settings are the same"),
        &builtin(),
        || panic!("an explicit theme does not ask"),
        || false,
        false,
    );
    assert!(t.is_dark && !t.acrylic && !t.motion);
    assert_eq!(t.colors.bg, Rgba { r: 0x2C, g: 0x2C, b: 0x2E, a: 255 });
}
