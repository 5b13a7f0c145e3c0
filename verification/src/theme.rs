//! The resolved look of the popups: colours, font and effects.

use std::time::SystemTime;
use vstd::prelude::*;
use vstd::string::*;
use crate::text::{chars_of, same_text};

verus! {

/// The opacity of an acrylic background.
pub const ACRYLIC_BG_ALPHA: u8 = 179;

/// Corner radii in device independent pixels, large to small.
pub const RADIUS_LG: i32 = 12;

pub const RADIUS_MD: i32 = 8;

pub const RADIUS_SM: i32 = 6;

/// A moment of the system's clock.
#[verifier::external_type_specification]
#[verifier::external_body]
pub struct ExSystemTime(SystemTime);

/// Compares two moments with `SystemTime::eq`: true exactly for the same moment.
#[verifier::external_body]
pub(crate) fn same_moment(a: &SystemTime, b: &SystemTime) -> (r: bool)
    ensures
        r == (*a == *b),
{
    a == b
}

/// A colour with opacity.
#[derive(Debug, Clone, Copy, PartialEq, Eq, Structural)]
pub struct Rgba {
    pub r: u8,
    pub g: u8,
    pub b: u8,
    pub a: u8,
}

impl Rgba {
    /// The colour as GDI takes it: blue, green, red from the high byte down. The opacity is lost.
    pub fn colorref(&self) -> (r: u32)
        ensures
            r == self.b * 65536 + self.g * 256 + self.r,
    {
        let r: u32 = self.r as u32;
        let g: u32 = self.g as u32;
        let b: u32 = self.b as u32;
        assert(b <= 255 && g <= 255 && r <= 255 ==> (b << 16 | g << 8 | r) == b * 65536 + g * 256
            + r) by (bit_vector);
        b << 16 | g << 8 | r
    }
}

/// The seven colours of a popup.
#[derive(Debug, Clone, Copy, PartialEq, Eq, Structural)]
pub struct ThemeColors {
    pub bg: Rgba,
    pub text: Rgba,
    pub index: Rgba,
    pub sel_bg: Rgba,
    pub sel_text: Rgba,
    pub sel_index: Rgba,
    pub border: Rgba,
}

/// Everything a popup needs to know to draw itself.
#[derive(Debug, Clone)]
pub struct Theme {
    pub colors: ThemeColors,
    pub font_family: String,
    pub font_point_tenths: i32,
    pub rounded: bool,
    pub acrylic: bool,
    pub motion: bool,
    pub is_dark: bool,
}

/// The seven colours as the settings write them.
#[derive(Debug, Clone, PartialEq, Eq)]
pub struct Palette {
    pub bg: String,
    pub text: String,
    pub index: String,
    pub sel_bg: String,
    pub sel_text: String,
    pub sel_index: String,
    pub border: String,
}

/// The palettes that take over where the settings cannot be read.
#[derive(Debug, Clone, PartialEq, Eq)]
pub struct BuiltinPalettes {
    pub light: Palette,
    pub dark: Palette,
}

/// The look that the user chose.
#[derive(Debug, Clone, PartialEq, Eq)]
pub struct Appearance {
    pub theme: String,
    pub backdrop: String,
    pub corner: String,
    pub font_family: String,
    /// The font size in tenths of a point.
    pub font_point_tenths: i32,
    pub palette_light: Palette,
    pub palette_dark: Palette,
}

/// The value of a byte written in two hexadecimal digits.
pub open spec fn hex_byte(s: Seq<char>, at: int) -> int {
    crate::register::hex_value(s[at])->0 * 16 + crate::register::hex_value(s[at + 1])->0
}

/// The colour that `#RRGGBB` writes.
pub open spec fn hex_color(s: Seq<char>) -> Option<(u8, u8, u8)> {
    if s.len() == 7 && s[0] == '#' && forall|i: int|
        1 <= i < 7 ==> crate::register::hex_value(#[trigger] s[i]) is Some {
        Some((hex_byte(s, 1) as u8, hex_byte(s, 3) as u8, hex_byte(s, 5) as u8))
    } else {
        None
    }
}

/// Reads `#RRGGBB`.
pub fn parse_hex_color(hex: &str) -> (r: Option<(u8, u8, u8)>)
    ensures
        r == hex_color(hex@),
{
    let s = chars_of(hex);
    if s.len() != 7 || s[0] != '#' {
        return None;
    }
    let mut digits: Vec<u8> = Vec::new();
    let mut i: usize = 1;
    while i < 7
        invariant
            1 <= i <= 7,
            s.len() == 7,
            s@ == hex@,
            digits.len() == i - 1,
            forall|k: int|
                1 <= k < i ==> crate::register::hex_value(#[trigger] s@[k]) is Some && digits@[k
                    - 1] == crate::register::hex_value(s@[k])->0 && digits@[k - 1] < 16,
        decreases 7 - i,
    {
        match crate::register::hex_digit(s[i]) {
            None => {
                assert(crate::register::hex_value(s@[i as int]) is None);
                return None;
            },
            Some(d) => {
                digits.push(d as u8);
            },
        }
        i = i + 1;
    }
    assert(crate::register::hex_value(s@[1]) is Some && crate::register::hex_value(s@[2]) is Some
        && crate::register::hex_value(s@[3]) is Some && crate::register::hex_value(s@[4]) is Some
        && crate::register::hex_value(s@[5]) is Some && crate::register::hex_value(s@[6]) is Some);
    Some(
        (
            digits[0] * 16 + digits[1],
            digits[2] * 16 + digits[3],
            digits[4] * 16 + digits[5],
        ),
    )
}

/// A colour of the settings, or the built-in one where it cannot be read.
pub open spec fn color_of(hex: Seq<char>, builtin: Seq<char>, alpha: u8) -> Rgba {
    let fallback = match hex_color(builtin) {
        Some(c) => c,
        None => (0u8, 0u8, 0u8),
    };
    let c = match hex_color(hex) {
        Some(c) => c,
        None => fallback,
    };
    Rgba { r: c.0, g: c.1, b: c.2, a: alpha }
}

/// A colour of the settings, or the fallback where it cannot be read.
pub fn color_or(hex: &str, fallback: (u8, u8, u8)) -> (r: (u8, u8, u8))
    ensures
        r == (match hex_color(hex@) {
            Some(c) => c,
            None => fallback,
        }),
{
    match parse_hex_color(hex) {
        Some(c) => c,
        None => fallback,
    }
}

fn resolved_color(hex: &str, builtin: &str, alpha: u8) -> (r: Rgba)
    ensures
        r == color_of(hex@, builtin@, alpha),
{
    let fallback: (u8, u8, u8) = match parse_hex_color(builtin) {
        Some(c) => c,
        None => (0, 0, 0),
    };
    let (r, g, b) = color_or(hex, fallback);
    Rgba { r, g, b, a: alpha }
}

/// A character with the Unicode property White_Space.
pub open spec fn is_white(c: char) -> bool {
    let v = c as u32;
    ||| 0x9 <= v <= 0xD
    ||| v == 0x20
    ||| v == 0x85
    ||| v == 0xA0
    ||| v == 0x1680
    ||| 0x2000 <= v <= 0x200A
    ||| v == 0x2028
    ||| v == 0x2029
    ||| v == 0x202F
    ||| v == 0x205F
    ||| v == 0x3000
}

/// A text of white space only.
pub open spec fn is_blank(s: Seq<char>) -> bool {
    forall|i: int| 0 <= i < s.len() ==> is_white(#[trigger] s[i])
}

fn blank(s: &str) -> (r: bool)
    ensures
        r == is_blank(s@),
{
    let v = chars_of(s);
    let mut i: usize = 0;
    while i < v.len()
        invariant
            i <= v.len(),
            v@ == s@,
            forall|k: int| 0 <= k < i ==> is_white(#[trigger] v@[k]),
        decreases v.len() - i,
    {
        let c: u32 = v[i] as u32;
        let white = (0x9 <= c && c <= 0xD) || c == 0x20 || c == 0x85 || c == 0xA0 || c == 0x1680 || (
        0x2000 <= c && c <= 0x200A) || c == 0x2028 || c == 0x2029 || c == 0x202F || c == 0x205F || c
            == 0x3000;
        if !white {
            assert(!is_white(v@[i as int]));
            return false;
        }
        i = i + 1;
    }
    true
}

/// The dark palette is wanted: outright, or because the system is dark and the user follows it.
pub open spec fn wants_dark(app: Appearance, is_dark: bool) -> bool {
    app.theme@ == "dark"@ || (app.theme@ == "auto"@ && is_dark)
}

/// The background is translucent.
pub open spec fn wants_acrylic(app: Appearance) -> bool {
    app.backdrop@ == "acrylic"@
}

/// The seven colours of a palette.
pub open spec fn colors_of(palette: Palette, builtin: Palette, bg_alpha: u8) -> ThemeColors {
    ThemeColors {
        bg: color_of(palette.bg@, builtin.bg@, bg_alpha),
        text: color_of(palette.text@, builtin.text@, 255),
        index: color_of(palette.index@, builtin.index@, 255),
        sel_bg: color_of(palette.sel_bg@, builtin.sel_bg@, 255),
        sel_text: color_of(palette.sel_text@, builtin.sel_text@, 255),
        sel_index: color_of(palette.sel_index@, builtin.sel_index@, 255),
        border: color_of(palette.border@, builtin.border@, 255),
    }
}

/// The theme is what the chosen look comes to.
pub open spec fn is_resolved(t: Theme, app: Appearance, builtin: BuiltinPalettes, is_dark: bool) -> bool {
    let dark = wants_dark(app, is_dark);
    &&& t.colors == colors_of(
        if dark {
            app.palette_dark
        } else {
            app.palette_light
        },
        if dark {
            builtin.dark
        } else {
            builtin.light
        },
        if wants_acrylic(app) {
            ACRYLIC_BG_ALPHA
        } else {
            255
        },
    )
    &&& t.font_family@ == (if is_blank(app.font_family@) {
        "Yu Gothic UI"@
    } else {
        app.font_family@
    })
    &&& t.font_point_tenths == app.font_point_tenths
    &&& t.rounded == (app.corner@ != "square"@)
    &&& t.acrylic == wants_acrylic(app)
    &&& t.motion
    &&& t.is_dark == dark
}

impl Theme {
    /// Resolves the chosen look. A colour that cannot be read is replaced on its own.
    pub fn resolve(app: &Appearance, builtin: &BuiltinPalettes, is_dark: bool) -> (r: Theme)
        ensures
            is_resolved(r, *app, *builtin, is_dark),
    {
        let use_dark = same_text(app.theme.as_str(), "dark") || (same_text(
            app.theme.as_str(),
            "auto",
        ) && is_dark);
        let pal = if use_dark {
            &app.palette_dark
        } else {
            &app.palette_light
        };
        let def = if use_dark {
            &builtin.dark
        } else {
            &builtin.light
        };
        let acrylic = same_text(app.backdrop.as_str(), "acrylic");
        let bg_alpha: u8 = if acrylic {
            ACRYLIC_BG_ALPHA
        } else {
            255
        };
        Theme {
            colors: ThemeColors {
                bg: resolved_color(pal.bg.as_str(), def.bg.as_str(), bg_alpha),
                text: resolved_color(pal.text.as_str(), def.text.as_str(), 255),
                index: resolved_color(pal.index.as_str(), def.index.as_str(), 255),
                sel_bg: resolved_color(pal.sel_bg.as_str(), def.sel_bg.as_str(), 255),
                sel_text: resolved_color(pal.sel_text.as_str(), def.sel_text.as_str(), 255),
                sel_index: resolved_color(pal.sel_index.as_str(), def.sel_index.as_str(), 255),
                border: resolved_color(pal.border.as_str(), def.border.as_str(), 255),
            },
            font_family: if blank(app.font_family.as_str()) {
                "Yu Gothic UI".to_owned()
            } else {
                app.font_family.clone()
            },
            font_point_tenths: app.font_point_tenths,
            rounded: !same_text(app.corner.as_str(), "square"),
            acrylic,
            motion: true,
            is_dark: use_dark,
        }
    }
}

/// The settings are to be read again: they exist, and are not the ones that were read last.
/// Settings that vanished keep their last values.
pub open spec fn is_stale(current: Option<SystemTime>, cached: Option<SystemTime>) -> bool {
    current is Some && current != cached
}

/// Whether the settings are to be read again.
pub fn should_reload(current: Option<SystemTime>, cached: Option<SystemTime>) -> (r: bool)
    ensures
        r == is_stale(current, cached),
{
    match (current, cached) {
        (Some(_), None) => true,
        (Some(c), Some(p)) => !same_moment(&c, &p),
        (None, _) => false,
    }
}

/// Whether the theme depends on the system's own choice between light and dark.
pub fn needs_registry_dark(theme: &str) -> (r: bool)
    ensures
        r == (theme@ == "auto"@),
{
    same_text(theme, "auto")
}

/// The system's apps are dark. A value that cannot be read means light.
pub fn is_dark_from_registry(apps_use_light_theme: Option<u32>) -> (r: bool)
    ensures
        r == (apps_use_light_theme == Some(0u32)),
{
    match apps_use_light_theme {
        Some(v) => v == 0,
        None => false,
    }
}

/// The system allows transparency. A value that cannot be read means that it does.
pub fn is_transparency_enabled_from_registry(enable_transparency: Option<u32>) -> (r: bool)
    ensures
        r == (enable_transparency != Some(0u32)),
{
    match enable_transparency {
        Some(v) => v != 0,
        None => true,
    }
}

/// The system allows animations. A setting that cannot be read means that it does.
pub fn os_animations_enabled(client_area_animation: Option<bool>) -> (r: bool)
    ensures
        r == (client_area_animation != Some(false)),
{
    match client_area_animation {
        Some(enabled) => enabled,
        None => true,
    }
}

/// The theme with the system's wishes: no transparency makes an acrylic background opaque, no
/// animations switch the fades off.
pub open spec fn with_accessibility(t: Theme, transparency: bool, animations: bool) -> Theme {
    if !transparency && t.acrylic {
        Theme {
            acrylic: false,
            colors: ThemeColors { bg: Rgba { a: 255, ..t.colors.bg }, ..t.colors },
            motion: animations,
            ..t
        }
    } else {
        Theme { motion: animations, ..t }
    }
}

/// Applies the system's accessibility settings.
pub fn apply_os_accessibility(t: Theme, transparency: bool, animations: bool) -> (r: Theme)
    ensures
        r == with_accessibility(t, transparency, animations),
{
    let mut t = t;
    if !transparency && t.acrylic {
        t.acrylic = false;
        t.colors.bg.a = 255;
    }
    t.motion = animations;
    t
}

/// The look that the settings last gave, read again only when they change.
pub struct AppearanceSource {
    cached_mtime: Option<SystemTime>,
    cached: Appearance,
}

impl AppearanceSource {
    /// When the settings that are cached were written.
    pub closed spec fn mtime(self) -> Option<SystemTime> {
        self.cached_mtime
    }

    /// The look that is cached.
    pub closed spec fn look(self) -> Appearance {
        self.cached
    }

    /// The look after a look at the settings: the loaded one where the settings changed, else the
    /// one that is cached.
    pub open spec fn gives<F: FnOnce() -> Appearance>(
        self,
        now: Option<SystemTime>,
        load: F,
        look: Appearance,
    ) -> bool {
        if is_stale(now, self.mtime()) {
            load.ensures((), look)
        } else {
            look == self.look()
        }
    }

    /// Starts with a built-in look; existing settings are read at the first use.
    pub fn new(builtin: Appearance) -> (r: Self)
        ensures
            r.mtime() is None,
            r.look() == builtin,
    {
        AppearanceSource { cached_mtime: None, cached: builtin }
    }

    /// The current look. Settings that could not be parsed were loaded as defaults, and are not
    /// parsed again until they change.
    pub fn current_appearance(
        &mut self,
        now: Option<SystemTime>,
        load: impl FnOnce() -> Appearance,
    )
        requires
            is_stale(now, old(self).mtime()) ==> load.requires(()),
        ensures
            is_stale(now, old(self).mtime()) ==> final(self).mtime() == now && load.ensures(
                (),
                final(self).look(),
            ),
            !is_stale(now, old(self).mtime()) ==> *final(self) == *old(self),
    {
        if should_reload(now, self.cached_mtime) {
            self.cached = load();
            self.cached_mtime = now;
        }
    }

    /// The current look, as it was last brought up to date.
    pub fn appearance(&self) -> (r: &Appearance)
        ensures
            *r == self.look(),
    {
        &self.cached
    }

    /// The current theme. The system's darkness is asked for only if the theme follows it, its
    /// transparency only if the background is translucent.
    pub fn current_theme(
        &mut self,
        now: Option<SystemTime>,
        load: impl FnOnce() -> Appearance,
        builtin: &BuiltinPalettes,
        system_is_dark: impl FnOnce() -> bool,
        transparency: impl FnOnce() -> bool,
        animations: bool,
    ) -> (r: Theme)
        requires
            is_stale(now, old(self).mtime()) ==> load.requires(()),
            forall|look: Appearance| #[trigger]
                old(self).gives(now, load, look) && look.theme@ == "auto"@
                    ==> system_is_dark.requires(()),
            forall|look: Appearance, is_dark: bool, t: Theme|
                old(self).gives(now, load, look) && #[trigger] is_resolved(
                    t,
                    look,
                    *builtin,
                    is_dark,
                ) && t.acrylic ==> transparency.requires(()),
        ensures
            is_stale(now, old(self).mtime()) ==> final(self).mtime() == now && load.ensures(
                (),
                final(self).look(),
            ),
            !is_stale(now, old(self).mtime()) ==> *final(self) == *old(self),
            exists|t: Theme, is_dark: bool, clear: bool|
                {
                    &&& #[trigger] is_resolved(t, final(self).look(), *builtin, is_dark)
                    &&& r == #[trigger] with_accessibility(t, clear, animations)
                    &&& if final(self).look().theme@ == "auto"@ {
                        system_is_dark.ensures((), is_dark)
                    } else {
                        !is_dark
                    }
                    &&& if t.acrylic {
                        transparency.ensures((), clear)
                    } else {
                        clear
                    }
                },
    {
        self.current_appearance(now, load);
        assert(old(self).gives(now, load, self.look()));
        let is_dark = if needs_registry_dark(self.cached.theme.as_str()) {
            system_is_dark()
        } else {
            false
        };
        let t = Theme::resolve(&self.cached, builtin, is_dark);
        assert(is_resolved(t, self.look(), *builtin, is_dark));
        let clear = if t.acrylic {
            transparency()
        } else {
            true
        };
        let ghost before = t;
        let themed = apply_os_accessibility(t, clear, animations);
        assert(themed == with_accessibility(before, clear, animations));
        themed
    }
}

/// A translucent background is the only translucent colour, and only an acrylic theme has it.
pub proof fn only_the_background_is_translucent(
    t: Theme,
    app: Appearance,
    builtin: BuiltinPalettes,
    is_dark: bool,
)
    requires
        is_resolved(t, app, builtin, is_dark),
    ensures
        t.colors.bg.a == 255 <==> !t.acrylic,
        t.colors.text.a == 255 && t.colors.index.a == 255 && t.colors.sel_bg.a == 255
            && t.colors.sel_text.a == 255 && t.colors.sel_index.a == 255 && t.colors.border.a
            == 255,
{
}

/// The system's darkness matters to a theme that follows it, and to no other.
pub proof fn an_explicit_theme_ignores_the_system(
    a: Theme,
    b: Theme,
    app: Appearance,
    builtin: BuiltinPalettes,
)
    requires
        app.theme@ != "auto"@,
        is_resolved(a, app, builtin, true),
        is_resolved(b, app, builtin, false),
    ensures
        a.colors == b.colors,
        a.is_dark == b.is_dark,
{
}

/// Without transparency no colour is translucent and nothing is acrylic.
pub proof fn no_transparency_means_opaque(
    t: Theme,
    app: Appearance,
    builtin: BuiltinPalettes,
    is_dark: bool,
    animations: bool,
)
    requires
        is_resolved(t, app, builtin, is_dark),
    ensures
        !with_accessibility(t, false, animations).acrylic,
        with_accessibility(t, false, animations).colors.bg.a == 255,
        with_accessibility(t, true, true) == t,
{
}

/// A written colour is read back as it is, whatever it is; and nothing else than a hash and six
/// digits is a colour.
pub proof fn a_written_colour_is_read_back(r: u8, g: u8, b: u8, s: Seq<char>)
    ensures
        hex_color(
            seq![
                '#',
                crate::register::hex_char(r as int / 16),
                crate::register::hex_char(r as int % 16),
                crate::register::hex_char(g as int / 16),
                crate::register::hex_char(g as int % 16),
                crate::register::hex_char(b as int / 16),
                crate::register::hex_char(b as int % 16),
            ],
        ) == Some((r, g, b)),
        hex_color(s) is Some ==> s.len() == 7 && s[0] == '#',
        hex_color(s) is Some ==> forall|i: int|
            1 <= i < 7 ==> crate::register::hex_value(#[trigger] s[i]) is Some,
        hex_color(s) is Some ==> {
            let c = hex_color(s)->0;
            &&& c.0 == 16 * crate::register::hex_value(s[1])->0 + crate::register::hex_value(s[2])->0
            &&& c.1 == 16 * crate::register::hex_value(s[3])->0 + crate::register::hex_value(s[4])->0
            &&& c.2 == 16 * crate::register::hex_value(s[5])->0 + crate::register::hex_value(s[6])->0
        },
{
    let text = seq![
        '#',
        crate::register::hex_char(r as int / 16),
        crate::register::hex_char(r as int % 16),
        crate::register::hex_char(g as int / 16),
        crate::register::hex_char(g as int % 16),
        crate::register::hex_char(b as int / 16),
        crate::register::hex_char(b as int % 16),
    ];
    crate::register::a_digit_is_read_back(r as int / 16);
    crate::register::a_digit_is_read_back(r as int % 16);
    crate::register::a_digit_is_read_back(g as int / 16);
    crate::register::a_digit_is_read_back(g as int % 16);
    crate::register::a_digit_is_read_back(b as int / 16);
    crate::register::a_digit_is_read_back(b as int % 16);
    assert(hex_byte(text, 1) == r && hex_byte(text, 3) == g && hex_byte(text, 5) == b);
    if hex_color(s) is Some {
        assert(crate::register::hex_value(s[1]) is Some && crate::register::hex_value(s[2]) is Some
            && crate::register::hex_value(s[3]) is Some && crate::register::hex_value(s[4]) is Some
            && crate::register::hex_value(s[5]) is Some && crate::register::hex_value(s[6]) is Some);
    }
}

/// A readable colour is taken as it is; an unreadable one is the built-in one, or black.
pub proof fn an_unreadable_colour_is_the_built_in_one(
    hex: Seq<char>,
    builtin: Seq<char>,
    alpha: u8,
)
    ensures
        ({
            let c = color_of(hex, builtin, alpha);
            &&& c.a == alpha
            &&& hex_color(hex) is Some ==> hex_color(hex) == Some((c.r, c.g, c.b))
            &&& hex_color(hex) is None && hex_color(builtin) is Some ==> hex_color(builtin) == Some(
                (c.r, c.g, c.b),
            )
            &&& hex_color(hex) is None && hex_color(builtin) is None ==> c.r == 0 && c.g == 0 && c.b
                == 0
        }),
{
}

/// A theme shows the colours of the palette that it is named after, each in its own place, and the
/// chosen font, corners and backdrop. A font without a name is the default one.
pub proof fn a_theme_is_what_was_chosen(
    t: Theme,
    app: Appearance,
    builtin: BuiltinPalettes,
    is_dark: bool,
)
    requires
        is_resolved(t, app, builtin, is_dark),
    ensures
        t.is_dark <==> app.theme@ == "dark"@ || (app.theme@ == "auto"@ && is_dark),
        ({
            let p = if t.is_dark {
                app.palette_dark
            } else {
                app.palette_light
            };
            let d = if t.is_dark {
                builtin.dark
            } else {
                builtin.light
            };
            let a: u8 = if t.acrylic {
                179
            } else {
                255
            };
            &&& t.colors.bg == color_of(p.bg@, d.bg@, a)
            &&& t.colors.text == color_of(p.text@, d.text@, 255)
            &&& t.colors.index == color_of(p.index@, d.index@, 255)
            &&& t.colors.sel_bg == color_of(p.sel_bg@, d.sel_bg@, 255)
            &&& t.colors.sel_text == color_of(p.sel_text@, d.sel_text@, 255)
            &&& t.colors.sel_index == color_of(p.sel_index@, d.sel_index@, 255)
            &&& t.colors.border == color_of(p.border@, d.border@, 255)
        }),
        t.acrylic <==> app.backdrop@ == "acrylic"@,
        t.rounded <==> app.corner@ != "square"@,
        t.motion,
        t.font_point_tenths == app.font_point_tenths,
        (exists|i: int| 0 <= i < app.font_family@.len() && !is_white(#[trigger] app.font_family@[i]))
            ==> t.font_family@ == app.font_family@,
        (forall|i: int| 0 <= i < app.font_family@.len() ==> is_white(#[trigger] app.font_family@[i]))
            ==> t.font_family@ == "Yu Gothic UI"@,
{
}

/// The characters of white space.
pub proof fn white_space_is_known(c: char)
    ensures
        is_white(c) <==> seq![
            9u32,
            10,
            11,
            12,
            13,
            32,
            133,
            160,
            5760,
            8192,
            8193,
            8194,
            8195,
            8196,
            8197,
            8198,
            8199,
            8200,
            8201,
            8202,
            8232,
            8233,
            8239,
            8287,
            12288,
        ].contains(c as u32),
{
    let all = seq![
        9u32,
        10,
        11,
        12,
        13,
        32,
        133,
        160,
        5760,
        8192,
        8193,
        8194,
        8195,
        8196,
        8197,
        8198,
        8199,
        8200,
        8201,
        8202,
        8232,
        8233,
        8239,
        8287,
        12288,
    ];
    assert(all[0] == 9 && all[1] == 10 && all[2] == 11 && all[3] == 12 && all[4] == 13 && all[5] == 32
        && all[6] == 133 && all[7] == 160 && all[8] == 5760 && all[9] == 8192 && all[10] == 8193
        && all[11] == 8194 && all[12] == 8195 && all[13] == 8196 && all[14] == 8197 && all[15] == 8198
        && all[16] == 8199 && all[17] == 8200 && all[18] == 8201 && all[19] == 8202 && all[20] == 8232
        && all[21] == 8233 && all[22] == 8239 && all[23] == 8287 && all[24] == 12288);
}

/// Settings are read again exactly where they exist and are not those that were read.
pub proof fn settings_are_read_once(now: SystemTime, then: SystemTime, cached: Option<SystemTime>)
    ensures
        is_stale(Some(now), None),
        !is_stale(Some(now), Some(now)),
        now != then ==> is_stale(Some(now), Some(then)),
        !is_stale(None, cached),
{
}

/// The system's wishes change the backdrop and the motion, and nothing else.
pub proof fn the_systems_wishes_change_nothing_else(t: Theme, transparency: bool, animations: bool)
    ensures
        ({
            let after = with_accessibility(t, transparency, animations);
            &&& after.motion == animations
            &&& after.acrylic <==> t.acrylic && transparency
            &&& after.colors.bg.r == t.colors.bg.r && after.colors.bg.g == t.colors.bg.g
            &&& after.colors.bg.b == t.colors.bg.b
            &&& t.acrylic && !transparency ==> after.colors.bg.a == 255
            &&& !(t.acrylic && !transparency) ==> after.colors.bg.a == t.colors.bg.a
            &&& after.colors.text == t.colors.text && after.colors.index == t.colors.index
            &&& after.colors.sel_bg == t.colors.sel_bg
            &&& after.colors.sel_text == t.colors.sel_text
            &&& after.colors.sel_index == t.colors.sel_index
            &&& after.colors.border == t.colors.border
            &&& after.font_family == t.font_family
            &&& after.font_point_tenths == t.font_point_tenths
            &&& after.rounded == t.rounded && after.is_dark == t.is_dark
        }),
{
}

/// Settings that did not change, or that are gone, give the look that was there before; others give
/// what is loaded.
pub proof fn a_look_is_kept_until_it_changes<F: FnOnce() -> Appearance>(
    source: AppearanceSource,
    now: Option<SystemTime>,
    load: F,
    look: Appearance,
)
    ensures
        now is None ==> (source.gives(now, load, look) <==> look == source.look()),
        now == source.mtime() ==> (source.gives(now, load, look) <==> look == source.look()),
        now is Some && now != source.mtime() ==> (source.gives(now, load, look) <==> load.ensures(
            (),
            look,
        )),
{
}

/// The corners get smaller, and an acrylic background lets three tenths through.
pub proof fn the_measures_of_the_look()
    ensures
        RADIUS_LG == 12 && RADIUS_MD == 8 && RADIUS_SM == 6,
        ACRYLIC_BG_ALPHA == 255 * 7 / 10 + 1,
{
}

} // verus!
