//! The popup above the caret that shows the reading while live conversion shows its result.

use vstd::prelude::*;
use vstd::string::*;
use crate::render::{is_device_lost, loses_device};
use crate::text::{joined, same_text, tail, take_tail};
use crate::theme::Theme;

verus! {

/// The thickness of the frame, in pixels.
pub const BORDER: i32 = 1;

/// The padding left and right, in device independent pixels.
pub const PAD_H: i32 = 10;

/// The padding above and below together, in device independent pixels.
pub const PAD_V_TOTAL: i32 = 12;

/// The least width of the text, in device independent pixels.
pub const MIN_TEXT_W: i32 = 24;

/// The gap between the caret and the popup, in device independent pixels.
pub const GAP: i32 = 6;

/// The number is one that pixels are counted with.
pub open spec fn fits(n: int) -> bool {
    i32::MIN <= n <= i32::MAX
}

/// The popup shows while live conversion is composing and no candidates are open.
pub fn should_show(enabled: bool, composing: bool, live_enabled: bool, candidate_visible: bool) -> (r:
    bool)
    ensures
        r == (enabled && composing && live_enabled && !candidate_visible),
{
    enabled && composing && live_enabled && !candidate_visible
}

/// The widest text, in pixels: so many full-width characters of the font.
pub fn max_text_w_px(max_chars: u32, font_px: i32) -> (r: i32)
    requires
        max_chars <= i32::MAX,
        i32::MIN <= max_chars * font_px <= i32::MAX,
    ensures
        r == max_chars * font_px,
{
    max_chars as i32 * font_px
}

/// The longest text that is kept: half-width characters take half the room.
pub fn display_bound(max_chars: u32) -> (r: usize)
    requires
        2 * max_chars <= usize::MAX,
    ensures
        r == 2 * max_chars,
{
    2 * max_chars as usize
}

/// The text ends in the given suffix.
pub open spec fn has_suffix(s: Seq<char>, suffix: Seq<char>) -> bool {
    suffix.len() <= s.len() && s.subrange(s.len() - suffix.len(), s.len() as int) == suffix
}

/// The part of the reading that an automatic commit consumed: what stands before the rest.
pub fn consumed_reading<'a>(full: &'a str, remaining: &str) -> (r: Option<&'a str>)
    ensures
        r is Some <==> has_suffix(full@, remaining@),
        r is Some ==> full@ == r->0@ + remaining@,
{
    let n: usize = full.unicode_len();
    let k: usize = remaining.unicode_len();
    if k > n {
        return None;
    }
    let rest = full.substring_char(n - k, n);
    if same_text(rest, remaining) {
        let head = full.substring_char(0, n - k);
        assert(head@ + remaining@ == full@);
        Some(head)
    } else {
        None
    }
}

/// Keeps the last characters of a text.
pub fn trim_to_tail(buf: &mut String, max_chars: usize)
    ensures
        final(buf)@ == tail(old(buf)@, max_chars as int),
{
    let kept = take_tail(buf.as_str(), max_chars);
    *buf = kept;
}

/// Appends what was consumed, and keeps the last characters.
pub fn append_committed(buf: &mut String, consumed: &str, bound: usize)
    ensures
        final(buf)@ == tail(old(buf)@ + consumed@, bound as int),
{
    buf.append(consumed);
    trim_to_tail(buf, bound);
}

/// The text of the popup: what was consumed and what is being typed, its end first.
pub fn compose_monitor_text(committed: &str, current: &str, bound: usize) -> (r: String)
    ensures
        r@ == tail(committed@ + current@, bound as int),
{
    let mut s = joined(committed, current);
    trim_to_tail(&mut s, bound);
    s
}

/// Cutting off the front first changes nothing about the last characters.
pub proof fn tail_of_tail(a: Seq<char>, b: Seq<char>, bound: int)
    requires
        bound >= 0,
    ensures
        tail(tail(a, bound) + b, bound) == tail(a + b, bound),
{
    if a.len() > bound {
        assert(tail(tail(a, bound) + b, bound) =~= tail(a + b, bound));
    }
}

/// An automatic commit moves text from the reading to what was consumed; the popup shows the
/// same string before and after.
pub proof fn an_automatic_commit_keeps_the_shown_text(
    committed: Seq<char>,
    consumed: Seq<char>,
    remaining: Seq<char>,
    bound: int,
)
    requires
        bound >= 0,
    ensures
        tail(tail(committed + consumed, bound) + remaining, bound) == tail(
            committed + (consumed + remaining),
            bound,
        ),
{
    tail_of_tail(committed + consumed, remaining, bound);
    assert(committed + consumed + remaining == committed + (consumed + remaining));
}

/// The text does not fit and is drawn with its end in view.
pub fn text_overflows(text_px_w: i32, max_w_px: i32) -> (r: bool)
    ensures
        r == (text_px_w > max_w_px),
{
    text_px_w > max_w_px
}

/// A place next to the caret, in screen coordinates.
#[derive(Clone, Copy, Debug, PartialEq, Eq, Structural)]
pub struct CaretAnchor {
    pub x: i32,
    pub y: i32,
    pub caret_top: Option<i32>,
}

/// Where the popup goes.
#[derive(Clone, Copy, Debug, PartialEq, Eq, Structural)]
pub enum AnchorPlan {
    /// To the anchor.
    Move(CaretAnchor),
    /// Nowhere: it stays.
    Hold,
    /// To the default place.
    Fallback,
}

/// Where the popup goes. Without an anchor a visible popup stays where it is.
pub fn plan_anchor(anchor: Option<CaretAnchor>, visible: bool) -> (r: AnchorPlan)
    ensures
        r == (match anchor {
            Some(a) => AnchorPlan::Move(a),
            None => if visible {
                AnchorPlan::Hold
            } else {
                AnchorPlan::Fallback
            },
        }),
{
    match anchor {
        Some(a) => AnchorPlan::Move(a),
        None => if visible {
            AnchorPlan::Hold
        } else {
            AnchorPlan::Fallback
        },
    }
}

/// The measures of the popup at the resolution of its screen, in pixels.
#[derive(Clone, Copy, Debug, PartialEq, Eq, Structural)]
pub struct MonitorMetrics {
    pub pad_h: i32,
    pub pad_v_total: i32,
    pub min_text_w: i32,
    pub gap: i32,
}

impl MonitorMetrics {
    /// The width of the popup around a text.
    pub open spec fn width(self, text_px_w: int, max_w: int) -> int {
        2 * BORDER + 2 * self.pad_h + shown_width(text_px_w, self.min_text_w as int, max_w)
    }

    /// The height of the popup around a line.
    pub open spec fn height(self, font_px: int) -> int {
        2 * BORDER + self.pad_v_total + font_px
    }

    /// Neither sum on the way to the size is too large to count.
    pub open spec fn countable(self, text_px_w: int, font_px: int, max_w: int) -> bool {
        &&& fits(2 * self.pad_h)
        &&& fits(2 * BORDER + 2 * self.pad_h)
        &&& fits(self.width(text_px_w, max_w))
        &&& fits(2 * BORDER + self.pad_v_total)
        &&& fits(self.height(font_px))
    }
}

/// The width of the text in the popup: at least the least width, at most the widest text.
pub open spec fn shown_width(text_px_w: int, min_w: int, max_w: int) -> int {
    if text_px_w < min_w || max_w < min_w {
        min_w
    } else if text_px_w > max_w {
        max_w
    } else {
        text_px_w
    }
}

/// The measured width of a text; one that could not be measured has none.
pub open spec fn measured(text_px_w: Option<i32>) -> int {
    match text_px_w {
        Some(w) => w as int,
        None => 0,
    }
}

/// The size of the popup. A widest text below the least width gives the least width.
pub fn monitor_window_size(text_px_w: i32, font_px: i32, metrics: MonitorMetrics, max_w_px: i32) -> (r:
    (i32, i32))
    requires
        metrics.countable(text_px_w as int, font_px as int, max_w_px as int),
    ensures
        r.0 == metrics.width(text_px_w as int, max_w_px as int),
        r.1 == metrics.height(font_px as int),
{
    let min_w: i32 = metrics.min_text_w;
    let shown: i32 = if text_px_w < min_w || max_w_px < min_w {
        min_w
    } else if text_px_w > max_w_px {
        max_w_px
    } else {
        text_px_w
    };
    (2 * BORDER + 2 * metrics.pad_h + shown, 2 * BORDER + metrics.pad_v_total + font_px)
}

/// How a popup may leave the screen.
#[derive(Clone, Copy, Debug, PartialEq, Eq, Structural)]
pub enum FadeOut {
    /// It is leaving already.
    AlreadyFading,
    /// It fades for so many milliseconds.
    Fade(u32),
    /// It cannot fade.
    Immediate,
}

/// What hiding the popup takes.
#[derive(Clone, Copy, Debug, PartialEq, Eq, Structural)]
pub enum HideAction {
    Nothing,
    /// Hide when the timer fires.
    StartTimer(u32),
    HideNow,
}

/// What showing the popup begins with.
#[derive(Clone, Copy, Debug, PartialEq, Eq, Structural)]
pub enum ShowStep {
    /// There is nothing to show.
    Hide,
    /// The window is gone or was never made: create one first. `destroy` asks to destroy the
    /// old one, whose device is lost.
    Create { destroy: bool },
    /// The window has the new text and theme; its frame is to be drawn anew if asked for.
    Measure { chrome: bool },
}

/// How the window is drawn again.
#[derive(Clone, Copy, Debug, PartialEq, Eq, Structural)]
pub enum Redraw {
    /// The size is the same: only the text.
    Invalidate,
    /// The surface takes the new size.
    Resize,
}

/// Where the window goes and how it appears there.
#[derive(Clone, Copy, Debug, PartialEq, Eq)]
pub struct Placement {
    /// The wanted corner; `None` leaves the window where it is.
    pub corner: Option<(i32, i32)>,
    pub size: (i32, i32),
    pub redraw: Redraw,
    /// The window was visible: it snaps to full opacity in place of fading in.
    pub was_visible: bool,
}

/// A stretch of the screen, in pixels.
#[derive(Clone, Copy, Debug, PartialEq, Eq, Structural)]
pub struct PixelRect {
    pub left: i32,
    pub top: i32,
    pub right: i32,
    pub bottom: i32,
}

/// One line, centred, without marks for access keys.
pub const DRAW_LINE: u32 = 0x0824;

/// The end of the text in view.
pub const DRAW_RIGHT: u32 = 0x0002;

/// An ellipsis in place of an end that does not fit.
pub const DRAW_ELLIPSIS: u32 = 0x8000;

/// How the window is painted.
#[derive(Clone, Copy, Debug, PartialEq, Eq, Structural)]
pub struct PaintPlan {
    /// By Direct2D, else by the system's own drawing.
    pub d2d: bool,
    /// Where the text goes.
    pub text: PixelRect,
    /// The text is aligned to the right, so that its beginning is cut off.
    pub trailing: bool,
    /// An end that does not fit becomes an ellipsis.
    pub trim: bool,
}

impl PaintPlan {
    /// The way in which the system's own drawing puts the text.
    pub fn draw_flags(&self) -> (r: u32)
        ensures
            r == DRAW_LINE | (if self.trailing {
                DRAW_RIGHT
            } else {
                DRAW_ELLIPSIS
            }),
    {
        if self.trailing {
            DRAW_LINE | DRAW_RIGHT
        } else {
            DRAW_LINE | DRAW_ELLIPSIS
        }
    }
}

/// The popup, as far as decisions depend on it.
pub struct ReadingMonitor {
    window: bool,
    d2d: bool,
    renderer_dead: bool,
    fading_out: bool,
    overflow: bool,
    text: String,
    rounded: bool,
    acrylic: bool,
    last_size: (i32, i32),
}

/// The value of a [`ReadingMonitor`].
#[verifier::ext_equal]
pub struct MonitorModel {
    pub window: bool,
    pub d2d: bool,
    pub renderer_dead: bool,
    pub fading_out: bool,
    pub overflow: bool,
    pub text: Seq<char>,
    pub rounded: bool,
    pub acrylic: bool,
    pub last_size: (i32, i32),
}

impl View for ReadingMonitor {
    type V = MonitorModel;

    closed spec fn view(&self) -> MonitorModel {
        MonitorModel {
            window: self.window,
            d2d: self.d2d,
            renderer_dead: self.renderer_dead,
            fading_out: self.fading_out,
            overflow: self.overflow,
            text: self.text@,
            rounded: self.rounded,
            acrylic: self.acrylic,
            last_size: self.last_size,
        }
    }
}

impl ReadingMonitor {
    /// A popup without a window.
    pub fn empty() -> (r: Self)
        ensures
            r@ == (MonitorModel {
                window: false,
                d2d: false,
                renderer_dead: false,
                fading_out: false,
                overflow: false,
                text: Seq::empty(),
                rounded: false,
                acrylic: false,
                last_size: (0, 0),
            }),
    {
        ReadingMonitor {
            window: false,
            d2d: false,
            renderer_dead: false,
            fading_out: false,
            overflow: false,
            text: String::new(),
            rounded: false,
            acrylic: false,
            last_size: (0, 0),
        }
    }

    /// Gives the window up. Says whether there was one to destroy.
    pub fn destroy(&mut self) -> (r: bool)
        ensures
            r == old(self)@.window,
            !final(self)@.window,
            final(self)@ == (MonitorModel { window: false, ..old(self)@ }),
    {
        let had = self.window;
        self.window = false;
        had
    }

    /// A window was made, and whether it draws with Direct2D.
    pub fn window_created(&mut self, theme: &Theme, d2d: bool)
        ensures
            final(self)@ == (MonitorModel {
                window: true,
                d2d,
                renderer_dead: false,
                fading_out: false,
                overflow: false,
                text: Seq::empty(),
                rounded: theme.rounded,
                acrylic: theme.acrylic,
                last_size: (0, 0),
            }),
    {
        self.window = true;
        self.d2d = d2d;
        self.renderer_dead = false;
        self.fading_out = false;
        self.overflow = false;
        self.text = String::new();
        self.rounded = theme.rounded;
        self.acrylic = theme.acrylic;
        self.last_size = (0, 0);
    }

    /// Whether the text is drawn with its end in view.
    pub fn overflows(&self) -> (r: bool)
        ensures
            r == self@.overflow,
    {
        self.overflow
    }

    /// The text that is painted: the one that was shown last.
    pub fn text(&self) -> (r: &str)
        ensures
            r@ == self@.text,
    {
        self.text.as_str()
    }

    /// Whether the frame may be acrylic: only Direct2D can draw on it.
    pub fn acrylic_frame(&self) -> (r: bool)
        ensures
            r == (self@.acrylic && self@.d2d),
    {
        self.acrylic && self.d2d
    }

    /// How the window is painted. A text that does not fit shows its end, where the newest of the
    /// reading is; trimming would take just that away.
    pub fn paint(&self, client: PixelRect, pad: i32) -> (r: Option<PaintPlan>)
        requires
            fits(client.left + pad),
            fits(client.right - pad),
        ensures
            r == (if self@.window {
                Some(
                    PaintPlan {
                        d2d: self@.d2d,
                        text: PixelRect {
                            left: (client.left + pad) as i32,
                            right: (client.right - pad) as i32,
                            ..client
                        },
                        trailing: self@.overflow,
                        trim: !self@.overflow,
                    },
                )
            } else {
                None
            }),
    {
        if !self.window {
            return None;
        }
        Some(
            PaintPlan {
                d2d: self.d2d,
                text: PixelRect {
                    left: client.left + pad,
                    top: client.top,
                    right: client.right - pad,
                    bottom: client.bottom,
                },
                trailing: self.overflow,
                trim: !self.overflow,
            },
        )
    }

    /// A frame was painted, or failed with a code. A lost device replaces the window next time.
    pub fn painted(&mut self, failed: Option<i32>)
        ensures
            final(self)@ == (MonitorModel {
                renderer_dead: old(self)@.renderer_dead || (failed is Some && loses_device(
                    failed->0,
                )),
                ..old(self)@
            }),
    {
        if let Some(code) = failed {
            if is_device_lost(code) {
                self.renderer_dead = true;
            }
        }
    }

    /// Shows a text, or hides the popup if there is none. A window whose device is lost is
    /// replaced first; the frame is drawn anew only if its corners or its backdrop change.
    pub fn show_or_update(&mut self, text: &str, theme: &Theme) -> (r: ShowStep)
        ensures
            r == (if text@.len() == 0 {
                ShowStep::Hide
            } else if !old(self)@.window || old(self)@.renderer_dead {
                ShowStep::Create { destroy: old(self)@.window }
            } else {
                ShowStep::Measure {
                    chrome: old(self)@.rounded != theme.rounded || old(self)@.acrylic
                        != theme.acrylic,
                }
            }),
            final(self)@ == (match r {
                ShowStep::Hide => old(self)@,
                ShowStep::Create { .. } => MonitorModel { window: false, ..old(self)@ },
                ShowStep::Measure { .. } => MonitorModel {
                    text: text@,
                    rounded: theme.rounded,
                    acrylic: theme.acrylic,
                    ..old(self)@
                },
            }),
    {
        if text.is_empty() {
            return ShowStep::Hide;
        }
        if !self.window || self.renderer_dead {
            let destroy = self.window;
            self.window = false;
            return ShowStep::Create { destroy };
        }
        let chrome = self.rounded != theme.rounded || self.acrylic != theme.acrylic;
        self.text = text.to_owned();
        self.rounded = theme.rounded;
        self.acrylic = theme.acrylic;
        ShowStep::Measure { chrome }
    }

    /// Places the window once its text is measured; a text that cannot be measured has no
    /// width. The window stands above the caret, or on its anchor if the caret's top is unknown.
    /// A visible window of the same size keeps its surface. Showing it ends a fade.
    pub fn place(
        &mut self,
        measured_w: Option<i32>,
        font_px: i32,
        metrics: MonitorMetrics,
        max_chars: u32,
        anchor: Option<CaretAnchor>,
        default_corner: (i32, i32),
        was_visible: bool,
    ) -> (r: Placement)
        requires
            max_chars <= i32::MAX,
            fits(max_chars * font_px),
            metrics.countable(measured(measured_w), font_px as int, max_chars * font_px),
            anchor is Some && anchor->0.caret_top is Some ==> fits(
                anchor->0.caret_top->0 - metrics.height(font_px as int),
            ) && fits(anchor->0.caret_top->0 - metrics.height(font_px as int) - metrics.gap),
        ensures
            ({
                let text_w = measured(measured_w);
                &&& r.size.0 == metrics.width(text_w, max_chars * font_px)
                &&& r.size.1 == metrics.height(font_px as int)
                &&& r.was_visible == was_visible
                &&& r.redraw == (if was_visible && old(self)@.last_size == r.size {
                    Redraw::Invalidate
                } else {
                    Redraw::Resize
                })
                &&& match anchor {
                    Some(a) => match a.caret_top {
                        Some(top) => r.corner is Some && (r.corner->0).0 == a.x && (r.corner->0).1
                            == top - r.size.1 - metrics.gap,
                        None => r.corner == Some((a.x, a.y)),
                    },
                    None => r.corner == (if was_visible {
                        None
                    } else {
                        Some(default_corner)
                    }),
                }
                &&& final(self)@ == (MonitorModel {
                    overflow: text_w > max_chars * font_px,
                    last_size: r.size,
                    fading_out: false,
                    ..old(self)@
                })
            }),
    {
        let max_w: i32 = max_text_w_px(max_chars, font_px);
        let text_w: i32 = match measured_w {
            Some(w) => w,
            None => 0,
        };
        let size = monitor_window_size(text_w, font_px, metrics, max_w);
        let corner: Option<(i32, i32)> = match plan_anchor(anchor, was_visible) {
            AnchorPlan::Move(a) => match a.caret_top {
                Some(top) => Some((a.x, top - size.1 - metrics.gap)),
                None => Some((a.x, a.y)),
            },
            AnchorPlan::Hold => None,
            AnchorPlan::Fallback => Some(default_corner),
        };
        let same = self.last_size.0 == size.0 && self.last_size.1 == size.1;
        let redraw = if was_visible && same {
            Redraw::Invalidate
        } else {
            Redraw::Resize
        };
        self.overflow = text_overflows(text_w, max_w);
        self.last_size = size;
        self.fading_out = false;
        Placement { corner, size, redraw, was_visible }
    }

    /// Hides the popup, fading if it can. A popup that is not visible needs nothing.
    pub fn hide_popup(&mut self, visible: bool, fade: FadeOut) -> (r: HideAction)
        ensures
            r == (if !old(self)@.window || !visible {
                HideAction::Nothing
            } else {
                match fade {
                    FadeOut::AlreadyFading => HideAction::Nothing,
                    FadeOut::Fade(ms) => HideAction::StartTimer(ms),
                    FadeOut::Immediate => HideAction::HideNow,
                }
            }),
            final(self)@ == (MonitorModel {
                fading_out: if r is StartTimer {
                    true
                } else {
                    old(self)@.fading_out
                },
                ..old(self)@
            }),
    {
        if !self.window || !visible {
            return HideAction::Nothing;
        }
        match fade {
            FadeOut::AlreadyFading => HideAction::Nothing,
            FadeOut::Fade(ms) => {
                self.fading_out = true;
                HideAction::StartTimer(ms)
            },
            FadeOut::Immediate => HideAction::HideNow,
        }
    }

    /// The timer of a fade was set, or not. Without a timer the popup is hidden at once, so that
    /// no transparent window stays on top.
    pub fn fade_timer_set(&mut self, set: bool) -> (r: HideAction)
        ensures
            r == (if set {
                HideAction::Nothing
            } else {
                HideAction::HideNow
            }),
            final(self)@ == (MonitorModel {
                fading_out: old(self)@.fading_out && set,
                ..old(self)@
            }),
    {
        if set {
            HideAction::Nothing
        } else {
            self.fading_out = false;
            HideAction::HideNow
        }
    }

    /// The fade is over.
    pub fn fade_finished(&mut self) -> (r: HideAction)
        ensures
            r == HideAction::HideNow,
            final(self)@ == (MonitorModel { fading_out: false, ..old(self)@ }),
    {
        self.fading_out = false;
        HideAction::HideNow
    }
}

/// A text ends in its own end, and in no other.
pub proof fn a_text_ends_in_its_end(a: Seq<char>, b: Seq<char>)
    ensures
        has_suffix(a + b, b),
        has_suffix(a, b) ==> a == a.take(a.len() - b.len()) + b,
        has_suffix(a, b) && a.len() == b.len() ==> a == b,
        has_suffix(a, Seq::empty()),
{
    assert((a + b).subrange((a + b).len() - b.len(), (a + b).len() as int) =~= b);
    assert(a.subrange(a.len() as int, a.len() as int) =~= Seq::<char>::empty());
    if has_suffix(a, b) {
        assert(a =~= a.take(a.len() - b.len()) + a.subrange(a.len() - b.len(), a.len() as int));
    }
}

/// The popup is as wide as its text, within the two bounds, with the padding and the frame on both
/// sides, and as high as a line with its padding and frame.
pub proof fn the_popup_fits_its_text(metrics: MonitorMetrics, w: int, font_px: int, max_w: int)
    ensures
        metrics.min_text_w <= w <= max_w ==> metrics.width(w, max_w) == w + 2 * metrics.pad_h + 2,
        w < metrics.min_text_w ==> metrics.width(w, max_w) == metrics.min_text_w + 2 * metrics.pad_h
            + 2,
        metrics.min_text_w <= max_w < w ==> metrics.width(w, max_w) == max_w + 2 * metrics.pad_h + 2,
        max_w < metrics.min_text_w ==> metrics.width(w, max_w) == metrics.min_text_w + 2
            * metrics.pad_h + 2,
        metrics.height(font_px) == font_px + metrics.pad_v_total + 2,
        measured(None) == 0,
        0 <= w <= i32::MAX ==> measured(Some(w as i32)) == w,
{
}

/// Ordinary measures can always be counted.
pub proof fn ordinary_measures_are_countable(
    metrics: MonitorMetrics,
    w: int,
    font_px: int,
    max_w: int,
)
    requires
        0 <= metrics.pad_h <= 0x1000_0000 && 0 <= metrics.pad_v_total <= 0x1000_0000,
        0 <= metrics.min_text_w <= 0x1000_0000,
        0 <= w <= 0x1000_0000 && 0 <= font_px <= 0x1000_0000 && 0 <= max_w <= 0x1000_0000,
    ensures
        metrics.countable(w, font_px, max_w),
{
}

/// A size that can be counted can be told in pixels.
pub proof fn a_countable_size_is_told(metrics: MonitorMetrics, w: int, font_px: int, max_w: int)
    requires
        metrics.countable(w, font_px, max_w),
    ensures
        -0x8000_0000 <= metrics.width(w, max_w) <= 0x7FFF_FFFF,
        -0x8000_0000 <= metrics.height(font_px) <= 0x7FFF_FFFF,
        fits(w) <==> -0x8000_0000 <= w <= 0x7FFF_FFFF,
{
}

/// A size can be counted exactly if no sum on the way to it is too large.
pub proof fn a_size_is_counted_in_sums(metrics: MonitorMetrics, w: int, font_px: int, max_w: int)
    ensures
        metrics.countable(w, font_px, max_w) <==> {
            &&& -0x8000_0000 <= 2 * metrics.pad_h <= 0x7FFF_FFFF
            &&& -0x8000_0000 <= 2 * metrics.pad_h + 2 <= 0x7FFF_FFFF
            &&& -0x8000_0000 <= metrics.width(w, max_w) <= 0x7FFF_FFFF
            &&& -0x8000_0000 <= metrics.pad_v_total + 2 <= 0x7FFF_FFFF
            &&& -0x8000_0000 <= metrics.height(font_px) <= 0x7FFF_FFFF
        },
{
}

/// The measures of the popup, and the flags of the system's own drawing.
pub proof fn the_measures_of_the_popup()
    ensures
        BORDER == 1 && PAD_H == 10 && PAD_V_TOTAL == 12 && MIN_TEXT_W == 24 && GAP == 6,
        DRAW_LINE == 0x0800 + 0x0020 + 0x0004,
        DRAW_RIGHT == 2 && DRAW_ELLIPSIS == 0x8000,
{
}

} // verus!
