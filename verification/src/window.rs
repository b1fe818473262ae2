//! Keeping the PS4-like launcher window at its aspect ratio while the user
//! drags one of its edges or corners.
use vstd::prelude::*;

use crate::launcher::{
    launcher_style_is_resizable, normalize_launcher_style, normalize_style_spec, LauncherWindowSize, UiPrefs,
    CLASSIC_STYLE, PS4_STYLE,
};

verus! {

/// The left edge is dragged.
pub const WMSZ_LEFT: u32 = 1;

/// The right edge is dragged.
pub const WMSZ_RIGHT: u32 = 2;

/// The top edge is dragged.
pub const WMSZ_TOP: u32 = 3;

/// The top left corner is dragged.
pub const WMSZ_TOPLEFT: u32 = 4;

/// The top right corner is dragged.
pub const WMSZ_TOPRIGHT: u32 = 5;

/// The bottom edge is dragged.
pub const WMSZ_BOTTOM: u32 = 6;

/// The bottom left corner is dragged.
pub const WMSZ_BOTTOMLEFT: u32 = 7;

/// The bottom right corner is dragged.
pub const WMSZ_BOTTOMRIGHT: u32 = 8;

/// A window's rectangle in screen coordinates.
#[derive(Debug, Clone, Copy, PartialEq, Eq, Structural)]
pub struct WindowRect {
    pub left: i32,
    pub top: i32,
    pub right: i32,
    pub bottom: i32,
}

/// Whether the dragged edge or corner moves the top edge.
pub open spec fn has_top(edge: u32) -> bool {
    edge == WMSZ_TOP || edge == WMSZ_TOPLEFT || edge == WMSZ_TOPRIGHT
}

/// Whether the dragged edge or corner moves the left edge.
pub open spec fn has_left(edge: u32) -> bool {
    edge == WMSZ_LEFT || edge == WMSZ_TOPLEFT || edge == WMSZ_BOTTOMLEFT
}

/// A ratio term as the lock uses it: at least one.
pub open spec fn ratio_term(x: i32) -> int {
    if x < 1 {
        1
    } else {
        x as int
    }
}

/// `value` scaled by `numerator / denominator`, rounded half up.
pub open spec fn scale_spec(value: int, numerator: int, denominator: int) -> int {
    (value * numerator + denominator / 2) / denominator
}

/// Whether the width decides the height: dragging the left or right edge,
/// or a corner while the window is at least as wide as the ratio asks.
pub open spec fn uses_width(edge: u32, w: int, h: int, n: int, d: int) -> bool {
    if edge == WMSZ_LEFT || edge == WMSZ_RIGHT {
        true
    } else if edge == WMSZ_TOP || edge == WMSZ_BOTTOM {
        false
    } else {
        w * d >= h * n
    }
}

/// Whether `x` is a 32-bit signed value.
pub open spec fn fits_i32(x: int) -> bool {
    i32::MIN <= x <= i32::MAX
}

/// The rectangle `r` brought to the ratio `numerator : denominator` (each at
/// least one) while `edge` is dragged: an empty rectangle stays as it is;
/// else the width sets the height, moving the top edge where the top is
/// dragged and the bottom edge otherwise, or the height sets the width,
/// moving the left edge where the left is dragged and the right edge
/// otherwise.
pub open spec fn enforce_aspect_spec(r: WindowRect, edge: u32, numerator: i32, denominator: i32) -> WindowRect {
    let w = r.right - r.left;
    let h = r.bottom - r.top;
    let n = ratio_term(numerator);
    let d = ratio_term(denominator);
    if w <= 0 || h <= 0 {
        r
    } else if uses_width(edge, w, h, n, d) {
        let target = scale_spec(w, d, n);
        if has_top(edge) {
            WindowRect { top: (r.bottom - target) as i32, ..r }
        } else {
            WindowRect { bottom: (r.top + target) as i32, ..r }
        }
    } else {
        let target = scale_spec(h, n, d);
        if has_left(edge) {
            WindowRect { left: (r.right - target) as i32, ..r }
        } else {
            WindowRect { right: (r.left + target) as i32, ..r }
        }
    }
}

/// Whether every step of bringing `r` to the ratio stays within 32-bit
/// arithmetic.
pub open spec fn enforce_aspect_fits(r: WindowRect, edge: u32, numerator: i32, denominator: i32) -> bool {
    let w = r.right - r.left;
    let h = r.bottom - r.top;
    let n = ratio_term(numerator);
    let d = ratio_term(denominator);
    &&& fits_i32(w)
    &&& fits_i32(h)
    &&& (w > 0 && h > 0) ==> {
        &&& (!(edge == WMSZ_LEFT || edge == WMSZ_RIGHT || edge == WMSZ_TOP || edge == WMSZ_BOTTOM) ==> (
        w * d <= i32::MAX && h * n <= i32::MAX))
        &&& if uses_width(edge, w, h, n, d) {
            &&& w * d + n / 2 <= i32::MAX
            &&& if has_top(edge) {
                fits_i32(r.bottom - scale_spec(w, d, n))
            } else {
                fits_i32(r.top + scale_spec(w, d, n))
            }
        } else {
            &&& h * n + d / 2 <= i32::MAX
            &&& if has_left(edge) {
                fits_i32(r.right - scale_spec(h, n, d))
            } else {
                fits_i32(r.left + scale_spec(h, n, d))
            }
        }
    }
}

/// `value` scaled by `numerator / denominator`, rounded half up.
fn scale_dimension(value: i32, numerator: i32, denominator: i32) -> (r: i32)
    requires
        value > 0,
        numerator > 0,
        denominator > 0,
        value * numerator + denominator / 2 <= i32::MAX,
    ensures
        r == scale_spec(value as int, numerator as int, denominator as int),
        r >= 0,
{
    assert(value * numerator > 0) by (nonlinear_arith)
        requires
            value > 0,
            numerator > 0,
    ;
    let scaled = value * numerator + denominator / 2;
    scaled / denominator
}

/// Brings `rect` to the ratio `numerator : denominator` (each taken as at
/// least one) while `edge` is dragged, as `enforce_aspect_spec` says.
pub fn ps4_enforce_aspect(rect: &mut WindowRect, edge: u32, numerator: i32, denominator: i32)
    requires
        enforce_aspect_fits(*old(rect), edge, numerator, denominator),
    ensures
        *final(rect) == enforce_aspect_spec(*old(rect), edge, numerator, denominator),
{
    let width = rect.right - rect.left;
    let height = rect.bottom - rect.top;
    if width <= 0 || height <= 0 {
        return;
    }
    let n: i32 = if numerator < 1 {
        1
    } else {
        numerator
    };
    let d: i32 = if denominator < 1 {
        1
    } else {
        denominator
    };
    let use_width = if edge == WMSZ_LEFT || edge == WMSZ_RIGHT {
        true
    } else if edge == WMSZ_TOP || edge == WMSZ_BOTTOM {
        false
    } else {
        assert(width * d > 0 && height * n > 0) by (nonlinear_arith)
            requires
                width > 0,
                height > 0,
                n > 0,
                d > 0,
        ;
        width * d >= height * n
    };
    if use_width {
        let target = scale_dimension(width, d, n);
        if edge == WMSZ_TOP || edge == WMSZ_TOPLEFT || edge == WMSZ_TOPRIGHT {
            rect.top = rect.bottom - target;
        } else {
            rect.bottom = rect.top + target;
        }
    } else {
        let target = scale_dimension(height, n, d);
        if edge == WMSZ_LEFT || edge == WMSZ_TOPLEFT || edge == WMSZ_BOTTOMLEFT {
            rect.left = rect.right - target;
        } else {
            rect.right = rect.left + target;
        }
    }
}

/// Rounding half up lands within half a step of the exact value.
proof fn lemma_rounding_within_half(x: int, n: int)
    requires
        x >= 0,
        n > 0,
    ensures
        -(n / 2) <= ((x + n / 2) / n) * n - x <= n / 2,
{
    let q = (x + n / 2) / n;
    let rem = (x + n / 2) % n;
    vstd::arithmetic::div_mod::lemma_fundamental_div_mod(x + n / 2, n);
    assert(x + n / 2 == n * q + rem);
    assert(0 <= rem < n) by {
        vstd::arithmetic::div_mod::lemma_mod_bound(x + n / 2, n);
    }
    assert(n / 2 * 2 >= n - 1) by {
        vstd::arithmetic::div_mod::lemma_fundamental_div_mod(n, 2);
    }
    assert(q * n == n * q) by (nonlinear_arith);
}

/// Once resized, the window keeps the ratio up to rounding: the dimension
/// that was set is within half a ratio term of the exact value, and the
/// other one is as it was.
pub proof fn lemma_aspect_within_rounding(r: WindowRect, edge: u32, numerator: i32, denominator: i32)
    requires
        enforce_aspect_fits(r, edge, numerator, denominator),
        r.right - r.left > 0,
        r.bottom - r.top > 0,
    ensures
        ({
            let r2 = enforce_aspect_spec(r, edge, numerator, denominator);
            let n = ratio_term(numerator);
            let d = ratio_term(denominator);
            let w = r.right - r.left;
            let h = r.bottom - r.top;
            let w2 = r2.right - r2.left;
            let h2 = r2.bottom - r2.top;
            if uses_width(edge, w, h, n, d) {
                w2 == w && -(n / 2) <= h2 * n - w * d <= n / 2
            } else {
                h2 == h && -(d / 2) <= w2 * d - h * n <= d / 2
            }
        }),
{
    let n = ratio_term(numerator);
    let d = ratio_term(denominator);
    let w = r.right - r.left;
    let h = r.bottom - r.top;
    assert(w * d >= 0 && h * n >= 0) by (nonlinear_arith)
        requires
            w > 0,
            h > 0,
            n > 0,
            d > 0,
    ;
    if uses_width(edge, w, h, n, d) {
        lemma_rounding_within_half(w * d, n);
    } else {
        lemma_rounding_within_half(h * n, d);
    }
}

/// The classic window's width-to-height ratio, first term.
pub const CLASSIC_ASPECT_NUMERATOR: i32 = 281;

/// The classic window's width-to-height ratio, second term.
pub const CLASSIC_ASPECT_DENOMINATOR: i32 = 150;

/// The widescreen ratio, first term.
pub const WIDESCREEN_ASPECT_NUMERATOR: i32 = 16;

/// The widescreen ratio, second term.
pub const WIDESCREEN_ASPECT_DENOMINATOR: i32 = 9;

/// How the launcher window is set up for a style: the style it stands for,
/// whether its aspect is locked and to which ratio, its size, and whether
/// it is made borderless, resizable and brought to that size.
#[derive(Debug)]
pub struct StyleWindowPlan {
    pub style: u32,
    pub lock_aspect: bool,
    pub numerator: i32,
    pub denominator: i32,
    pub size: LauncherWindowSize,
    pub reshape: bool,
    pub resizable: bool,
}

/// How the window is set up for the style `style` stands for: the classic
/// window locked to 281:150, the PS4-like one to 16:9, each at its stored
/// size, borderless and resizable.
pub open spec fn style_plan_spec(style: u32, ui: UiPrefs) -> StyleWindowPlan {
    let s = normalize_style_spec(style);
    let known = s == CLASSIC_STYLE || s == PS4_STYLE;
    StyleWindowPlan {
        style: s,
        lock_aspect: known,
        numerator: if s == CLASSIC_STYLE {
            CLASSIC_ASPECT_NUMERATOR
        } else {
            WIDESCREEN_ASPECT_NUMERATOR
        },
        denominator: if s == CLASSIC_STYLE {
            CLASSIC_ASPECT_DENOMINATOR
        } else {
            WIDESCREEN_ASPECT_DENOMINATOR
        },
        size: ui.window_size_spec(s),
        reshape: known,
        resizable: known,
    }
}

/// How the launcher window is set up for the style `style`.
pub fn style_window_plan(style: u32, ui: &UiPrefs) -> (p: StyleWindowPlan)
    ensures
        p == style_plan_spec(style, *ui),
{
    let s = normalize_launcher_style(style);
    let (lock_aspect, numerator, denominator) = if s == CLASSIC_STYLE {
        (true, CLASSIC_ASPECT_NUMERATOR, CLASSIC_ASPECT_DENOMINATOR)
    } else if s == PS4_STYLE {
        (true, WIDESCREEN_ASPECT_NUMERATOR, WIDESCREEN_ASPECT_DENOMINATOR)
    } else {
        (false, WIDESCREEN_ASPECT_NUMERATOR, WIDESCREEN_ASPECT_DENOMINATOR)
    };
    let size = ui.launcher_window_size_for_style(s);
    let reshape = s == CLASSIC_STYLE || s == PS4_STYLE;
    StyleWindowPlan {
        style: s,
        lock_aspect,
        numerator,
        denominator,
        size,
        reshape,
        resizable: reshape && launcher_style_is_resizable(s),
    }
}

} // verus!
