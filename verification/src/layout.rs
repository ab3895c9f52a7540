//! The stripe layout: an equal-width partition of the terminal area, the
//! anchors for overlay text, and the full render plan for one flag.
//!
//! A flag with `n` colors is drawn as `n` vertical stripes of equal width.
//! The width is divided evenly; the `width % n` leftmost stripes each take
//! one extra cell, so the stripes cover the area exactly, with no gap and
//! no overlap. Overlay text never moves an anchor outside its stripe: a
//! name wider than its stripe is anchored at the stripe's left edge.

use vstd::prelude::*;
use vstd::arithmetic::div_mod::lemma_fundamental_div_mod;
use vstd::arithmetic::div_mod::lemma_div_pos_is_pos;
use crate::color::Rgb;
use crate::color::contrast_color;
use crate::color::spec_contrast;
use crate::config::FlagColor;
use crate::config::PrideFlag;
use crate::state::RenderConfig;

verus! {

/// A rectangular region of the terminal, in character cells.
#[derive(Clone, Copy, PartialEq, Eq, Structural, Debug)]
pub struct Rect {
    pub x: u16,
    pub y: u16,
    pub width: u16,
    pub height: u16,
}

/// The width of stripe `i` when `total` cells are divided into `n` stripes:
/// every stripe takes `total / n` cells, and the `total % n` leftmost
/// stripes take one cell more.
pub open spec fn stripe_width(total: int, n: int, i: int) -> int
    recommends
        1 <= n,
{
    total / n + if i < total % n {
        1int
    } else {
        0int
    }
}

/// The offset of stripe `i`'s left edge from the area's left edge: the sum
/// of the widths of the stripes before it.
pub open spec fn stripe_offset(total: int, n: int, i: int) -> int
    recommends
        1 <= n,
{
    i * (total / n) + if i <= total % n {
        i
    } else {
        total % n
    }
}

/// The region of stripe `i` when `area` is divided into `n` stripes: the
/// full height of the area, between offsets `i` and `i + 1`.
pub open spec fn spec_stripe_rect(area: Rect, n: int, i: int) -> Rect {
    Rect {
        x: (area.x + stripe_offset(area.width as int, n, i)) as u16,
        y: area.y,
        width: stripe_width(area.width as int, n, i) as u16,
        height: area.height,
    }
}

/// The total width of a sequence of stripes.
pub open spec fn sum_widths(stripes: Seq<Rect>) -> int
    decreases stripes.len(),
{
    if stripes.len() == 0 {
        0
    } else {
        sum_widths(stripes.drop_last()) + stripes.last().width
    }
}

proof fn lemma_offset_step(total: int, n: int, i: int)
    requires
        1 <= n,
        0 <= total,
        0 <= i < n,
    ensures
        stripe_offset(total, n, i) + stripe_width(total, n, i) == stripe_offset(total, n, i + 1),
{
    let q = total / n;
    assert((i + 1) * q == i * q + q) by (nonlinear_arith);
}

proof fn lemma_offset_total(total: int, n: int)
    requires
        1 <= n,
        0 <= total,
    ensures
        stripe_offset(total, n, n) == total,
{
    let q = total / n;
    let r = total % n;
    lemma_fundamental_div_mod(total, n);
    assert(n * q == q * n) by (nonlinear_arith);
    assert(stripe_offset(total, n, n) == n * q + r);
}

proof fn lemma_offset_in_range(total: int, n: int, i: int)
    requires
        1 <= n,
        0 <= total,
        0 <= i <= n,
    ensures
        0 <= stripe_offset(total, n, i) <= total,
    decreases n - i,
{
    let q = total / n;
    assert(i * q >= 0) by (nonlinear_arith)
        requires
            i >= 0,
            q >= 0,
    ;
    if i == n {
        lemma_offset_total(total, n);
    } else {
        lemma_offset_step(total, n, i);
        lemma_offset_in_range(total, n, i + 1);
    }
}

/// Splits `area` into `n` vertical stripes spanning its full height. The
/// stripe widths sum exactly to the area's width — no gap and no overlap —
/// and each is within one cell of the even share `area.width / n`, the
/// leftmost stripes taking the remainder.
pub fn split_stripes(area: Rect, n: usize) -> (stripes: Vec<Rect>)
    requires
        1 <= n,
        area.x + area.width <= u16::MAX,
    ensures
        stripes@.len() == n,
        forall|i: int| 0 <= i < n ==> #[trigger] stripes@[i] == spec_stripe_rect(area, n as int, i),
        sum_widths(stripes@) == area.width,
        forall|i: int| 0 <= i < n
            ==> area.width as int / n as int <= (#[trigger] stripes@[i]).width
                <= area.width as int / n as int + 1,
{
    let total: usize = area.width as usize;
    let q: usize = total / n;
    let r: usize = total % n;
    proof {
        lemma_fundamental_div_mod(total as int, n as int);
        lemma_div_pos_is_pos(total as int, n as int);
        assert(n as int * (q as int) >= q as int) by (nonlinear_arith)
            requires
                q as int >= 0,
                n as int >= 1,
        ;
    }
    let mut stripes: Vec<Rect> = Vec::new();
    let mut x: u16 = area.x;
    let mut i: usize = 0;
    while i < n
        invariant
            0 <= i <= n,
            1 <= n,
            total == area.width,
            q == total as int / n as int,
            r == total as int % n as int,
            n as int * (q as int) + r as int == total as int,
            q <= total,
            q + 1 <= total || r == 0,
            area.x + area.width <= u16::MAX,
            x == area.x + stripe_offset(total as int, n as int, i as int),
            stripes@.len() == i,
            forall|j: int| 0 <= j < i
                ==> #[trigger] stripes@[j] == spec_stripe_rect(area, n as int, j),
            sum_widths(stripes@) == stripe_offset(total as int, n as int, i as int),
        decreases n - i,
    {
        proof {
            lemma_offset_step(total as int, n as int, i as int);
            lemma_offset_in_range(total as int, n as int, i as int + 1);
        }
        let w: u16 = if i < r {
            (q + 1) as u16
        } else {
            q as u16
        };
        let ghost before = stripes@;
        let rect = Rect { x, y: area.y, width: w, height: area.height };
        stripes.push(rect);
        proof {
            assert(stripes@.drop_last() =~= before);
        }
        x = x + w;
        i = i + 1;
    }
    proof {
        lemma_offset_total(total as int, n as int);
    }
    stripes
}

/// The row of `stripe` where overlay text sits: its bottom row, or its top
/// row when the stripe has no height.
pub open spec fn spec_bottom_row_y(stripe: Rect) -> int {
    if stripe.height >= 1 {
        stripe.y + stripe.height - 1
    } else {
        stripe.y as int
    }
}

/// Where the flag's name sits: the bottom-left corner of `stripe`, keeping
/// the stripe's horizontal extent.
pub open spec fn spec_flag_name_anchor(stripe: Rect) -> Rect {
    Rect {
        x: stripe.x,
        y: spec_bottom_row_y(stripe) as u16,
        width: stripe.width,
        height: stripe.height,
    }
}

/// Anchors the flag's name at the bottom-left corner of `stripe`.
pub fn flag_name_anchor(stripe: Rect) -> (anchor: Rect)
    requires
        stripe.y + stripe.height <= u16::MAX,
    ensures
        anchor == spec_flag_name_anchor(stripe),
{
    let y: u16 = if stripe.height >= 1 {
        stripe.y + (stripe.height - 1)
    } else {
        stripe.y
    };
    Rect { x: stripe.x, y, width: stripe.width, height: stripe.height }
}

/// The left edge of text of width `text_width` aligned to the right edge of
/// `stripe`. Text wider than the stripe is anchored at the stripe's left
/// edge instead, so the position never leaves the stripe.
pub open spec fn spec_right_aligned_x(stripe: Rect, text_width: u16) -> int {
    if text_width <= stripe.width {
        stripe.x + stripe.width - text_width
    } else {
        stripe.x as int
    }
}

/// Where a stripe's color name sits: right-aligned on the bottom row of
/// `stripe`, clamped to the stripe's left edge when the name is wider than
/// the stripe.
pub open spec fn spec_color_name_anchor(stripe: Rect, text_width: u16) -> Rect {
    Rect {
        x: spec_right_aligned_x(stripe, text_width) as u16,
        y: spec_bottom_row_y(stripe) as u16,
        width: stripe.width,
        height: stripe.height,
    }
}

/// Anchors a color name of width `text_width` at the bottom-right corner of
/// `stripe`, clamping to the left edge when the name is wider than the
/// stripe.
pub fn color_name_anchor(stripe: Rect, text_width: u16) -> (anchor: Rect)
    requires
        stripe.x + stripe.width <= u16::MAX,
        stripe.y + stripe.height <= u16::MAX,
    ensures
        anchor == spec_color_name_anchor(stripe, text_width),
{
    let x: u16 = if text_width <= stripe.width {
        stripe.x + (stripe.width - text_width)
    } else {
        stripe.x
    };
    let y: u16 = if stripe.height >= 1 {
        stripe.y + (stripe.height - 1)
    } else {
        stripe.y
    };
    Rect { x, y, width: stripe.width, height: stripe.height }
}

/// The color of one flag color, without its name.
pub open spec fn flag_color_rgb(color: FlagColor) -> Rgb {
    Rgb { r: color.r, g: color.g, b: color.b }
}

/// One stripe to fill: its region and its background color.
#[derive(Clone, Copy, PartialEq, Eq, Structural, Debug)]
pub struct StripeRender {
    pub area: Rect,
    pub color: Rgb,
}

/// One piece of overlay text: where it sits, its foreground color, and the
/// text itself.
#[derive(Clone, Debug)]
pub struct TextOverlay {
    pub area: Rect,
    pub fg: Rgb,
    pub text: String,
}

/// Everything one frame draws for one flag: the solid stripes, the
/// flag-name overlay if shown, and the color-name overlays if shown.
#[derive(Clone, Debug)]
pub struct RenderPlan {
    pub stripes: Vec<StripeRender>,
    pub flag_name: Option<TextOverlay>,
    pub color_names: Vec<TextOverlay>,
}

/// Lays out one frame for `flag` on `area`: one equal-width stripe per
/// color in order; if `config.show_flag_name`, the flag's name at the
/// bottom-left of the first stripe; if `config.show_color_names`, each
/// color's name right-aligned on its own stripe's bottom row. Overlay
/// foregrounds are the contrast color of the stripe under them.
/// `name_widths[i]` is the display width of color `i`'s name as the
/// renderer will measure it.
pub fn render_plan(
    flag: &PrideFlag,
    config: &RenderConfig,
    area: Rect,
    name_widths: &Vec<u16>,
) -> (plan: RenderPlan)
    requires
        flag.colors@.len() >= 1,
        name_widths@.len() == flag.colors@.len(),
        area.x + area.width <= u16::MAX,
        area.y + area.height <= u16::MAX,
    ensures
        plan.stripes@.len() == flag.colors@.len(),
        forall|i: int| 0 <= i < flag.colors@.len()
            ==> (#[trigger] plan.stripes@[i]).area
                == spec_stripe_rect(area, flag.colors@.len() as int, i),
        forall|i: int| 0 <= i < flag.colors@.len()
            ==> (#[trigger] plan.stripes@[i]).color == flag_color_rgb(flag.colors@[i]),
        config.show_flag_name <==> plan.flag_name is Some,
        config.show_flag_name ==> ({
            let overlay = plan.flag_name.unwrap();
            &&& overlay.area == spec_flag_name_anchor(
                spec_stripe_rect(area, flag.colors@.len() as int, 0),
            )
            &&& overlay.fg == spec_contrast(flag_color_rgb(flag.colors@[0]))
            &&& overlay.text@ == flag.name@
        }),
        plan.color_names@.len() == if config.show_color_names {
            flag.colors@.len() as int
        } else {
            0int
        },
        config.show_color_names ==> forall|i: int| 0 <= i < flag.colors@.len() ==> ({
            let overlay = #[trigger] plan.color_names@[i];
            &&& overlay.area == spec_color_name_anchor(
                spec_stripe_rect(area, flag.colors@.len() as int, i),
                name_widths@[i],
            )
            &&& overlay.fg == spec_contrast(flag_color_rgb(flag.colors@[i]))
            &&& overlay.text@ == flag.colors@[i].name@
        }),
{
    let n: usize = flag.colors.len();
    let rects = split_stripes(area, n);
    let mut stripes: Vec<StripeRender> = Vec::new();
    let mut i: usize = 0;
    while i < n
        invariant
            0 <= i <= n,
            n == flag.colors@.len(),
            rects@.len() == n,
            forall|j: int| 0 <= j < n
                ==> #[trigger] rects@[j] == spec_stripe_rect(area, n as int, j),
            stripes@.len() == i,
            forall|j: int| 0 <= j < i
                ==> (#[trigger] stripes@[j]).area == spec_stripe_rect(area, n as int, j),
            forall|j: int| 0 <= j < i
                ==> (#[trigger] stripes@[j]).color == flag_color_rgb(flag.colors@[j]),
        decreases n - i,
    {
        let color = Rgb { r: flag.colors[i].r, g: flag.colors[i].g, b: flag.colors[i].b };
        stripes.push(StripeRender { area: rects[i], color });
        i = i + 1;
    }
    let flag_name: Option<TextOverlay> = if config.show_flag_name {
        let first = rects[0];
        let fg = contrast_color(Rgb {
            r: flag.colors[0].r,
            g: flag.colors[0].g,
            b: flag.colors[0].b,
        });
        Some(TextOverlay { area: flag_name_anchor(first), fg, text: flag.name.clone() })
    } else {
        None
    };
    let mut color_names: Vec<TextOverlay> = Vec::new();
    if config.show_color_names {
        let mut i: usize = 0;
        while i < n
            invariant
                0 <= i <= n,
                n == flag.colors@.len(),
                n == name_widths@.len(),
                rects@.len() == n,
                area.x + area.width <= u16::MAX,
                area.y + area.height <= u16::MAX,
                forall|j: int| 0 <= j < n
                    ==> #[trigger] rects@[j] == spec_stripe_rect(area, n as int, j),
                color_names@.len() == i,
                forall|j: int| 0 <= j < i
                    ==> (#[trigger] color_names@[j]).area == spec_color_name_anchor(
                        spec_stripe_rect(area, n as int, j),
                        name_widths@[j],
                    ),
                forall|j: int| 0 <= j < i
                    ==> (#[trigger] color_names@[j]).fg
                        == spec_contrast(flag_color_rgb(flag.colors@[j])),
                forall|j: int| 0 <= j < i
                    ==> (#[trigger] color_names@[j]).text@ == flag.colors@[j].name@,
            decreases n - i,
        {
            proof {
                lemma_offset_in_range(area.width as int, n as int, i as int);
                lemma_offset_step(area.width as int, n as int, i as int);
                lemma_offset_in_range(area.width as int, n as int, i as int + 1);
            }
            let stripe = rects[i];
            let fg = contrast_color(Rgb {
                r: flag.colors[i].r,
                g: flag.colors[i].g,
                b: flag.colors[i].b,
            });
            let anchor = color_name_anchor(stripe, name_widths[i]);
            color_names.push(TextOverlay { area: anchor, fg, text: flag.colors[i].name.clone() });
            i = i + 1;
        }
    }
    RenderPlan { stripes, flag_name, color_names }
}

} // verus!
