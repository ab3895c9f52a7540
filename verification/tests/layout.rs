use pride_flags::color::{Rgb, contrast_color};
use pride_flags::config::{FlagColor, PrideFlag};
use pride_flags::layout::{Rect, color_name_anchor, flag_name_anchor, render_plan, split_stripes};
use pride_flags::state::RenderConfig;

fn area(width: u16, height: u16) -> Rect {
    Rect { x: 0, y: 0, width, height }
}

#[test]
fn contrast_has_exact_values() {
    let c = contrast_color(Rgb { r: 255, g: 0, b: 10 });
    assert_eq!(c, Rgb { r: 0, g: 255, b: 245 });
}

#[test]
fn contrast_twice_returns_original() {
    let original = Rgb { r: 12, g: 200, b: 77 };
    assert_eq!(contrast_color(contrast_color(original)), original);
    let edge = Rgb { r: 0, g: 255, b: 128 };
    assert_eq!(contrast_color(contrast_color(edge)), edge);
}

#[test]
fn stripes_cover_width_with_remainder_left() {
    let stripes = split_stripes(area(10, 4), 3);
    assert_eq!(stripes.len(), 3);
    assert_eq!(stripes[0], Rect { x: 0, y: 0, width: 4, height: 4 });
    assert_eq!(stripes[1], Rect { x: 4, y: 0, width: 3, height: 4 });
    assert_eq!(stripes[2], Rect { x: 7, y: 0, width: 3, height: 4 });
    let total: u32 = stripes.iter().map(|s| s.width as u32).sum();
    assert_eq!(total, 10);
}

#[test]
fn stripes_sum_to_width_in_various_shapes() {
    for (width, n) in [(7u16, 7usize), (3, 5), (65535, 2), (1, 1), (80, 6)] {
        let stripes = split_stripes(area(width, 24), n);
        assert_eq!(stripes.len(), n);
        let total: u32 = stripes.iter().map(|s| s.width as u32).sum();
        assert_eq!(total, width as u32, "width {width} over {n} stripes");
        let share = width as u32 / n as u32;
        for s in &stripes {
            assert!(share <= s.width as u32 && s.width as u32 <= share + 1);
        }
    }
}

#[test]
fn stripes_keep_offset_and_height() {
    let stripes = split_stripes(Rect { x: 100, y: 7, width: 9, height: 3 }, 2);
    assert_eq!(stripes[0], Rect { x: 100, y: 7, width: 5, height: 3 });
    assert_eq!(stripes[1], Rect { x: 105, y: 7, width: 4, height: 3 });
}

#[test]
fn flag_name_sits_on_bottom_row() {
    let anchor = flag_name_anchor(Rect { x: 2, y: 1, width: 5, height: 4 });
    assert_eq!(anchor, Rect { x: 2, y: 4, width: 5, height: 4 });
}

#[test]
fn flag_name_anchor_tolerates_zero_height() {
    let anchor = flag_name_anchor(Rect { x: 2, y: 1, width: 5, height: 0 });
    assert_eq!(anchor.y, 1);
}

#[test]
fn color_name_is_right_aligned() {
    let stripe = Rect { x: 5, y: 0, width: 3, height: 4 };
    let anchor = color_name_anchor(stripe, 2);
    assert_eq!(anchor, Rect { x: 6, y: 3, width: 3, height: 4 });
}

#[test]
fn wide_color_name_clamps_to_left_edge() {
    // "Magenta" is 7 cells wide on a 3-cell stripe: no underflow, the
    // anchor stays at the stripe's left edge.
    let stripe = Rect { x: 5, y: 0, width: 3, height: 4 };
    let anchor = color_name_anchor(stripe, 7);
    assert_eq!(anchor.x, 5);
    assert_eq!(anchor.y, 3);
}

fn two_color_flag() -> PrideFlag {
    PrideFlag {
        name: "A".to_string(),
        colors: vec![
            FlagColor { name: "red".to_string(), r: 255, g: 0, b: 0 },
            FlagColor { name: "blue".to_string(), r: 0, g: 0, b: 255 },
        ],
    }
}

#[test]
fn render_plan_fills_stripes_and_overlays() {
    let flag = two_color_flag();
    let config = RenderConfig { show_flag_name: true, show_color_names: true };
    let plan = render_plan(&flag, &config, area(10, 4), &vec![3, 4]);

    assert_eq!(plan.stripes.len(), 2);
    assert_eq!(plan.stripes[0].area, Rect { x: 0, y: 0, width: 5, height: 4 });
    assert_eq!(plan.stripes[0].color, Rgb { r: 255, g: 0, b: 0 });
    assert_eq!(plan.stripes[1].area, Rect { x: 5, y: 0, width: 5, height: 4 });
    assert_eq!(plan.stripes[1].color, Rgb { r: 0, g: 0, b: 255 });

    let name = plan.flag_name.expect("flag name shown");
    assert_eq!(name.area, Rect { x: 0, y: 3, width: 5, height: 4 });
    assert_eq!(name.fg, Rgb { r: 0, g: 255, b: 255 });
    assert_eq!(name.text, "A");

    assert_eq!(plan.color_names.len(), 2);
    assert_eq!(plan.color_names[0].area, Rect { x: 2, y: 3, width: 5, height: 4 });
    assert_eq!(plan.color_names[0].fg, Rgb { r: 0, g: 255, b: 255 });
    assert_eq!(plan.color_names[0].text, "red");
    assert_eq!(plan.color_names[1].area, Rect { x: 6, y: 3, width: 5, height: 4 });
    assert_eq!(plan.color_names[1].fg, Rgb { r: 255, g: 255, b: 0 });
    assert_eq!(plan.color_names[1].text, "blue");
}

#[test]
fn render_plan_hides_disabled_overlays() {
    let flag = two_color_flag();
    let config = RenderConfig { show_flag_name: false, show_color_names: false };
    let plan = render_plan(&flag, &config, area(10, 4), &vec![3, 4]);
    assert!(plan.flag_name.is_none());
    assert!(plan.color_names.is_empty());
    assert_eq!(plan.stripes.len(), 2);
}

#[test]
fn render_plan_survives_narrow_stripes() {
    // A 7-cell color name over 3-cell stripes: every anchor clamps to its
    // stripe's left edge instead of underflowing.
    let flag = PrideFlag {
        name: "narrow".to_string(),
        colors: vec![
            FlagColor { name: "Magenta".to_string(), r: 255, g: 0, b: 255 },
            FlagColor { name: "Magenta".to_string(), r: 200, g: 0, b: 200 },
        ],
    };
    let config = RenderConfig { show_flag_name: false, show_color_names: true };
    let plan = render_plan(&flag, &config, area(6, 2), &vec![7, 7]);
    assert_eq!(plan.color_names[0].area.x, 0);
    assert_eq!(plan.color_names[1].area.x, 3);
}
