use portfolio::frame::{badge_needs_new_row, plan_frame};
use portfolio::layout::{adjust_zoom, classify, panel_side, zoom_for, PanelSide, ScreenSize, Zoom};
use portfolio::theme::Theme;

fn rank(s: ScreenSize) -> u8 {
    match s {
        ScreenSize::Small => 0,
        ScreenSize::Medium => 1,
        ScreenSize::Large => 2,
    }
}

#[test]
fn narrow_viewport_is_small_with_bottom_panel_and_scaled_zoom() {
    assert_eq!(classify(500), ScreenSize::Small);
    assert_eq!(panel_side(ScreenSize::Small), PanelSide::Bottom);
    let z = zoom_for(500);
    assert_eq!(z, Zoom { num: 500, den: 768 });
    let factor = z.num as f64 / z.den as f64;
    assert!((factor - 0.651).abs() < 0.001);
}

#[test]
fn medium_viewport_has_top_panel_and_unit_zoom() {
    assert_eq!(classify(900), ScreenSize::Medium);
    assert_eq!(panel_side(ScreenSize::Medium), PanelSide::Top);
    assert_eq!(zoom_for(900), Zoom { num: 1, den: 1 });
}

#[test]
fn size_class_boundaries() {
    assert_eq!(classify(0), ScreenSize::Small);
    assert_eq!(classify(767), ScreenSize::Small);
    assert_eq!(classify(768), ScreenSize::Medium);
    assert_eq!(classify(1027), ScreenSize::Medium);
    assert_eq!(classify(1028), ScreenSize::Large);
    assert_eq!(classify(u32::MAX), ScreenSize::Large);
    assert_eq!(panel_side(ScreenSize::Large), PanelSide::Top);
}

#[test]
fn size_class_never_shrinks_as_width_grows() {
    let mut last = 0u8;
    for w in (0u32..2000).step_by(7) {
        let r = rank(classify(w));
        assert!(r >= last);
        last = r;
    }
}

#[test]
fn zoom_adjustment_settles_after_one_change() {
    let first = adjust_zoom(Zoom { num: 1, den: 1 }, 500);
    assert_eq!(first, Some(Zoom { num: 500, den: 768 }));
    assert_eq!(adjust_zoom(first.unwrap(), 500), None);
    // an equal fraction written differently is the same scale
    assert_eq!(adjust_zoom(Zoom { num: 1000, den: 1536 }, 500), None);
    assert_eq!(adjust_zoom(Zoom { num: 500, den: 768 }, 900), Some(Zoom { num: 1, den: 1 }));
    assert_eq!(adjust_zoom(Zoom { num: 3, den: 3 }, 1200), None);
}

#[test]
fn same_scale_compares_fractions() {
    assert!(Zoom { num: 2, den: 4 }.same_as(&Zoom { num: 1, den: 2 }));
    assert!(!Zoom { num: 2, den: 3 }.same_as(&Zoom { num: 1, den: 2 }));
    assert!(Zoom { num: u32::MAX, den: u32::MAX }.same_as(&Zoom::one()));
    assert!(!Zoom { num: 0, den: 0 }.same_as(&Zoom { num: 0, den: 0 }));
    assert!(!Zoom { num: 5, den: 0 }.same_as(&Zoom::one()));
}

#[test]
fn zoom_without_denominator_is_replaced() {
    assert_eq!(adjust_zoom(Zoom { num: 0, den: 0 }, 900), Some(Zoom { num: 1, den: 1 }));
    assert_eq!(adjust_zoom(Zoom { num: 3, den: 0 }, 500), Some(Zoom { num: 500, den: 768 }));
    assert_eq!(plan_frame(500, Zoom { num: 1, den: 0 }, Theme::Dark).zoom_change, Some(Zoom { num: 500, den: 768 }));
}

#[test]
fn frame_plan_for_small_dark_viewport() {
    let p = plan_frame(500, Zoom::one(), Theme::Dark);
    assert_eq!(p.size, ScreenSize::Small);
    assert_eq!(p.panel, PanelSide::Bottom);
    assert_eq!(p.zoom_change, Some(Zoom { num: 500, den: 768 }));
    assert_eq!(p.theme_icon, "🌞");
}

#[test]
fn frame_plan_for_large_light_viewport() {
    let p = plan_frame(1400, Zoom::one(), Theme::Light);
    assert_eq!(p.size, ScreenSize::Large);
    assert_eq!(p.panel, PanelSide::Top);
    assert_eq!(p.zoom_change, None);
    assert_eq!(p.theme_icon, "🌖");
}

#[test]
fn badge_wraps_when_too_wide() {
    // widths in hundredths of a point; the padding is three points
    assert!(badge_needs_new_row(1000, 710));
    assert!(!badge_needs_new_row(1020, 710));
    assert!(!badge_needs_new_row(1010, 710));
    assert!(badge_needs_new_row(0, 0));
    assert!(!badge_needs_new_row(u32::MAX, u32::MAX - 300));
    assert!(badge_needs_new_row(u32::MAX, u32::MAX));
}
