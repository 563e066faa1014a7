use vstd::prelude::*;
use crate::layout::{adjust_zoom, adjustment, class_of, classify, panel_side, PanelSide, ScreenSize, Zoom};
use crate::theme::{theme_icon, Theme, MOON_ICON, SUN_ICON};

verus! {

/// What one repaint decides before any widget is laid out.
#[derive(Clone, Copy, Debug)]
pub struct FramePlan {
    /// The viewport's size class.
    pub size: ScreenSize,
    /// Where the navigation bar goes.
    pub panel: PanelSide,
    /// A new zoom factor to apply before the next frame, if one is needed.
    pub zoom_change: Option<Zoom>,
    /// The label of the theme button.
    pub theme_icon: &'static str,
}

/// Plans a frame for a viewport of unzoomed width `width`, currently shown
/// at `zoom`, in the scheme `theme`.
pub fn plan_frame(width: u32, zoom: Zoom, theme: Theme) -> (p: FramePlan)
    ensures
        p.size == class_of(width as int),
        p.panel == (if p.size == ScreenSize::Small { PanelSide::Bottom } else { PanelSide::Top }),
        p.zoom_change == adjustment(zoom, width),
        theme == Theme::Light ==> p.theme_icon@ == MOON_ICON@,
        theme == Theme::Dark ==> p.theme_icon@ == SUN_ICON@,
{
    let size = classify(width);
    FramePlan {
        size,
        panel: panel_side(size),
        zoom_change: adjust_zoom(zoom, width),
        theme_icon: theme_icon(theme),
    }
}

/// Padding around a skill badge's text, in hundredths of a point.
pub const BADGE_PADDING: u32 = 300;

/// Whether a skill badge whose text is `text_width` wide, with its padding,
/// no longer fits in the `available` width and must start a new row. Both
/// widths are in hundredths of a point.
pub fn badge_needs_new_row(available: u32, text_width: u32) -> (r: bool)
    ensures
        r == ((available as int) < text_width + BADGE_PADDING),
{
    (available as u64) < (text_width as u64) + (BADGE_PADDING as u64)
}

} // verus!
