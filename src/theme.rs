use vstd::prelude::*;
use crate::color::Rgb;

verus! {

/// The light or dark colour scheme.
#[derive(Clone, Copy, Debug, PartialEq, Eq, Structural)]
pub enum Theme {
    Light,
    Dark,
}

/// Label of the theme button while the light scheme is shown.
pub const MOON_ICON: &'static str = "🌖";

/// Label of the theme button while the dark scheme is shown.
pub const SUN_ICON: &'static str = "🌞";

/// The other scheme.
pub open spec fn flip(t: Theme) -> Theme {
    match t {
        Theme::Light => Theme::Dark,
        Theme::Dark => Theme::Light,
    }
}

/// The scheme that the theme button switches to.
pub fn toggled(t: Theme) -> (r: Theme)
    ensures
        r == flip(t),
        r != t,
        flip(r) == t,
{
    match t {
        Theme::Light => Theme::Dark,
        Theme::Dark => Theme::Light,
    }
}

/// The label of the theme button: a moon offers the dark scheme, a sun the
/// light one.
pub fn theme_icon(t: Theme) -> (r: &'static str)
    ensures
        t == Theme::Light ==> r@ == MOON_ICON@,
        t == Theme::Dark ==> r@ == SUN_ICON@,
{
    match t {
        Theme::Light => MOON_ICON,
        Theme::Dark => SUN_ICON,
    }
}

/// Font sizes, in points, for each text role.
#[derive(Clone, Copy, Debug, PartialEq, Eq, Structural)]
pub struct TextSizes {
    pub heading: u32,
    pub body: u32,
    pub monospace: u32,
    pub button: u32,
    pub small: u32,
}

/// How a widget looks in one interaction state. Strokes are one point wide;
/// `expansion_tenths` is how far the widget grows, in tenths of a point.
#[derive(Clone, Copy, Debug, PartialEq, Eq, Structural)]
pub struct WidgetLook {
    pub bg_fill: Rgb,
    pub weak_bg_fill: Rgb,
    pub bg_stroke: Rgb,
    pub fg_stroke: Rgb,
    pub corner_radius: u8,
    pub expansion_tenths: u32,
}

/// A black drop shadow.
#[derive(Clone, Copy, Debug, PartialEq, Eq, Structural)]
pub struct ShadowLook {
    pub offset_x: i8,
    pub offset_y: i8,
    pub blur: u8,
    pub spread: u8,
    pub alpha: u8,
}

/// A complete style record for one colour scheme.
#[derive(Clone, Copy, Debug, PartialEq, Eq, Structural)]
pub struct StylePalette {
    pub theme: Theme,
    pub text_sizes: TextSizes,
    pub text_color: Rgb,
    pub extreme_bg: Rgb,
    pub noninteractive: WidgetLook,
    pub inactive: WidgetLook,
    pub hovered: WidgetLook,
    pub active: WidgetLook,
    pub open: WidgetLook,
    pub selection_bg: Rgb,
    pub selection_stroke: Rgb,
    pub window_corner_radius: u8,
    pub window_shadow: ShadowLook,
    pub window_fill: Rgb,
    pub window_stroke: Rgb,
    pub panel_fill: Rgb,
    pub window_margin: u8,
    pub button_padding: u8,
}

/// The font sizes that both schemes share.
pub open spec fn text_sizes_spec() -> TextSizes {
    TextSizes { heading: 22, body: 18, monospace: 16, button: 18, small: 14 }
}

/// A widget look with the shared corner radius.
pub open spec fn look(bg: Rgb, weak: Rgb, stroke: Rgb, fg: Rgb, expansion_tenths: u32) -> WidgetLook {
    WidgetLook { bg_fill: bg, weak_bg_fill: weak, bg_stroke: stroke, fg_stroke: fg, corner_radius: 4, expansion_tenths }
}

pub open spec fn grey(level: u8) -> Rgb {
    Rgb { r: level, g: level, b: level }
}

/// The dark scheme.
pub open spec fn dark_palette() -> StylePalette {
    let base = Rgb { r: 16, g: 17, b: 18 };
    StylePalette {
        theme: Theme::Dark,
        text_sizes: text_sizes_spec(),
        text_color: grey(220),
        extreme_bg: base,
        noninteractive: look(base, grey(32), grey(60), grey(220), 0),
        inactive: look(base, grey(32), grey(75), grey(220), 0),
        hovered: look(grey(50), grey(32), grey(255), grey(255), 5),
        active: look(grey(60), grey(32), grey(255), grey(255), 20),
        open: look(grey(40), grey(32), grey(255), grey(255), 0),
        selection_bg: grey(75),
        selection_stroke: grey(255),
        window_corner_radius: 6,
        window_shadow: ShadowLook { offset_x: 0, offset_y: 1, blur: 3, spread: 0, alpha: 128 },
        window_fill: base,
        window_stroke: grey(60),
        panel_fill: base,
        window_margin: 4,
        button_padding: 2,
    }
}

/// The light scheme: the dark scheme's layout with light surfaces and dark
/// strokes.
pub open spec fn light_palette() -> StylePalette {
    let base = Rgb { r: 248, g: 248, b: 246 };
    StylePalette {
        theme: Theme::Light,
        text_sizes: text_sizes_spec(),
        text_color: grey(60),
        extreme_bg: base,
        noninteractive: look(base, grey(230), grey(190), grey(60), 0),
        inactive: look(base, grey(230), grey(175), grey(60), 0),
        hovered: look(grey(220), grey(230), grey(0), grey(0), 5),
        active: look(grey(205), grey(230), grey(0), grey(0), 20),
        open: look(grey(215), grey(230), grey(0), grey(0), 0),
        selection_bg: grey(200),
        selection_stroke: grey(0),
        window_corner_radius: 6,
        window_shadow: ShadowLook { offset_x: 0, offset_y: 1, blur: 3, spread: 0, alpha: 48 },
        window_fill: base,
        window_stroke: grey(190),
        panel_fill: base,
        window_margin: 4,
        button_padding: 2,
    }
}

fn text_sizes() -> (r: TextSizes)
    ensures
        r == text_sizes_spec(),
{
    TextSizes { heading: 22, body: 18, monospace: 16, button: 18, small: 14 }
}

fn widget_look(bg: Rgb, weak: Rgb, stroke: Rgb, fg: Rgb, expansion_tenths: u32) -> (r: WidgetLook)
    ensures
        r == look(bg, weak, stroke, fg, expansion_tenths),
{
    WidgetLook { bg_fill: bg, weak_bg_fill: weak, bg_stroke: stroke, fg_stroke: fg, corner_radius: 4, expansion_tenths }
}

/// Builds the dark style record.
pub fn dark_style() -> (r: StylePalette)
    ensures
        r == dark_palette(),
{
    let base = Rgb::new(16, 17, 18);
    let white = Rgb::gray(255);
    let weak = Rgb::gray(32);
    StylePalette {
        theme: Theme::Dark,
        text_sizes: text_sizes(),
        text_color: Rgb::gray(220),
        extreme_bg: base,
        noninteractive: widget_look(base, weak, Rgb::gray(60), Rgb::gray(220), 0),
        inactive: widget_look(base, weak, Rgb::gray(75), Rgb::gray(220), 0),
        hovered: widget_look(Rgb::gray(50), weak, white, white, 5),
        active: widget_look(Rgb::gray(60), weak, white, white, 20),
        open: widget_look(Rgb::gray(40), weak, white, white, 0),
        selection_bg: Rgb::gray(75),
        selection_stroke: white,
        window_corner_radius: 6,
        window_shadow: ShadowLook { offset_x: 0, offset_y: 1, blur: 3, spread: 0, alpha: 128 },
        window_fill: base,
        window_stroke: Rgb::gray(60),
        panel_fill: base,
        window_margin: 4,
        button_padding: 2,
    }
}

/// Builds the light style record.
pub fn light_style() -> (r: StylePalette)
    ensures
        r == light_palette(),
{
    let base = Rgb::new(248, 248, 246);
    let black = Rgb::gray(0);
    let weak = Rgb::gray(230);
    StylePalette {
        theme: Theme::Light,
        text_sizes: text_sizes(),
        text_color: Rgb::gray(60),
        extreme_bg: base,
        noninteractive: widget_look(base, weak, Rgb::gray(190), Rgb::gray(60), 0),
        inactive: widget_look(base, weak, Rgb::gray(175), Rgb::gray(60), 0),
        hovered: widget_look(Rgb::gray(220), weak, black, black, 5),
        active: widget_look(Rgb::gray(205), weak, black, black, 20),
        open: widget_look(Rgb::gray(215), weak, black, black, 0),
        selection_bg: Rgb::gray(200),
        selection_stroke: black,
        window_corner_radius: 6,
        window_shadow: ShadowLook { offset_x: 0, offset_y: 1, blur: 3, spread: 0, alpha: 48 },
        window_fill: base,
        window_stroke: Rgb::gray(190),
        panel_fill: base,
        window_margin: 4,
        button_padding: 2,
    }
}

/// The style record of a scheme.
pub fn style_for(t: Theme) -> (r: StylePalette)
    ensures
        r == (if t == Theme::Dark { dark_palette() } else { light_palette() }),
        r.theme == t,
{
    match t {
        Theme::Dark => dark_style(),
        Theme::Light => light_style(),
    }
}

} // verus!
