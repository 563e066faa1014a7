use vstd::prelude::*;

verus! {

/// Widths below this many points are small screens.
pub const SMALL_LIMIT: u32 = 768;

/// Widths below this many points (and at least `SMALL_LIMIT`) are medium screens.
pub const MEDIUM_LIMIT: u32 = 1028;

/// Discrete viewport-width bucket that drives layout choices.
#[derive(Clone, Copy, Debug, PartialEq, Eq, Structural)]
pub enum ScreenSize {
    Small,
    Medium,
    Large,
}

/// Edge of the window that holds the navigation bar.
#[derive(Clone, Copy, Debug, PartialEq, Eq, Structural)]
pub enum PanelSide {
    Top,
    Bottom,
}

/// The size class of a viewport `width` points wide.
pub open spec fn class_of(width: int) -> ScreenSize {
    if width < SMALL_LIMIT as int {
        ScreenSize::Small
    } else if width < MEDIUM_LIMIT as int {
        ScreenSize::Medium
    } else {
        ScreenSize::Large
    }
}

/// Position of a size class in the order small < medium < large.
pub open spec fn rank(s: ScreenSize) -> int {
    match s {
        ScreenSize::Small => 0,
        ScreenSize::Medium => 1,
        ScreenSize::Large => 2,
    }
}

/// Maps a measured viewport width to its size class.
pub fn classify(width: u32) -> (r: ScreenSize)
    ensures
        r == class_of(width as int),
{
    if width < SMALL_LIMIT {
        ScreenSize::Small
    } else if width < MEDIUM_LIMIT {
        ScreenSize::Medium
    } else {
        ScreenSize::Large
    }
}

/// Small screens keep the navigation bar at the bottom, the others at the top.
pub fn panel_side(size: ScreenSize) -> (r: PanelSide)
    ensures
        r == (if size == ScreenSize::Small { PanelSide::Bottom } else { PanelSide::Top }),
{
    match size {
        ScreenSize::Small => PanelSide::Bottom,
        _ => PanelSide::Top,
    }
}

/// A wider viewport never falls in a smaller size class, and the classes
/// change exactly at `SMALL_LIMIT` and `MEDIUM_LIMIT`.
pub proof fn classify_monotonic(a: int, b: int)
    requires
        a <= b,
    ensures
        rank(class_of(a)) <= rank(class_of(b)),
        class_of(SMALL_LIMIT as int - 1) == ScreenSize::Small,
        class_of(SMALL_LIMIT as int) == ScreenSize::Medium,
        class_of(MEDIUM_LIMIT as int - 1) == ScreenSize::Medium,
        class_of(MEDIUM_LIMIT as int) == ScreenSize::Large,
{
}

/// A rendering zoom factor held as the exact fraction `num / den`.
#[derive(Clone, Copy, Debug, PartialEq, Eq, Structural)]
pub struct Zoom {
    pub num: u32,
    pub den: u32,
}

impl Zoom {
    /// A zoom factor is a fraction with a non-zero denominator.
    pub open spec fn wf(self) -> bool {
        self.den > 0
    }

    /// Two zoom factors are the same scale when both are fractions (non-zero
    /// denominators) and the fractions are equal.
    pub open spec fn same_scale(self, other: Zoom) -> bool {
        &&& self.wf()
        &&& other.wf()
        &&& self.num * other.den == other.num * self.den
    }

    /// The identity zoom, `1 / 1`.
    pub fn one() -> (r: Zoom)
        ensures
            r == (Zoom { num: 1, den: 1 }),
    {
        Zoom { num: 1, den: 1 }
    }

    /// Whether `self` and `other` describe the same scale.
    pub fn same_as(&self, other: &Zoom) -> (r: bool)
        ensures
            r == self.same_scale(*other),
    {
        proof {
            fraction_products_fit(self.num, other.den);
            fraction_products_fit(other.num, self.den);
        }
        self.den > 0 && other.den > 0
            && (self.num as u64) * (other.den as u64) == (other.num as u64) * (self.den as u64)
    }
}

proof fn fraction_products_fit(a: u32, b: u32)
    ensures
        (a as int) * (b as int) <= u64::MAX,
{
    assert((a as int) * (b as int) <= (u32::MAX as int) * (u32::MAX as int)) by (nonlinear_arith)
        requires
            a <= u32::MAX,
            b <= u32::MAX,
    ;
}

/// The zoom factor that a viewport of unzoomed width `width` is rendered at:
/// small screens scale down to `width / SMALL_LIMIT`, the others keep 1.
pub open spec fn zoom_target(width: u32) -> Zoom {
    if class_of(width as int) == ScreenSize::Small {
        Zoom { num: width, den: SMALL_LIMIT }
    } else {
        Zoom { num: 1, den: 1 }
    }
}

/// The zoom factor forced on a viewport of unzoomed width `width`.
pub fn zoom_for(width: u32) -> (r: Zoom)
    ensures
        r == zoom_target(width),
        r.wf(),
{
    if classify(width) == ScreenSize::Small {
        Zoom { num: width, den: SMALL_LIMIT }
    } else {
        Zoom::one()
    }
}

/// The zoom change that a viewport of unzoomed width `width`, shown at
/// `current`, calls for: none when `current` already has the target's
/// scale, else the target.
pub open spec fn adjustment(current: Zoom, width: u32) -> Option<Zoom> {
    if current.same_scale(zoom_target(width)) {
        None
    } else {
        Some(zoom_target(width))
    }
}

/// Decides whether the zoom must change: `Some(z)` with the new factor when
/// `current` differs in scale from the target or is no fraction (the caller
/// then applies it and requests another frame), `None` when it already
/// matches.
pub fn adjust_zoom(current: Zoom, width: u32) -> (r: Option<Zoom>)
    ensures
        r == adjustment(current, width),
        current.den == 0 ==> r == Some(zoom_target(width)),
{
    let target = zoom_for(width);
    if current.same_as(&target) {
        None
    } else {
        Some(target)
    }
}

/// Applying the adjustment settles it: since the width is measured before
/// zooming, adjusting again on the same width, from whatever zoom the first
/// adjustment left, asks for nothing more.
pub proof fn adjust_zoom_converges(current: Zoom, width: u32)
    ensures
        ({
            let next = match adjustment(current, width) {
                Some(z) => z,
                None => current,
            };
            adjustment(next, width) is None
        }),
{
}

} // verus!
