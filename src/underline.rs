use vstd::prelude::*;

verus! {

/// How far the underline is pulled in from the left and from the right
/// edge of the button's content, in points (negative values extend it).
#[derive(Clone, Copy, Debug, PartialEq, Eq, Structural)]
pub struct Inset {
    pub left: i32,
    pub right: i32,
}

/// The hover inset that a button starts with, which a later plain inset
/// replaces.
pub const DEFAULT_HOVER_INSET: i32 = -2;

pub open spec fn default_hover() -> Inset {
    Inset { left: DEFAULT_HOVER_INSET, right: DEFAULT_HOVER_INSET }
}

/// The underline insets of a button: one while at rest, one while hovered,
/// pressed or focused.
#[derive(Clone, Copy, Debug, PartialEq, Eq, Structural)]
pub struct UnderlineInsets {
    pub inset: Inset,
    pub hover_inset: Inset,
}

impl UnderlineInsets {
    /// No inset at rest; extended by two points while focused.
    pub fn new() -> (r: UnderlineInsets)
        ensures
            r == (UnderlineInsets { inset: Inset { left: 0, right: 0 }, hover_inset: default_hover() }),
    {
        UnderlineInsets {
            inset: Inset { left: 0, right: 0 },
            hover_inset: Inset { left: DEFAULT_HOVER_INSET, right: DEFAULT_HOVER_INSET },
        }
    }

    /// Sets the resting inset; while the hover inset is still the default
    /// one, it follows the new inset too.
    pub fn with_inset(self, inset: Inset) -> (r: UnderlineInsets)
        ensures
            r.inset == inset,
            r.hover_inset == (if self.hover_inset == default_hover() { inset } else { self.hover_inset }),
    {
        let hover_is_default = self.hover_inset.left == DEFAULT_HOVER_INSET
            && self.hover_inset.right == DEFAULT_HOVER_INSET;
        UnderlineInsets { inset, hover_inset: if hover_is_default { inset } else { self.hover_inset } }
    }

    /// Sets the inset used while the button is hovered, pressed or focused.
    pub fn with_hover_inset(self, hover_inset: Inset) -> (r: UnderlineInsets)
        ensures
            r == (UnderlineInsets { inset: self.inset, hover_inset }),
    {
        UnderlineInsets { inset: self.inset, hover_inset }
    }

    /// The inset to draw with.
    pub fn current(&self, focused: bool) -> (r: Inset)
        ensures
            r == (if focused { self.hover_inset } else { self.inset }),
    {
        if focused {
            self.hover_inset
        } else {
            self.inset
        }
    }
}

/// Whether the button's frame is drawn: always when it has one, unless it is
/// framed only while active, in which case only when focused.
pub fn frame_visible(has_frame: bool, frame_when_inactive: bool, focused: bool) -> (r: bool)
    ensures
        r == (has_frame && (frame_when_inactive || focused)),
{
    if frame_when_inactive {
        has_frame
    } else {
        has_frame && focused
    }
}

/// Horizontal extent of the underline beneath a button spanning
/// `left..right`: pulled in by the frame's margins and then by the inset.
pub fn underline_span(left: i32, right: i32, margin_left: i32, margin_right: i32, inset: Inset) -> (r: (i64, i64))
    ensures
        r.0 == left + margin_left + inset.left,
        r.1 == right - (margin_right + inset.right),
{
    (
        left as i64 + margin_left as i64 + inset.left as i64,
        right as i64 - (margin_right as i64 + inset.right as i64),
    )
}

} // verus!
