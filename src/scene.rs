use vstd::prelude::*;

verus! {

/// The scene's viewport rectangle: its minimum corner and its size.
#[derive(Clone, Copy, Debug, PartialEq, Eq, Structural)]
pub struct SceneRect {
    pub min_x: i64,
    pub min_y: i64,
    pub width: u32,
    pub height: u32,
}

impl SceneRect {
    /// A rectangle at `(min_x, min_y)` of the given size.
    pub fn new(min_x: i64, min_y: i64, width: u32, height: u32) -> (r: SceneRect)
        ensures
            r == (SceneRect { min_x, min_y, width, height }),
    {
        SceneRect { min_x, min_y, width, height }
    }

    /// The minimum corner lies at non-negative coordinates.
    pub open spec fn is_normalized(self) -> bool {
        self.min_x >= 0 && self.min_y >= 0
    }

    /// The rectangle shifted so that a negative coordinate of its minimum
    /// corner becomes zero, keeping its size.
    pub open spec fn normalized_spec(self) -> SceneRect {
        SceneRect {
            min_x: if self.min_x < 0 { 0 } else { self.min_x },
            min_y: if self.min_y < 0 { 0 } else { self.min_y },
            width: self.width,
            height: self.height,
        }
    }

    /// Whether the minimum corner lies at non-negative coordinates.
    pub fn normalized_already(&self) -> (r: bool)
        ensures
            r == self.is_normalized(),
    {
        self.min_x >= 0 && self.min_y >= 0
    }

    /// Shifts the rectangle so that its minimum corner has no negative
    /// coordinate, preserving its width and height.
    pub fn normalize(&mut self)
        ensures
            *final(self) == old(self).normalized_spec(),
            final(self).is_normalized(),
            final(self).width == old(self).width,
            final(self).height == old(self).height,
    {
        if self.min_x < 0 {
            self.min_x = 0;
        }
        if self.min_y < 0 {
            self.min_y = 0;
        }
    }
}

/// Normalising a rectangle that is already normalised changes nothing, and
/// normalising twice gives what normalising once gives.
pub proof fn normalize_idempotent(r: SceneRect)
    ensures
        r.is_normalized() ==> r.normalized_spec() == r,
        r.normalized_spec().normalized_spec() == r.normalized_spec(),
        r.normalized_spec().is_normalized(),
{
}

} // verus!
