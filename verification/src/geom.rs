//! The layout value: a width/height pair used to negotiate space between a
//! parent view and its children.  Space offered to a child flows top-down;
//! the size a child consumed flows bottom-up.

use vstd::prelude::*;

verus! {

/// Upper bound on any size a widget reports for itself, far beyond any real
/// screen dimension.  Sizes are bounded by screen geometry, so sums of a few
/// of them never overflow a 64-bit coordinate.
pub const MAX_DIM: i64 = 1_000_000;

/// A width/height pair.  Values offered as available space to a direct child
/// of the log are non-negative; space offered further down may transiently go
/// negative when already-consumed height is subtracted, and leaf widgets must
/// tolerate that.  Consumed sizes reported upward are never negative.
#[derive(Clone, Copy, PartialEq, Eq, Structural, Debug)]
pub struct Layout {
    pub width: i64,
    pub height: i64,
}

impl Layout {
    /// The zero layout.
    pub fn new() -> (r: Layout)
        ensures
            r.width == 0,
            r.height == 0,
    {
        Layout { width: 0, height: 0 }
    }

    /// A new layout with both dimensions shifted; pure integer arithmetic
    /// with no clamping.
    pub fn add(self, dw: i64, dh: i64) -> (r: Layout)
        requires
            i64::MIN <= self.width + dw <= i64::MAX,
            i64::MIN <= self.height + dh <= i64::MAX,
        ensures
            r.width == self.width + dw,
            r.height == self.height + dh,
    {
        Layout { width: self.width + dw, height: self.height + dh }
    }

    /// Both dimensions within the widget-size bound.
    pub open spec fn bounded(self) -> bool {
        &&& 0 <= self.width <= MAX_DIM
        &&& 0 <= self.height <= MAX_DIM
    }
}

} // verus!
