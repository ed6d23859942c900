//! Axis-aligned rectangles, used to decide which monitor a window overlaps
//! the most.

use vstd::prelude::*;

verus! {

/// An axis-aligned rectangle in screen coordinates: `left`/`top` inclusive,
/// `right`/`bottom` exclusive.
#[derive(Debug, Clone, Copy, PartialEq, Eq, Structural)]
pub struct AaRect {
    pub left: i64,
    pub top: i64,
    pub right: i64,
    pub bottom: i64,
}

/// All coordinates within this bound: differences and areas cannot
/// overflow the machine arithmetic below.
pub open spec fn in_range(r: AaRect) -> bool {
    &&& -0x100_0000_0000 <= r.left <= 0x100_0000_0000
    &&& -0x100_0000_0000 <= r.top <= 0x100_0000_0000
    &&& -0x100_0000_0000 <= r.right <= 0x100_0000_0000
    &&& -0x100_0000_0000 <= r.bottom <= 0x100_0000_0000
}

/// The area shared by two rectangles, as a mathematical integer.
pub open spec fn spec_overlapping_area(a: AaRect, b: AaRect) -> int {
    let w = min_i(a.right as int, b.right as int) - max_i(a.left as int, b.left as int);
    let h = min_i(a.bottom as int, b.bottom as int) - max_i(a.top as int, b.top as int);
    if w <= 0 || h <= 0 {
        0
    } else {
        w * h
    }
}

pub open spec fn min_i(a: int, b: int) -> int {
    if a <= b {
        a
    } else {
        b
    }
}

pub open spec fn max_i(a: int, b: int) -> int {
    if a >= b {
        a
    } else {
        b
    }
}

impl AaRect {
    /// Builds the rectangle covering `size` pixels starting at `position`.
    pub fn new(position: (i32, i32), size: (u32, u32)) -> (r: AaRect)
        ensures
            r.left == position.0 as i64,
            r.top == position.1 as i64,
            r.right == position.0 as i64 + size.0 as i64,
            r.bottom == position.1 as i64 + size.1 as i64,
            in_range(r),
    {
        let left: i64 = position.0 as i64;
        let top: i64 = position.1 as i64;
        AaRect { left, top, right: left + size.0 as i64, bottom: top + size.1 as i64 }
    }

    /// The area shared by `self` and `other`; zero when they do not intersect.
    pub fn get_overlapping_area(&self, other: &AaRect) -> (r: u128)
        requires
            in_range(*self),
            in_range(*other),
        ensures
            r == spec_overlapping_area(*self, *other),
    {
        let x1: i64 = if self.left >= other.left {
            self.left
        } else {
            other.left
        };
        let x2: i64 = if self.right <= other.right {
            self.right
        } else {
            other.right
        };
        let y1: i64 = if self.top >= other.top {
            self.top
        } else {
            other.top
        };
        let y2: i64 = if self.bottom <= other.bottom {
            self.bottom
        } else {
            other.bottom
        };
        if x2 <= x1 || y2 <= y1 {
            0
        } else {
            let w: u128 = (x2 - x1) as u128;
            let h: u128 = (y2 - y1) as u128;
            proof {
                assert(w * h <= 0x20000000000 * 0x20000000000) by (nonlinear_arith)
                    requires
                        0 < w <= 0x20000000000,
                        0 < h <= 0x20000000000,
                ;
            }
            w * h
        }
    }
}

} // verus!
