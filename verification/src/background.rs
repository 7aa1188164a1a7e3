//! The backdrop: two tiles side by side that scroll to the left for ever.

use crate::math::{clamp_i32, displacement, saturate, travelled};
use vstd::prelude::*;

verus! {

/// Width of a tile; its height is that of the field.
pub const SIZE_X: i32 = 2_000_000;

/// How fast the backdrop scrolls, per second.
pub const SPEED: i32 = 30_000;

/// By how much the second tile overlaps the first, so that no gap shows.
pub const OVERLAP: i32 = 1_000;

/// One tile of the backdrop.
#[derive(Debug, Clone, Copy, PartialEq, Eq, Structural)]
pub struct Background {
    /// Where the centre of the tile is when the scrolling starts.
    pub initial_x: i32,
}

impl Background {
    /// The first tile, which starts at the left edge of the field.
    pub fn first() -> (r: Background)
        ensures
            r.initial_x == SIZE_X / 2,
    {
        Background { initial_x: SIZE_X / 2 }
    }

    /// The second tile, which follows the first.
    pub fn second() -> (r: Background)
        ensures
            r.initial_x == SIZE_X / 2 + SIZE_X - OVERLAP,
    {
        Background { initial_x: SIZE_X / 2 + SIZE_X - OVERLAP }
    }

    /// Where a tile whose centre is at `x` is after `delta` nanoseconds. It
    /// moves to the left, and once it has moved by its own width it is put
    /// back by that width.
    pub open spec fn scrolled(self, x: i32, delta: nat) -> int {
        let moved = x - travelled(SPEED as int, delta);
        let leftmost = self.initial_x - SIZE_X;
        if moved < leftmost {
            clamp_i32(self.initial_x - (leftmost - moved))
        } else {
            clamp_i32(moved)
        }
    }

    /// One tick of scrolling for a tile whose centre is at `x`.
    pub fn movement(&self, x: i32, delta: u64) -> (r: i32)
        ensures
            r == self.scrolled(x, delta as nat),
    {
        let moved: i128 = x as i128 - displacement(SPEED, delta);
        let leftmost: i128 = self.initial_x as i128 - SIZE_X as i128;
        if moved < leftmost {
            saturate(self.initial_x as i128 - (leftmost - moved))
        } else {
            saturate(moved)
        }
    }
}

} // verus!
