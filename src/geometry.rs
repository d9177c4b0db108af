use vstd::prelude::*;

verus! {

/// A whole number of pixels.
pub type PixelUnit = u32;

/// A pixel coordinate, which may lie to the left of or above the origin.
pub type PixelPosition = i32;

/// A length in sixteenths of a pixel, for sizes that need sub-pixel precision.
pub type SixteenthPixel = u64;

/// A length in thousandths of an inch.
pub type Mil = u32;

/// A count of cells of the timing-mark grid.
pub type GridUnit = u32;

/// A width and a height in some unit.
#[derive(Clone, Copy, Debug, PartialEq, Eq)]
pub struct Size<T> {
    pub width: T,
    pub height: T,
}

/// An axis-aligned rectangle in pixel space.
#[derive(Clone, Copy, Debug, PartialEq, Eq)]
pub struct Rect {
    pub left: PixelPosition,
    pub top: PixelPosition,
    pub width: PixelUnit,
    pub height: PixelUnit,
}

impl Rect {
    pub fn new(left: PixelPosition, top: PixelPosition, width: PixelUnit, height: PixelUnit) -> (r:
        Rect)
        ensures
            r == (Rect { left, top, width, height }),
    {
        Rect { left, top, width, height }
    }
}

} // verus!
