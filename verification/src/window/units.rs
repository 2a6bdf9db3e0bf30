//! Sizes and positions in whole pixels and in grid cells.

use vstd::prelude::*;

verus! {

/// A size in physical pixels.
#[derive(Clone, Copy, Debug, PartialEq, Eq, Structural)]
pub struct PixelSize {
    pub width: u32,
    pub height: u32,
}

/// A position in physical pixels, from the top left corner.
#[derive(Clone, Copy, Debug, PartialEq, Eq, Structural)]
pub struct PixelPos {
    pub x: u32,
    pub y: u32,
}

/// A size in grid cells.
#[derive(Clone, Copy, Debug, PartialEq, Eq, Structural)]
pub struct GridSize {
    pub width: u32,
    pub height: u32,
}

/// A rectangle in physical pixels.
#[derive(Clone, Copy, Debug, PartialEq, Eq, Structural)]
pub struct PixelRect {
    pub origin: PixelPos,
    pub size: PixelSize,
}

impl GridSize {
    /// The size that is in each direction the larger of `self` and `min`.
    pub open spec fn at_least(self, min: GridSize) -> GridSize {
        GridSize {
            width: if self.width < min.width { min.width } else { self.width },
            height: if self.height < min.height { min.height } else { self.height },
        }
    }

    /// The size that is in each direction the smaller of `self` and `max`.
    pub open spec fn at_most(self, max: GridSize) -> GridSize {
        GridSize {
            width: if self.width > max.width { max.width } else { self.width },
            height: if self.height > max.height { max.height } else { self.height },
        }
    }

    /// The size `self` raised to `min` and then lowered to `max`, in each
    /// direction.
    pub open spec fn clamped(self, min: GridSize, max: GridSize) -> GridSize {
        self.at_least(min).at_most(max)
    }

    /// Computes [`GridSize::at_least`].
    pub fn max(self, min: GridSize) -> (size: GridSize)
        ensures
            size == self.at_least(min),
    {
        GridSize {
            width: if self.width < min.width { min.width } else { self.width },
            height: if self.height < min.height { min.height } else { self.height },
        }
    }
}

impl GridSize {
    /// Computes [`GridSize::at_most`].
    pub fn min(self, max: GridSize) -> (size: GridSize)
        ensures
            size == self.at_most(max),
    {
        GridSize {
            width: if self.width > max.width { max.width } else { self.width },
            height: if self.height > max.height { max.height } else { self.height },
        }
    }

    /// Computes [`GridSize::clamped`].
    pub fn clamp(self, min: GridSize, max: GridSize) -> (size: GridSize)
        ensures
            size == self.clamped(min, max),
    {
        self.max(min).min(max)
    }
}

} // verus!
