use crate::bounds::Bound;
use vstd::prelude::*;

verus! {

/// A display whose pixels can be written by rectangle.
pub trait Display {
    type Color;

    type Error;

    /// Writes `colors` into the rectangle that `x` and `y` select, row by row.
    fn fill_area(&mut self, x: (Bound, Bound), y: (Bound, Bound), colors: &[Self::Color]) -> Result<
        (),
        Self::Error,
    >;
}

/// A display whose pixels can be read back by rectangle.
pub trait ReadArea: Display {
    /// Reads the rectangle that `x` and `y` select, row by row, into the front of `buffer`.
    fn read_area(&mut self, x: (Bound, Bound), y: (Bound, Bound), buffer: &mut Vec<Self::Color>) -> Result<
        (),
        Self::Error,
    >;
}

/// A display that can move a rectangle of pixels.
pub trait CopyArea: Display {
    /// Moves the rectangle that `x` and `y` select by `horiz_by` columns and `vert_by` rows,
    /// through `buffer`.
    fn copy_area(
        &mut self,
        x: (Bound, Bound),
        y: (Bound, Bound),
        horiz_by: i16,
        vert_by: i16,
        buffer: &mut Vec<Self::Color>,
    ) -> Result<(), Self::Error>;
}

} // verus!
