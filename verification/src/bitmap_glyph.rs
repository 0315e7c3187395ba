use vstd::prelude::*;

verus! {

/// A bitmap glyph as the plain values that FreeType's bitmap glyph record
/// holds: the position of the bitmap's top-left corner relative to the
/// glyph origin.
#[derive(Debug, Clone, Copy, PartialEq, Eq, Structural)]
pub struct BitmapGlyph {
    pub left: i32,
    pub top: i32,
}

impl BitmapGlyph {
    /// The distance from the origin to the bitmap's left edge, in pixels.
    pub fn left(&self) -> (r: i32)
        ensures
            r == self.left,
    {
        self.left
    }

    /// The distance from the origin to the bitmap's top edge, in pixels
    /// (upwards positive).
    pub fn top(&self) -> (r: i32)
        ensures
            r == self.top,
    {
        self.top
    }
}

} // verus!
