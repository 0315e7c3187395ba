use vstd::prelude::*;

use crate::types::Vector;

verus! {

/// A glyph image as the plain values that FreeType's glyph record holds:
/// its advance (16.16 fixed point) and its format tag.
#[derive(Debug, Clone, Copy, PartialEq, Eq, Structural)]
pub struct Glyph {
    pub advance: Vector,
    pub format: u32,
}

impl Glyph {
    /// The horizontal advance, as a machine-sized integer.
    pub fn advance_x(&self) -> (r: isize)
        ensures
            r == self.advance.x as isize,
    {
        #[verifier::truncate]
        (self.advance.x as isize)
    }

    /// The vertical advance, as a machine-sized integer.
    pub fn advance_y(&self) -> (r: isize)
        ensures
            r == self.advance.y as isize,
    {
        #[verifier::truncate]
        (self.advance.y as isize)
    }

    /// The format tag of the glyph image (`FT_Glyph_Format`).
    pub fn format(&self) -> (r: u32)
        ensures
            r == self.format,
    {
        self.format
    }
}

} // verus!
