use vstd::prelude::*;

verus! {

/// The filter FreeType applies to subpixel-rendered bitmaps (`FT_LcdFilter`).
#[derive(Debug, Clone, Copy, PartialEq, Eq, Structural)]
pub enum LcdFilter {
    LcdFilterNone,
    LcdFilterDefault,
    LcdFilterLight,
    LcdFilterLegacy,
}

impl LcdFilter {
    /// FreeType's number for this filter.
    pub open spec fn spec_value(self) -> u32 {
        match self {
            LcdFilter::LcdFilterNone => 0,
            LcdFilter::LcdFilterDefault => 1,
            LcdFilter::LcdFilterLight => 2,
            LcdFilter::LcdFilterLegacy => 16,
        }
    }

    /// FreeType's number for this filter.
    pub fn value(self) -> (v: u32)
        ensures
            v == self.spec_value(),
    {
        match self {
            LcdFilter::LcdFilterNone => 0,
            LcdFilter::LcdFilterDefault => 1,
            LcdFilter::LcdFilterLight => 2,
            LcdFilter::LcdFilterLegacy => 16,
        }
    }
}

} // verus!
