use vstd::prelude::*;

verus! {

/// How FreeType renders a glyph image into a bitmap (`FT_Render_Mode`).
#[derive(Debug, Clone, Copy, PartialEq, Eq, Structural)]
pub enum RenderMode {
    Normal,
    Light,
    Mono,
    Lcd,
    LcdV,
    Sdf,
}

impl RenderMode {
    /// FreeType's number for this mode.
    pub open spec fn spec_value(self) -> u32 {
        match self {
            RenderMode::Normal => 0,
            RenderMode::Light => 1,
            RenderMode::Mono => 2,
            RenderMode::Lcd => 3,
            RenderMode::LcdV => 4,
            RenderMode::Sdf => 5,
        }
    }

    /// FreeType's number for this mode.
    pub fn value(self) -> (v: u32)
        ensures
            v == self.spec_value(),
    {
        match self {
            RenderMode::Normal => 0,
            RenderMode::Light => 1,
            RenderMode::Mono => 2,
            RenderMode::Lcd => 3,
            RenderMode::LcdV => 4,
            RenderMode::Sdf => 5,
        }
    }
}

/// Distinct render modes have distinct numbers.
pub proof fn lemma_render_mode_values_distinct(a: RenderMode, b: RenderMode)
    requires
        a != b,
    ensures
        a.spec_value() != b.spec_value(),
{
}

} // verus!
